//! The outbound HTTP caller: joins the endpoint, merges headers, unions
//! query parameters and applies exactly one authentication scheme. The
//! request leaves here fully assembled as plain data; the transport that
//! sends it is the shell's business.
use crate::crud::{map_extend, map_extend_view, map_get_view, map_remove, map_remove_view,
    pairs_view};
use crate::error::{pview, ErrView, InternalError, InternalKind, PicaError};
use crate::json::{field_value, jview, jview_fields, obj_get, JsonValue, Jv};
use crate::model::{ApiModelConfig, AuthMethod, HashAlgorithm, HttpMethod};
use crate::strutil::{ascii_lower, ascii_lower_view, decimal_rep, push_char, to_decimal};
use vstd::prelude::*;
use vstd::multiset::Multiset;
use vstd::string::{StrSliceExecFns, StringExecFns};

verus! {

/// The endpoint text: base and path joined with exactly one `/` added
/// when neither side brings one.
pub open spec fn endpoint_view(base: Seq<char>, path: Seq<char>) -> Seq<char> {
    if (base.len() > 0 && base.last() == '/') || (path.len() > 0 && path[0] == '/') {
        base + path
    } else {
        base + "/"@ + path
    }
}

/// Joins base URL and path, as [`endpoint_view`] says.
pub fn join_endpoint(base: &str, path: &str) -> (r: String)
    ensures
        r@ == endpoint_view(base@, path@),
{
    let nb = base.unicode_len();
    let np = path.unicode_len();
    let slash = (nb > 0 && base.get_char(nb - 1) == '/') || (np > 0 && path.get_char(0) == '/');
    let mut out = base.to_owned();
    if !slash {
        out.append("/");
    }
    out.append(path);
    out
}

/// Header names lowercased; HTTP header names are case-insensitive, so
/// every name is carried in its lowercase form.
pub open spec fn lower_names_view(
    pairs: Seq<(Seq<char>, Seq<char>)>,
) -> Seq<(Seq<char>, Seq<char>)> {
    pairs.map_values(|p: (Seq<char>, Seq<char>)| (ascii_lower_view(p.0), p.1))
}

/// Lowercases the names of an association list, as [`lower_names_view`]
/// says.
pub fn lower_header_names(pairs: Vec<(String, String)>) -> (r: Vec<(String, String)>)
    ensures
        pairs_view(r@) == lower_names_view(pairs_view(pairs@)),
{
    let ghost pv = pairs_view(pairs@);
    let mut out: Vec<(String, String)> = Vec::new();
    let mut i: usize = 0;
    while i < pairs.len()
        invariant
            i <= pairs@.len(),
            pv == pairs_view(pairs@),
            out@.len() == i,
            forall|j: int|
                0 <= j < i ==> (#[trigger] out@[j]).0@ == ascii_lower_view(pairs@[j].0@)
                    && out@[j].1@ == pairs@[j].1@,
        decreases pairs@.len() - i,
    {
        let k = ascii_lower(pairs[i].0.as_str());
        let v = pairs[i].1.clone();
        out.push((k, v));
        i = i + 1;
    }
    proof {
        assert(pairs_view(out@) =~~= lower_names_view(pv));
    }
    out
}

/// The headers of the outbound call: names lowercased, the caller's
/// headers overridden by the model's, and the hop-by-hop fields the
/// transport recomputes removed.
pub open spec fn merged_headers_view(
    caller: Seq<(Seq<char>, Seq<char>)>,
    model: Seq<(Seq<char>, Seq<char>)>,
) -> Seq<(Seq<char>, Seq<char>)> {
    map_remove_view(
        map_remove_view(
            map_remove_view(
                map_extend_view(lower_names_view(caller), lower_names_view(model)),
                "content-length"@,
            ),
            "accept-encoding"@,
        ),
        "host"@,
    )
}

/// Merges caller and model headers, as [`merged_headers_view`] says.
pub fn merge_headers(caller: Vec<(String, String)>, model: Vec<(String, String)>) -> (r: Vec<
    (String, String),
>)
    ensures
        pairs_view(r@) == merged_headers_view(pairs_view(caller@), pairs_view(model@)),
{
    let caller = lower_header_names(caller);
    let model = lower_header_names(model);
    let merged = map_extend(caller, model);
    let (merged, _) = map_remove(merged, "content-length");
    let (merged, _) = map_remove(merged, "accept-encoding");
    let (merged, _) = map_remove(merged, "host");
    merged
}

/// The base64 alphabet.
pub open spec fn b64_char(v: int) -> char
    recommends
        0 <= v < 64,
{
    ((if v < 26 {
        65 + v
    } else if v < 52 {
        97 + (v - 26)
    } else if v < 62 {
        48 + (v - 52)
    } else if v == 62 {
        43int
    } else {
        47int
    }) as u8) as char
}

fn b64_char_exec(v: u8) -> (r: char)
    requires
        v < 64,
    ensures
        r == b64_char(v as int),
{
    let code: u8 = if v < 26 {
        65 + v
    } else if v < 52 {
        97 + (v - 26)
    } else if v < 62 {
        48 + (v - 52)
    } else if v == 62 {
        43
    } else {
        47
    };
    code as char
}

/// Standard base64 with `=` padding.
pub open spec fn base64_view(bytes: Seq<u8>) -> Seq<char>
    decreases bytes.len(),
{
    if bytes.len() == 0 {
        Seq::empty()
    } else if bytes.len() == 1 {
        let b0 = bytes[0];
        seq![b64_char(b0 as int / 4), b64_char(((b0 as int) % 4) * 16), '=', '=']
    } else if bytes.len() == 2 {
        let b0 = bytes[0];
        let b1 = bytes[1];
        seq![
            b64_char(b0 as int / 4),
            b64_char(((b0 as int) % 4) * 16 + (b1 as int) / 16),
            b64_char(((b1 as int) % 16) * 4),
            '=',
        ]
    } else {
        let b0 = bytes[0];
        let b1 = bytes[1];
        let b2 = bytes[2];
        seq![
            b64_char(b0 as int / 4),
            b64_char(((b0 as int) % 4) * 16 + (b1 as int) / 16),
            b64_char(((b1 as int) % 16) * 4 + (b2 as int) / 64),
            b64_char((b2 as int) % 64),
        ] + base64_view(bytes.skip(3))
    }
}

/// Encodes bytes in base64, as [`base64_view`] says.
pub fn base64_encode(bytes: &Vec<u8>) -> (r: String)
    ensures
        r@ == base64_view(bytes@),
{
    proof {
        assert(bytes@.skip(0) =~= bytes@);
    }
    base64_from(bytes, 0)
}

fn base64_from(bytes: &Vec<u8>, i: usize) -> (r: String)
    requires
        i <= bytes@.len(),
    ensures
        r@ == base64_view(bytes@.skip(i as int)),
    decreases bytes@.len() - i,
{
    let n = bytes.len();
    let remaining = n - i;
    let ghost tail = bytes@.skip(i as int);
    let mut out = String::new();
    if remaining == 0 {
        proof {
            assert(tail =~= Seq::<u8>::empty());
        }
        return out;
    }
    let b0 = bytes[i];
    proof {
        assert(tail[0] == bytes@[i as int]);
    }
    if remaining == 1 {
        push_char(&mut out, b64_char_exec(b0 / 4));
        push_char(&mut out, b64_char_exec((b0 % 4) * 16));
        push_char(&mut out, '=');
        push_char(&mut out, '=');
        proof {
            assert(out@ =~= base64_view(tail));
        }
        out
    } else {
        let b1 = bytes[i + 1];
        proof {
            assert(tail[1] == bytes@[i + 1]);
        }
        if remaining == 2 {
            push_char(&mut out, b64_char_exec(b0 / 4));
            push_char(&mut out, b64_char_exec((b0 % 4) * 16 + b1 / 16));
            push_char(&mut out, b64_char_exec((b1 % 16) * 4));
            push_char(&mut out, '=');
            proof {
                assert(out@ =~= base64_view(tail));
            }
            out
        } else {
            let b2 = bytes[i + 2];
            proof {
                assert(tail[2] == bytes@[i + 2]);
            }
            push_char(&mut out, b64_char_exec(b0 / 4));
            push_char(&mut out, b64_char_exec((b0 % 4) * 16 + b1 / 16));
            push_char(&mut out, b64_char_exec((b1 % 16) * 4 + b2 / 64));
            push_char(&mut out, b64_char_exec(b2 % 64));
            let rest = base64_from(bytes, i + 3);
            out.append(rest.as_str());
            proof {
                assert(tail.skip(3) =~= bytes@.skip(i + 3));
                assert(out@ =~= base64_view(tail));
            }
            out
        }
    }
}

/// The value of the `Authorization` header for basic authentication.
pub open spec fn basic_auth_view(user: Seq<char>, pass: Seq<char>) -> Seq<char> {
    "Basic "@ + base64_view(
        vstd::utf8::encode_utf8(user) + seq![58u8] + vstd::utf8::encode_utf8(pass),
    )
}

/// Builds the basic-authentication header value, as [`basic_auth_view`]
/// says.
pub fn basic_auth_header(user: &str, pass: &str) -> (r: String)
    ensures
        r@ == basic_auth_view(user@, pass@),
{
    let mut bytes = user.as_bytes_vec();
    bytes.push(58);
    let pass_bytes = pass.as_bytes_vec();
    let mut j: usize = 0;
    while j < pass_bytes.len()
        invariant
            j <= pass_bytes@.len(),
            bytes@ == vstd::utf8::encode_utf8(user@) + seq![58u8] + pass_bytes@.take(j as int),
            pass_bytes@ == vstd::utf8::encode_utf8(pass@),
        decreases pass_bytes@.len() - j,
    {
        bytes.push(pass_bytes[j]);
        j = j + 1;
        proof {
            assert(bytes@ =~= vstd::utf8::encode_utf8(user@) + seq![58u8] + pass_bytes@.take(
                j as int,
            ));
        }
    }
    proof {
        assert(pass_bytes@.take(pass_bytes@.len() as int) =~= pass_bytes@);
    }
    let mut out = String::from_str("Basic ");
    let encoded = base64_encode(&bytes);
    out.append(encoded.as_str());
    out
}

/// An unreserved byte travels as itself in percent-encoding.
pub open spec fn is_unreserved(b: u8) -> bool {
    (65 <= b && b <= 90) || (97 <= b && b <= 122) || (48 <= b && b <= 57) || b == 45 || b == 46
        || b == 95 || b == 126
}

/// Uppercase hexadecimal digit.
pub open spec fn hex_char(v: int) -> char
    recommends
        0 <= v < 16,
{
    ((if v < 10 {
        48 + v
    } else {
        65 + (v - 10)
    }) as u8) as char
}

/// RFC 3986 percent-encoding with uppercase digits, as OAuth demands.
pub open spec fn pct_view(bytes: Seq<u8>) -> Seq<char>
    decreases bytes.len(),
{
    if bytes.len() == 0 {
        Seq::empty()
    } else {
        (if is_unreserved(bytes[0]) {
            seq![bytes[0] as char]
        } else {
            seq!['%', hex_char(bytes[0] as int / 16), hex_char(bytes[0] as int % 16)]
        }) + pct_view(bytes.drop_first())
    }
}

/// Percent-encodes a string's UTF-8 bytes, as [`pct_view`] says.
pub fn percent_encode(s: &str) -> (r: String)
    ensures
        r@ == pct_view(vstd::utf8::encode_utf8(s@)),
{
    let bytes = s.as_bytes_vec();
    let mut out = String::new();
    let mut i: usize = 0;
    while i < bytes.len()
        invariant
            i <= bytes@.len(),
            bytes@ == vstd::utf8::encode_utf8(s@),
            out@ == pct_view(bytes@.take(i as int)),
        decreases bytes@.len() - i,
    {
        let b = bytes[i];
        if (65 <= b && b <= 90) || (97 <= b && b <= 122) || (48 <= b && b <= 57) || b == 45 || b
            == 46 || b == 95 || b == 126 {
            push_char(&mut out, b as char);
        } else {
            push_char(&mut out, '%');
            let hi = b / 16;
            let lo = b % 16;
            push_char(
                &mut out,
                (if hi < 10 {
                    48 + hi
                } else {
                    65 + (hi - 10)
                }) as char,
            );
            push_char(
                &mut out,
                (if lo < 10 {
                    48 + lo
                } else {
                    65 + (lo - 10)
                }) as char,
            );
        }
        i = i + 1;
        proof {
            lemma_pct_take(bytes@, i as int);
            assert(out@ =~= pct_view(bytes@.take(i as int)));
        }
    }
    proof {
        assert(bytes@.take(bytes@.len() as int) =~= bytes@);
    }
    out
}

proof fn lemma_pct_take(bytes: Seq<u8>, i: int)
    requires
        0 < i <= bytes.len(),
    ensures
        pct_view(bytes.take(i)) == pct_view(bytes.take(i - 1)) + (if is_unreserved(bytes[i - 1]) {
            seq![bytes[i - 1] as char]
        } else {
            seq![
                '%',
                hex_char(bytes[i - 1] as int / 16),
                hex_char(bytes[i - 1] as int % 16),
            ]
        }),
    decreases i,
{
    if i == 1 {
        assert(bytes.take(0) =~= Seq::<u8>::empty());
        assert(bytes.take(1).drop_first() =~= Seq::<u8>::empty());
        assert(bytes.take(1)[0] == bytes[0]);
        assert(pct_view(Seq::<u8>::empty()) == Seq::<char>::empty());
        assert(pct_view(bytes.take(1)) =~= pct_view(bytes.take(0)) + (if is_unreserved(bytes[0]) {
            seq![bytes[0] as char]
        } else {
            seq!['%', hex_char(bytes[0] as int / 16), hex_char(bytes[0] as int % 16)]
        }));
    } else {
        lemma_pct_take(bytes.drop_first(), i - 1);
        assert(bytes.take(i).drop_first() =~= bytes.drop_first().take(i - 1));
        assert(bytes.take(i - 1).drop_first() =~= bytes.drop_first().take(i - 2));
        assert(bytes.take(i)[0] == bytes[0]);
        assert(bytes.take(i - 1)[0] == bytes[0]);
        assert(bytes.drop_first()[i - 2] == bytes[i - 1]);
        assert(pct_view(bytes.take(i)) =~= pct_view(bytes.take(i - 1)) + (if is_unreserved(
            bytes[i - 1],
        ) {
            seq![bytes[i - 1] as char]
        } else {
            seq![
                '%',
                hex_char(bytes[i - 1] as int / 16),
                hex_char(bytes[i - 1] as int % 16),
            ]
        }));
    }
}

/// Lexicographic order on character sequences, by code point.
pub open spec fn lex_le(a: Seq<char>, b: Seq<char>) -> bool
    decreases a.len(),
{
    if a.len() == 0 {
        true
    } else if b.len() == 0 {
        false
    } else if (a[0] as u32) < (b[0] as u32) {
        true
    } else if (a[0] as u32) > (b[0] as u32) {
        false
    } else {
        lex_le(a.drop_first(), b.drop_first())
    }
}

proof fn lemma_lex_total(a: Seq<char>, b: Seq<char>)
    ensures
        lex_le(a, b) || lex_le(b, a),
    decreases a.len(),
{
    if a.len() > 0 && b.len() > 0 && (a[0] as u32) == (b[0] as u32) {
        lemma_lex_total(a.drop_first(), b.drop_first());
    }
}

fn lex_le_exec(a: &String, b: &String) -> (r: bool)
    ensures
        r == lex_le(a@, b@),
{
    proof {
        assert(a@.skip(0) =~= a@);
        assert(b@.skip(0) =~= b@);
    }
    lex_le_from(a.as_str(), b.as_str(), 0)
}

fn lex_le_from(a: &str, b: &str, i: usize) -> (r: bool)
    requires
        i <= a@.len(),
        i <= b@.len(),
    ensures
        r == lex_le(a@.skip(i as int), b@.skip(i as int)),
    decreases a@.len() - i,
{
    let na = a.unicode_len();
    let nb = b.unicode_len();
    if i == na {
        proof {
            assert(a@.skip(i as int) =~= Seq::<char>::empty());
        }
        return true;
    }
    if i == nb {
        return false;
    }
    let ca = a.get_char(i) as u32;
    let cb = b.get_char(i) as u32;
    proof {
        assert(a@.skip(i as int)[0] == a@[i as int]);
        assert(b@.skip(i as int)[0] == b@[i as int]);
        assert(a@.skip(i as int).drop_first() =~= a@.skip(i + 1));
        assert(b@.skip(i as int).drop_first() =~= b@.skip(i + 1));
    }
    if ca < cb {
        true
    } else if ca > cb {
        false
    } else {
        lex_le_from(a, b, i + 1)
    }
}

proof fn lemma_lex_trans(a: Seq<char>, b: Seq<char>, c: Seq<char>)
    requires
        lex_le(a, b),
        lex_le(b, c),
    ensures
        lex_le(a, c),
    decreases a.len(),
{
    if a.len() > 0 && b.len() > 0 && c.len() > 0 && (a[0] as u32) == (b[0] as u32) && (b[0]
        as u32) == (c[0] as u32) {
        lemma_lex_trans(a.drop_first(), b.drop_first(), c.drop_first());
    }
}

/// Sorted ascending by [`lex_le`].
pub open spec fn sorted_lex(s: Seq<Seq<char>>) -> bool {
    forall|i: int, j: int| 0 <= i < j < s.len() ==> lex_le(#[trigger] s[i], #[trigger] s[j])
}

/// Sorts strings by code point; the result holds exactly the same
/// strings, ascending.
pub fn sort_strings(items: Vec<String>) -> (r: Vec<String>)
    ensures
        sorted_lex(r@.map_values(|s: String| s@)),
        r@.map_values(|s: String| s@).to_multiset() == items@.map_values(
            |s: String| s@,
        ).to_multiset(),
{
    broadcast use vstd::seq_lib::group_to_multiset_ensures;

    let ghost items_v = items@.map_values(|s: String| s@);
    let mut rem = items;
    let mut out: Vec<String> = Vec::new();
    while rem.len() > 0
        invariant
            items_v.to_multiset() == out@.map_values(|s: String| s@).to_multiset().add(
                rem@.map_values(|s: String| s@).to_multiset(),
            ),
            sorted_lex(out@.map_values(|s: String| s@)),
            forall|i: int, j: int|
                0 <= i < out@.len() && 0 <= j < rem@.len() ==> lex_le(
                    (#[trigger] out@[i])@,
                    (#[trigger] rem@[j])@,
                ),
        decreases rem@.len(),
    {
        let mut min: usize = 0;
        let mut i: usize = 1;
        proof {
            lemma_lex_total(rem@[0]@, rem@[0]@);
        }
        while i < rem.len()
            invariant
                min < i,
                i <= rem@.len(),
                rem@.len() > 0,
                forall|j: int| 0 <= j < i ==> lex_le(rem@[min as int]@, (#[trigger] rem@[j])@),
            decreases rem@.len() - i,
        {
            if lex_le_exec(&rem[i], &rem[min]) {
                proof {
                    assert forall|j: int| 0 <= j < i + 1 implies lex_le(
                        rem@[i as int]@,
                        (#[trigger] rem@[j])@,
                    ) by {
                        if j < i {
                            lemma_lex_trans(rem@[i as int]@, rem@[min as int]@, rem@[j]@);
                        } else {
                            lemma_lex_total(rem@[i as int]@, rem@[i as int]@);
                        }
                    }
                }
                min = i;
            } else {
                proof {
                    lemma_lex_total(rem@[i as int]@, rem@[min as int]@);
                }
            }
            i = i + 1;
        }
        let ghost rem_pre = rem@;
        let ghost out_pre = out@;
        let picked = rem.remove(min);
        out.push(picked);
        proof {
            broadcast use vstd::seq_lib::group_to_multiset_ensures;

            let rv_pre = rem_pre.map_values(|s: String| s@);
            let ov_pre = out_pre.map_values(|s: String| s@);
            let rv = rem@.map_values(|s: String| s@);
            let ov = out@.map_values(|s: String| s@);
            assert(rv =~= rv_pre.remove(min as int));
            assert(ov =~= ov_pre.push(rem_pre[min as int]@));
            assert(rv_pre.to_multiset().contains(rv_pre[min as int]));
            assert(ov.to_multiset() =~= ov_pre.to_multiset().insert(rv_pre[min as int]));
            assert(rv.to_multiset() =~= rv_pre.to_multiset().remove(rv_pre[min as int]));
            assert(ov.to_multiset().add(rv.to_multiset()) =~= ov_pre.to_multiset().add(
                rv_pre.to_multiset(),
            ));
            assert forall|a: int, b: int| 0 <= a < b < ov.len() implies lex_le(
                #[trigger] ov[a],
                #[trigger] ov[b],
            ) by {
                if b < ov.len() - 1 {
                } else {
                    assert(ov[b] == rem_pre[min as int]@);
                }
            }
            assert forall|a: int, b: int|
                #![trigger ov[a], rem@[b]]
                0 <= a < ov.len() && 0 <= b < rem@.len() implies lex_le(ov[a], rem@[b]@) by {
                let borig: int = if b < min {
                    b
                } else {
                    b + 1
                };
                assert(rem@[b] == rem_pre[borig]);
                if a < ov.len() - 1 {
                } else {
                    assert(ov[a] == rem_pre[min as int]@);
                }
            }
        }
    }
    proof {
        assert(rem@.map_values(|s: String| s@) =~= Seq::<Seq<char>>::empty());
        assert(rem@.map_values(|s: String| s@).to_multiset() =~= Multiset::<Seq<char>>::empty());
        assert(out@.map_values(|s: String| s@).to_multiset() =~= out@.map_values(
            |s: String| s@,
        ).to_multiset().add(Multiset::<Seq<char>>::empty()));
    }
    out
}


/// The percent-encoded text of a string.
pub open spec fn enc(s: Seq<char>) -> Seq<char> {
    pct_view(vstd::utf8::encode_utf8(s))
}

/// One signable parameter as `enc(k)=enc(v)`.
pub open spec fn param_piece(p: (Seq<char>, Seq<char>)) -> Seq<char> {
    enc(p.0) + "="@ + enc(p.1)
}

/// The signature base string over a sorted parameter list:
/// `METHOD&enc(url)&enc(p1&p2&...)`.
pub open spec fn base_string_view(
    method: Seq<char>,
    url: Seq<char>,
    sorted_pieces: Seq<Seq<char>>,
) -> Seq<char> {
    method + "&"@ + enc(url) + "&"@ + enc(crate::strutil::join_view(sorted_pieces, "&"@))
}

fn encode_piece(k: &String, v: &String) -> (r: String)
    ensures
        r@ == param_piece((k@, v@)),
{
    let mut out = percent_encode(k.as_str());
    out.append("=");
    let ev = percent_encode(v.as_str());
    out.append(ev.as_str());
    out
}

/// The signature base string of a request: method, encoded endpoint, and
/// the encoded parameters, each `enc(k)=enc(v)`, sorted and `&`-joined.
pub fn oauth1_base_string(method: crate::model::HttpMethod, url: &str, params: &Vec<
    (String, String),
>) -> (r: String)
    ensures
        exists|pieces: Seq<Seq<char>>|
            sorted_lex(pieces) && pieces.to_multiset() == pairs_view(params@).map_values(
                |p: (Seq<char>, Seq<char>)| param_piece(p),
            ).to_multiset() && r@ == base_string_view(
                crate::model::method_label(method),
                url@,
                pieces,
            ),
{
    let ghost target = pairs_view(params@).map_values(|p: (Seq<char>, Seq<char>)| param_piece(p));
    let mut pieces: Vec<String> = Vec::new();
    let mut i: usize = 0;
    while i < params.len()
        invariant
            i <= params@.len(),
            target == pairs_view(params@).map_values(
                |p: (Seq<char>, Seq<char>)| param_piece(p),
            ),
            pieces@.len() == i,
            forall|j: int|
                0 <= j < i ==> (#[trigger] pieces@[j])@ == target[j],
        decreases params@.len() - i,
    {
        let piece = encode_piece(&params[i].0, &params[i].1);
        pieces.push(piece);
        i = i + 1;
    }
    proof {
        assert(pieces@.map_values(|s: String| s@) =~= target);
    }
    let sorted = sort_strings(pieces);
    let joined = crate::strutil::join(&sorted, "&");
    let mut out = method.as_str().to_owned();
    out.append("&");
    let eu = percent_encode(url);
    out.append(eu.as_str());
    out.append("&");
    let ej = percent_encode(joined.as_str());
    out.append(ej.as_str());
    proof {
        let pieces_v = sorted@.map_values(|s: String| s@);
        assert(sorted_lex(pieces_v) && pieces_v.to_multiset() == target.to_multiset() && out@
            == base_string_view(crate::model::method_label(method), url@, pieces_v));
    }
    out
}

/// The OAuth signing key: `enc(consumer_secret)&enc(token_secret)`.
pub open spec fn signing_key_view(consumer_secret: Seq<char>, token_secret: Seq<char>) -> Seq<
    char,
> {
    enc(consumer_secret) + "&"@ + enc(token_secret)
}

/// Builds the signing key, which is also the whole signature under the
/// plaintext method.
pub fn oauth1_signing_key(consumer_secret: &str, token_secret: &str) -> (r: String)
    ensures
        r@ == signing_key_view(consumer_secret@, token_secret@),
{
    let mut out = percent_encode(consumer_secret);
    out.append("&");
    let ts = percent_encode(token_secret);
    out.append(ts.as_str());
    out
}

/// The HMAC-SHA1 digest of a message under a key.
pub uninterp spec fn hmac_sha1_of(key: Seq<u8>, msg: Seq<u8>) -> Seq<u8>;

/// The HMAC-SHA256 digest of a message under a key.
pub uninterp spec fn hmac_sha256_of(key: Seq<u8>, msg: Seq<u8>) -> Seq<u8>;

/// The HMAC-SHA512 digest of a message under a key.
pub uninterp spec fn hmac_sha512_of(key: Seq<u8>, msg: Seq<u8>) -> Seq<u8>;

/// Relies on hmac::SimpleHmac over sha1::Sha1: the RFC 2104 digest, a
/// function of key and message alone; the key setup accepts keys of any
/// length, so the construction cannot fail.
#[verifier::external_body]
fn hmac_sha1(key: &Vec<u8>, msg: &Vec<u8>) -> (r: Vec<u8>)
    ensures
        r@ == hmac_sha1_of(key@, msg@),
{
    let mut mac = <hmac::SimpleHmac<sha1::Sha1> as hmac::KeyInit>::new_from_slice(key.as_slice())
        .unwrap();
    hmac::Mac::update(&mut mac, msg.as_slice());
    hmac::Mac::finalize(mac).into_bytes().to_vec()
}

/// Relies on hmac::SimpleHmac over sha2::Sha256: the RFC 2104 digest, a
/// function of key and message alone; the key setup accepts keys of any
/// length, so the construction cannot fail.
#[verifier::external_body]
fn hmac_sha256(key: &Vec<u8>, msg: &Vec<u8>) -> (r: Vec<u8>)
    ensures
        r@ == hmac_sha256_of(key@, msg@),
{
    let mut mac = <hmac::SimpleHmac<sha2::Sha256> as hmac::KeyInit>::new_from_slice(key.as_slice())
        .unwrap();
    hmac::Mac::update(&mut mac, msg.as_slice());
    hmac::Mac::finalize(mac).into_bytes().to_vec()
}

/// Relies on hmac::SimpleHmac over sha2::Sha512: the RFC 2104 digest, a
/// function of key and message alone; the key setup accepts keys of any
/// length, so the construction cannot fail.
#[verifier::external_body]
fn hmac_sha512(key: &Vec<u8>, msg: &Vec<u8>) -> (r: Vec<u8>)
    ensures
        r@ == hmac_sha512_of(key@, msg@),
{
    let mut mac = <hmac::SimpleHmac<sha2::Sha512> as hmac::KeyInit>::new_from_slice(key.as_slice())
        .unwrap();
    hmac::Mac::update(&mut mac, msg.as_slice());
    hmac::Mac::finalize(mac).into_bytes().to_vec()
}

/// The signature text an OAuth 1.0a call carries: the signing key itself
/// under the plaintext method, and the base64 of the RFC 2104 digest of
/// the base string under the signing key for the HMAC methods.
pub open spec fn signature_text(alg: HashAlgorithm, key: Seq<char>, base: Seq<char>) -> Seq<
    char,
> {
    match alg {
        HashAlgorithm::PlainText => key,
        HashAlgorithm::HmacSha1 => base64_view(
            hmac_sha1_of(vstd::utf8::encode_utf8(key), vstd::utf8::encode_utf8(base)),
        ),
        HashAlgorithm::HmacSha256 => base64_view(
            hmac_sha256_of(vstd::utf8::encode_utf8(key), vstd::utf8::encode_utf8(base)),
        ),
        HashAlgorithm::HmacSha512 => base64_view(
            hmac_sha512_of(vstd::utf8::encode_utf8(key), vstd::utf8::encode_utf8(base)),
        ),
    }
}

/// Computes the signature over a base string, as [`signature_text`] says.
pub fn oauth1_signature(alg: HashAlgorithm, signing_key: &str, base_string: &str) -> (r: String)
    ensures
        r@ == signature_text(alg, signing_key@, base_string@),
{
    match alg {
        HashAlgorithm::PlainText => signing_key.to_owned(),
        HashAlgorithm::HmacSha1 => base64_encode(
            &hmac_sha1(&signing_key.as_bytes_vec(), &base_string.as_bytes_vec()),
        ),
        HashAlgorithm::HmacSha256 => base64_encode(
            &hmac_sha256(&signing_key.as_bytes_vec(), &base_string.as_bytes_vec()),
        ),
        HashAlgorithm::HmacSha512 => base64_encode(
            &hmac_sha512(&signing_key.as_bytes_vec(), &base_string.as_bytes_vec()),
        ),
    }
}

/// The `Authorization` header of a signed request.
pub open spec fn oauth1_header_view(
    realm: Option<Seq<char>>,
    consumer_key: Seq<char>,
    token: Seq<char>,
    method_name: Seq<char>,
    timestamp: u64,
    nonce: Seq<char>,
    signature: Seq<char>,
) -> Seq<char> {
    "OAuth "@ + (match realm {
        Option::Some(r) => "realm=\""@ + r + "\", "@,
        Option::None => Seq::empty(),
    }) + "oauth_consumer_key=\""@ + enc(consumer_key) + "\", oauth_token=\""@ + enc(token)
        + "\", oauth_signature_method=\""@ + method_name + "\", oauth_timestamp=\""@
        + crate::strutil::decimal_rep(timestamp as nat) + "\", oauth_nonce=\""@ + enc(nonce)
        + "\", oauth_version=\"1.0\", oauth_signature=\""@ + enc(signature) + "\""@
}

/// Builds the OAuth authorization header, as [`oauth1_header_view`] says.
pub fn oauth1_header(
    realm: Option<&String>,
    consumer_key: &str,
    token: &str,
    method_name: &str,
    timestamp: u64,
    nonce: &str,
    signature: &str,
) -> (r: String)
    ensures
        r@ == oauth1_header_view(
            match realm {
                Option::Some(s) => Option::Some(s@),
                Option::None => Option::None,
            },
            consumer_key@,
            token@,
            method_name@,
            timestamp,
            nonce@,
            signature@,
        ),
{
    let mut out = String::from_str("OAuth ");
    match realm {
        Option::Some(rv) => {
            out.append("realm=\"");
            out.append(rv.as_str());
            out.append("\", ");
        },
        Option::None => {},
    }
    out.append("oauth_consumer_key=\"");
    let e1 = percent_encode(consumer_key);
    out.append(e1.as_str());
    out.append("\", oauth_token=\"");
    let e2 = percent_encode(token);
    out.append(e2.as_str());
    out.append("\", oauth_signature_method=\"");
    out.append(method_name);
    out.append("\", oauth_timestamp=\"");
    let ts = to_decimal(timestamp);
    out.append(ts.as_str());
    out.append("\", oauth_nonce=\"");
    let e3 = percent_encode(nonce);
    out.append(e3.as_str());
    out.append("\", oauth_version=\"1.0\", oauth_signature=\"");
    let e4 = percent_encode(signature);
    out.append(e4.as_str());
    out.append("\"");
    out
}

/// Secret payload of a bearer-style OAuth connection.
pub struct OAuthTokenSecret {
    pub token_type: Option<String>,
    pub access_token: String,
}

/// Secret payload of an OAuth 1.0a connection.
pub struct OAuthLegacySecret {
    pub consumer_key: String,
    pub consumer_secret: String,
    pub access_token_id: String,
    pub access_token_secret: String,
}

/// A required string field of a secret document.
fn secret_field(secret: &JsonValue, key: &str) -> (r: Option<String>)
    ensures
        match r {
            Option::Some(s) => (match jview(*secret) {
                Jv::Obj(fs) => field_value(fs, key@) == Option::Some(Jv::Str(s@)),
                _ => false,
            }),
            Option::None => (match jview(*secret) {
                Jv::Obj(fs) => (match field_value(fs, key@) {
                    Option::Some(v) => !(v is Str),
                    Option::None => true,
                }),
                _ => true,
            }),
        },
{
    match secret {
        JsonValue::Obj(fields) => match obj_get(fields, key) {
            Option::Some(JsonValue::Str(s)) => Option::Some(s.clone()),
            _ => Option::None,
        },
        _ => Option::None,
    }
}

/// Whether the secret document carries a string under the key.
pub open spec fn secret_str(secret: Jv, key: Seq<char>) -> Option<Seq<char>> {
    match secret {
        Jv::Obj(fs) => match field_value(fs, key) {
            Option::Some(Jv::Str(s)) => Option::Some(s),
            _ => Option::None,
        },
        _ => Option::None,
    }
}

/// Parses the secret of a bearer-style OAuth connection: `access_token`
/// is required, `token_type` optional.
pub fn parse_oauth_token_secret(secret: &JsonValue) -> (r: Result<OAuthTokenSecret, PicaError>)
    ensures
        match r {
            Result::Ok(s) => secret_str(jview(*secret), "access_token"@) == Option::Some(
                s.access_token@,
            ) && (match s.token_type {
                Option::Some(t) => secret_str(jview(*secret), "token_type"@) == Option::Some(t@),
                Option::None => secret_str(jview(*secret), "token_type"@) is None,
            }),
            Result::Err(e) => secret_str(jview(*secret), "access_token"@) is None && pview(e)
                == (ErrView::Int {
                kind: InternalKind::InvalidArgument,
                message: "Invalid OAuth secret"@,
                subtype: Option::Some(crate::strutil::snake_case_view("oauth_secret"@)),
                meta: Option::None,
            }),
        },
{
    let access_token = match secret_field(secret, "access_token") {
        Option::Some(s) => s,
        Option::None => {
            return Result::Err(
                InternalError::invalid_argument("Invalid OAuth secret", Option::Some(
                    "oauth_secret",
                )),
            );
        },
    };
    let token_type = secret_field(secret, "token_type");
    Result::Ok(OAuthTokenSecret { token_type, access_token })
}

/// Parses the secret of an OAuth 1.0a connection: consumer key and
/// secret, access token id and secret, all required.
pub fn parse_oauth_legacy_secret(secret: &JsonValue) -> (r: Result<OAuthLegacySecret, PicaError>)
    ensures
        match r {
            Result::Ok(s) => secret_str(jview(*secret), "consumer_key"@) == Option::Some(
                s.consumer_key@,
            ) && secret_str(jview(*secret), "consumer_secret"@) == Option::Some(s.consumer_secret@)
                && secret_str(jview(*secret), "access_token_id"@) == Option::Some(
                s.access_token_id@,
            ) && secret_str(jview(*secret), "access_token_secret"@) == Option::Some(
                s.access_token_secret@,
            ),
            Result::Err(e) => (secret_str(jview(*secret), "consumer_key"@) is None || secret_str(
                jview(*secret),
                "consumer_secret"@,
            ) is None || secret_str(jview(*secret), "access_token_id"@) is None || secret_str(
                jview(*secret),
                "access_token_secret"@,
            ) is None) && pview(e) == (ErrView::Int {
                kind: InternalKind::InvalidArgument,
                message: "Invalid OAuth secret"@,
                subtype: Option::Some(crate::strutil::snake_case_view("oauth_secret"@)),
                meta: Option::None,
            }),
        },
{
    let consumer_key = secret_field(secret, "consumer_key");
    let consumer_secret = secret_field(secret, "consumer_secret");
    let access_token_id = secret_field(secret, "access_token_id");
    let access_token_secret = secret_field(secret, "access_token_secret");
    match (consumer_key, consumer_secret, access_token_id, access_token_secret) {
        (
            Option::Some(consumer_key),
            Option::Some(consumer_secret),
            Option::Some(access_token_id),
            Option::Some(access_token_secret),
        ) => Result::Ok(
            OAuthLegacySecret { consumer_key, consumer_secret, access_token_id, access_token_secret },
        ),
        _ => Result::Err(
            InternalError::invalid_argument("Invalid OAuth secret", Option::Some("oauth_secret")),
        ),
    }
}


/// Both lists, one after the other; the route must tolerate duplicates.
pub fn concat_pairs(a: Vec<(String, String)>, b: Vec<(String, String)>) -> (r: Vec<
    (String, String),
>)
    ensures
        pairs_view(r@) == pairs_view(a@) + pairs_view(b@),
{
    let ghost a_snap = a@;
    let a_len = a.len();
    let mut out = a;
    let mut i: usize = 0;
    while i < b.len()
        invariant
            i <= b@.len(),
            a_len == a_snap.len(),
            out@.len() == a_len + i,
            forall|j: int| 0 <= j < a_len ==> #[trigger] out@[j] == a_snap[j],
            forall|j: int| a_len <= j < a_len + i ==> #[trigger] out@[j] == b@[j - a_len],
        decreases b@.len() - i,
    {
        let p = &b[i];
        out.push((p.0.clone(), p.1.clone()));
        i = i + 1;
    }
    proof {
        assert(pairs_view(out@) =~~= pairs_view(a_snap) + pairs_view(b@));
    }
    out
}

/// The assembled outbound call, ready for a transport.
#[derive(Debug, PartialEq, Eq)]
pub struct OutboundRequest {
    pub method: HttpMethod,
    pub url: String,
    pub headers: Vec<(String, String)>,
    pub query_params: Vec<(String, String)>,
    pub body: Option<JsonValue>,
}

/// Per-request signing material for OAuth 1.0a: a fresh nonce and the
/// current time; the digest over [`oauth1_base_string`] is computed here.
pub struct OAuthParams {
    pub nonce: String,
    pub timestamp: u64,
}

/// The bearer-style authorization value: token type (default `Bearer`)
/// and access token.
pub open spec fn oauth_token_header(secret: Jv) -> Seq<char> {
    (match secret_str(secret, "token_type"@) {
        Option::Some(t) => t,
        Option::None => "Bearer"@,
    }) + " "@ + (match secret_str(secret, "access_token"@) {
        Option::Some(t) => t,
        Option::None => Seq::empty(),
    })
}

/// The secret document the authenticator reads: the given one, or JSON
/// null when none came.
pub open spec fn secret_doc(secret: Option<&JsonValue>) -> Jv {
    match secret {
        Option::Some(s) => jview(*s),
        Option::None => Jv::Null,
    }
}

/// The invalid-secret error every OAuth parse failure raises.
pub open spec fn oauth_secret_error() -> ErrView {
    ErrView::Int {
        kind: InternalKind::InvalidArgument,
        message: "Invalid OAuth secret"@,
        subtype: Option::Some(crate::strutil::snake_case_view("oauth_secret"@)),
        meta: Option::None,
    }
}

/// Assembles the outbound request: endpoint joined from base and path,
/// caller headers merged under the model's, model and caller query
/// parameters both kept, exactly one authentication applied, and the
/// payload attached untouched. For the HMAC signature methods the digest
/// over [`oauth1_base_string`] must come in with the signing material;
/// only the plaintext method's signature is computed here.
#[verifier::rlimit(60)]
pub fn build_outbound_request(
    config: ApiModelConfig,
    method: HttpMethod,
    body: Option<JsonValue>,
    secret: Option<&JsonValue>,
    headers: Vec<(String, String)>,
    query: Vec<(String, String)>,
    oauth: Option<&OAuthParams>,
) -> (r: Result<OutboundRequest, PicaError>)
    ensures
        ({
            let mh = merged_headers_view(pairs_view(headers@), pairs_view(config.headers@));
            let bq = pairs_view(config.query_params@) + pairs_view(query@);
            let sv = secret_doc(secret);
            match r {
                Result::Ok(o) => o.method == method && o.url@ == endpoint_view(
                    config.base_url@,
                    config.path@,
                ) && crate::error::opt_jview(o.body) == crate::error::opt_jview(body) && (
                match config.auth_method {
                    AuthMethod::BearerToken { value } => pairs_view(o.headers@) == mh.push(
                        ("authorization"@, "Bearer "@ + value@),
                    ) && pairs_view(o.query_params@) == bq,
                    AuthMethod::ApiKey { key, value } => pairs_view(o.headers@) == mh.push(
                        (ascii_lower_view(key@), value@),
                    ) && pairs_view(o.query_params@) == bq,
                    AuthMethod::QueryParam { key, value } => pairs_view(o.headers@) == mh
                        && pairs_view(o.query_params@) == bq.push((key@, value@)),
                    AuthMethod::BasicAuth { username, password } => pairs_view(o.headers@)
                        == mh.push(("authorization"@, basic_auth_view(username@, password@)))
                        && pairs_view(o.query_params@) == bq,
                    AuthMethod::OAuth => secret_str(sv, "access_token"@) is Some && pairs_view(
                        o.headers@,
                    ) == mh.push(("authorization"@, oauth_token_header(sv))) && pairs_view(
                        o.query_params@,
                    ) == bq,
                    AuthMethod::OAuthLegacy { hash_algorithm, realm } => {
                        &&& secret_str(sv, "consumer_key"@) is Some
                        &&& secret_str(sv, "consumer_secret"@) is Some
                        &&& secret_str(sv, "access_token_id"@) is Some
                        &&& secret_str(sv, "access_token_secret"@) is Some
                        &&& oauth is Some
                        &&& pairs_view(o.query_params@) == bq
                        &&& exists|pieces: Seq<Seq<char>>|
                            {
                                &&& #[trigger] sorted_lex(pieces)
                                &&& pieces.to_multiset() == bq.map_values(
                                    |p: (Seq<char>, Seq<char>)| param_piece(p),
                                ).to_multiset()
                                &&& pairs_view(o.headers@) == mh.push(
                                    (
                                        "authorization"@,
                                        oauth1_header_view(
                                            match realm {
                                                Option::Some(rv) => Option::Some(rv@),
                                                Option::None => Option::None,
                                            },
                                            secret_str(sv, "consumer_key"@)->0,
                                            secret_str(sv, "access_token_id"@)->0,
                                            crate::model::hash_algorithm_label(hash_algorithm),
                                            oauth->0.timestamp,
                                            oauth->0.nonce@,
                                            signature_text(
                                                hash_algorithm,
                                                signing_key_view(
                                                    secret_str(sv, "consumer_secret"@)->0,
                                                    secret_str(sv, "access_token_secret"@)->0,
                                                ),
                                                base_string_view(
                                                    crate::model::method_label(method),
                                                    endpoint_view(
                                                        config.base_url@,
                                                        config.path@,
                                                    ),
                                                    pieces,
                                                ),
                                            ),
                                        ),
                                    ),
                                )
                            }
                    },
                    AuthMethod::Anonymous => pairs_view(o.headers@) == mh && pairs_view(
                        o.query_params@,
                    ) == bq,
                }),
                Result::Err(e) => match config.auth_method {
                    AuthMethod::OAuth => secret_str(sv, "access_token"@) is None && pview(e)
                        == oauth_secret_error(),
                    AuthMethod::OAuthLegacy { hash_algorithm, .. } => {
                        ||| ((secret_str(sv, "consumer_key"@) is None || secret_str(
                            sv,
                            "consumer_secret"@,
                        ) is None || secret_str(sv, "access_token_id"@) is None || secret_str(
                            sv,
                            "access_token_secret"@,
                        ) is None) && pview(e) == oauth_secret_error())
                        ||| (oauth is None && pview(e) == (ErrView::Int {
                            kind: InternalKind::InvalidArgument,
                            message: "Missing OAuth signing material"@,
                            subtype: Option::None,
                            meta: Option::None,
                        }))
                    },
                    _ => false,
                },
            }
        }),
{
    let ApiModelConfig { base_url, path, auth_method, headers: model_headers, query_params:
        model_query, paths: _ } = config;
    let url = join_endpoint(base_url.as_str(), path.as_str());
    let merged = merge_headers(headers, model_headers);
    let all_query = concat_pairs(model_query, query);
    match auth_method {
        AuthMethod::BearerToken { value } => {
            let mut hv = String::from_str("Bearer ");
            hv.append(value.as_str());
            let mut hs = merged;
            hs.push((String::from_str("authorization"), hv));
            proof {
                assert(pairs_view(hs@) =~~= merged_headers_view(
                    pairs_view(headers@),
                    pairs_view(config.headers@),
                ).push(("authorization"@, "Bearer "@ + value@)));
            }
            Result::Ok(
                OutboundRequest { method, url, headers: hs, query_params: all_query, body },
            )
        },
        AuthMethod::ApiKey { key, value } => {
            let mut hs = merged;
            let key = ascii_lower(key.as_str());
            hs.push((key, value));
            proof {
                assert(pairs_view(hs@) =~~= merged_headers_view(
                    pairs_view(headers@),
                    pairs_view(config.headers@),
                ).push(
                    (
                        ascii_lower_view(config.auth_method->ApiKey_key@),
                        config.auth_method->ApiKey_value@,
                    ),
                ));
            }
            Result::Ok(
                OutboundRequest { method, url, headers: hs, query_params: all_query, body },
            )
        },
        AuthMethod::QueryParam { key, value } => {
            let mut qs = all_query;
            qs.push((key, value));
            proof {
                assert(pairs_view(qs@) =~~= (pairs_view(config.query_params@) + pairs_view(
                    query@,
                )).push(
                    (
                        config.auth_method->QueryParam_key@,
                        config.auth_method->QueryParam_value@,
                    ),
                ));
            }
            Result::Ok(OutboundRequest { method, url, headers: merged, query_params: qs, body })
        },
        AuthMethod::BasicAuth { username, password } => {
            let hv = basic_auth_header(username.as_str(), password.as_str());
            let mut hs = merged;
            hs.push((String::from_str("authorization"), hv));
            proof {
                assert(pairs_view(hs@) =~~= merged_headers_view(
                    pairs_view(headers@),
                    pairs_view(config.headers@),
                ).push(("authorization"@, basic_auth_view(username@, password@))));
            }
            Result::Ok(
                OutboundRequest { method, url, headers: hs, query_params: all_query, body },
            )
        },
        AuthMethod::OAuth => {
            let null_secret = JsonValue::Null;
            let sec: &JsonValue = match secret {
                Option::Some(s) => s,
                Option::None => &null_secret,
            };
            let parsed = match parse_oauth_token_secret(sec) {
                Result::Ok(p) => p,
                Result::Err(e) => {
                    return Result::Err(e);
                },
            };
            let mut hv = match parsed.token_type {
                Option::Some(t) => t,
                Option::None => String::from_str("Bearer"),
            };
            hv.append(" ");
            hv.append(parsed.access_token.as_str());
            let mut hs = merged;
            hs.push((String::from_str("authorization"), hv));
            proof {
                assert(pairs_view(hs@) =~~= merged_headers_view(
                    pairs_view(headers@),
                    pairs_view(config.headers@),
                ).push(("authorization"@, oauth_token_header(secret_doc(secret)))));
            }
            Result::Ok(
                OutboundRequest { method, url, headers: hs, query_params: all_query, body },
            )
        },
        AuthMethod::OAuthLegacy { hash_algorithm, realm } => {
            let null_secret = JsonValue::Null;
            let sec: &JsonValue = match secret {
                Option::Some(s) => s,
                Option::None => &null_secret,
            };
            let parsed = match parse_oauth_legacy_secret(sec) {
                Result::Ok(p) => p,
                Result::Err(e) => {
                    return Result::Err(e);
                },
            };
            let material = match oauth {
                Option::Some(m) => m,
                Option::None => {
                    return Result::Err(
                        InternalError::invalid_argument(
                            "Missing OAuth signing material",
                            Option::None,
                        ),
                    );
                },
            };
            let base = oauth1_base_string(method, url.as_str(), &all_query);
            let signing_key = oauth1_signing_key(
                parsed.consumer_secret.as_str(),
                parsed.access_token_secret.as_str(),
            );
            let alg = hash_algorithm;
            let signature = oauth1_signature(alg, signing_key.as_str(), base.as_str());
            let hv = oauth1_header(
                realm.as_ref(),
                parsed.consumer_key.as_str(),
                parsed.access_token_id.as_str(),
                hash_algorithm.as_str(),
                material.timestamp,
                material.nonce.as_str(),
                signature.as_str(),
            );
            let mut hs = merged;
            hs.push((String::from_str("authorization"), hv));
            proof {
                let bq = pairs_view(config.query_params@) + pairs_view(query@);
                let pieces = choose|p: Seq<Seq<char>>|
                    sorted_lex(p) && p.to_multiset() == pairs_view(all_query@).map_values(
                        |q: (Seq<char>, Seq<char>)| param_piece(q),
                    ).to_multiset() && base@ == base_string_view(
                        crate::model::method_label(method),
                        url@,
                        p,
                    );
                assert(sorted_lex(pieces));
                assert(pieces.to_multiset() == bq.map_values(
                    |p: (Seq<char>, Seq<char>)| param_piece(p),
                ).to_multiset());
                assert(pairs_view(hs@) =~~= merged_headers_view(
                    pairs_view(headers@),
                    pairs_view(config.headers@),
                ).push((
                    "authorization"@,
                    oauth1_header_view(
                        match config.auth_method->OAuthLegacy_realm {
                            Option::Some(rv) => Option::Some(rv@),
                            Option::None => Option::None,
                        },
                        secret_str(secret_doc(secret), "consumer_key"@)->0,
                        secret_str(secret_doc(secret), "access_token_id"@)->0,
                        crate::model::hash_algorithm_label(
                            config.auth_method->OAuthLegacy_hash_algorithm,
                        ),
                        material.timestamp,
                        material.nonce@,
                        signature_text(
                            config.auth_method->OAuthLegacy_hash_algorithm,
                            signing_key_view(
                                secret_str(secret_doc(secret), "consumer_secret"@)->0,
                                secret_str(secret_doc(secret), "access_token_secret"@)->0,
                            ),
                            base_string_view(
                                crate::model::method_label(method),
                                endpoint_view(config.base_url@, config.path@),
                                pieces,
                            ),
                        ),
                    ),
                )));
            }
            Result::Ok(
                OutboundRequest { method, url, headers: hs, query_params: all_query, body },
            )
        },
        AuthMethod::Anonymous => {
            Result::Ok(
                OutboundRequest { method, url, headers: merged, query_params: all_query, body },
            )
        },
    }
}


} // verus!

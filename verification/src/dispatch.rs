//! The dispatch orchestrator's decisions: script namespaces, transaction
//! keys, the probe-delay rule, the three-way dependency join, passthrough
//! route resolution, template rendering of model configurations, the
//! metadata record and its fingerprint.
use crate::error::{pview, ErrView, InternalError, InternalKind, PicaError};
use crate::json::{field_value, jview, jview_fields, JsonValue, Jv};
use crate::model::ConnectionModelDefinition;
use crate::routes::{best_match, count_eq, index_of_eq, resolve_route};
use crate::strutil::{decimal_rep, push_char, replace2_view, to_decimal};
use vstd::prelude::*;
use vstd::string::{StrSliceExecFns, StringExecFns};

verus! {

/// A lowercase hexadecimal digit.
pub open spec fn is_lower_hex(c: char) -> bool {
    (48 <= (c as u32) && (c as u32) <= 57) || (97 <= (c as u32) && (c as u32) <= 102)
}

/// Relies on uuid::Uuid::new_v4 and the simple format: a fresh random
/// identifier rendered as 32 lowercase hexadecimal digits.
#[verifier::external_body]
fn fresh_token() -> (r: String)
    ensures
        r@.len() == 32,
        forall|i: int| 0 <= i < r@.len() ==> is_lower_hex(#[trigger] r@[i]),
{
    uuid::Uuid::new_v4().simple().to_string()
}

/// With caches disabled (capacity zero) every dispatch compiles scripts
/// under a fresh random namespace: `$` and a fresh token. Otherwise the
/// namespace is the entity id with `:` and `-` rewritten to `_`, so one
/// deployed script maps to one namespace.
pub fn generate_script_namespace(max_capacity: u64, key: &str) -> (r: String)
    ensures
        max_capacity == 0 ==> r@.len() == 33 && r@[0] == '$' && (forall|i: int|
            1 <= i < 33 ==> is_lower_hex(#[trigger] r@[i])),
        max_capacity != 0 ==> r@ == replace2_view(key@, ':', '-', '_'),
{
    if max_capacity == 0 {
        let mut out = String::from_str("$");
        let token = fresh_token();
        out.append(token.as_str());
        proof {
            reveal_strlit("$");
            assert(out@[0] == '$');
            assert forall|i: int| 1 <= i < 33 implies is_lower_hex(#[trigger] out@[i]) by {
                assert(out@[i] == token@[i - 1]);
            }
        }
        out
    } else {
        crate::strutil::replace2(key, ':', '-', '_')
    }
}

/// The shape every transaction key has.
pub open spec fn is_txn_key(s: Seq<char>) -> bool {
    &&& s.len() > 4
    &&& s.take(4) == "txn_"@
    &&& forall|i: int|
        4 <= i < s.len() ==> crate::strutil::is_digit_char(#[trigger] s[i])
            || crate::strutil::is_ascii_lower_or_digit(s[i]) || crate::strutil::is_ascii_upper(
            s[i],
        )
}

/// A fresh transaction key: `txn_`, the timestamp, and a fresh token.
pub fn make_transaction_key(timestamp_ms: u64) -> (r: String)
    ensures
        is_txn_key(r@),
        r@ == "txn_"@ + decimal_rep(timestamp_ms as nat) + r@.skip(
            4 + decimal_rep(timestamp_ms as nat).len() as int,
        ),
{
    let mut out = String::from_str("txn_");
    let digits = to_decimal(timestamp_ms);
    out.append(digits.as_str());
    let token = fresh_token();
    out.append(token.as_str());
    proof {
        reveal_strlit("txn_");
        assert(out@.take(4) =~= "txn_"@);
        lemma_decimal_digits(timestamp_ms as nat);
        assert(out@.skip(4 + decimal_rep(timestamp_ms as nat).len() as int) =~= token@);
        assert(out@ =~= "txn_"@ + decimal_rep(timestamp_ms as nat) + token@);
    }
    out
}

proof fn lemma_digit_char_is_digit(d: int)
    requires
        0 <= d < 10,
    ensures
        crate::strutil::is_digit_char(crate::strutil::digit_char(d)),
{
    let b: u8 = (d + 48) as u8;
    assert(b == d + 48);
    assert((b as char) as u32 == d + 48);
}

proof fn lemma_decimal_digits(n: nat)
    ensures
        forall|i: int|
            0 <= i < decimal_rep(n).len() ==> crate::strutil::is_digit_char(
                #[trigger] decimal_rep(n)[i],
            ),
    decreases n,
{
    if n < 10 {
        lemma_digit_char_is_digit(n as int);
        assert(decimal_rep(n)[0] == crate::strutil::digit_char(n as int));
    } else {
        lemma_decimal_digits(n / 10);
        lemma_digit_char_is_digit((n % 10) as int);
        let prefix = decimal_rep(n / 10);
        assert forall|i: int| 0 <= i < decimal_rep(n).len() implies crate::strutil::is_digit_char(
            #[trigger] decimal_rep(n)[i],
        ) by {
            if i < prefix.len() {
                assert(decimal_rep(n)[i] == prefix[i]);
            } else {
                assert(decimal_rep(n)[i] == crate::strutil::digit_char((n % 10) as int));
            }
        }
    }
}

/// What a configured probe delay means: a missing or negative delay is
/// skipped with a warning, a delay up to 65535 milliseconds is slept,
/// and anything larger is refused.
pub fn classify_test_delay(delay: Option<i64>) -> (r: Result<Option<u16>, PicaError>)
    ensures
        match r {
            Result::Ok(Option::None) => delay is None || delay->0 < 0,
            Result::Ok(Option::Some(ms)) => delay matches Option::Some(d) && 0 <= d <= 65535 && ms
                == d,
            Result::Err(e) => delay matches Option::Some(d) && d > 65535 && pview(e)
                == (ErrView::Int {
                kind: InternalKind::SerializeError,
                message: "Unable to convert test_delay_in_millis to u64"@,
                subtype: Option::None,
                meta: Option::None,
            }),
        },
{
    match delay {
        Option::None => Result::Ok(Option::None),
        Option::Some(d) => {
            if d < 0 {
                Result::Ok(Option::None)
            } else if d <= 65535 {
                Result::Ok(Option::Some(d as u16))
            } else {
                Result::Err(
                    InternalError::serialize_error(
                        "Unable to convert test_delay_in_millis to u64",
                        Option::None,
                    ),
                )
            }
        },
    }
}

/// Joins the three dependency lookups; the first failure, in the order
/// definition, secret, schema, fails the resolution.
pub fn combine_dependencies<A, B, C>(a: Result<A, PicaError>, b: Result<B, PicaError>, c: Result<
    C,
    PicaError,
>) -> (r: Result<(A, B, C), PicaError>)
    ensures
        match r {
            Result::Ok(t) => (a matches Result::Ok(av) && t.0 == av) && (b matches Result::Ok(
                bv,
            ) && t.1 == bv) && (c matches Result::Ok(cv) && t.2 == cv),
            Result::Err(e) => {
                ||| (a matches Result::Err(ae) && e == ae)
                ||| (a is Ok && (b matches Result::Err(be) && e == be))
                ||| (a is Ok && b is Ok && (c matches Result::Err(ce) && e == ce))
            },
        },
{
    match (a, b, c) {
        (Result::Ok(av), Result::Ok(bv), Result::Ok(cv)) => Result::Ok((av, bv, cv)),
        (Result::Err(e), _, _) => Result::Err(e),
        (_, Result::Err(e), _) => Result::Err(e),
        (_, _, Result::Err(e)) => Result::Err(e),
    }
}

/// The outcome of a lookup that must find its record: a present record
/// passes through, a missing one is a key-not-found for the entity, and
/// a failed lookup becomes a connection error around its message.
pub fn require_found<T>(found: Result<Option<T>, PicaError>, entity: &str, prefix: &str) -> (r:
    Result<T, PicaError>)
    ensures
        match r {
            Result::Ok(v) => found matches Result::Ok(o) && o matches Option::Some(w) && v == w,
            Result::Err(e) => match found {
                Result::Ok(o) => o is None && pview(e) == (ErrView::Int {
                    kind: InternalKind::KeyNotFound,
                    message: entity@,
                    subtype: Option::None,
                    meta: Option::None,
                }),
                Result::Err(orig) => pview(e) == (ErrView::Int {
                    kind: InternalKind::ConnectionError,
                    message: prefix@ + crate::error::view_message(pview(orig)),
                    subtype: Option::None,
                    meta: Option::None,
                }),
            },
        },
{
    match found {
        Result::Ok(Option::Some(v)) => Result::Ok(v),
        Result::Ok(Option::None) => Result::Err(
            InternalError::key_not_found(entity, Option::None),
        ),
        Result::Err(orig) => {
            let mut msg = prefix.to_owned();
            let m = orig.message();
            msg.append(m.0.as_str());
            Result::Err(InternalError::connection_error(msg.as_str(), Option::None))
        },
    }
}

/// Resolves a passthrough call against the candidate model definitions
/// for its platform and method: the one owning the most specific
/// matching route wins; several owners of the winning route are refused.
pub fn resolve_passthrough_cmd(cands: &Vec<ConnectionModelDefinition>, path: &str) -> (r: Result<
    Option<usize>,
    PicaError,
>)
    ensures
        ({
            let routes = cands@.map_values(|c: ConnectionModelDefinition| c.api_config.path@);
            match best_match(routes, path@) {
                Option::None => r matches Result::Ok(o) && o is None,
                Option::Some(m) => {
                    if count_eq(routes, routes[m]) > 1 {
                        r matches Result::Err(e) && pview(e) == (ErrView::Int {
                            kind: InternalKind::InvalidArgument,
                            message:
                                "Multiple connection model definitions found for this path"@,
                            subtype: Option::None,
                            meta: Option::None,
                        })
                    } else {
                        r matches Result::Ok(o) && o matches Option::Some(i) && i
                            == index_of_eq(routes, routes[m])
                    }
                },
            }
        }),
{
    let ghost routes = cands@.map_values(|c: ConnectionModelDefinition| c.api_config.path@);
    let mut paths: Vec<String> = Vec::new();
    let mut i: usize = 0;
    while i < cands.len()
        invariant
            i <= cands@.len(),
            routes == cands@.map_values(|c: ConnectionModelDefinition| c.api_config.path@),
            paths@.len() == i,
            forall|j: int| 0 <= j < i ==> (#[trigger] paths@[j])@ == routes[j],
        decreases cands@.len() - i,
    {
        let p = cands[i].api_config.path.clone();
        paths.push(p);
        i = i + 1;
    }
    proof {
        assert(paths@.map_values(|x: String| x@) =~= routes);
    }
    resolve_route(&paths, path)
}

/// First position at or after `from` where the character occurs doubled,
/// or -1.
pub open spec fn first_double(s: Seq<char>, c: char, from: int) -> int
    recommends
        0 <= from,
    decreases s.len() - from,
{
    if from < 0 || from + 2 > s.len() {
        -1
    } else if s[from] == c && s[from + 1] == c {
        from
    } else {
        first_double(s, c, from + 1)
    }
}

/// The signed decimal rendering of an integer.
pub open spec fn int_rep(n: int) -> Seq<char> {
    if n < 0 {
        seq!['-'] + decimal_rep((-n) as nat)
    } else {
        decimal_rep(n as nat)
    }
}

/// What one placeholder renders to: a string's text, a number or boolean
/// spelled out, and nothing for anything else or a missing key.
pub open spec fn ctx_scalar(v: Option<Jv>) -> Seq<char> {
    match v {
        Option::Some(Jv::Str(s)) => s,
        Option::Some(Jv::Num(n)) => int_rep(n),
        Option::Some(Jv::Bool(b)) => if b {
            "true"@
        } else {
            "false"@
        },
        _ => Seq::empty(),
    }
}

/// The template with every `{{key}}` replaced by the context's value for
/// the key; text after an unmatched `{{` is kept as it stands. That
/// scalar substitution is the whole template language here: block
/// helpers, partials and escaping syntax are not part of it and render
/// literally.
pub open spec fn template_view(s: Seq<char>, ctx: Seq<(Seq<char>, Jv)>) -> Seq<char>
    decreases s.len(),
{
    let i = first_double(s, '{', 0);
    if i < 0 || i + 2 > s.len() {
        s
    } else {
        let j = first_double(s, '}', i + 2);
        if j < 0 || j + 2 > s.len() {
            s
        } else {
            s.take(i) + ctx_scalar(field_value(ctx, s.subrange(i + 2, j))) + template_view(
                s.skip(j + 2),
                ctx,
            )
        }
    }
}

/// First position at or after `from` where the character occurs doubled.
fn find_double(s: &str, c: char, from: usize) -> (r: Option<usize>)
    requires
        from <= s@.len(),
    ensures
        match r {
            Option::Some(i) => first_double(s@, c, from as int) == i && from <= i && i + 2
                <= s@.len(),
            Option::None => first_double(s@, c, from as int) == -1,
        },
{
    let n = s.unicode_len();
    let mut i: usize = from;
    while i < n
        invariant
            from <= i,
            i <= n,
            n == s@.len(),
            first_double(s@, c, from as int) == first_double(s@, c, i as int),
        decreases n - i,
    {
        if i + 1 < n {
            if s.get_char(i) == c && s.get_char(i + 1) == c {
                return Option::Some(i);
            }
        } else {
            return Option::None;
        }
        i = i + 1;
    }
    Option::None
}

/// Renders a placeholder's value, as [`ctx_scalar`] says.
fn render_scalar(v: Option<&JsonValue>) -> (r: String)
    ensures
        r@ == ctx_scalar(match v {
            Option::Some(x) => Option::Some(jview(*x)),
            Option::None => Option::None,
        }),
{
    match v {
        Option::Some(JsonValue::Str(s)) => s.clone(),
        Option::Some(JsonValue::Num(n)) => {
            let n = *n;
            if n < 0 {
                let mut out = String::from_str("-");
                let magnitude: u64 = ((-(n + 1)) as u64) + 1;
                proof {
                    assert(magnitude == -(n as int));
                }
                let digits = to_decimal(magnitude);
                out.append(digits.as_str());
                proof {
                    reveal_strlit("-");
                    assert(out@ =~= int_rep(n as int));
                }
                out
            } else {
                to_decimal(n as u64)
            }
        },
        Option::Some(JsonValue::Bool(b)) => {
            if *b {
                String::from_str("true")
            } else {
                String::from_str("false")
            }
        },
        _ => String::new(),
    }
}

/// Renders a template over a context object, as [`template_view`] says.
/// This is how per-tenant secrets and path parameters are baked into the
/// model's URLs and headers before the call.
pub fn render_template(s: &str, ctx: &Vec<(String, JsonValue)>) -> (r: String)
    ensures
        r@ == template_view(s@, jview_fields(ctx@)),
    decreases s@.len(),
{
    let n = s.unicode_len();
    let i = match find_double(s, '{', 0) {
        Option::None => {
            return s.to_owned();
        },
        Option::Some(i) => i,
    };
    let j = match find_double(s, '}', i + 2) {
        Option::None => {
            return s.to_owned();
        },
        Option::Some(j) => j,
    };
    let key = s.substring_char(i + 2, j);
    let value = crate::json::obj_get(ctx, key);
    let rendered = render_scalar(value);
    let rest = s.substring_char(j + 2, n);
    let tail = render_template(rest, ctx);
    let mut out = s.substring_char(0, i).to_owned();
    out.append(rendered.as_str());
    out.append(tail.as_str());
    proof {
        assert(rest@ =~= s@.skip(j + 2));
        assert(out@ =~= template_view(s@, jview_fields(ctx@)));
    }
    out
}

/// The context a secret document provides: its fields when it is an
/// object, nothing otherwise.
pub open spec fn ctx_of(secret: Jv) -> Seq<(Seq<char>, Jv)> {
    match secret {
        Jv::Obj(fs) => fs,
        _ => Seq::empty(),
    }
}

/// Renders every templated part of a model configuration over the secret:
/// base URL, path, header and query names and values.
pub fn render_config(config: crate::model::ApiModelConfig, secret: &JsonValue) -> (r:
    crate::model::ApiModelConfig)
    ensures
        ({
            let ctx = ctx_of(jview(*secret));
            &&& r.base_url@ == template_view(config.base_url@, ctx)
            &&& r.path@ == template_view(config.path@, ctx)
            &&& r.auth_method == config.auth_method
            &&& r.paths == config.paths
            &&& crate::crud::pairs_view(r.headers@) == crate::crud::pairs_view(
                config.headers@,
            ).map_values(
                |p: (Seq<char>, Seq<char>)| (template_view(p.0, ctx), template_view(p.1, ctx)),
            )
            &&& crate::crud::pairs_view(r.query_params@) == crate::crud::pairs_view(
                config.query_params@,
            ).map_values(
                |p: (Seq<char>, Seq<char>)| (template_view(p.0, ctx), template_view(p.1, ctx)),
            )
        }),
{
    let empty_fields: Vec<(String, JsonValue)> = Vec::new();
    let ctx: &Vec<(String, JsonValue)> = match secret {
        JsonValue::Obj(fields) => fields,
        _ => &empty_fields,
    };
    proof {
        match secret {
            JsonValue::Obj(fields) => {},
            _ => {
                assert(jview_fields(empty_fields@) =~= Seq::<(Seq<char>, Jv)>::empty());
            },
        }
    }
    let crate::model::ApiModelConfig { base_url, path, auth_method, headers, query_params, paths }
        = config;
    let base_url = render_template(base_url.as_str(), ctx);
    let path2 = render_template(path.as_str(), ctx);
    let headers2 = render_pairs(headers, ctx);
    let query2 = render_pairs(query_params, ctx);
    crate::model::ApiModelConfig {
        base_url,
        path: path2,
        auth_method,
        headers: headers2,
        query_params: query2,
        paths,
    }
}

/// Renders the names and values of an association list.
fn render_pairs(pairs: Vec<(String, String)>, ctx: &Vec<(String, JsonValue)>) -> (r: Vec<
    (String, String),
>)
    ensures
        crate::crud::pairs_view(r@) == crate::crud::pairs_view(pairs@).map_values(
            |p: (Seq<char>, Seq<char>)| (
                template_view(p.0, jview_fields(ctx@)),
                template_view(p.1, jview_fields(ctx@)),
            ),
        ),
{
    let ghost cv = jview_fields(ctx@);
    let mut out: Vec<(String, String)> = Vec::new();
    let mut i: usize = 0;
    while i < pairs.len()
        invariant
            i <= pairs@.len(),
            cv == jview_fields(ctx@),
            out@.len() == i,
            forall|j: int|
                0 <= j < i ==> (#[trigger] out@[j]).0@ == template_view(pairs@[j].0@, cv)
                    && out@[j].1@ == template_view(pairs@[j].1@, cv),
        decreases pairs@.len() - i,
    {
        let k = render_template(pairs[i].0.as_str(), ctx);
        let v = render_template(pairs[i].1.as_str(), ctx);
        out.push((k, v));
        i = i + 1;
    }
    proof {
        assert(crate::crud::pairs_view(out@) =~~= crate::crud::pairs_view(pairs@).map_values(
            |p: (Seq<char>, Seq<char>)| (template_view(p.0, cv), template_view(p.1, cv)),
        ));
    }
    out
}


/// The offset basis of the 64-bit FNV-1a hash.
pub const FNV_OFFSET: u64 = 0xcbf29ce484222325;

/// The prime of the 64-bit FNV-1a hash.
pub const FNV_PRIME: u64 = 0x100000001b3;

/// One FNV-1a step over a character's code point.
pub open spec fn fnv_step(h: u64, c: char) -> u64 {
    (((h ^ (c as u64)) * FNV_PRIME) % 0x10000000000000000) as u64
}

/// The hash of the first `i` characters.
pub open spec fn fnv_upto(s: Seq<char>, i: int) -> u64
    decreases i,
{
    if i <= 0 {
        FNV_OFFSET
    } else {
        fnv_step(fnv_upto(s, i - 1), s[i - 1])
    }
}

/// The 64-bit FNV-1a hash of a character sequence.
pub open spec fn fnv64(s: Seq<char>) -> u64 {
    fnv_upto(s, s.len() as int)
}

/// Hashes a string, as [`fnv64`] says.
pub fn fnv64_hash(s: &str) -> (r: u64)
    ensures
        r == fnv64(s@),
{
    let n = s.unicode_len();
    let mut h: u64 = FNV_OFFSET;
    let mut i: usize = 0;
    while i < n
        invariant
            i <= n,
            n == s@.len(),
            h == fnv_upto(s@, i as int),
        decreases n - i,
    {
        let c = s.get_char(i);
        h = (h ^ (c as u64)).wrapping_mul(FNV_PRIME);
        i = i + 1;
    }
    h
}

/// A lowercase hexadecimal digit character.
pub open spec fn hex_lower(v: int) -> char
    recommends
        0 <= v < 16,
{
    ((if v < 10 {
        48 + v
    } else {
        97 + (v - 10)
    }) as u8) as char
}

/// The lowest `k` nibbles of a number, highest first.
pub open spec fn hex_digits(h: int, k: nat) -> Seq<char>
    decreases k,
{
    if k == 0 {
        Seq::empty()
    } else {
        hex_digits(h / 16, (k - 1) as nat).push(hex_lower(h % 16))
    }
}

/// Sixteen lowercase hex digits of a 64-bit value.
pub open spec fn hex64_rep(h: u64) -> Seq<char> {
    hex_digits(h as int, 16)
}

fn hex_digits_exec(h: u64, k: usize) -> (r: String)
    requires
        k <= 16,
    ensures
        r@ == hex_digits(h as int, k as nat),
    decreases k,
{
    if k == 0 {
        String::new()
    } else {
        let mut out = hex_digits_exec(h / 16, k - 1);
        let v = h % 16;
        let code: u8 = if v < 10 {
            48 + (v as u8)
        } else {
            97 + ((v as u8) - 10)
        };
        push_char(&mut out, code as char);
        out
    }
}

/// The fingerprint recorded in the envelope metadata: the hash of a
/// canonical rendering of the mapped payload, the action name, and the
/// common model name.
pub open spec fn fingerprint_fields(body: Option<Jv>, action: Seq<char>, model: Seq<char>) -> Seq<
    (Seq<char>, Jv),
> {
    seq![
        (
            "response"@,
            match body {
                Option::Some(b) => b,
                Option::None => Jv::Null,
            },
        ),
        ("action"@, Jv::Str(action)),
        ("commonModel"@, Jv::Str(model)),
    ]
}

pub open spec fn fingerprint_view(body: Option<Jv>, action: Seq<char>, model: Seq<char>) -> Seq<
    char,
> {
    hex64_rep(fnv64(crate::json::render_view(Jv::Obj(fingerprint_fields(body, action, model)))))
}

/// Computes the response fingerprint, as [`fingerprint_view`] says.
pub fn fingerprint(body: Option<&JsonValue>, action: &str, model: &str) -> (r: String)
    ensures
        r@ == fingerprint_view(
            match body {
                Option::Some(b) => Option::Some(jview(*b)),
                Option::None => Option::None,
            },
            action@,
            model@,
        ),
{
    broadcast use {crate::json::lemma_jview_fields_len, crate::json::lemma_jview_fields_index};

    let inner = match body {
        Option::Some(b) => b.duplicate(),
        Option::None => JsonValue::Null,
    };
    let mut fields: Vec<(String, JsonValue)> = Vec::new();
    fields.push((String::from_str("response"), inner));
    fields.push((String::from_str("action"), JsonValue::Str(action.to_owned())));
    fields.push((String::from_str("commonModel"), JsonValue::Str(model.to_owned())));
    let doc = JsonValue::Obj(fields);
    proof {
        assert(jview_fields(doc->Obj_0@) =~~= fingerprint_fields(
            match body {
                Option::Some(b) => Option::Some(jview(*b)),
                Option::None => Option::None,
            },
            action@,
            model@,
        ));
    }
    let rendered = crate::json::render_json(&doc);
    let h = fnv64_hash(rendered.as_str());
    let out = hex_digits_exec(h, 16);
    out
}

/// What the envelope's metadata record shows.
#[derive(Debug, PartialEq, Eq)]
pub struct UnifiedMetadata {
    pub timestamp: i64,
    pub transaction_key: String,
    pub platform: String,
    pub platform_version: String,
    pub connection_key: String,
    pub common_model: String,
    pub common_model_version: String,
    pub action: String,
    pub host: Option<String>,
    pub hash: String,
    pub latency: u32,
    pub platform_rate_limit_remaining: u32,
    pub rate_limit_remaining: u32,
}

/// The metadata object of the envelope, field for field; `host` appears
/// only when the request carried one.
pub open spec fn metadata_fields(m: UnifiedMetadata) -> Seq<(Seq<char>, Jv)> {
    seq![
        ("timestamp"@, Jv::Num(m.timestamp as int)),
        ("transactionKey"@, Jv::Str(m.transaction_key@)),
        ("platform"@, Jv::Str(m.platform@)),
        ("platformVersion"@, Jv::Str(m.platform_version@)),
        ("connectionKey"@, Jv::Str(m.connection_key@)),
        ("action"@, Jv::Str(m.action@)),
        ("commonModel"@, Jv::Str(m.common_model@)),
        ("commonModelVersion"@, Jv::Str(m.common_model_version@)),
    ] + (match m.host {
        Option::Some(h) => seq![("host"@, Jv::Str(h@))],
        Option::None => Seq::empty(),
    }) + seq![
        ("hash"@, Jv::Str(m.hash@)),
        ("latency"@, Jv::Num(m.latency as int)),
        ("platformRateLimitRemaining"@, Jv::Num(m.platform_rate_limit_remaining as int)),
        ("rateLimitRemaining"@, Jv::Num(m.rate_limit_remaining as int)),
    ]
}

impl UnifiedMetadata {
    /// The metadata as the envelope's `meta` object.
    #[verifier::rlimit(60)]
    pub fn as_json_value(&self) -> (r: JsonValue)
        ensures
            jview(r) == Jv::Obj(metadata_fields(*self)),
    {
        broadcast use {crate::json::lemma_jview_fields_len, crate::json::lemma_jview_fields_index};

        let mut fields: Vec<(String, JsonValue)> = Vec::new();
        fields.push((String::from_str("timestamp"), JsonValue::Num(self.timestamp)));
        fields.push(
            (String::from_str("transactionKey"), JsonValue::Str(self.transaction_key.clone())),
        );
        fields.push((String::from_str("platform"), JsonValue::Str(self.platform.clone())));
        fields.push(
            (String::from_str("platformVersion"), JsonValue::Str(self.platform_version.clone())),
        );
        fields.push(
            (String::from_str("connectionKey"), JsonValue::Str(self.connection_key.clone())),
        );
        fields.push((String::from_str("action"), JsonValue::Str(self.action.clone())));
        fields.push((String::from_str("commonModel"), JsonValue::Str(self.common_model.clone())));
        fields.push(
            (
                String::from_str("commonModelVersion"),
                JsonValue::Str(self.common_model_version.clone()),
            ),
        );
        match &self.host {
            Option::Some(h) => {
                fields.push((String::from_str("host"), JsonValue::Str(h.clone())));
            },
            Option::None => {},
        }
        fields.push((String::from_str("hash"), JsonValue::Str(self.hash.clone())));
        fields.push((String::from_str("latency"), JsonValue::Num(self.latency as i64)));
        fields.push(
            (
                String::from_str("platformRateLimitRemaining"),
                JsonValue::Num(self.platform_rate_limit_remaining as i64),
            ),
        );
        fields.push(
            (
                String::from_str("rateLimitRemaining"),
                JsonValue::Num(self.rate_limit_remaining as i64),
            ),
        );
        let r = JsonValue::Obj(fields);
        proof {
            assert(jview_fields(r->Obj_0@) =~~= metadata_fields(*self));
        }
        r
    }
}


/// A model definition that is not marked supported cannot be called.
pub fn check_supported(supported: bool) -> (r: Result<(), PicaError>)
    ensures
        match r {
            Result::Ok(_) => supported,
            Result::Err(e) => !supported && pview(e) == (ErrView::App {
                kind: crate::error::ApplicationKind::NotFound,
                message: "Supported Connection Model Definition"@,
                subtype: Option::None,
                meta: Option::None,
            }),
        },
{
    if supported {
        Result::Ok(())
    } else {
        Result::Err(
            crate::error::ApplicationError::not_found(
                "Supported Connection Model Definition",
                Option::None,
            ),
        )
    }
}

} // verus!

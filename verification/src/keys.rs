//! Connection keys: `{env}::{platform}::{namespace}::{suffix}`, where the
//! suffix is an opaque token alone, or the token and a sanitized identity
//! joined by `|`. Spaces and colons in the identity are rewritten to `-`,
//! so the separator `::` can never occur inside the first three components
//! or the suffix and parsing is unambiguous.
use crate::error::{ErrView, ApplicationKind, PicaError, pview, ApplicationError};
use crate::strutil::{lacks_char, replace2, replace2_view};
use vstd::prelude::*;
use vstd::string::{StrSliceExecFns, StringExecFns};

verus! {

/// The full key text for the four components.
pub open spec fn connection_key_view(
    env: Seq<char>,
    platform: Seq<char>,
    namespace: Seq<char>,
    suffix: Seq<char>,
) -> Seq<char> {
    env + "::"@ + platform + "::"@ + namespace + "::"@ + suffix
}

/// The suffix for a fresh token and the chosen identity: the token alone
/// when the identity is the token itself, else token `|` sanitized identity.
pub open spec fn key_suffix_view(token: Seq<char>, identity: Seq<char>) -> Seq<char> {
    if identity == token {
        token
    } else {
        token + "|"@ + replace2_view(identity, ' ', ':', '-')
    }
}

/// First position at or after `from` where `::` begins, or -1.
pub open spec fn first_sep(key: Seq<char>, from: int) -> int
    recommends
        0 <= from,
    decreases key.len() - from,
{
    if from < 0 || from + 2 > key.len() {
        -1
    } else if key[from] == ':' && key[from + 1] == ':' {
        from
    } else {
        first_sep(key, from + 1)
    }
}

/// The components of a key: the text before each of the first three `::`
/// separators, and everything after the third one.
pub open spec fn parse_key_view(key: Seq<char>) -> Option<
    (Seq<char>, Seq<char>, Seq<char>, Seq<char>),
> {
    let i1 = first_sep(key, 0);
    if i1 < 0 {
        Option::None
    } else {
        let i2 = first_sep(key, i1 + 2);
        if i2 < 0 {
            Option::None
        } else {
            let i3 = first_sep(key, i2 + 2);
            if i3 < 0 {
                Option::None
            } else {
                Option::Some(
                    (
                        key.subrange(0, i1),
                        key.subrange(i1 + 2, i2),
                        key.subrange(i2 + 2, i3),
                        key.subrange(i3 + 2, key.len() as int),
                    ),
                )
            }
        }
    }
}

/// Replaces spaces and colons in an identity with dashes.
pub fn sanitize_identity(identity: &str) -> (r: String)
    ensures
        r@ == replace2_view(identity@, ' ', ':', '-'),
        lacks_char(r@, ':'),
        lacks_char(r@, ' '),
{
    let r = replace2(identity, ' ', ':', '-');
    proof {
        assert forall|i: int| 0 <= i < r@.len() implies r@[i] != ':' && r@[i] != ' ' by {
            assert(r@[i] == crate::strutil::replace2_char(identity@[i], ' ', ':', '-'));
        }
    }
    r
}

/// Builds the key suffix from a fresh token and the chosen identity.
pub fn make_key_suffix(token: &String, identity: &String) -> (r: String)
    ensures
        r@ == key_suffix_view(token@, identity@),
{
    if String::eq(identity, token) {
        token.clone()
    } else {
        let mut s = token.clone();
        s.append("|");
        let sanitized = sanitize_identity(identity.as_str());
        s.append(sanitized.as_str());
        proof {
            assert(s@ =~= token@ + "|"@ + replace2_view(identity@, ' ', ':', '-'));
        }
        s
    }
}

/// Builds the full connection key from its components.
pub fn make_connection_key(env: &str, platform: &str, namespace: &str, suffix: &str) -> (r: String)
    ensures
        r@ == connection_key_view(env@, platform@, namespace@, suffix@),
{
    let mut s = env.to_owned();
    s.append("::");
    s.append(platform);
    s.append("::");
    s.append(namespace);
    s.append("::");
    s.append(suffix);
    s
}

/// First position at or after `from` where `::` begins.
fn find_sep(key: &str, from: usize) -> (r: Option<usize>)
    requires
        from <= key@.len(),
    ensures
        match r {
            Option::Some(i) => first_sep(key@, from as int) == i && from <= i && i + 2 <= key@.len(),
            Option::None => first_sep(key@, from as int) == -1,
        },
{
    let n = key.unicode_len();
    let mut i: usize = from;
    while i < n
        invariant
            from <= i,
            i <= n,
            n == key@.len(),
            first_sep(key@, from as int) == first_sep(key@, i as int),
        decreases n - i,
    {
        if i + 1 < n {
            if key.get_char(i) == ':' && key.get_char(i + 1) == ':' {
                return Option::Some(i);
            }
        } else {
            return Option::None;
        }
        i = i + 1;
    }
    Option::None
}

/// Splits a key into its four components; `None` when it has fewer than
/// three `::` separators.
pub fn parse_connection_key(key: &str) -> (r: Option<(String, String, String, String)>)
    ensures
        match r {
            Option::Some(parts) => parse_key_view(key@) == Option::Some(
                (parts.0@, parts.1@, parts.2@, parts.3@),
            ),
            Option::None => parse_key_view(key@) is None,
        },
{
    let n = key.unicode_len();
    let i1 = match find_sep(key, 0) {
        Option::None => {
            return Option::None;
        },
        Option::Some(i) => i,
    };
    let i2 = match find_sep(key, i1 + 2) {
        Option::None => {
            return Option::None;
        },
        Option::Some(i) => i,
    };
    let i3 = match find_sep(key, i2 + 2) {
        Option::None => {
            return Option::None;
        },
        Option::Some(i) => i,
    };
    let env = key.substring_char(0, i1).to_owned();
    let platform = key.substring_char(i1 + 2, i2).to_owned();
    let namespace = key.substring_char(i2 + 2, i3).to_owned();
    let suffix = key.substring_char(i3 + 2, n).to_owned();
    Option::Some((env, platform, namespace, suffix))
}

proof fn lemma_first_sep_at(key: Seq<char>, from: int, m: int)
    requires
        0 <= from <= m,
        m + 2 <= key.len(),
        forall|j: int| from <= j < m ==> (#[trigger] key[j]) != ':' || key[j + 1] != ':',
        key[m] == ':',
        key[m + 1] == ':',
    ensures
        first_sep(key, from) == m,
    decreases m - from,
{
    if from < m {
        lemma_first_sep_at(key, from + 1, m);
    }
}

/// Parsing a key built from components yields the components again,
/// provided no component holds a colon — which holds of every key the
/// library builds: environments, platforms and namespaces are plain
/// names, and the suffix is sanitized.
pub proof fn lemma_connection_key_roundtrip(
    env: Seq<char>,
    platform: Seq<char>,
    namespace: Seq<char>,
    suffix: Seq<char>,
)
    requires
        lacks_char(env, ':'),
        lacks_char(platform, ':'),
        lacks_char(namespace, ':'),
        lacks_char(suffix, ':'),
    ensures
        parse_key_view(connection_key_view(env, platform, namespace, suffix)) == Option::Some(
            (env, platform, namespace, suffix),
        ),
{
    let key = connection_key_view(env, platform, namespace, suffix);
    let e = env.len() as int;
    let p = platform.len() as int;
    let m = namespace.len() as int;
    reveal_strlit("::");
    assert("::"@.len() == 2);
    assert("::"@[0] == ':' && "::"@[1] == ':');
    assert(key.len() == e + 2 + p + 2 + m + 2 + suffix.len());
    assert forall|j: int| 0 <= j < e implies key[j] == env[j] by {}
    assert(key[e] == ':' && key[e + 1] == ':');
    assert forall|j: int| e + 2 <= j < e + 2 + p implies key[j] == platform[j - e - 2] by {}
    assert(key[e + 2 + p] == ':' && key[e + 2 + p + 1] == ':');
    assert forall|j: int| e + 2 + p + 2 <= j < e + 2 + p + 2 + m implies key[j] == namespace[j - e
        - 2 - p - 2] by {}
    assert(key[e + 2 + p + 2 + m] == ':' && key[e + 2 + p + 2 + m + 1] == ':');
    assert forall|j: int| e + 2 + p + 2 + m + 2 <= j < key.len() implies key[j] == suffix[j - e - 2
        - p - 2 - m - 2] by {}

    lemma_first_sep_at(key, 0, e);
    lemma_first_sep_at(key, e + 2, e + 2 + p);
    lemma_first_sep_at(key, e + 2 + p + 2, e + 2 + p + 2 + m);
    assert(key.subrange(0, e) =~= env);
    assert(key.subrange(e + 2, e + 2 + p) =~= platform);
    assert(key.subrange(e + 2 + p + 2, e + 2 + p + 2 + m) =~= namespace);
    assert(key.subrange(e + 2 + p + 2 + m + 2, key.len() as int) =~= suffix);
}

/// An identity longer than 128 bytes is rejected with a bad request.
pub fn validate_identity(identity: &Option<String>) -> (r: Result<(), PicaError>)
    ensures
        match r {
            Result::Ok(_) => match identity {
                Option::Some(s) => vstd::utf8::encode_utf8(s@).len() <= 128,
                Option::None => true,
            },
            Result::Err(e) => match identity {
                Option::Some(s) => vstd::utf8::encode_utf8(s@).len() > 128 && pview(e)
                    == (ErrView::App {
                    kind: ApplicationKind::BadRequest,
                    message: "Identity must not exceed 128 characters"@,
                    subtype: Option::None,
                    meta: Option::None,
                }),
                Option::None => false,
            },
        },
{
    match identity {
        Option::None => Result::Ok(()),
        Option::Some(s) => {
            if s.as_str().as_bytes().len() > 128 {
                Result::Err(
                    ApplicationError::bad_request(
                        "Identity must not exceed 128 characters",
                        Option::None,
                    ),
                )
            } else {
                Result::Ok(())
            }
        },
    }
}

/// Every key the library builds parses back into its components: the
/// suffix a fresh token and an identity yield never holds a colon (the
/// sanitizer replaced them, and `|` is not one), so for any environment,
/// platform and token free of colons, building and parsing are inverse.
pub proof fn lemma_built_key_parses(
    env: Seq<char>,
    platform: Seq<char>,
    token: Seq<char>,
    identity: Seq<char>,
)
    requires
        lacks_char(env, ':'),
        lacks_char(platform, ':'),
        lacks_char(token, ':'),
    ensures
        parse_key_view(
            connection_key_view(env, platform, "default"@, key_suffix_view(token, identity)),
        ) == Option::Some(
            (env, platform, "default"@, key_suffix_view(token, identity)),
        ),
{
    let suffix = key_suffix_view(token, identity);
    reveal_strlit("default");
    reveal_strlit("|");
    assert(lacks_char("default"@, ':')) by {
        assert forall|i: int| 0 <= i < "default"@.len() implies "default"@[i] != ':' by {}
    }
    if identity == token {
        assert(suffix == token);
    } else {
        let sanitized = crate::strutil::replace2_view(identity, ' ', ':', '-');
        assert(suffix == token + "|"@ + sanitized);
        assert forall|i: int| 0 <= i < suffix.len() implies suffix[i] != ':' by {
            if i < token.len() {
                assert(suffix[i] == token[i]);
            } else if i < token.len() + 1 {
                assert(suffix[i] == "|"@[0]);
            } else {
                assert(suffix[i] == sanitized[i - token.len() - 1]);
                assert(sanitized[i - token.len() - 1] == crate::strutil::replace2_char(
                    identity[i - token.len() - 1],
                    ' ',
                    ':',
                    '-',
                ));
            }
        }
    }
    lemma_connection_key_roundtrip(env, platform, "default"@, suffix);
}

} // verus!

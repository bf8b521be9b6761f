//! Character-level string helpers shared by the key, route and transform
//! logic: building strings one character at a time, replacing characters,
//! and rendering decimal numbers.
use vstd::prelude::*;
use vstd::string::StringExecFns;

verus! {

/// Relies on String::push: appends exactly one character at the end.
#[verifier::external_body]
pub fn push_char(s: &mut String, c: char)
    ensures
        final(s)@ == old(s)@.push(c),
{
    s.push(c);
}

/// The decimal digit character for a value below ten.
pub open spec fn digit_char(d: int) -> char
    recommends
        0 <= d < 10,
{
    ((d + 48) as u8) as char
}

/// The usual base-ten rendering of a natural number, most significant
/// digit first, with no leading zeros (zero itself is "0").
pub open spec fn decimal_rep(n: nat) -> Seq<char>
    decreases n,
{
    if n < 10 {
        seq![digit_char(n as int)]
    } else {
        decimal_rep(n / 10).push(digit_char((n % 10) as int))
    }
}

pub fn to_decimal(n: u64) -> (r: String)
    ensures
        r@ == decimal_rep(n as nat),
    decreases n,
{
    if n < 10 {
        let mut s = String::new();
        push_char(&mut s, (48 + (n as u8)) as char);
        s
    } else {
        let mut s = to_decimal(n / 10);
        push_char(&mut s, (48 + ((n % 10) as u8)) as char);
        s
    }
}

/// One character of a two-target replacement.
pub open spec fn replace2_char(c: char, a1: char, a2: char, b: char) -> char {
    if c == a1 || c == a2 {
        b
    } else {
        c
    }
}

pub open spec fn replace2_view(s: Seq<char>, a1: char, a2: char, b: char) -> Seq<char> {
    s.map(|_i: int, c: char| replace2_char(c, a1, a2, b))
}

/// Replaces every occurrence of either of two characters with a third one.
pub fn replace2(s: &str, a1: char, a2: char, b: char) -> (r: String)
    ensures
        r@ == replace2_view(s@, a1, a2, b),
{
    let n = s.unicode_len();
    let mut out = String::new();
    let mut i: usize = 0;
    while i < n
        invariant
            i <= n,
            n == s@.len(),
            out@ == replace2_view(s@.take(i as int), a1, a2, b),
        decreases n - i,
    {
        let c = s.get_char(i);
        if c == a1 || c == a2 {
            push_char(&mut out, b);
        } else {
            push_char(&mut out, c);
        }
        i = i + 1;
        proof {
            assert(s@.take(i as int) =~= s@.take(i - 1).push(s@[i - 1]));
            assert(replace2_view(s@.take(i as int), a1, a2, b) =~= replace2_view(
                s@.take(i - 1),
                a1,
                a2,
                b,
            ).push(replace2_char(s@[i - 1], a1, a2, b)));
        }
    }
    proof {
        assert(s@.take(n as int) =~= s@);
    }
    out
}

/// ASCII lowercase of a character; anything but A-Z is unchanged.
pub open spec fn lower_char(c: char) -> char {
    if 65 <= (c as u32) && (c as u32) <= 90 {
        (((c as u32) + 32) as u8) as char
    } else {
        c
    }
}

pub open spec fn is_ascii_upper(c: char) -> bool {
    65 <= (c as u32) && (c as u32) <= 90
}

pub open spec fn is_ascii_lower_or_digit(c: char) -> bool {
    (97 <= (c as u32) && (c as u32) <= 122) || (48 <= (c as u32) && (c as u32) <= 57)
}

/// What one character contributes to the snake_case form, given the
/// character before it: spaces and dashes become underscores; an
/// uppercase letter is lowercased, with an underscore inserted when it
/// follows a lowercase letter or digit; everything else is kept.
pub open spec fn snake_step(prev: Option<char>, c: char) -> Seq<char> {
    if c == ' ' || c == '-' {
        seq!['_']
    } else if is_ascii_upper(c) {
        if prev is Some && is_ascii_lower_or_digit(prev->0) {
            seq!['_', lower_char(c)]
        } else {
            seq![lower_char(c)]
        }
    } else {
        seq![c]
    }
}

/// snake_case of the first `i` characters of `s`.
pub open spec fn snake_upto(s: Seq<char>, i: int) -> Seq<char>
    decreases i,
{
    if i <= 0 {
        Seq::empty()
    } else {
        snake_upto(s, i - 1) + snake_step(
            if i == 1 {
                Option::None
            } else {
                Option::Some(s[i - 2])
            },
            s[i - 1],
        )
    }
}

pub open spec fn snake_case_view(s: Seq<char>) -> Seq<char> {
    snake_upto(s, s.len() as int)
}

/// The snake_case form of a string, as [`snake_step`] describes it
/// character by character.
pub fn snake_case(s: &str) -> (r: String)
    ensures
        r@ == snake_case_view(s@),
{
    let n = s.unicode_len();
    let mut out = String::new();
    let mut i: usize = 0;
    while i < n
        invariant
            i <= n,
            n == s@.len(),
            out@ == snake_upto(s@, i as int),
        decreases n - i,
    {
        let c = s.get_char(i);
        let code = c as u32;
        if c == ' ' || c == '-' {
            push_char(&mut out, '_');
        } else if 65 <= code && code <= 90 {
            let low = ((code + 32) as u8) as char;
            let need_sep = if i > 0 {
                let pc = s.get_char(i - 1) as u32;
                (97 <= pc && pc <= 122) || (48 <= pc && pc <= 57)
            } else {
                false
            };
            if need_sep {
                push_char(&mut out, '_');
            }
            push_char(&mut out, low);
        } else {
            push_char(&mut out, c);
        }
        i = i + 1;
        proof {
            assert(out@ =~= snake_upto(s@, i as int));
        }
    }
    out
}

/// The first `i` parts joined with the separator between them.
pub open spec fn join_upto(parts: Seq<Seq<char>>, sep: Seq<char>, i: int) -> Seq<char>
    decreases i,
{
    if i <= 0 {
        Seq::empty()
    } else if i == 1 {
        parts[0]
    } else {
        join_upto(parts, sep, i - 1) + sep + parts[i - 1]
    }
}

/// All parts joined with the separator between them.
pub open spec fn join_view(parts: Seq<Seq<char>>, sep: Seq<char>) -> Seq<char> {
    join_upto(parts, sep, parts.len() as int)
}

pub fn join(parts: &Vec<String>, sep: &str) -> (r: String)
    ensures
        r@ == join_view(parts@.map_values(|s: String| s@), sep@),
{
    let ghost views = parts@.map_values(|s: String| s@);
    let mut out = String::new();
    let mut i: usize = 0;
    while i < parts.len()
        invariant
            i <= parts@.len(),
            views == parts@.map_values(|s: String| s@),
            out@ == join_upto(views, sep@, i as int),
        decreases parts@.len() - i,
    {
        if i > 0 {
            out.append(sep);
        }
        out.append(parts[i].as_str());
        i = i + 1;
    }
    out
}

/// First position at or after `from` where `sep` occurs, or -1.
pub open spec fn first_pos(s: Seq<char>, sep: char, from: int) -> int
    recommends
        0 <= from,
    decreases s.len() - from,
{
    if from < 0 || from >= s.len() {
        -1
    } else if s[from] == sep {
        from
    } else {
        first_pos(s, sep, from + 1)
    }
}

/// The segments of `s`, split at `sep`; an empty string is one empty
/// segment, and separators at the ends produce empty segments.
pub open spec fn split_view(s: Seq<char>, sep: char) -> Seq<Seq<char>>
    decreases s.len(),
{
    let i = first_pos(s, sep, 0);
    if i < 0 || i >= s.len() {
        seq![s]
    } else {
        seq![s.take(i)] + split_view(s.skip(i + 1), sep)
    }
}

/// First position at or after `from` where `sep` occurs.
pub fn find_char_from(s: &str, sep: char, from: usize) -> (r: Option<usize>)
    requires
        from <= s@.len(),
    ensures
        match r {
            Option::Some(i) => first_pos(s@, sep, from as int) == i && from <= i && i < s@.len(),
            Option::None => first_pos(s@, sep, from as int) == -1,
        },
{
    let n = s.unicode_len();
    let mut i: usize = from;
    while i < n
        invariant
            from <= i,
            i <= n,
            n == s@.len(),
            first_pos(s@, sep, from as int) == first_pos(s@, sep, i as int),
        decreases n - i,
    {
        if s.get_char(i) == sep {
            return Option::Some(i);
        }
        i = i + 1;
    }
    Option::None
}

/// Splits a string into its `sep`-separated segments.
pub fn split_on(s: &str, sep: char) -> (r: Vec<String>)
    ensures
        r@.map_values(|t: String| t@) == split_view(s@, sep),
    decreases s@.len(),
{
    let n = s.unicode_len();
    let found = find_char_from(s, sep, 0);
    match found {
        Option::None => {
            let mut out: Vec<String> = Vec::new();
            out.push(s.to_owned());
            proof {
                assert(out@.map_values(|t: String| t@) =~= split_view(s@, sep));
            }
            out
        },
        Option::Some(p) => {
            let head = s.substring_char(0, p).to_owned();
            let rest = s.substring_char(p + 1, n);
            let tail = split_on(rest, sep);
            let mut out: Vec<String> = Vec::new();
            out.push(head);
            let mut j: usize = 0;
            while j < tail.len()
                invariant
                    j <= tail@.len(),
                    out@.len() == j + 1,
                    out@[0]@ == s@.take(p as int),
                    forall|k: int| 1 <= k < j + 1 ==> (#[trigger] out@[k])@ == tail@[k - 1]@,
                decreases tail@.len() - j,
            {
                let seg = tail[j].clone();
                out.push(seg);
                j = j + 1;
            }
            proof {
                assert(rest@ =~= s@.skip(p + 1));
                assert(split_view(s@, sep) =~= seq![s@.take(p as int)] + split_view(
                    s@.skip(p + 1),
                    sep,
                ));
                assert(out@.map_values(|t: String| t@) =~= split_view(s@, sep));
            }
            out
        },
    }
}

/// The string with every ASCII capital lowercased.
pub open spec fn ascii_lower_view(s: Seq<char>) -> Seq<char> {
    s.map(|_i: int, c: char| lower_char(c))
}

/// Lowercases the ASCII capitals of a string.
pub fn ascii_lower(s: &str) -> (r: String)
    ensures
        r@ == ascii_lower_view(s@),
{
    let n = s.unicode_len();
    let mut out = String::new();
    let mut i: usize = 0;
    while i < n
        invariant
            i <= n,
            n == s@.len(),
            out@ == ascii_lower_view(s@.take(i as int)),
        decreases n - i,
    {
        let c = s.get_char(i);
        let code = c as u32;
        if 65 <= code && code <= 90 {
            push_char(&mut out, ((code + 32) as u8) as char);
        } else {
            push_char(&mut out, c);
        }
        i = i + 1;
        proof {
            assert(out@ =~= ascii_lower_view(s@.take(i as int)));
        }
    }
    proof {
        assert(s@.take(n as int) =~= s@);
    }
    out
}

/// True when `needle` occurs nowhere in `s`.
pub open spec fn lacks_char(s: Seq<char>, needle: char) -> bool {
    forall|i: int| 0 <= i < s.len() ==> s[i] != needle
}

/// Whether a character occurs in the string.
pub fn contains_char(s: &str, needle: char) -> (r: bool)
    ensures
        r == !lacks_char(s@, needle),
{
    let n = s.unicode_len();
    let mut i: usize = 0;
    while i < n
        invariant
            i <= n,
            n == s@.len(),
            forall|j: int| 0 <= j < i ==> s@[j] != needle,
        decreases n - i,
    {
        if s.get_char(i) == needle {
            return true;
        }
        i = i + 1;
    }
    false
}

/// A decimal digit.
pub open spec fn is_digit_char(c: char) -> bool {
    48 <= (c as u32) && (c as u32) <= 57
}

pub open spec fn all_digits(s: Seq<char>) -> bool {
    forall|i: int| 0 <= i < s.len() ==> is_digit_char(#[trigger] s[i])
}

/// The number the digit string denotes.
pub open spec fn digits_value(s: Seq<char>) -> int
    decreases s.len(),
{
    if s.len() == 0 {
        0
    } else {
        digits_value(s.drop_last()) * 10 + ((s.last() as u32) - 48)
    }
}

proof fn lemma_digits_value_nonneg(s: Seq<char>)
    requires
        all_digits(s),
    ensures
        digits_value(s) >= 0,
    decreases s.len(),
{
    if s.len() > 0 {
        assert forall|i: int| 0 <= i < s.drop_last().len() implies is_digit_char(
            #[trigger] s.drop_last()[i],
        ) by {
            assert(s.drop_last()[i] == s[i]);
        }
        lemma_digits_value_nonneg(s.drop_last());
    }
}

proof fn lemma_digits_prefix_le(s: Seq<char>, i: int)
    requires
        all_digits(s),
        0 <= i <= s.len(),
    ensures
        digits_value(s.take(i)) <= digits_value(s),
    decreases s.len() - i,
{
    if i < s.len() {
        assert forall|j: int| 0 <= j < s.take(i + 1).len() implies is_digit_char(
            #[trigger] s.take(i + 1)[j],
        ) by {
            assert(s.take(i + 1)[j] == s[j]);
        }
        assert(s.take(i + 1).drop_last() =~= s.take(i));
        assert(s.take(i + 1).last() == s[i]);
        lemma_digits_value_nonneg(s.take(i));
        assert(digits_value(s.take(i + 1)) == digits_value(s.take(i)) * 10 + ((s[i] as u32)
            - 48));
        lemma_digits_prefix_le(s, i + 1);
        assert(s.take(s.len() as int) =~= s);
    } else {
        assert(s.take(i) =~= s);
    }
}

/// Parses a plain decimal number that fits a `u32`.
pub fn parse_u32(s: &str) -> (r: Option<u32>)
    ensures
        match r {
            Option::Some(v) => s@.len() > 0 && all_digits(s@) && v == digits_value(s@),
            Option::None => s@.len() == 0 || !all_digits(s@) || digits_value(s@) > u32::MAX,
        },
{
    let n = s.unicode_len();
    if n == 0 {
        return Option::None;
    }
    let mut acc: u32 = 0;
    let mut i: usize = 0;
    while i < n
        invariant
            i <= n,
            n == s@.len(),
            all_digits(s@.take(i as int)),
            acc == digits_value(s@.take(i as int)),
        decreases n - i,
    {
        let c = s.get_char(i);
        let code = c as u32;
        if !(48 <= code && code <= 57) {
            proof {
                assert(!is_digit_char(s@[i as int]));
            }
            return Option::None;
        }
        let d = code - 48;
        let wide: u64 = (acc as u64) * 10 + (d as u64);
        proof {
            assert(s@.take(i + 1).drop_last() =~= s@.take(i as int));
            assert(s@.take(i + 1).last() == s@[i as int]);
            assert forall|j: int| 0 <= j < i + 1 implies is_digit_char(
                #[trigger] s@.take(i + 1)[j],
            ) by {
                assert(s@.take(i + 1)[j] == s@[j]);
            }
        }
        if wide > 0xffff_ffff {
            proof {
                if all_digits(s@) {
                    lemma_digits_prefix_le(s@, i + 1);
                }
            }
            return Option::None;
        }
        acc = wide as u32;
        i = i + 1;
    }
    proof {
        assert(s@.take(n as int) =~= s@);
    }
    Option::Some(acc)
}

/// Whether `s` starts with `p`.
pub open spec fn has_prefix(s: Seq<char>, p: Seq<char>) -> bool {
    s.len() >= p.len() && s.take(p.len() as int) == p
}

} // verus!

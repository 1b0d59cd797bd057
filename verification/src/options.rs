//! Turning command-line arguments into product identifiers: each argument
//! after the program name, trimmed of surrounding whitespace, read as an
//! unsigned decimal number.

use vstd::prelude::*;

verus! {

/// A whitespace character: the Unicode `White_Space` set.
pub open spec fn is_space_char(c: char) -> bool {
    c == '\u{9}' || c == '\u{a}' || c == '\u{b}' || c == '\u{c}' || c == '\u{d}' || c == ' '
        || c == '\u{85}' || c == '\u{a0}' || c == '\u{1680}' || c == '\u{2000}' || c == '\u{2001}'
        || c == '\u{2002}' || c == '\u{2003}' || c == '\u{2004}' || c == '\u{2005}'
        || c == '\u{2006}' || c == '\u{2007}' || c == '\u{2008}' || c == '\u{2009}'
        || c == '\u{200a}' || c == '\u{2028}' || c == '\u{2029}' || c == '\u{202f}'
        || c == '\u{205f}' || c == '\u{3000}'
}

/// Whether `c` is a whitespace character.
fn is_space(c: char) -> (b: bool)
    ensures
        b == is_space_char(c),
{
    c == '\u{9}' || c == '\u{a}' || c == '\u{b}' || c == '\u{c}' || c == '\u{d}' || c == ' '
        || c == '\u{85}' || c == '\u{a0}' || c == '\u{1680}' || c == '\u{2000}' || c == '\u{2001}'
        || c == '\u{2002}' || c == '\u{2003}' || c == '\u{2004}' || c == '\u{2005}'
        || c == '\u{2006}' || c == '\u{2007}' || c == '\u{2008}' || c == '\u{2009}'
        || c == '\u{200a}' || c == '\u{2028}' || c == '\u{2029}' || c == '\u{202f}'
        || c == '\u{205f}' || c == '\u{3000}'
}

/// `s` without its leading whitespace.
pub open spec fn trim_start_spec(s: Seq<char>) -> Seq<char>
    decreases s.len(),
{
    if s.len() > 0 && is_space_char(s[0]) {
        trim_start_spec(s.skip(1))
    } else {
        s
    }
}

/// `s` without its trailing whitespace.
pub open spec fn trim_end_spec(s: Seq<char>) -> Seq<char>
    decreases s.len(),
{
    if s.len() > 0 && is_space_char(s.last()) {
        trim_end_spec(s.drop_last())
    } else {
        s
    }
}

/// `s` without its leading and trailing whitespace.
pub open spec fn trim_spec(s: Seq<char>) -> Seq<char> {
    trim_end_spec(trim_start_spec(s))
}

/// Dropping the leading whitespace is dropping everything up to the first
/// non-space position.
proof fn lemma_trim_start_at(s: Seq<char>, i: int)
    requires
        0 <= i <= s.len(),
        forall|k: int| 0 <= k < i ==> is_space_char(s[k]),
        i == s.len() || !is_space_char(s[i]),
    ensures
        trim_start_spec(s) == s.skip(i),
    decreases i,
{
    if i == 0 {
        assert(s.skip(0) =~= s);
    } else {
        lemma_trim_start_at(s.skip(1), i - 1);
        assert(s.skip(1).skip(i - 1) =~= s.skip(i));
    }
}

/// Dropping the trailing whitespace is keeping everything up to the last
/// non-space position.
proof fn lemma_trim_end_at(s: Seq<char>, j: int)
    requires
        0 <= j <= s.len(),
        forall|k: int| j <= k < s.len() ==> is_space_char(s[k]),
        j == 0 || !is_space_char(s[j - 1]),
    ensures
        trim_end_spec(s) == s.take(j),
    decreases s.len() - j,
{
    if j == s.len() {
        assert(s.take(j) =~= s);
    } else {
        assert(is_space_char(s.last()));
        lemma_trim_end_at(s.drop_last(), j);
        assert(s.drop_last().take(j) =~= s.take(j));
    }
}

/// `s` without its leading and trailing whitespace.
pub fn trim<'a>(s: &'a str) -> (r: &'a str)
    ensures
        r@ == trim_spec(s@),
{
    let n = s.unicode_len();
    let mut i: usize = 0;
    while i < n && is_space(s.get_char(i))
        invariant
            n == s@.len(),
            i <= n,
            forall|k: int| 0 <= k < i ==> is_space_char(s@[k]),
        decreases n - i,
    {
        i += 1;
    }
    let mut j: usize = n;
    while j > i && is_space(s.get_char(j - 1))
        invariant
            n == s@.len(),
            i <= j <= n,
            forall|k: int| j <= k < n ==> is_space_char(s@[k]),
            i == n || !is_space_char(s@[i as int]),
            forall|k: int| 0 <= k < i ==> is_space_char(s@[k]),
        decreases j,
    {
        j -= 1;
    }
    proof {
        lemma_trim_start_at(s@, i as int);
        lemma_trim_end_at(s@.skip(i as int), j - i);
        assert(s@.skip(i as int).take(j - i) =~= s@.subrange(i as int, j as int));
    }
    s.substring_char(i, j)
}

/// A decimal digit.
pub open spec fn is_digit_char(c: char) -> bool {
    c == '0' || c == '1' || c == '2' || c == '3' || c == '4' || c == '5' || c == '6' || c == '7'
        || c == '8' || c == '9'
}

/// Whether `c` is a decimal digit.
pub fn is_digit(c: char) -> (b: bool)
    ensures
        b == is_digit_char(c),
{
    c == '0' || c == '1' || c == '2' || c == '3' || c == '4' || c == '5' || c == '6' || c == '7'
        || c == '8' || c == '9'
}

/// The value of a decimal digit.
pub open spec fn digit_value(c: char) -> nat {
    if c == '0' {
        0
    } else if c == '1' {
        1
    } else if c == '2' {
        2
    } else if c == '3' {
        3
    } else if c == '4' {
        4
    } else if c == '5' {
        5
    } else if c == '6' {
        6
    } else if c == '7' {
        7
    } else if c == '8' {
        8
    } else {
        9
    }
}

/// A non-empty, all-digit character sequence.
pub open spec fn is_digit_string(s: Seq<char>) -> bool {
    s.len() > 0 && forall|k: int| 0 <= k < s.len() ==> is_digit_char(s[k])
}

/// The number an all-digit sequence denotes, most significant digit first.
pub open spec fn decimal_value(s: Seq<char>) -> nat
    decreases s.len(),
{
    if s.len() == 0 {
        0
    } else {
        decimal_value(s.drop_last()) * 10 + digit_value(s.last())
    }
}

/// `s` without one optional leading plus sign.
pub open spec fn unsigned_digits(s: Seq<char>) -> Seq<char> {
    if s.len() > 0 && s[0] == '+' {
        s.skip(1)
    } else {
        s
    }
}

/// What reading `s` as an unsigned 32-bit decimal number yields: after an
/// optional leading `+`, a non-empty run of digits whose value fits.
pub open spec fn spec_parse_u32(s: Seq<char>) -> Option<u32> {
    let d = unsigned_digits(s);
    if is_digit_string(d) && decimal_value(d) <= u32::MAX {
        Some(decimal_value(d) as u32)
    } else {
        None
    }
}

/// The value of a digit sequence never falls below the value of any of its
/// prefixes.
proof fn lemma_decimal_value_prefix(s: Seq<char>, k: int)
    requires
        0 <= k <= s.len(),
    ensures
        decimal_value(s.take(k)) <= decimal_value(s),
    decreases s.len() - k,
{
    if k == s.len() {
        assert(s.take(k) =~= s);
    } else {
        assert(s.take(k + 1).drop_last() =~= s.take(k));
        assert(s.take(k + 1).last() == s[k]);
        lemma_decimal_value_prefix(s, k + 1);
    }
}

/// The value of a decimal digit, or nothing for any other character.
fn digit_of(c: char) -> (r: Option<u32>)
    ensures
        r is Some <==> is_digit_char(c),
        r matches Some(v) ==> v == digit_value(c),
{
    match c {
        '0' => Some(0),
        '1' => Some(1),
        '2' => Some(2),
        '3' => Some(3),
        '4' => Some(4),
        '5' => Some(5),
        '6' => Some(6),
        '7' => Some(7),
        '8' => Some(8),
        '9' => Some(9),
        _ => None,
    }
}

/// Reads `s` as an unsigned 32-bit decimal number, as
/// [`spec_parse_u32`] defines it.
pub fn parse_u32(s: &str) -> (r: Option<u32>)
    ensures
        r == spec_parse_u32(s@),
{
    let n = s.unicode_len();
    let mut i: usize = 0;
    if n > 0 && s.get_char(0) == '+' {
        i = 1;
    }
    let ghost d = unsigned_digits(s@);
    proof {
        if i == 1 {
            assert(d =~= s@.skip(1));
        } else {
            assert(d =~= s@.skip(0));
        }
    }
    if i == n {
        return None;
    }
    let mut acc: u64 = 0;
    let mut j: usize = i;
    while j < n
        invariant
            n == s@.len(),
            i <= j <= n,
            i < n,
            i <= 1,
            d == s@.skip(i as int),
            d == unsigned_digits(s@),
            d.len() == n - i,
            forall|k: int| 0 <= k < j - i ==> is_digit_char(d[k]),
            acc == decimal_value(d.take(j - i)),
            acc <= u32::MAX,
        decreases n - j,
    {
        let c = s.get_char(j);
        proof {
            assert(d[j - i] == s@[j as int]);
        }
        let dv = match digit_of(c) {
            Some(v) => v,
            None => {
                return None;
            },
        };
        proof {
            assert(d.take(j - i + 1).drop_last() =~= d.take(j - i));
            assert(d.take(j - i + 1).last() == d[j - i]);
        }
        let acc2: u64 = acc * 10 + dv as u64;
        if acc2 > u32::MAX as u64 {
            proof {
                lemma_decimal_value_prefix(d, j - i + 1);
            }
            return None;
        }
        acc = acc2;
        j += 1;
    }
    proof {
        assert(d.take(n - i) =~= d);
    }
    Some(acc as u32)
}

/// The product identifiers named by the command line: every argument after
/// the program name, trimmed, read as an unsigned decimal number. Every
/// such argument must be readable as one; the caller checks before.
pub fn extract_app_ids(args: &Vec<String>) -> (ids: Vec<u32>)
    requires
        args@.len() >= 1,
        forall|k: int| 1 <= k < args@.len() ==> spec_parse_u32(trim_spec(args@[k]@)) is Some,
    ensures
        ids@.len() == args@.len() - 1,
        forall|k: int|
            0 <= k < ids@.len() ==> Some(ids@[k]) == spec_parse_u32(trim_spec(args@[k + 1]@)),
{
    let n = args.len();
    let mut ids: Vec<u32> = Vec::new();
    let mut i: usize = 1;
    while i < n
        invariant
            n == args@.len(),
            1 <= i <= n,
            ids@.len() == i - 1,
            forall|k: int| 1 <= k < n ==> spec_parse_u32(trim_spec(args@[k]@)) is Some,
            forall|k: int|
                0 <= k < i - 1 ==> Some(ids@[k]) == spec_parse_u32(trim_spec(args@[k + 1]@)),
        decreases n - i,
    {
        let t = trim(args[i].as_str());
        match parse_u32(t) {
            Some(v) => {
                ids.push(v);
            },
            None => {
                proof {
                    assert(false);
                }
            },
        }
        i += 1;
    }
    ids
}

} // verus!

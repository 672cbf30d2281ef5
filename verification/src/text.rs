//! Characters and strings: whitespace trimming, ASCII digits and case, and
//! decimal numerals.

use vstd::prelude::*;

verus! {

/// The Unicode `White_Space` property, which `char::is_whitespace` and
/// `str::trim` go by.
pub open spec fn is_white_space(c: char) -> bool {
    ||| ('\u{9}' <= c && c <= '\u{d}')
    ||| c == ' '
    ||| c == '\u{85}'
    ||| c == '\u{a0}'
    ||| c == '\u{1680}'
    ||| ('\u{2000}' <= c && c <= '\u{200a}')
    ||| c == '\u{2028}'
    ||| c == '\u{2029}'
    ||| c == '\u{202f}'
    ||| c == '\u{205f}'
    ||| c == '\u{3000}'
}

pub fn white_space(c: char) -> (b: bool)
    ensures
        b == is_white_space(c),
{
    ('\u{9}' <= c && c <= '\u{d}') || c == ' ' || c == '\u{85}' || c == '\u{a0}' || c
        == '\u{1680}' || ('\u{2000}' <= c && c <= '\u{200a}') || c == '\u{2028}' || c
        == '\u{2029}' || c == '\u{202f}' || c == '\u{205f}' || c == '\u{3000}'
}

pub open spec fn is_ascii_digit(c: char) -> bool {
    '0' <= c && c <= '9'
}

/// The value of an ASCII digit.
pub open spec fn digit_value(c: char) -> nat {
    (c as int - '0' as int) as nat
}

/// The ASCII digit for a value below ten.
pub open spec fn digit_char(d: nat) -> char {
    (d + '0' as int) as char
}

pub fn digit_of(d: u64) -> (c: char)
    requires
        d < 10,
    ensures
        c == digit_char(d as nat),
        is_ascii_digit(c),
        digit_value(c) == d,
{
    let b: u8 = 48u8 + (d as u8);
    b as char
}

/// `s` without its leading whitespace.
pub open spec fn trim_start(s: Seq<char>) -> Seq<char>
    decreases s.len(),
{
    if s.len() > 0 && is_white_space(s[0]) {
        trim_start(s.drop_first())
    } else {
        s
    }
}

/// `s` without its trailing whitespace.
pub open spec fn trim_end(s: Seq<char>) -> Seq<char>
    decreases s.len(),
{
    if s.len() > 0 && is_white_space(s.last()) {
        trim_end(s.drop_last())
    } else {
        s
    }
}

/// `s` without leading and trailing whitespace, as `str::trim` gives it.
pub open spec fn trim(s: Seq<char>) -> Seq<char> {
    trim_end(trim_start(s))
}

/// The characters of a string slice.
pub fn chars_of(s: &str) -> (v: Vec<char>)
    ensures
        v@ == s@,
{
    let n = s.unicode_len();
    let mut v: Vec<char> = Vec::new();
    let mut i: usize = 0;
    while i < n
        invariant
            n == s@.len(),
            i <= n,
            v@ == s@.subrange(0, i as int),
        decreases n - i,
    {
        v.push(s.get_char(i));
        i = i + 1;
    }
    v
}

/// The bounds of the trimmed part of `s`: `s[start..end]` is `trim(s)`.
pub fn trim_bounds(s: &Vec<char>) -> (r: (usize, usize))
    ensures
        r.0 <= r.1 <= s@.len(),
        s@.subrange(r.0 as int, r.1 as int) == trim(s@),
{
    let n = s.len();
    let mut start: usize = 0;
    assert(s@.subrange(0, n as int) =~= s@);
    while start < n && white_space(s[start])
        invariant
            start <= n == s@.len(),
            trim_start(s@) == trim_start(s@.subrange(start as int, n as int)),
        decreases n - start,
    {
        assert(s@.subrange(start as int, n as int).drop_first() =~= s@.subrange(
            start + 1,
            n as int,
        ));
        start = start + 1;
    }
    assert(trim_start(s@) == s@.subrange(start as int, n as int));
    let mut end: usize = n;
    while end > start && white_space(s[end - 1])
        invariant
            start <= end <= n == s@.len(),
            trim(s@) == trim_end(s@.subrange(start as int, end as int)),
        decreases end - start,
    {
        assert(s@.subrange(start as int, end as int).drop_last() =~= s@.subrange(
            start as int,
            end - 1,
        ));
        end = end - 1;
    }
    (start, end)
}

/// Appends `c` to `s`.
///
/// Calls `String::push`, which the standard library documents as appending
/// the given char to the end of the string; the contract claims exactly that.
#[verifier::external_body]
fn push_char(s: &mut String, c: char)
    ensures
        final(s)@ == old(s)@.push(c),
{
    s.push(c)
}

/// Appends the characters `v[from..to]` to `out`.
pub fn push_chars(out: &mut String, v: &Vec<char>, from: usize, to: usize)
    requires
        from <= to <= v@.len(),
    ensures
        final(out)@ == old(out)@ + v@.subrange(from as int, to as int),
{
    let ghost start = out@;
    let mut i: usize = from;
    while i < to
        invariant
            from <= i <= to <= v@.len(),
            out@ == start + v@.subrange(from as int, i as int),
        decreases to - i,
    {
        push_char(out, v[i]);
        assert(v@.subrange(from as int, i + 1) =~= v@.subrange(from as int, i as int).push(
            v@[i as int],
        ));
        i = i + 1;
    }
}

/// The characters `v[from..to]` as a new string.
pub fn string_of(v: &Vec<char>, from: usize, to: usize) -> (res: String)
    requires
        from <= to <= v@.len(),
    ensures
        res@ == v@.subrange(from as int, to as int),
{
    let mut res = String::new();
    push_chars(&mut res, v, from, to);
    assert(Seq::<char>::empty() + v@.subrange(from as int, to as int) =~= v@.subrange(
        from as int,
        to as int,
    ));
    res
}

/// The decimal numeral of `n`, without leading zeros, as `u64::to_string`
/// writes it.
pub open spec fn decimal(n: nat) -> Seq<char>
    decreases n,
{
    if n < 10 {
        seq![digit_char(n)]
    } else {
        decimal(n / 10).push(digit_char(n % 10))
    }
}

/// Appends the decimal numeral of `n` to `out`.
pub fn push_decimal(out: &mut String, n: u64)
    ensures
        final(out)@ == old(out)@ + decimal(n as nat),
    decreases n,
{
    let ghost start = out@;
    if n >= 10 {
        push_decimal(out, n / 10);
    }
    push_char(out, digit_of(n % 10));
    if n >= 10 {
        assert(start + decimal(n as nat) =~= (start + decimal((n / 10) as nat)).push(
            digit_char((n % 10) as nat),
        ));
    } else {
        assert(start + decimal(n as nat) =~= start.push(digit_char(n as nat)));
    }
}

/// The decimal numeral of `n` as a new string.
pub fn decimal_string(n: u64) -> (res: String)
    ensures
        res@ == decimal(n as nat),
{
    let mut res = String::new();
    push_decimal(&mut res, n);
    assert(Seq::<char>::empty() + decimal(n as nat) =~= decimal(n as nat));
    res
}

/// The value of a numeral made of ASCII digits, most significant first.
pub open spec fn digits_value(d: Seq<char>) -> nat
    decreases d.len(),
{
    if d.len() == 0 {
        0
    } else {
        digits_value(d.drop_last()) * 10 + digit_value(d.last())
    }
}

/// The number of ASCII digits at the start of `s`.
pub open spec fn leading_digits(s: Seq<char>) -> nat
    decreases s.len(),
{
    if s.len() > 0 && is_ascii_digit(s[0]) {
        1 + leading_digits(s.drop_first())
    } else {
        0
    }
}

/// `c` with `a`..`z` mapped to `A`..`Z`, as `char::to_ascii_uppercase` does.
pub open spec fn ascii_upper(c: char) -> char {
    if 'a' <= c && c <= 'z' {
        (c as int - 32) as char
    } else {
        c
    }
}

/// `s` with each ASCII lower-case letter in upper case, as
/// `str::to_ascii_uppercase` gives it.
pub open spec fn ascii_uppercase(s: Seq<char>) -> Seq<char> {
    s.map_values(|c: char| ascii_upper(c))
}

/// `s` with each ASCII upper-case letter in lower case, as
/// `str::to_ascii_lowercase` gives it.
pub open spec fn ascii_lowercase(s: Seq<char>) -> Seq<char> {
    s.map_values(|c: char| ascii_lower(c))
}

/// `c` with `A`..`Z` mapped to `a`..`z`, as `char::to_ascii_lowercase` does.
pub open spec fn ascii_lower(c: char) -> char {
    if 'A' <= c && c <= 'Z' {
        (c as int + 32) as char
    } else {
        c
    }
}

pub fn upper_of(c: char) -> (u: char)
    ensures
        u == ascii_upper(c),
{
    if 'a' <= c && c <= 'z' {
        let b: u8 = (c as u8) - 32;
        b as char
    } else {
        c
    }
}

pub fn lower_of(c: char) -> (l: char)
    ensures
        l == ascii_lower(c),
{
    if 'A' <= c && c <= 'Z' {
        let b: u8 = (c as u8) + 32;
        b as char
    } else {
        c
    }
}

pub fn digit(c: char) -> (b: bool)
    ensures
        b == is_ascii_digit(c),
{
    '0' <= c && c <= '9'
}

pub fn value_of_digit(c: char) -> (d: u64)
    requires
        is_ascii_digit(c),
    ensures
        d == digit_value(c),
        d < 10,
{
    let b: u8 = (c as u8) - 48;
    b as u64
}

/// Appending a digit never makes a numeral's value smaller.
pub proof fn lemma_digits_value_push(d: Seq<char>, c: char)
    requires
        is_ascii_digit(c),
    ensures
        digits_value(d.push(c)) == digits_value(d) * 10 + digit_value(c),
        digits_value(d.push(c)) >= digits_value(d),
{
    assert(d.push(c).drop_last() =~= d);
}

/// If `s` starts with exactly `k` ASCII digits, `leading_digits(s)` is `k`.
pub proof fn lemma_leading_digits(s: Seq<char>, k: nat)
    requires
        k <= s.len(),
        forall|j: int| 0 <= j < k ==> is_ascii_digit(#[trigger] s[j]),
        k == s.len() || !is_ascii_digit(s[k as int]),
    ensures
        leading_digits(s) == k,
    decreases k,
{
    if k > 0 {
        let t = s.drop_first();
        assert forall|j: int| 0 <= j < k - 1 implies is_ascii_digit(#[trigger] t[j]) by {
            assert(t[j] == s[j + 1]);
        }
        lemma_leading_digits(t, (k - 1) as nat);
    }
}

/// `s` and `t` differ at most in the ASCII case of their letters.
pub open spec fn same_up_to_ascii_case(s: Seq<char>, t: Seq<char>) -> bool {
    &&& s.len() == t.len()
    &&& forall|j: int| 0 <= j < s.len() ==> ascii_upper(#[trigger] s[j]) == ascii_upper(t[j])
}

/// Two characters with the same upper case are both whitespace or neither,
/// both digits or neither, and equal when digits.
pub proof fn lemma_same_upper(a: char, b: char)
    requires
        ascii_upper(a) == ascii_upper(b),
    ensures
        is_white_space(a) == is_white_space(b),
        is_ascii_digit(a) == is_ascii_digit(b),
        is_ascii_digit(a) ==> a == b,
{
}

/// `trim_start` keeps two strings that differ only in ASCII case alike.
pub proof fn lemma_trim_start_same_up_to_ascii_case(s: Seq<char>, t: Seq<char>)
    requires
        same_up_to_ascii_case(s, t),
    ensures
        same_up_to_ascii_case(trim_start(s), trim_start(t)),
    decreases s.len(),
{
    if s.len() > 0 {
        lemma_same_upper(s[0], t[0]);
        let (s1, t1) = (s.drop_first(), t.drop_first());
        assert forall|j: int| 0 <= j < s1.len() implies ascii_upper(#[trigger] s1[j])
            == ascii_upper(t1[j]) by {
            assert(s1[j] == s[j + 1] && t1[j] == t[j + 1]);
        }
        lemma_trim_start_same_up_to_ascii_case(s1, t1);
    }
}

/// Trimming keeps two strings that differ only in ASCII case alike.
pub proof fn lemma_trim_same_up_to_ascii_case(s: Seq<char>, t: Seq<char>)
    requires
        same_up_to_ascii_case(s, t),
    ensures
        same_up_to_ascii_case(trim(s), trim(t)),
{
    lemma_trim_start_same_up_to_ascii_case(s, t);
    lemma_trim_end_same_up_to_ascii_case(trim_start(s), trim_start(t));
}

/// `trim_end` keeps two strings that differ only in ASCII case alike.
pub proof fn lemma_trim_end_same_up_to_ascii_case(s: Seq<char>, t: Seq<char>)
    requires
        same_up_to_ascii_case(s, t),
    ensures
        same_up_to_ascii_case(trim_end(s), trim_end(t)),
    decreases s.len(),
{
    if s.len() > 0 {
        lemma_same_upper(s.last(), t.last());
        let (s2, t2) = (s.drop_last(), t.drop_last());
        assert forall|j: int| 0 <= j < s2.len() implies ascii_upper(#[trigger] s2[j])
            == ascii_upper(t2[j]) by {
            assert(s2[j] == s[j] && t2[j] == t[j]);
        }
        lemma_trim_end_same_up_to_ascii_case(s2, t2);
    }
}

/// The first `leading_digits(s)` characters of `s` are ASCII digits, and
/// the one after them, if any, is not.
pub proof fn lemma_leading_digits_are_digits(s: Seq<char>)
    ensures
        leading_digits(s) <= s.len(),
        forall|j: int| 0 <= j < leading_digits(s) ==> is_ascii_digit(#[trigger] s[j]),
        leading_digits(s) < s.len() ==> !is_ascii_digit(s[leading_digits(s) as int]),
    decreases s.len(),
{
    if s.len() > 0 && is_ascii_digit(s[0]) {
        let t = s.drop_first();
        lemma_leading_digits_are_digits(t);
        assert forall|j: int| 0 <= j < leading_digits(s) implies is_ascii_digit(#[trigger] s[j]) by {
            if j > 0 {
                assert(s[j] == t[j - 1]);
            }
        }
    }
}

/// Strings that differ only in ASCII case start with the same digits.
pub proof fn lemma_leading_digits_same_up_to_ascii_case(s: Seq<char>, t: Seq<char>)
    requires
        same_up_to_ascii_case(s, t),
    ensures
        leading_digits(s) == leading_digits(t),
        s.take(leading_digits(s) as int) == t.take(leading_digits(t) as int),
{
    lemma_leading_digits_are_digits(s);
    let k = leading_digits(s);
    assert forall|j: int| 0 <= j < k implies is_ascii_digit(#[trigger] t[j]) by {
        lemma_same_upper(s[j], t[j]);
    }
    if k < s.len() {
        lemma_same_upper(s[k as int], t[k as int]);
    }
    lemma_leading_digits(t, k);
    assert forall|j: int| 0 <= j < k implies #[trigger] s.take(k as int)[j] == t.take(
        k as int,
    )[j] by {
        lemma_same_upper(s[j], t[j]);
    }
    assert(s.take(k as int) =~= t.take(k as int));
}

/// Every character of `s` is whitespace.
pub open spec fn all_white_space(s: Seq<char>) -> bool {
    forall|j: int| 0 <= j < s.len() ==> is_white_space(#[trigger] s[j])
}

/// Whitespace put in front of a string is dropped by `trim_start`.
pub proof fn lemma_trim_start_after_white_space(a: Seq<char>, s: Seq<char>)
    requires
        all_white_space(a),
    ensures
        trim_start(a + s) == trim_start(s),
    decreases a.len(),
{
    if a.len() == 0 {
        assert(a + s =~= s);
    } else {
        assert((a + s)[0] == a[0]);
        assert((a + s).drop_first() =~= a.drop_first() + s);
        assert forall|j: int| 0 <= j < a.drop_first().len() implies is_white_space(
            #[trigger] a.drop_first()[j],
        ) by {
            assert(a.drop_first()[j] == a[j + 1]);
        }
        lemma_trim_start_after_white_space(a.drop_first(), s);
    }
}

/// Whitespace put after a string is dropped by `trim_end`.
pub proof fn lemma_trim_end_before_white_space(s: Seq<char>, b: Seq<char>)
    requires
        all_white_space(b),
    ensures
        trim_end(s + b) == trim_end(s),
    decreases b.len(),
{
    if b.len() == 0 {
        assert(s + b =~= s);
    } else {
        assert((s + b).last() == b.last());
        assert((s + b).drop_last() =~= s + b.drop_last());
        lemma_trim_end_before_white_space(s, b.drop_last());
    }
}

/// `trim_start` of `s + b`: when something of `s` survives, `b` is kept
/// whole after it; otherwise only `trim_start(b)` remains.
pub proof fn lemma_trim_start_append(s: Seq<char>, b: Seq<char>)
    ensures
        trim_start(s).len() > 0 ==> trim_start(s + b) == trim_start(s) + b,
        trim_start(s).len() == 0 ==> trim_start(s + b) == trim_start(b),
    decreases s.len(),
{
    if s.len() == 0 {
        assert(s + b =~= b);
    } else {
        assert((s + b)[0] == s[0]);
        if is_white_space(s[0]) {
            assert((s + b).drop_first() =~= s.drop_first() + b);
            lemma_trim_start_append(s.drop_first(), b);
        }
    }
}

/// Whitespace around a string does not change how it trims.
pub proof fn lemma_trim_surrounded(a: Seq<char>, s: Seq<char>, b: Seq<char>)
    requires
        all_white_space(a),
        all_white_space(b),
    ensures
        trim(a + s + b) == trim(s),
{
    assert(a + s + b =~= a + (s + b));
    lemma_trim_start_after_white_space(a, s + b);
    lemma_trim_start_append(s, b);
    if trim_start(s).len() > 0 {
        lemma_trim_end_before_white_space(trim_start(s), b);
    } else {
        lemma_trim_start_after_white_space(b, Seq::<char>::empty());
        assert(b + Seq::<char>::empty() =~= b);
        assert(trim_start(b) =~= Seq::<char>::empty());
        assert(trim_start(s) =~= Seq::<char>::empty());
    }
}

/// The decimal numeral of `n` is a non-empty run of ASCII digits whose
/// value is `n`.
pub proof fn lemma_decimal_digits(n: nat)
    ensures
        decimal(n).len() > 0,
        forall|j: int| 0 <= j < decimal(n).len() ==> is_ascii_digit(#[trigger] decimal(n)[j]),
        digits_value(decimal(n)) == n,
    decreases n,
{
    if n < 10 {
        assert(decimal(n).drop_last() =~= Seq::<char>::empty());
        assert(digit_value(digit_char(n)) == n);
        assert(decimal(n).last() == digit_char(n));
        assert(digits_value(Seq::<char>::empty()) == 0);
        assert(digits_value(decimal(n)) == n);
    } else {
        lemma_decimal_digits(n / 10);
        let p = decimal(n / 10);
        assert(decimal(n).drop_last() =~= p);
        assert(digit_value(digit_char(n % 10)) == n % 10);
        assert(n == (n / 10) * 10 + n % 10);
        assert(decimal(n).last() == digit_char(n % 10));
        assert(digits_value(decimal(n)) == n);
        assert forall|j: int| 0 <= j < decimal(n).len() implies is_ascii_digit(
            #[trigger] decimal(n)[j],
        ) by {
            if j < p.len() {
                assert(decimal(n)[j] == p[j]);
            }
        }
    }
}

/// Reads the ASCII digits at the start of `v[from..to]`: returns where they
/// end, and their value when it fits in a `u64` (as `u64::from_str` reads
/// them).
pub fn read_digits(v: &Vec<char>, from: usize, to: usize) -> (r: (usize, Option<u64>))
    requires
        from <= to <= v@.len(),
    ensures
        from <= r.0 <= to,
        r.0 - from == leading_digits(v@.subrange(from as int, to as int)),
        ({
            let d = v@.subrange(from as int, r.0 as int);
            if digits_value(d) <= u64::MAX {
                r.1 == Some(digits_value(d) as u64)
            } else {
                r.1 is None
            }
        }),
{
    let ghost t = v@.subrange(from as int, to as int);
    let mut i: usize = from;
    let mut num: u64 = 0;
    let mut overflow = false;
    while i < to && digit(v[i])
        invariant
            from <= i <= to <= v@.len(),
            t == v@.subrange(from as int, to as int),
            forall|j: int| from <= j < i ==> is_ascii_digit(#[trigger] v@[j]),
            overflow ==> digits_value(v@.subrange(from as int, i as int)) > u64::MAX,
            !overflow ==> num == digits_value(v@.subrange(from as int, i as int)),
        decreases to - i,
    {
        let c = v[i];
        proof {
            assert(v@.subrange(from as int, i + 1) =~= v@.subrange(from as int, i as int).push(c));
            lemma_digits_value_push(v@.subrange(from as int, i as int), c);
        }
        if !overflow {
            match num.checked_mul(10) {
                Some(tens) => match tens.checked_add(value_of_digit(c)) {
                    Some(n) => {
                        num = n;
                    },
                    None => {
                        overflow = true;
                    },
                },
                None => {
                    overflow = true;
                },
            }
        }
        i = i + 1;
    }
    proof {
        let k = (i - from) as nat;
        assert forall|j: int| 0 <= j < k implies is_ascii_digit(#[trigger] t[j]) by {
            assert(t[j] == v@[from + j]);
        }
        lemma_leading_digits(t, k);
    }
    if overflow {
        (i, None)
    } else {
        (i, Some(num))
    }
}

/// `before`, then `middle`, then `after`, as one new string.
pub fn framed(before: &str, middle: &str, after: &str) -> (res: String)
    ensures
        res@ == before@ + middle@ + after@,
{
    let mut res = String::from_str(before);
    res.append(middle);
    res.append(after);
    res
}

} // verus!

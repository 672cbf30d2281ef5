//! Block sizes: plain byte counts or numbers with a binary suffix
//! (K/KB/KiB, M/MB/MiB, G/GB/GiB, case-insensitive, powers of 1024).

use vstd::prelude::*;
use crate::text::{
    all_white_space, ascii_upper, ascii_uppercase, chars_of, decimal, digits_value, framed,
    is_ascii_digit, is_white_space, leading_digits, lemma_decimal_digits, lemma_leading_digits,
    lemma_leading_digits_are_digits, lemma_leading_digits_same_up_to_ascii_case,
    lemma_trim_same_up_to_ascii_case, lemma_trim_surrounded, read_digits, same_up_to_ascii_case,
    string_of, trim, trim_bounds, trim_start, upper_of,
};

verus! {

/// Why a block size was refused, over the characters involved.
pub enum SizeFault {
    /// The trimmed input does not start with a digit.
    NoNumber(Seq<char>),
    /// The leading digits name a number above `u64::MAX`.
    InvalidNumber(Seq<char>),
    /// The suffix (in upper case) is not one of the accepted units.
    UnknownSuffix(Seq<char>),
    /// The number times its unit exceeds `u64::MAX` (the trimmed input).
    Overflow(Seq<char>),
    /// The byte count does not fit in `usize` (the trimmed input).
    TooLarge(Seq<char>),
}

/// Why a block size was refused.
#[derive(Debug)]
pub enum SizeError {
    /// No numeric value in the trimmed input, which it holds.
    NoNumber(String),
    /// The leading digits, which could not be read as a `u64`.
    InvalidNumber(String),
    /// The unknown suffix, in upper case.
    UnknownSuffix(String),
    /// The trimmed input, whose size overflows `u64`.
    Overflow(String),
    /// The trimmed input, whose size is too large for this platform.
    TooLarge(String),
}

impl View for SizeError {
    type V = SizeFault;

    open spec fn view(&self) -> SizeFault {
        match self {
            SizeError::NoNumber(s) => SizeFault::NoNumber(s@),
            SizeError::InvalidNumber(s) => SizeFault::InvalidNumber(s@),
            SizeError::UnknownSuffix(s) => SizeFault::UnknownSuffix(s@),
            SizeError::Overflow(s) => SizeFault::Overflow(s@),
            SizeError::TooLarge(s) => SizeFault::TooLarge(s@),
        }
    }
}

/// The number of bytes a unit suffix (already in upper case) stands for.
pub open spec fn unit_multiplier(u: Seq<char>) -> Option<nat> {
    if u.len() == 0 || u == seq!['B'] {
        Some(1)
    } else if u == seq!['K'] || u == seq!['K', 'B'] || u == seq!['K', 'I', 'B'] {
        Some(1024)
    } else if u == seq!['M'] || u == seq!['M', 'B'] || u == seq!['M', 'I', 'B'] {
        Some(1024 * 1024)
    } else if u == seq!['G'] || u == seq!['G', 'B'] || u == seq!['G', 'I', 'B'] {
        Some(1024 * 1024 * 1024)
    } else {
        None
    }
}

/// What a block size written as `s` stands for: the input is trimmed, split
/// after its leading ASCII digits into a number and a suffix, and the number
/// is scaled by the unit that the suffix names, ignoring ASCII case.
pub open spec fn size_value(s: Seq<char>) -> Result<nat, SizeFault> {
    let t = trim(s);
    let k = leading_digits(t);
    let digits = t.take(k as int);
    let unit = ascii_uppercase(t.skip(k as int));
    if k == 0 {
        Err(SizeFault::NoNumber(t))
    } else if digits_value(digits) > u64::MAX {
        Err(SizeFault::InvalidNumber(digits))
    } else {
        match unit_multiplier(unit) {
            None => Err(SizeFault::UnknownSuffix(unit)),
            Some(m) => {
                if digits_value(digits) * m > u64::MAX {
                    Err(SizeFault::Overflow(t))
                } else if digits_value(digits) * m > usize::MAX {
                    Err(SizeFault::TooLarge(t))
                } else {
                    Ok(digits_value(digits) * m)
                }
            },
        }
    }
}

/// The multiplier of an upper-case unit suffix, as `unit_multiplier` says.
fn multiplier_of(u: &Vec<char>) -> (m: Option<u64>)
    ensures
        match m {
            Some(m) => unit_multiplier(u@) == Some(m as nat),
            None => unit_multiplier(u@) is None,
        },
{
    let n = u.len();
    if n == 0 {
        assert(u@.len() == 0);
        return Some(1);
    }
    let scale: u64 = if u[0] == 'B' && n == 1 {
        1
    } else if u[0] == 'K' {
        1024
    } else if u[0] == 'M' {
        1024 * 1024
    } else if u[0] == 'G' {
        1024 * 1024 * 1024
    } else {
        0
    };
    if scale == 0 {
        assert(unit_multiplier(u@) is None);
        return None;
    }
    if n == 1 {
        if scale == 1 {
            assert(u@ =~= seq!['B']);
        } else if scale == 1024 {
            assert(u@ =~= seq!['K']);
        } else if scale == 1024 * 1024 {
            assert(u@ =~= seq!['M']);
        } else {
            assert(u@ =~= seq!['G']);
        }
        Some(scale)
    } else if n == 2 && u[1] == 'B' {
        if scale == 1024 {
            assert(u@ =~= seq!['K', 'B']);
        } else if scale == 1024 * 1024 {
            assert(u@ =~= seq!['M', 'B']);
        } else {
            assert(u@ =~= seq!['G', 'B']);
        }
        Some(scale)
    } else if n == 3 && u[1] == 'I' && u[2] == 'B' {
        if scale == 1024 {
            assert(u@ =~= seq!['K', 'I', 'B']);
        } else if scale == 1024 * 1024 {
            assert(u@ =~= seq!['M', 'I', 'B']);
        } else {
            assert(u@ =~= seq!['G', 'I', 'B']);
        }
        Some(scale)
    } else {
        None
    }
}

/// Parses a block size: plain bytes, or a number with one of the suffixes
/// K/KB/KiB, M/MB/MiB, G/GB/GiB (case-insensitive, powers of 1024), with
/// whitespace around it ignored.
pub fn parse_size(s: &str) -> (r: Result<usize, SizeError>)
    ensures
        match r {
            Ok(n) => size_value(s@) == Ok::<nat, SizeFault>(n as nat),
            Err(e) => size_value(s@) == Err::<nat, SizeFault>(e@),
        },
{
    let chars = chars_of(s);
    let (start, end) = trim_bounds(&chars);
    let ghost t = chars@.subrange(start as int, end as int);
    let (i, num) = read_digits(&chars, start, end);
    let ghost k = (i - start) as nat;
    assert(t.take(k as int) =~= chars@.subrange(start as int, i as int));
    if i == start {
        return Err(SizeError::NoNumber(string_of(&chars, start, end)));
    }
    if num.is_none() {
        return Err(SizeError::InvalidNumber(string_of(&chars, start, i)));
    }
    let mut unit: Vec<char> = Vec::new();
    let mut j: usize = i;
    while j < end
        invariant
            i <= j <= end <= chars@.len(),
            unit@ == ascii_uppercase(chars@.subrange(i as int, j as int)),
        decreases end - j,
    {
        unit.push(upper_of(chars[j]));
        assert(ascii_uppercase(chars@.subrange(i as int, j + 1)) =~= ascii_uppercase(
            chars@.subrange(i as int, j as int),
        ).push(ascii_upper(chars@[j as int])));
        j = j + 1;
    }
    assert(t.skip(k as int) =~= chars@.subrange(i as int, end as int));
    let m = match multiplier_of(&unit) {
        Some(m) => m,
        None => {
            let u = string_of(&unit, 0, unit.len());
            assert(unit@.subrange(0, unit@.len() as int) =~= unit@);
            return Err(SizeError::UnknownSuffix(u));
        },
    };
    let num = num.unwrap();
    match num.checked_mul(m) {
        None => Err(SizeError::Overflow(string_of(&chars, start, end))),
        Some(bytes) => {
            if bytes > usize::MAX as u64 {
                Err(SizeError::TooLarge(string_of(&chars, start, end)))
            } else {
                Ok(bytes as usize)
            }
        },
    }
}

/// The letters of a block size may be written in either case: two inputs
/// that differ only in the ASCII case of their letters are both accepted or
/// both refused, and when accepted they stand for the same number of bytes.
pub proof fn lemma_size_ignores_ascii_case(s: Seq<char>, t: Seq<char>)
    requires
        same_up_to_ascii_case(s, t),
    ensures
        size_value(s) is Ok <==> size_value(t) is Ok,
        size_value(s) is Ok ==> size_value(s) == size_value(t),
{
    lemma_trim_same_up_to_ascii_case(s, t);
    let (x, y) = (trim(s), trim(t));
    lemma_leading_digits_same_up_to_ascii_case(x, y);
    let k = leading_digits(x);
    lemma_leading_digits_are_digits(x);
    assert(ascii_uppercase(x.skip(k as int)) =~= ascii_uppercase(y.skip(k as int))) by {
        let (xs, ys) = (x.skip(k as int), y.skip(k as int));
        assert forall|j: int| 0 <= j < xs.len() implies #[trigger] ascii_uppercase(xs)[j]
            == ascii_uppercase(ys)[j] by {
            assert(xs[j] == x[j + k] && ys[j] == y[j + k]);
            assert(ascii_upper(x[j + k]) == ascii_upper(y[j + k]));
        }
    }
}

/// Whitespace before and after a block size is ignored: the input means
/// exactly what it means without it.
pub proof fn lemma_size_ignores_surrounding_white_space(a: Seq<char>, s: Seq<char>, b: Seq<char>)
    requires
        all_white_space(a),
        all_white_space(b),
    ensures
        size_value(a + s + b) == size_value(s),
{
    lemma_trim_surrounded(a, s, b);
}

/// Every character of an accepted unit suffix is an ASCII letter.
proof fn lemma_unit_is_letters(u: Seq<char>)
    requires
        unit_multiplier(ascii_uppercase(u)) is Some,
    ensures
        forall|j: int| 0 <= j < u.len() ==> {
            let c = #[trigger] u[j];
            !is_white_space(c) && !is_ascii_digit(c)
        },
{
    let v = ascii_uppercase(u);
    assert(v.len() <= 3);
    assert forall|j: int| 0 <= j < u.len() implies 'A' <= #[trigger] v[j] <= 'Z' by {
        if j == 0 {
        } else if j == 1 {
        } else {
        }
    }
    assert forall|j: int| 0 <= j < u.len() implies {
        let c = #[trigger] u[j];
        !is_white_space(c) && !is_ascii_digit(c)
    } by {
        assert(v[j] == ascii_upper(u[j]));
    }
}

/// A numeral followed by one of the accepted unit suffixes stands for the
/// numeral's value times the unit: 1 for none or `B`, 1024 for `K`, `KB`,
/// `KiB`, 1024² for `M`, `MB`, `MiB`, 1024³ for `G`, `GB`, `GiB`, in any
/// ASCII case, whenever the product fits.
pub proof fn lemma_size_of_number_with_unit(d: Seq<char>, u: Seq<char>)
    requires
        d.len() > 0,
        forall|j: int| 0 <= j < d.len() ==> is_ascii_digit(#[trigger] d[j]),
        unit_multiplier(ascii_uppercase(u)) is Some,
        digits_value(d) * unit_multiplier(ascii_uppercase(u))->0 <= usize::MAX,
    ensures
        size_value(d + u) == Ok::<nat, SizeFault>(
            digits_value(d) * unit_multiplier(ascii_uppercase(u))->0,
        ),
{
    let x = d + u;
    lemma_unit_is_letters(u);
    assert(x[0] == d[0]);
    if u.len() > 0 {
        assert(x.last() == u.last());
    } else {
        assert(x.last() == d.last());
    }
    assert(trim_start(x) == x);
    assert(trim(x) == x);
    if d.len() < x.len() {
        assert(x[d.len() as int] == u[0]);
    }
    assert forall|j: int| 0 <= j < d.len() implies is_ascii_digit(#[trigger] x[j]) by {
        assert(x[j] == d[j]);
    }
    lemma_leading_digits(x, d.len());
    assert(x.take(d.len() as int) =~= d);
    assert(x.skip(d.len() as int) =~= u);
    let m = unit_multiplier(ascii_uppercase(u))->0;
    assert(m >= 1);
    assert(digits_value(d) <= digits_value(d) * m) by (nonlinear_arith)
        requires
            m >= 1,
    ;
}

/// A plain decimal byte count, as `u64::to_string` writes it, reads back as
/// itself whenever it fits in `usize`.
pub proof fn lemma_size_of_plain_number(n: nat)
    requires
        n <= usize::MAX,
    ensures
        size_value(decimal(n)) == Ok::<nat, SizeFault>(n),
{
    lemma_decimal_digits(n);
    let e = Seq::<char>::empty();
    assert(ascii_uppercase(e) =~= e);
    assert(decimal(n) + e =~= decimal(n));
    lemma_size_of_number_with_unit(decimal(n), e);
}

/// The text that reports a refused block size on the command line.
pub open spec fn fault_message(f: SizeFault) -> Seq<char> {
    match f {
        SizeFault::NoNumber(t) => "No numeric value found in '"@ + t + "'"@,
        SizeFault::InvalidNumber(d) => "Could not parse '"@ + d + "' as a number"@,
        SizeFault::UnknownSuffix(u) => "Unknown size suffix: '"@ + u + "'"@,
        SizeFault::Overflow(t) => "Size overflows u64: "@ + t + ""@,
        SizeFault::TooLarge(t) => "Block size "@ + t + " is too large for this platform"@,
    }
}

impl SizeError {
    /// The text that reports this error on the command line.
    pub fn message(&self) -> (m: String)
        ensures
            m@ == fault_message(self@),
    {
        match self {
            SizeError::NoNumber(t) => framed("No numeric value found in '", t.as_str(), "'"),
            SizeError::InvalidNumber(d) => framed("Could not parse '", d.as_str(), "' as a number"),
            SizeError::UnknownSuffix(u) => framed("Unknown size suffix: '", u.as_str(), "'"),
            SizeError::Overflow(t) => framed("Size overflows u64: ", t.as_str(), ""),
            SizeError::TooLarge(t) => framed(
                "Block size ",
                t.as_str(),
                " is too large for this platform",
            ),
        }
    }
}

} // verus!

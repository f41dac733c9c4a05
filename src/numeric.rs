//! Operand text: what a signed 64-bit numeral is, and how it is read.
use vstd::prelude::*;
use crate::text::{chars_of, trim, trim_bounds};

verus! {

/// Whether `c` is an ASCII decimal digit.
pub open spec fn is_digit(c: char) -> bool {
    '0' <= c && c <= '9'
}

/// The value of the decimal digit `c`.
pub open spec fn digit_value(c: char) -> int {
    (c as u32) - ('0' as u32)
}

/// Whether `d` is a non-empty run of decimal digits.
pub open spec fn is_digit_run(d: Seq<char>) -> bool {
    d.len() > 0 && forall|i: int| 0 <= i < d.len() ==> is_digit(#[trigger] d[i])
}

/// The value of the decimal digits `d`, most significant first.
pub open spec fn digits_value(d: Seq<char>) -> int
    decreases d.len(),
{
    if d.len() == 0 {
        0
    } else {
        digits_value(d.drop_last()) * 10 + digit_value(d.last())
    }
}

/// Whether `t` starts with a sign character.
pub open spec fn has_sign(t: Seq<char>) -> bool {
    t.len() > 0 && (t[0] == '+' || t[0] == '-')
}

/// The digits of the numeral `t`, past its sign if it has one.
pub open spec fn numeral_digits(t: Seq<char>) -> Seq<char> {
    if has_sign(t) {
        t.drop_first()
    } else {
        t
    }
}

/// Whether `t` is an optionally signed, non-empty run of decimal digits.
pub open spec fn is_numeral(t: Seq<char>) -> bool {
    is_digit_run(numeral_digits(t))
}

/// The value that the numeral `t` denotes.
pub open spec fn numeral_value(t: Seq<char>) -> int {
    if t.len() > 0 && t[0] == '-' {
        -digits_value(numeral_digits(t))
    } else {
        digits_value(numeral_digits(t))
    }
}

/// Whether `x` is representable as a signed 64-bit integer.
pub open spec fn fits_i64(x: int) -> bool {
    i64::MIN <= x <= i64::MAX
}

/// Whether `s`, once trimmed, is a numeral whose value fits in 64 bits.
pub open spec fn is_valid_numeric(s: Seq<char>) -> bool {
    is_numeral(trim(s)) && fits_i64(numeral_value(trim(s)))
}

/// The operand that the text `s` denotes, if it is valid.
pub open spec fn operand_of(s: Seq<char>) -> Option<i64> {
    if is_valid_numeric(s) {
        Some(numeral_value(trim(s)) as i64)
    } else {
        None
    }
}

/// A run of digits has a value of at least zero.
pub proof fn lemma_digits_value_nonneg(d: Seq<char>)
    requires
        forall|i: int| 0 <= i < d.len() ==> is_digit(#[trigger] d[i]),
    ensures
        digits_value(d) >= 0,
    decreases d.len(),
{
    if d.len() > 0 {
        lemma_digits_value_nonneg(d.drop_last());
    }
}

/// Extending a run of digits never makes its value smaller.
pub proof fn lemma_digits_value_prefix(d: Seq<char>, k: int)
    requires
        0 <= k <= d.len(),
        forall|i: int| 0 <= i < d.len() ==> is_digit(#[trigger] d[i]),
    ensures
        digits_value(d.take(k)) <= digits_value(d),
    decreases d.len(),
{
    if k < d.len() {
        assert(d.drop_last().take(k) =~= d.take(k));
        lemma_digits_value_prefix(d.drop_last(), k);
        lemma_digits_value_nonneg(d.drop_last());
    } else {
        assert(d.take(k) =~= d);
    }
}

/// The value of the digits `v[lo..hi]`, negated when `negative`, if it fits
/// in 64 bits.
fn digits_to_i64(v: &Vec<char>, lo: usize, hi: usize, negative: bool) -> (r: Option<i64>)
    requires
        lo <= hi <= v.len(),
        forall|i: int| lo <= i < hi ==> is_digit(#[trigger] v@[i]),
    ensures
        ({
            let x = if negative {
                -digits_value(v@.subrange(lo as int, hi as int))
            } else {
                digits_value(v@.subrange(lo as int, hi as int))
            };
            r == if fits_i64(x) {
                Some(x as i64)
            } else {
                None::<i64>
            }
        }),
{
    let ghost d = v@.subrange(lo as int, hi as int);
    let mut acc: i64 = 0;
    let mut i: usize = lo;
    assert(v@.subrange(lo as int, lo as int) =~= Seq::<char>::empty());
    while i < hi
        invariant
            lo <= i <= hi <= v.len(),
            d == v@.subrange(lo as int, hi as int),
            forall|j: int| lo <= j < hi ==> is_digit(#[trigger] v@[j]),
            acc == if negative {
                -digits_value(v@.subrange(lo as int, i as int))
            } else {
                digits_value(v@.subrange(lo as int, i as int))
            },
        decreases hi - i,
    {
        let ghost before = v@.subrange(lo as int, i as int);
        let ghost after = v@.subrange(lo as int, i + 1);
        assert(after.drop_last() =~= before);
        assert(d.take(i + 1 - lo) =~= after);
        assert(is_digit(v@[i as int]));
        let dv: i64 = ((v[i] as u32) - ('0' as u32)) as i64;
        let next = match acc.checked_mul(10) {
            Some(m) => if negative {
                m.checked_sub(dv)
            } else {
                m.checked_add(dv)
            },
            None => None,
        };
        match next {
            Some(n) => {
                acc = n;
            },
            None => {
                proof {
                    lemma_digits_value_nonneg(before);
                    lemma_digits_value_prefix(d, i + 1 - lo);
                }
                return None;
            },
        }
        i = i + 1;
    }
    Some(acc)
}

/// Reads the operand that `input` denotes: `Some` exactly when, trimmed, it
/// is an optionally signed run of decimal digits whose value fits in 64 bits.
pub fn parse_operand(input: &str) -> (r: Option<i64>)
    ensures
        r == operand_of(input@),
{
    let v = chars_of(input);
    let (lo, hi) = trim_bounds(&v);
    let ghost t = v@.subrange(lo as int, hi as int);
    if lo == hi {
        return None;
    }
    let negative = v[lo] == '-';
    let start: usize = if v[lo] == '+' || v[lo] == '-' { lo + 1 } else { lo };
    assert(numeral_digits(t) =~= v@.subrange(start as int, hi as int));
    if start == hi {
        return None;
    }
    let mut i: usize = start;
    while i < hi
        invariant
            start <= i <= hi <= v.len(),
            t == trim(input@),
            numeral_digits(t) == v@.subrange(start as int, hi as int),
            forall|j: int| start <= j < i ==> is_digit(#[trigger] v@[j]),
        decreases hi - i,
    {
        if !('0' <= v[i] && v[i] <= '9') {
            assert(!is_digit(numeral_digits(t)[i - start]));
            return None;
        }
        i = i + 1;
    }
    digits_to_i64(&v, start, hi, negative)
}

/// Whether `input`, trimmed, is a valid signed 64-bit integer.
pub fn verify_numeric_input(input: &str) -> (r: bool)
    ensures
        r == is_valid_numeric(input@),
{
    parse_operand(input).is_some()
}

/// The operand that `input` denotes, or 0 where it denotes none.
pub fn transform_input(input: &str) -> (r: i64)
    ensures
        r == match operand_of(input@) {
            Some(x) => x,
            None => 0,
        },
{
    match parse_operand(input) {
        Some(x) => x,
        None => 0,
    }
}

} // verus!

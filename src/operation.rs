//! The five operations: how their names are recognised and what each computes.
use vstd::prelude::*;
use crate::numeric::fits_i64;
use crate::text::{ascii_upper, chars_of, trim, trim_bounds, upper_equals};

verus! {

/// One of the calculator's operations.
#[derive(Clone, Copy, Debug, PartialEq, Eq, Structural)]
pub enum Operation {
    Addition,
    Subtraction,
    Multiplication,
    Division,
    Modulo,
}

impl Operation {
    /// The upper-case name under which the operation is chosen.
    pub open spec fn name(self) -> Seq<char> {
        match self {
            Operation::Addition => seq!['A', 'D', 'D', 'I', 'T', 'I', 'O', 'N'],
            Operation::Subtraction => seq![
                'S', 'U', 'B', 'T', 'R', 'A', 'C', 'T', 'I', 'O', 'N',
            ],
            Operation::Multiplication => seq![
                'M', 'U', 'L', 'T', 'I', 'P', 'L', 'I', 'C', 'A', 'T', 'I', 'O', 'N',
            ],
            Operation::Division => seq!['D', 'I', 'V', 'I', 'S', 'I', 'O', 'N'],
            Operation::Modulo => seq!['M', 'O', 'D', 'U', 'L', 'O'],
        }
    }

    /// The upper-case name of the operation, as text.
    pub fn name_text(self) -> (r: &'static str)
        ensures
            r@ == self.name(),
    {
        match self {
            Operation::Addition => {
                proof {
                    reveal_strlit("ADDITION");
                }
                assert("ADDITION"@ =~= self.name());
                "ADDITION"
            },
            Operation::Subtraction => {
                proof {
                    reveal_strlit("SUBTRACTION");
                }
                assert("SUBTRACTION"@ =~= self.name());
                "SUBTRACTION"
            },
            Operation::Multiplication => {
                proof {
                    reveal_strlit("MULTIPLICATION");
                }
                assert("MULTIPLICATION"@ =~= self.name());
                "MULTIPLICATION"
            },
            Operation::Division => {
                proof {
                    reveal_strlit("DIVISION");
                }
                assert("DIVISION"@ =~= self.name());
                "DIVISION"
            },
            Operation::Modulo => {
                proof {
                    reveal_strlit("MODULO");
                }
                assert("MODULO"@ =~= self.name());
                "MODULO"
            },
        }
    }
}

/// The operation that the text `s` names: trimmed and upper-cased, it must be
/// exactly one of the five names.
pub open spec fn operation_of(s: Seq<char>) -> Option<Operation> {
    let u = ascii_upper(trim(s));
    if u == Operation::Addition.name() {
        Some(Operation::Addition)
    } else if u == Operation::Subtraction.name() {
        Some(Operation::Subtraction)
    } else if u == Operation::Multiplication.name() {
        Some(Operation::Multiplication)
    } else if u == Operation::Division.name() {
        Some(Operation::Division)
    } else if u == Operation::Modulo.name() {
        Some(Operation::Modulo)
    } else {
        None
    }
}

/// Whether the text `s` names one of the five operations.
pub open spec fn is_valid_operation(s: Seq<char>) -> bool {
    let u = ascii_upper(trim(s));
    u == Operation::Addition.name() || u == Operation::Subtraction.name() || u
        == Operation::Multiplication.name() || u == Operation::Division.name() || u
        == Operation::Modulo.name()
}

/// Integer division of `a` by `b`, rounded toward zero.
pub open spec fn trunc_div(a: int, b: int) -> int
    recommends
        b != 0,
{
    let q = abs(a) / abs(b);
    if (a < 0) != (b < 0) {
        -q
    } else {
        q
    }
}

/// The remainder of `trunc_div`: it has the sign of `a`.
pub open spec fn trunc_rem(a: int, b: int) -> int
    recommends
        b != 0,
{
    a - b * trunc_div(a, b)
}

/// The absolute value of `x`.
pub open spec fn abs(x: int) -> int {
    if x < 0 {
        -x
    } else {
        x
    }
}

/// What `op` computes from `a` and `b`, over the integers.
pub open spec fn apply_spec(op: Operation, a: int, b: int) -> int {
    match op {
        Operation::Addition => a + b,
        Operation::Subtraction => a - b,
        Operation::Multiplication => a * b,
        Operation::Division => trunc_div(a, b),
        Operation::Modulo => trunc_rem(a, b),
    }
}

/// Whether `op` on `a` and `b` has a result: the divisor of a division or
/// a remainder is not zero, and the result (for a remainder, the quotient
/// beside it) fits in 64 bits.
pub open spec fn is_defined(op: Operation, a: int, b: int) -> bool {
    match op {
        Operation::Division | Operation::Modulo => b != 0 && fits_i64(trunc_div(a, b)),
        _ => fits_i64(apply_spec(op, a, b)),
    }
}

/// The quotient and remainder rounded toward zero, given by the quotient
/// and remainder of the absolute values; the remainder has the sign of `a`.
pub proof fn lemma_trunc_div_parts(a: int, b: int)
    requires
        b != 0,
    ensures
        ({
            let q0 = abs(a) / abs(b);
            let r0 = abs(a) % abs(b);
            &&& abs(a) == abs(b) * q0 + r0
            &&& 0 <= r0 < abs(b)
            &&& 0 <= q0
            &&& b * trunc_div(a, b) == if a < 0 {
                -(abs(b) * q0)
            } else {
                abs(b) * q0
            }
            &&& trunc_rem(a, b) == if a < 0 {
                -r0
            } else {
                r0
            }
        }),
{
    let q0 = abs(a) / abs(b);
    vstd::arithmetic::div_mod::lemma_fundamental_div_mod(abs(a), abs(b));
    vstd::arithmetic::div_mod::lemma_div_pos_is_pos(abs(a), abs(b));
    if b < 0 {
        assert(b * (-q0) == (-b) * q0) by (nonlinear_arith);
        assert(b * q0 == -((-b) * q0)) by (nonlinear_arith);
    }
    if b > 0 {
        assert(b * (-q0) == -(b * q0)) by (nonlinear_arith);
    }
}

impl Operation {
    /// Applies the operation to `a` and `b`.
    pub fn apply(self, a: i64, b: i64) -> (r: i64)
        requires
            is_defined(self, a as int, b as int),
        ensures
            r == apply_spec(self, a as int, b as int),
    {
        match self {
            Operation::Addition => a + b,
            Operation::Subtraction => a - b,
            Operation::Multiplication => a * b,
            Operation::Division => {
                proof {
                    lemma_trunc_div_parts(a as int, b as int);
                }
                a.checked_div(b).unwrap()
            },
            Operation::Modulo => {
                proof {
                    lemma_trunc_div_parts(a as int, b as int);
                }
                let q = a.checked_div(b).unwrap();
                a - b * q
            },
        }
    }

    /// Applies the operation to `a` and `b` where it has a result, and gives
    /// `None` where it has none (a zero divisor, or an overflow).
    pub fn checked_apply(self, a: i64, b: i64) -> (r: Option<i64>)
        ensures
            r == if is_defined(self, a as int, b as int) {
                Some(apply_spec(self, a as int, b as int) as i64)
            } else {
                None::<i64>
            },
    {
        let defined = match self {
            Operation::Addition => a.checked_add(b).is_some(),
            Operation::Subtraction => a.checked_sub(b).is_some(),
            Operation::Multiplication => a.checked_mul(b).is_some(),
            Operation::Division | Operation::Modulo => a.checked_div(b).is_some(),
        };
        if defined {
            Some(self.apply(a, b))
        } else {
            None
        }
    }
}

/// Whether the calculation that `calculator` makes on these arguments has a
/// result: a name that is no operation gives 0, which always has one.
pub open spec fn calculation_defined(operation: Seq<char>, a: int, b: int) -> bool {
    match operation_of(operation) {
        Some(op) => is_defined(op, a, b),
        None => true,
    }
}

/// What `calculator` gives: the named operation on `a` and `b`, or 0 where
/// the text names no operation.
pub open spec fn calculation(operation: Seq<char>, a: int, b: int) -> int {
    match operation_of(operation) {
        Some(op) => apply_spec(op, a, b),
        None => 0,
    }
}

/// Applies the operation that `operation` names (trimmed, upper-cased) to
/// `number1` and `number2`; a text that names no operation gives 0.
pub fn calculator(operation: String, number1: i64, number2: i64) -> (r: i64)
    requires
        calculation_defined(operation@, number1 as int, number2 as int),
    ensures
        r == calculation(operation@, number1 as int, number2 as int),
{
    match parse_operation(operation.as_str()) {
        Some(op) => op.apply(number1, number2),
        None => 0,
    }
}

/// The operation that `input` names, once trimmed and upper-cased.
pub fn parse_operation(input: &str) -> (r: Option<Operation>)
    ensures
        r == operation_of(input@),
{
    let v = chars_of(input);
    let (lo, hi) = trim_bounds(&v);
    if upper_equals(&v, lo, hi, &chars_of(Operation::Addition.name_text())) {
        Some(Operation::Addition)
    } else if upper_equals(&v, lo, hi, &chars_of(Operation::Subtraction.name_text())) {
        Some(Operation::Subtraction)
    } else if upper_equals(&v, lo, hi, &chars_of(Operation::Multiplication.name_text())) {
        Some(Operation::Multiplication)
    } else if upper_equals(&v, lo, hi, &chars_of(Operation::Division.name_text())) {
        Some(Operation::Division)
    } else if upper_equals(&v, lo, hi, &chars_of(Operation::Modulo.name_text())) {
        Some(Operation::Modulo)
    } else {
        None
    }
}

/// Whether `input`, trimmed and upper-cased, is exactly one of the five names.
pub fn verify_operation(input: &str) -> (r: bool)
    ensures
        r == is_valid_operation(input@),
        r == operation_of(input@).is_some(),
{
    parse_operation(input).is_some()
}

} // verus!

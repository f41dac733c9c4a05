//! A four-function integer calculator: validation of operand and operation
//! text, parsing of signed 64-bit operands, dispatch of the chosen
//! operation, and the read-validate-retry cycle as a state machine.
use vstd::prelude::*;

pub mod numeric;
pub mod operation;
pub mod session;
pub mod text;

pub use crate::numeric::{parse_operand, transform_input, verify_numeric_input};
pub use crate::operation::{calculator, parse_operation, verify_operation, Operation};
pub use crate::session::Session;

use crate::numeric::is_valid_numeric;
use crate::operation::is_valid_operation;

verus! {

/// Validation has no state: each validator's verdict is a function of the
/// text alone, so two calls on equal texts agree, whatever came between.
pub proof fn lemma_validation_is_deterministic(a: Seq<char>, b: Seq<char>)
    requires
        a == b,
    ensures
        is_valid_numeric(a) == is_valid_numeric(b),
        is_valid_operation(a) == is_valid_operation(b),
{
}

} // verus!

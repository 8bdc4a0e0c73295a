use vstd::prelude::*;

use crate::field::{felt_add, felt_mul, spec_add, spec_mul, Felt};

verus! {

/// A cell's content: a concrete field element in a proving pass, or an opaque
/// placeholder in a structure-only pass. Arithmetic over an unknown operand
/// yields an unknown result, never a fabricated concrete one.
#[derive(Clone, Copy, PartialEq, Eq, Structural, Debug)]
pub enum Value {
    Known(Felt),
    Unknown,
}

/// The lifted field product: known only when both operands are known.
pub open spec fn value_mul_spec(a: Value, b: Value) -> Value {
    match (a, b) {
        (Value::Known(x), Value::Known(y)) => Value::Known(spec_mul(x, y)),
        _ => Value::Unknown,
    }
}

/// The lifted field sum: known only when both operands are known.
pub open spec fn value_add_spec(a: Value, b: Value) -> Value {
    match (a, b) {
        (Value::Known(x), Value::Known(y)) => Value::Known(spec_add(x, y)),
        _ => Value::Unknown,
    }
}

/// Multiplies two cell contents, propagating unknowns.
pub fn value_mul(a: Value, b: Value) -> (r: Value)
    ensures
        r == value_mul_spec(a, b),
{
    match (a, b) {
        (Value::Known(x), Value::Known(y)) => Value::Known(felt_mul(x, y)),
        _ => Value::Unknown,
    }
}

/// Adds two cell contents, propagating unknowns.
pub fn value_add(a: Value, b: Value) -> (r: Value)
    ensures
        r == value_add_spec(a, b),
{
    match (a, b) {
        (Value::Known(x), Value::Known(y)) => Value::Known(felt_add(x, y)),
        _ => Value::Unknown,
    }
}

} // verus!

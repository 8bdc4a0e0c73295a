use vstd::prelude::*;

verus! {

/// The one runtime failure of an assignment pass: either a concrete value
/// was required in a proving context but absent, or a public exposure named
/// an instance row outside the backend-declared arity.
#[derive(Clone, Copy, PartialEq, Eq, Structural, Debug)]
pub enum SynthesisError {
    MissingValue,
    PublicRowOutOfRange,
}

} // verus!

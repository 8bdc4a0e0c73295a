use vstd::prelude::*;

verus! {

/// An element of the proof system's native prime field, held as its canonical
/// little-endian 64-bit limbs. The field arithmetic itself belongs to the
/// backend (pasta's `Fp`, reached through `halo2_proofs`); this crate moves
/// such values around and combines them only through the wrappers below, so
/// the limbs of a sum or a product are named rather than recomputed here.
#[derive(Clone, Copy, PartialEq, Eq, Structural, Debug)]
pub struct Felt {
    pub l0: u64,
    pub l1: u64,
    pub l2: u64,
    pub l3: u64,
}

impl View for Felt {
    type V = Seq<u64>;

    open spec fn view(&self) -> Seq<u64> {
        seq![self.l0, self.l1, self.l2, self.l3]
    }
}

/// The canonical limbs of the field sum of the elements with the given
/// canonical limbs.
pub uninterp spec fn field_add_of(a: Seq<u64>, b: Seq<u64>) -> Seq<u64>;

/// The canonical limbs of the field product of the elements with the given
/// canonical limbs.
pub uninterp spec fn field_mul_of(a: Seq<u64>, b: Seq<u64>) -> Seq<u64>;

/// The `Felt` whose limbs are the first four entries of `s`.
pub open spec fn felt_from_limbs(s: Seq<u64>) -> Felt {
    Felt { l0: s[0], l1: s[1], l2: s[2], l3: s[3] }
}

/// The field sum of two elements, as a `Felt`.
pub open spec fn spec_add(a: Felt, b: Felt) -> Felt {
    felt_from_limbs(field_add_of(a@, b@))
}

/// The field product of two elements, as a `Felt`.
pub open spec fn spec_mul(a: Felt, b: Felt) -> Felt {
    felt_from_limbs(field_mul_of(a@, b@))
}

/// The canonical encoding of a small integer: the field modulus is close to
/// 2^254, so a value below 2^64 is its own low limb.
pub open spec fn spec_from_u64(v: u64) -> Felt {
    Felt { l0: v, l1: 0, l2: 0, l3: 0 }
}

impl Felt {
    /// The field element equal to the integer `v`.
    pub fn from_u64(v: u64) -> (r: Felt)
        ensures
            r == spec_from_u64(v),
    {
        Felt { l0: v, l1: 0, l2: 0, l3: 0 }
    }

    /// The additive identity of the field.
    pub fn zero() -> (r: Felt)
        ensures
            r == spec_from_u64(0),
    {
        Felt { l0: 0, l1: 0, l2: 0, l3: 0 }
    }
}

/// Relies on pasta `Fp` addition, reached as `halo2_proofs::pasta::Fp`: the
/// sum of two field elements depends on the operands alone. `Fp::from_raw`
/// reads little-endian limbs, and the `[u8; 32]` conversion returns the
/// canonical little-endian encoding of the result.
#[verifier::external_body]
pub fn felt_add(a: Felt, b: Felt) -> (r: Felt)
    ensures
        r@ == field_add_of(a@, b@),
        r == spec_add(a, b),
{
    let x = halo2_proofs::pasta::Fp::from_raw([a.l0, a.l1, a.l2, a.l3]);
    let y = halo2_proofs::pasta::Fp::from_raw([b.l0, b.l1, b.l2, b.l3]);
    let bytes: [u8; 32] = (x + y).into();
    Felt {
        l0: u64::from_le_bytes(bytes[0..8].try_into().unwrap()),
        l1: u64::from_le_bytes(bytes[8..16].try_into().unwrap()),
        l2: u64::from_le_bytes(bytes[16..24].try_into().unwrap()),
        l3: u64::from_le_bytes(bytes[24..32].try_into().unwrap()),
    }
}

/// Relies on pasta `Fp` multiplication, reached as `halo2_proofs::pasta::Fp`:
/// the product of two field elements depends on the operands alone.
/// `Fp::from_raw` reads little-endian limbs, and the `[u8; 32]` conversion
/// returns the canonical little-endian encoding of the result.
#[verifier::external_body]
pub fn felt_mul(a: Felt, b: Felt) -> (r: Felt)
    ensures
        r@ == field_mul_of(a@, b@),
        r == spec_mul(a, b),
{
    let x = halo2_proofs::pasta::Fp::from_raw([a.l0, a.l1, a.l2, a.l3]);
    let y = halo2_proofs::pasta::Fp::from_raw([b.l0, b.l1, b.l2, b.l3]);
    let bytes: [u8; 32] = (x * y).into();
    Felt {
        l0: u64::from_le_bytes(bytes[0..8].try_into().unwrap()),
        l1: u64::from_le_bytes(bytes[8..16].try_into().unwrap()),
        l2: u64::from_le_bytes(bytes[16..24].try_into().unwrap()),
        l3: u64::from_le_bytes(bytes[24..32].try_into().unwrap()),
    }
}

} // verus!

use vstd::prelude::*;

use crate::chip::{
    add_model, add_out, expose_model, load_constant_cell, load_constant_model, load_private_cell,
    load_private_model, load_private_ok, mul_model, mul_out, MyChip,
};
use crate::error::SynthesisError;
use crate::field::{felt_add, felt_mul, spec_add, spec_from_u64, spec_mul, Felt};
use crate::layout::{config_spec, Column, ColumnKind, MyConfig};
use crate::region::{empty_model, Assignment, AssignmentModel, Context};

verus! {

/// The value the program claims publicly: `x^3 + x + c` in the field.
pub open spec fn result_spec(x: Felt, c: Felt) -> Felt {
    spec_add(spec_add(spec_mul(spec_mul(x, x), x), x), c)
}

/// Computes the claimed public value with the backend's field arithmetic,
/// exactly as the assignment pass computes the exposed cell.
pub fn compute_result(x: Felt, c: Felt) -> (r: Felt)
    ensures
        r == result_spec(x, c),
{
    let x2 = felt_mul(x, x);
    let x3 = felt_mul(x2, x);
    let x3_x = felt_add(x3, x);
    felt_add(x3_x, c)
}

/// Whether one assignment pass of the program succeeds: a proving pass
/// needs the witness; a structure-only pass never fails.
pub open spec fn synth_ok(ctx: Context, x: Option<Felt>) -> bool {
    load_private_ok(ctx, x)
}

/// The one region list the program ever builds: the private load, the
/// constant load, the two multiplications, the two additions, and the
/// exposure of the final sum at instance row 0.
pub open spec fn program_model(ctx: Context, x: Option<Felt>, c: Felt) -> AssignmentModel {
    let m0 = empty_model(ctx, 1);
    let hx = load_private_cell(m0, x);
    let m1 = load_private_model(m0, x);
    let hk = load_constant_cell(m1, c);
    let m2 = load_constant_model(m1, c);
    let h2 = mul_out(m2, hx, hx);
    let m3 = mul_model(m2, hx, hx);
    let h3 = mul_out(m3, h2, hx);
    let m4 = mul_model(m3, h2, hx);
    let h4 = add_out(m4, h3, hx);
    let m5 = add_model(m4, h3, hx);
    let h5 = add_out(m5, h4, hk);
    let m6 = add_model(m5, h4, hk);
    expose_model(m6, h5, 0)
}

/// The fixed computation `x^3 + x + constant = result`, with the witness
/// optional so that the same program also drives a structure-only pass.
#[derive(Clone, Copy, PartialEq, Eq, Structural, Debug)]
pub struct MyCircuit {
    pub constant: Felt,
    pub x: Option<Felt>,
}

impl MyCircuit {
    /// The same circuit with the witness withheld, as handed to a
    /// structure-only pass.
    pub fn without_witnesses(&self) -> (r: MyCircuit)
        ensures
            r.constant == spec_from_u64(0),
            r.x == Option::<Felt>::None,
    {
        MyCircuit { constant: Felt::zero(), x: Option::None }
    }

    /// Declares the circuit's input lanes — two advice columns, the
    /// instance column, the fixed constant column — and hands them to the
    /// chip's `configure`.
    pub fn configure() -> (c: MyConfig)
        ensures
            c == config_spec(),
    {
        let advice0 = Column { index: 0, kind: ColumnKind::Private };
        let advice1 = Column { index: 1, kind: ColumnKind::Private };
        let instance = Column { index: 0, kind: ColumnKind::Public };
        let constant = Column { index: 0, kind: ColumnKind::Fixed };
        MyChip::configure(advice0, advice1, instance, constant)
    }

    /// Runs the straight-line instruction sequence once, producing the full
    /// region list: the same grid for every pass over the same inputs, and
    /// a `MissingValue` failure exactly when a proving pass lacks the
    /// witness.
    pub fn synthesize(&self, config: MyConfig, ctx: Context) -> (r: Result<
        Assignment,
        SynthesisError,
    >)
        requires
            config == config_spec(),
        ensures
            r is Ok <==> synth_ok(ctx, self.x),
            r matches Ok(asg) ==> asg@ == program_model(ctx, self.x, self.constant) && asg@.wf(),
            r matches Err(e) ==> e == SynthesisError::MissingValue,
    {
        let chip = MyChip::new(config);
        let mut asg = Assignment::new(ctx, 1);
        let x = match chip.load_private(&mut asg, self.x) {
            Result::Ok(h) => h,
            Result::Err(e) => {
                return Result::Err(e);
            },
        };
        let k = match chip.load_constant(&mut asg, self.constant) {
            Result::Ok(h) => h,
            Result::Err(e) => {
                return Result::Err(e);
            },
        };
        proof {
            assert(x.wf_in(asg@));
        }
        let x2 = match chip.mul(&mut asg, x, x) {
            Result::Ok(h) => h,
            Result::Err(e) => {
                return Result::Err(e);
            },
        };
        proof {
            assert(x.wf_in(asg@));
            assert(k.wf_in(asg@));
        }
        let x3 = match chip.mul(&mut asg, x2, x) {
            Result::Ok(h) => h,
            Result::Err(e) => {
                return Result::Err(e);
            },
        };
        proof {
            assert(x.wf_in(asg@));
            assert(k.wf_in(asg@));
        }
        let x3_x = match chip.add(&mut asg, x3, x) {
            Result::Ok(h) => h,
            Result::Err(e) => {
                return Result::Err(e);
            },
        };
        proof {
            assert(k.wf_in(asg@));
        }
        let x3_x_5 = match chip.add(&mut asg, x3_x, k) {
            Result::Ok(h) => h,
            Result::Err(e) => {
                return Result::Err(e);
            },
        };
        match chip.expose_public(&mut asg, x3_x_5, 0) {
            Result::Ok(_) => {},
            Result::Err(e) => {
                return Result::Err(e);
            },
        };
        Result::Ok(asg)
    }
}

} // verus!

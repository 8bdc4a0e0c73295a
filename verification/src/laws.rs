use vstd::prelude::*;

use crate::checker::{
    constants_ok, constraints_hold, copies_ok, gate_ok_at, gates_ok, instance_ok,
};
use crate::chip::loaded_value;
use crate::circuit::{program_model, result_spec, synth_ok};
use crate::field::Felt;
use crate::layout::{advice0_col, advice1_col};
use crate::region::{
    AssignmentModel, Cell, ConstantBinding, Context, CopyConstraint, InstanceBinding, Region,
    RegionKind,
};
use crate::value::{value_add_spec, value_mul_spec, Value};

verus! {

/// The first advice column of the program's grid, row by row: the loaded
/// witness, the loaded constant, then each operation's left operand on its
/// region's first row and its output on the second.
pub open spec fn program_advice0(x: Option<Felt>, c: Felt) -> Seq<Value> {
    let xv = loaded_value(x);
    let x2 = value_mul_spec(xv, xv);
    let x3 = value_mul_spec(x2, xv);
    let a1 = value_add_spec(x3, xv);
    let a2 = value_add_spec(a1, Value::Known(c));
    seq![xv, Value::Known(c), xv, x2, x2, x3, x3, a1, a1, a2]
}

/// The second advice column: each operation's right operand on its region's
/// first row.
pub open spec fn program_advice1(x: Option<Felt>, c: Felt) -> Seq<Value> {
    let xv = loaded_value(x);
    seq![
        Value::Unknown,
        Value::Unknown,
        xv,
        Value::Unknown,
        xv,
        Value::Unknown,
        xv,
        Value::Unknown,
        Value::Known(c),
        Value::Unknown,
    ]
}

/// `s_mul` activations: the first rows of the two multiplication regions.
pub open spec fn program_s_mul() -> Seq<bool> {
    seq![false, false, true, false, true, false, false, false, false, false]
}

/// `s_add` activations: the first rows of the two addition regions.
pub open spec fn program_s_add() -> Seq<bool> {
    seq![false, false, false, false, false, false, true, false, true, false]
}

/// The six regions, tiling rows 0 through 9.
pub open spec fn program_regions() -> Seq<Region> {
    seq![
        Region { kind: RegionKind::LoadPrivate, start: 0, height: 1 },
        Region { kind: RegionKind::LoadConstant, start: 1, height: 1 },
        Region { kind: RegionKind::Mul, start: 2, height: 2 },
        Region { kind: RegionKind::Mul, start: 4, height: 2 },
        Region { kind: RegionKind::Add, start: 6, height: 2 },
        Region { kind: RegionKind::Add, start: 8, height: 2 },
    ]
}

/// The copy constraints threading each handle into the region that consumes
/// it.
pub open spec fn program_copies() -> Seq<CopyConstraint> {
    seq![
        CopyConstraint {
            left: Cell { column: advice0_col(), row: 0 },
            right: Cell { column: advice0_col(), row: 2 },
        },
        CopyConstraint {
            left: Cell { column: advice0_col(), row: 0 },
            right: Cell { column: advice1_col(), row: 2 },
        },
        CopyConstraint {
            left: Cell { column: advice0_col(), row: 3 },
            right: Cell { column: advice0_col(), row: 4 },
        },
        CopyConstraint {
            left: Cell { column: advice0_col(), row: 0 },
            right: Cell { column: advice1_col(), row: 4 },
        },
        CopyConstraint {
            left: Cell { column: advice0_col(), row: 5 },
            right: Cell { column: advice0_col(), row: 6 },
        },
        CopyConstraint {
            left: Cell { column: advice0_col(), row: 0 },
            right: Cell { column: advice1_col(), row: 6 },
        },
        CopyConstraint {
            left: Cell { column: advice0_col(), row: 7 },
            right: Cell { column: advice0_col(), row: 8 },
        },
        CopyConstraint {
            left: Cell { column: advice0_col(), row: 1 },
            right: Cell { column: advice1_col(), row: 8 },
        },
    ]
}

/// The one constant binding: the loaded constant's cell.
pub open spec fn program_constants(c: Felt) -> Seq<ConstantBinding> {
    seq![ConstantBinding { cell: Cell { column: advice0_col(), row: 1 }, value: c }]
}

/// The one instance binding: the final sum's cell against instance row 0.
pub open spec fn program_instance() -> Seq<InstanceBinding> {
    seq![InstanceBinding { cell: Cell { column: advice0_col(), row: 9 }, row: 0 }]
}

/// The program's region list written out row by row.
pub open spec fn program_model_explicit(ctx: Context, x: Option<Felt>, c: Felt) -> AssignmentModel {
    AssignmentModel {
        ctx,
        instance_arity: 1,
        advice0: program_advice0(x, c),
        advice1: program_advice1(x, c),
        s_mul: program_s_mul(),
        s_add: program_s_add(),
        regions: program_regions(),
        copies: program_copies(),
        constants: program_constants(c),
        instance: program_instance(),
    }
}

/// The composed region list of the program is exactly its row-by-row form.
pub proof fn lemma_program_model_explicit(ctx: Context, x: Option<Felt>, c: Felt)
    ensures
        program_model(ctx, x, c) == program_model_explicit(ctx, x, c),
{
    let m = program_model(ctx, x, c);
    let e = program_model_explicit(ctx, x, c);
    assert(m.advice0 =~= e.advice0);
    assert(m.advice1 =~= e.advice1);
    assert(m.s_mul =~= e.s_mul);
    assert(m.s_add =~= e.s_add);
    assert(m.regions =~= e.regions);
    assert(m.copies =~= e.copies);
    assert(m.constants =~= e.constants);
    assert(m.instance =~= e.instance);
    assert(m =~= e);
}

/// Completeness: for every witness `x` and constant `c`, the proving pass
/// succeeds, and the region list it builds satisfies every gate, copy,
/// constant and instance constraint against the claimed public value
/// `x^3 + x + c`.
pub proof fn lemma_completeness(x: Felt, c: Felt)
    ensures
        synth_ok(Context::Prover, Option::Some(x)),
        constraints_hold(
            program_model(Context::Prover, Option::Some(x), c),
            seq![result_spec(x, c)],
        ),
{
    lemma_program_model_explicit(Context::Prover, Option::Some(x), c);
    let m = program_model_explicit(Context::Prover, Option::Some(x), c);
    let public = seq![result_spec(x, c)];
    assert forall|r: int| 0 <= r < m.rows() implies #[trigger] gate_ok_at(m, r) by {
        assert(m.rows() == 10);
        if m.s_mul[r] || m.s_add[r] {
            assert(r == 2 || r == 4 || r == 6 || r == 8);
        }
    }
    assert(gates_ok(m));
    assert forall|i: int| 0 <= i < m.copies.len() implies m.cell_value(
        (#[trigger] m.copies[i]).left,
    ) == m.cell_value(m.copies[i].right) by {
        assert(m.copies.len() == 8);
    }
    assert(copies_ok(m));
    assert(m.cell_value(m.constants[0].cell) == Value::Known(c));
    assert(constants_ok(m));
    assert(m.cell_value(m.instance[0].cell) == Value::Known(result_spec(x, c)));
    assert(m.instance[0].row == 0 && public.len() == 1);
    assert(instance_ok(m, public));
}

/// Two region lists that agree on everything but the advice cell contents:
/// the same placement, selectors, and declared constraints.
pub open spec fn same_structure(m: AssignmentModel, n: AssignmentModel) -> bool {
    &&& m.instance_arity == n.instance_arity
    &&& m.advice0.len() == n.advice0.len()
    &&& m.advice1.len() == n.advice1.len()
    &&& m.s_mul == n.s_mul
    &&& m.s_add == n.s_add
    &&& m.regions == n.regions
    &&& m.copies == n.copies
    &&& m.constants == n.constants
    &&& m.instance == n.instance
}

/// Soundness at the grid level: any region list with the program's
/// structure whose witness cell holds `x` and whose constraints all hold
/// against a claimed public value forces that value to be `x^3 + x + c`.
/// A claim of anything else cannot satisfy the constraints.
pub proof fn lemma_soundness(x: Felt, c: Felt, claimed: Felt, m: AssignmentModel)
    requires
        same_structure(m, program_model(Context::Prover, Option::Some(x), c)),
        m.cell_value(Cell { column: advice0_col(), row: 0 }) == Value::Known(x),
        constraints_hold(m, seq![claimed]),
    ensures
        claimed == result_spec(x, c),
{
    lemma_program_model_explicit(Context::Prover, Option::Some(x), c);
    assert(m.copies == program_copies());
    assert(m.copies[0] == program_copies()[0]);
    assert(m.copies[1] == program_copies()[1]);
    assert(m.copies[2] == program_copies()[2]);
    assert(m.copies[3] == program_copies()[3]);
    assert(m.copies[4] == program_copies()[4]);
    assert(m.copies[5] == program_copies()[5]);
    assert(m.copies[6] == program_copies()[6]);
    assert(m.copies[7] == program_copies()[7]);
    assert(m.constants[0] == program_constants(c)[0]);
    assert(m.instance[0] == program_instance()[0]);
    assert(m.advice0.len() == 10);
    // the witness threads into both operand cells of the first product
    assert(m.cell_value(Cell { column: advice0_col(), row: 2 }) == Value::Known(x));
    assert(m.cell_value(Cell { column: advice1_col(), row: 2 }) == Value::Known(x));
    assert(gate_ok_at(m, 2));
    let x2 = value_mul_spec(Value::Known(x), Value::Known(x));
    assert(m.advice0[3] == x2);
    assert(gate_ok_at(m, 4));
    assert(m.cell_value(Cell { column: advice0_col(), row: 4 }) == x2);
    assert(m.cell_value(Cell { column: advice1_col(), row: 4 }) == Value::Known(x));
    let x3 = value_mul_spec(x2, Value::Known(x));
    assert(m.advice0[5] == x3);
    assert(gate_ok_at(m, 6));
    assert(m.cell_value(Cell { column: advice0_col(), row: 6 }) == x3);
    assert(m.cell_value(Cell { column: advice1_col(), row: 6 }) == Value::Known(x));
    let a1 = value_add_spec(x3, Value::Known(x));
    assert(m.advice0[7] == a1);
    assert(gate_ok_at(m, 8));
    assert(m.cell_value(Cell { column: advice0_col(), row: 8 }) == a1);
    assert(m.cell_value(Cell { column: advice1_col(), row: 8 }) == Value::Known(c));
    let a2 = value_add_spec(a1, Value::Known(c));
    assert(m.advice0[9] == a2);
    assert(m.cell_value(Cell { column: advice0_col(), row: 9 }) == Value::Known(claimed));
    assert(a2 == Value::Known(result_spec(x, c)));
}

/// Determinism: the program's region list is a function of the pass context,
/// the witness and the constant alone, so two passes over the same inputs
/// lay out identical grids.
pub proof fn lemma_deterministic(
    ctx: Context,
    x: Option<Felt>,
    c: Felt,
    m1: AssignmentModel,
    m2: AssignmentModel,
)
    requires
        m1 == program_model(ctx, x, c),
        m2 == program_model(ctx, x, c),
    ensures
        m1 == m2,
{
}

/// Gate isolation: on any row of any region list where neither selector is
/// active, nothing on it is constrained — whatever the advice cells hold.
pub proof fn lemma_gate_isolation(m: AssignmentModel, r: int)
    requires
        0 <= r < m.rows(),
        !m.s_mul[r],
        !m.s_add[r],
    ensures
        gate_ok_at(m, r),
{
}

/// The public exposure binds the final computed cell — the second addition's
/// output on row 9 — and nothing else, so the exposed value is the full sum
/// `x^3 + x + c`, not an intermediate.
pub proof fn lemma_public_binding(ctx: Context, x: Option<Felt>, c: Felt)
    ensures
        program_model(ctx, x, c).instance == seq![
            InstanceBinding { cell: Cell { column: advice0_col(), row: 9 }, row: 0 },
        ],
        x matches Option::Some(xv) ==> program_model(ctx, x, c).cell_value(
            Cell { column: advice0_col(), row: 9 },
        ) == Value::Known(result_spec(xv, c)),
{
    lemma_program_model_explicit(ctx, x, c);
}

/// Every advice value erased and the context normalized: the part of a
/// region list a structure-only pass is expected to reproduce.
pub open spec fn shape_of(m: AssignmentModel) -> AssignmentModel {
    AssignmentModel {
        ctx: Context::StructureOnly,
        advice0: m.advice0.map_values(|v: Value| Value::Unknown),
        advice1: m.advice1.map_values(|v: Value| Value::Unknown),
        ..m
    }
}

/// A structure-only pass without the witness lays out a grid of exactly the
/// shape of a witnessed proving pass: same regions, selectors and declared
/// constraints, differing only in cell values being unknown rather than
/// concrete.
pub proof fn lemma_structure_independence(x: Felt, c: Felt)
    ensures
        same_structure(
            program_model(Context::Prover, Option::Some(x), c),
            program_model(Context::StructureOnly, Option::None, c),
        ),
        shape_of(program_model(Context::Prover, Option::Some(x), c)) == shape_of(
            program_model(Context::StructureOnly, Option::None, c),
        ),
{
    lemma_program_model_explicit(Context::Prover, Option::Some(x), c);
    lemma_program_model_explicit(Context::StructureOnly, Option::None, c);
    let p = program_model_explicit(Context::Prover, Option::Some(x), c);
    let s = program_model_explicit(Context::StructureOnly, Option::None, c);
    assert(shape_of(p).advice0 =~= shape_of(s).advice0);
    assert(shape_of(p).advice1 =~= shape_of(s).advice1);
    assert(shape_of(p) =~= shape_of(s));
}

} // verus!


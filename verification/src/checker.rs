use vstd::prelude::*;

use crate::field::Felt;
use crate::layout::{Column, ColumnKind};
use crate::region::{Assignment, AssignmentModel, Cell};
use crate::value::{value_add, value_add_spec, value_mul, value_mul_spec, Value};

verus! {

/// The single gate at row `r`:
/// `s_mul * (lhs * rhs - out) + s_add * (lhs + rhs - out) = 0`, with `lhs`
/// and `rhs` the advice cells of row `r` and `out` the first advice cell of
/// row `r + 1`. The builder never activates both selectors on one row, so
/// the polynomial vanishes exactly when each active selector's identity
/// holds; a row with no active selector constrains nothing.
pub open spec fn gate_ok_at(m: AssignmentModel, r: int) -> bool {
    &&& m.s_mul[r] ==> m.advice0[r + 1] == value_mul_spec(m.advice0[r], m.advice1[r])
    &&& m.s_add[r] ==> m.advice0[r + 1] == value_add_spec(m.advice0[r], m.advice1[r])
}

/// The mul/add identity vanishes on every row.
pub open spec fn gates_ok(m: AssignmentModel) -> bool {
    forall|r: int| 0 <= r < m.rows() ==> #[trigger] gate_ok_at(m, r)
}

/// Every declared copy constraint relates cells of equal content.
pub open spec fn copies_ok(m: AssignmentModel) -> bool {
    forall|i: int|
        0 <= i < m.copies.len() ==> m.cell_value((#[trigger] m.copies[i]).left) == m.cell_value(
            m.copies[i].right,
        )
}

/// Every constant-bound cell holds its layout constant.
pub open spec fn constants_ok(m: AssignmentModel) -> bool {
    forall|i: int|
        0 <= i < m.constants.len() ==> m.cell_value((#[trigger] m.constants[i]).cell)
            == Value::Known(m.constants[i].value)
}

/// Every instance binding names a supplied public row and its cell holds
/// exactly that public value.
pub open spec fn instance_ok(m: AssignmentModel, public: Seq<Felt>) -> bool {
    forall|i: int|
        0 <= i < m.instance.len() ==> ((#[trigger] m.instance[i]).row as int) < public.len()
            && m.cell_value(m.instance[i].cell) == Value::Known(
            public[m.instance[i].row as int],
        )
}

/// What the backend enforces of a finished region list against the declared
/// public inputs: gates, copy constraints, constant bindings and instance
/// bindings all hold.
pub open spec fn constraints_hold(m: AssignmentModel, public: Seq<Felt>) -> bool {
    &&& gates_ok(m)
    &&& copies_ok(m)
    &&& constants_ok(m)
    &&& instance_ok(m, public)
}

/// Reads the value a region list holds at an advice cell.
pub fn cell_value_read(asg: &Assignment, c: Cell) -> (v: Value)
    requires
        asg@.wf(),
        asg@.valid_cell(c),
    ensures
        v == asg@.cell_value(c),
{
    let adv0 = Column { index: 0, kind: ColumnKind::Private };
    if c.column == adv0 {
        asg.advice0[c.row]
    } else {
        asg.advice1[c.row]
    }
}

/// Decides whether a finished region list satisfies every constraint it
/// declared, against the given public inputs — the model-level counterpart
/// of what the backend's verifier enforces.
pub fn verify_assignment(asg: &Assignment, public: &Vec<Felt>) -> (ok: bool)
    requires
        asg@.wf(),
    ensures
        ok == constraints_hold(asg@, public@),
{
    let rows = asg.num_rows();
    let mut r: usize = 0;
    while r < rows
        invariant
            asg@.wf(),
            r <= rows,
            rows as int == asg@.rows(),
            forall|j: int| 0 <= j < r ==> #[trigger] gate_ok_at(asg@, j),
        decreases rows - r,
    {
        if asg.s_mul[r] {
            assert(r + 1 < rows);
            let expect = value_mul(asg.advice0[r], asg.advice1[r]);
            if asg.advice0[r + 1] != expect {
                proof {
                    assert(!gate_ok_at(asg@, r as int));
                }
                return false;
            }
        }
        if asg.s_add[r] {
            assert(r + 1 < rows);
            let expect = value_add(asg.advice0[r], asg.advice1[r]);
            if asg.advice0[r + 1] != expect {
                proof {
                    assert(!gate_ok_at(asg@, r as int));
                }
                return false;
            }
        }
        proof {
            assert(gate_ok_at(asg@, r as int));
        }
        r = r + 1;
    }
    let ncop = asg.copies.len();
    let mut i: usize = 0;
    while i < ncop
        invariant
            asg@.wf(),
            i <= ncop,
            ncop == asg@.copies.len(),
            forall|j: int|
                0 <= j < i ==> asg@.cell_value((#[trigger] asg@.copies[j]).left) == asg@.cell_value(
                    asg@.copies[j].right,
                ),
        decreases ncop - i,
    {
        let cc = asg.copies[i];
        let lv = cell_value_read(asg, cc.left);
        let rv = cell_value_read(asg, cc.right);
        if lv != rv {
            return false;
        }
        i = i + 1;
    }
    let ncon = asg.constants.len();
    let mut i: usize = 0;
    while i < ncon
        invariant
            asg@.wf(),
            i <= ncon,
            ncon == asg@.constants.len(),
            forall|j: int|
                0 <= j < i ==> asg@.cell_value((#[trigger] asg@.constants[j]).cell)
                    == Value::Known(asg@.constants[j].value),
        decreases ncon - i,
    {
        let cb = asg.constants[i];
        let cv = cell_value_read(asg, cb.cell);
        if cv != Value::Known(cb.value) {
            return false;
        }
        i = i + 1;
    }
    let nins = asg.instance.len();
    let mut i: usize = 0;
    while i < nins
        invariant
            asg@.wf(),
            i <= nins,
            nins == asg@.instance.len(),
            forall|j: int|
                0 <= j < i ==> ((#[trigger] asg@.instance[j]).row as int) < public@.len()
                    && asg@.cell_value(asg@.instance[j].cell) == Value::Known(
                    public@[asg@.instance[j].row as int],
                ),
        decreases nins - i,
    {
        let ib = asg.instance[i];
        if ib.row >= public.len() {
            return false;
        }
        let cv = cell_value_read(asg, ib.cell);
        if cv != Value::Known(public[ib.row]) {
            return false;
        }
        i = i + 1;
    }
    true
}

} // verus!

use vstd::prelude::*;

use crate::field::Felt;
use crate::layout::{advice0_col, advice1_col, is_advice, Column};
use crate::value::Value;

verus! {

/// A coordinate in the grid: a column and an absolute 0-indexed row.
#[derive(Clone, Copy, PartialEq, Eq, Structural, Debug)]
pub struct Cell {
    pub column: Column,
    pub row: usize,
}

/// Which operation laid a region out; regions are otherwise identified by
/// their position in the region list.
#[derive(Clone, Copy, PartialEq, Eq, Structural, Debug)]
pub enum RegionKind {
    LoadPrivate,
    LoadConstant,
    Mul,
    Add,
}

/// An independently placed batch of cell assignments: a contiguous row range
/// that no other region shares.
#[derive(Clone, Copy, PartialEq, Eq, Structural, Debug)]
pub struct Region {
    pub kind: RegionKind,
    pub start: usize,
    pub height: usize,
}

/// A declared identity between two cells' values, enforced by the backend
/// independently of any gate.
#[derive(Clone, Copy, PartialEq, Eq, Structural, Debug)]
pub struct CopyConstraint {
    pub left: Cell,
    pub right: Cell,
}

/// A cell certified to carry a constant baked into the layout through the
/// fixed column, rather than a freely chosen witness value.
#[derive(Clone, Copy, PartialEq, Eq, Structural, Debug)]
pub struct ConstantBinding {
    pub cell: Cell,
    pub value: Felt,
}

/// A declared identity between a cell and a row of the instance column.
#[derive(Clone, Copy, PartialEq, Eq, Structural, Debug)]
pub struct InstanceBinding {
    pub cell: Cell,
    pub row: usize,
}

/// Whether an assignment pass must produce concrete values (proving) or may
/// leave cells unknown (structure-only, as a verifier sees the circuit).
#[derive(Clone, Copy, PartialEq, Eq, Structural, Debug)]
pub enum Context {
    Prover,
    StructureOnly,
}

/// The mathematical content of a region list: every cell value, selector
/// activation and declared constraint, with regions placed at their absolute
/// rows.
#[verifier::ext_equal]
pub ghost struct AssignmentModel {
    pub ctx: Context,
    pub instance_arity: usize,
    pub advice0: Seq<Value>,
    pub advice1: Seq<Value>,
    pub s_mul: Seq<bool>,
    pub s_add: Seq<bool>,
    pub regions: Seq<Region>,
    pub copies: Seq<CopyConstraint>,
    pub constants: Seq<ConstantBinding>,
    pub instance: Seq<InstanceBinding>,
}

impl AssignmentModel {
    /// The number of rows laid out so far.
    pub open spec fn rows(self) -> int {
        self.advice0.len() as int
    }

    /// A cell that the builder can have written: an advice cell within the
    /// rows laid out so far.
    pub open spec fn valid_cell(self, c: Cell) -> bool {
        is_advice(c.column) && (c.row as int) < self.rows()
    }

    /// The value held at an advice cell; cells of other columns hold no
    /// builder-assigned value.
    pub open spec fn cell_value(self, c: Cell) -> Value {
        if c.column == advice0_col() {
            self.advice0[c.row as int]
        } else if c.column == advice1_col() {
            self.advice1[c.row as int]
        } else {
            Value::Unknown
        }
    }

    /// Well-formedness of a region list: all per-row columns have the same
    /// length; regions tile the rows contiguously from 0; the two selectors
    /// are never both active on a row; a selector-active row has a next row
    /// (its output cell lives on that next row); and every recorded constraint
    /// points at a laid-out advice cell, instance bindings within the
    /// declared public-input arity.
    pub open spec fn wf(self) -> bool {
        &&& self.advice1.len() == self.advice0.len()
        &&& self.s_mul.len() == self.advice0.len()
        &&& self.s_add.len() == self.advice0.len()
        &&& regions_tile(self.regions, 0, self.rows())
        &&& forall|r: int| 0 <= r < self.rows() ==> !((#[trigger] self.s_mul[r]) && self.s_add[r])
        &&& forall|r: int|
            0 <= r < self.rows() && ((#[trigger] self.s_mul[r]) || self.s_add[r]) ==> r + 1
                < self.rows()
        &&& forall|i: int|
            0 <= i < self.copies.len() ==> self.valid_cell((#[trigger] self.copies[i]).left)
                && self.valid_cell(self.copies[i].right)
        &&& forall|i: int|
            0 <= i < self.constants.len() ==> self.valid_cell((#[trigger] self.constants[i]).cell)
        &&& forall|i: int|
            0 <= i < self.instance.len() ==> self.valid_cell((#[trigger] self.instance[i]).cell)
                && (self.instance[i].row as int) < self.instance_arity as int
    }
}

/// Whether the regions occupy, in order, exactly the contiguous row ranges
/// from `start` up to `end`, each at the first free offset.
pub open spec fn regions_tile(rs: Seq<Region>, start: int, end: int) -> bool
    decreases rs.len(),
{
    if rs.len() == 0 {
        start == end
    } else {
        rs[0].start as int == start && regions_tile(
            rs.drop_first(),
            start + rs[0].height,
            end,
        )
    }
}

/// Appending a region at the first free offset extends the tiling by its
/// height.
pub proof fn lemma_tile_push(rs: Seq<Region>, start: int, end: int, reg: Region)
    requires
        regions_tile(rs, start, end),
        reg.start as int == end,
    ensures
        regions_tile(rs.push(reg), start, end + reg.height),
    decreases rs.len(),
{
    reveal_with_fuel(regions_tile, 3);
    if rs.len() == 0 {
        assert(rs.push(reg)[0] == reg);
        assert(rs.push(reg).drop_first() =~= Seq::empty());
    } else {
        lemma_tile_push(rs.drop_first(), start + rs[0].height, end, reg);
        assert(rs.push(reg)[0] == rs[0]);
        assert(rs.push(reg).drop_first() =~= rs.drop_first().push(reg));
    }
}

/// The empty region list, before any operation has laid anything out.
pub open spec fn empty_model(ctx: Context, instance_arity: usize) -> AssignmentModel {
    AssignmentModel {
        ctx,
        instance_arity,
        advice0: Seq::empty(),
        advice1: Seq::empty(),
        s_mul: Seq::empty(),
        s_add: Seq::empty(),
        regions: Seq::empty(),
        copies: Seq::empty(),
        constants: Seq::empty(),
        instance: Seq::empty(),
    }
}

/// The region list extended by one region of `t0.len()` fresh rows placed at
/// the first free offset, together with the constraints the region declares.
pub open spec fn extend_model(
    m: AssignmentModel,
    kind: RegionKind,
    t0: Seq<Value>,
    t1: Seq<Value>,
    tm: Seq<bool>,
    ta: Seq<bool>,
    tc: Seq<CopyConstraint>,
    tk: Seq<ConstantBinding>,
    ti: Seq<InstanceBinding>,
) -> AssignmentModel {
    AssignmentModel {
        ctx: m.ctx,
        instance_arity: m.instance_arity,
        advice0: m.advice0 + t0,
        advice1: m.advice1 + t1,
        s_mul: m.s_mul + tm,
        s_add: m.s_add + ta,
        regions: m.regions.push(
            Region { kind, start: m.advice0.len() as usize, height: t0.len() as usize },
        ),
        copies: m.copies + tc,
        constants: m.constants + tk,
        instance: m.instance + ti,
    }
}

/// Appending a well-shaped region to a well-formed region list keeps it
/// well-formed.
pub proof fn lemma_extend_wf(
    m: AssignmentModel,
    kind: RegionKind,
    t0: Seq<Value>,
    t1: Seq<Value>,
    tm: Seq<bool>,
    ta: Seq<bool>,
    tc: Seq<CopyConstraint>,
    tk: Seq<ConstantBinding>,
    ti: Seq<InstanceBinding>,
)
    requires
        m.wf(),
        0 < t0.len(),
        m.advice0.len() + t0.len() <= usize::MAX,
        t1.len() == t0.len(),
        tm.len() == t0.len(),
        ta.len() == t0.len(),
        forall|j: int| 0 <= j < t0.len() ==> !((#[trigger] tm[j]) && ta[j]),
        forall|j: int| 0 <= j < t0.len() && ((#[trigger] tm[j]) || ta[j]) ==> j + 1 < t0.len(),
        forall|i: int|
            0 <= i < tc.len() ==> is_advice((#[trigger] tc[i]).left.column) && is_advice(
                tc[i].right.column,
            ) && (tc[i].left.row as int) < m.rows() + t0.len() && (tc[i].right.row as int)
                < m.rows() + t0.len(),
        forall|i: int|
            0 <= i < tk.len() ==> is_advice((#[trigger] tk[i]).cell.column) && (
            tk[i].cell.row as int) < m.rows() + t0.len(),
        forall|i: int|
            0 <= i < ti.len() ==> is_advice((#[trigger] ti[i]).cell.column) && (
            ti[i].cell.row as int) < m.rows() + t0.len() && (ti[i].row as int)
                < m.instance_arity as int,
    ensures
        extend_model(m, kind, t0, t1, tm, ta, tc, tk, ti).wf(),
{
    let n = extend_model(m, kind, t0, t1, tm, ta, tc, tk, ti);
    assert(n.rows() == m.rows() + t0.len());
    lemma_tile_push(
        m.regions,
        0,
        m.rows(),
        Region { kind, start: m.advice0.len() as usize, height: t0.len() as usize },
    );
    assert forall|r: int| 0 <= r < n.rows() implies !((#[trigger] n.s_mul[r]) && n.s_add[r]) by {
        if r < m.rows() {
            assert(n.s_mul[r] == m.s_mul[r] && n.s_add[r] == m.s_add[r]);
        } else {
            assert(n.s_mul[r] == tm[r - m.rows()] && n.s_add[r] == ta[r - m.rows()]);
        }
    }
    assert forall|r: int|
        0 <= r < n.rows() && ((#[trigger] n.s_mul[r]) || n.s_add[r]) implies r + 1 < n.rows() by {
        if r < m.rows() {
            assert(n.s_mul[r] == m.s_mul[r] && n.s_add[r] == m.s_add[r]);
        } else {
            assert(n.s_mul[r] == tm[r - m.rows()] && n.s_add[r] == ta[r - m.rows()]);
        }
    }
    assert forall|i: int| 0 <= i < n.copies.len() implies n.valid_cell(
        (#[trigger] n.copies[i]).left,
    ) && n.valid_cell(n.copies[i].right) by {
        if i < m.copies.len() {
            assert(n.copies[i] == m.copies[i]);
        } else {
            assert(n.copies[i] == tc[i - m.copies.len()]);
        }
    }
    assert forall|i: int| 0 <= i < n.constants.len() implies n.valid_cell(
        (#[trigger] n.constants[i]).cell,
    ) by {
        if i < m.constants.len() {
            assert(n.constants[i] == m.constants[i]);
        } else {
            assert(n.constants[i] == tk[i - m.constants.len()]);
        }
    }
    assert forall|i: int| 0 <= i < n.instance.len() implies n.valid_cell(
        (#[trigger] n.instance[i]).cell,
    ) && (n.instance[i].row as int) < n.instance_arity as int by {
        if i < m.instance.len() {
            assert(n.instance[i] == m.instance[i]);
        } else {
            assert(n.instance[i] == ti[i - m.instance.len()]);
        }
    }
}

/// Cells already laid out keep their value when a region list is extended.
pub proof fn lemma_extend_preserves_cells(
    m: AssignmentModel,
    kind: RegionKind,
    t0: Seq<Value>,
    t1: Seq<Value>,
    tm: Seq<bool>,
    ta: Seq<bool>,
    tc: Seq<CopyConstraint>,
    tk: Seq<ConstantBinding>,
    ti: Seq<InstanceBinding>,
)
    requires
        m.advice1.len() == m.advice0.len(),
    ensures
        forall|c: Cell|
            m.valid_cell(c) ==> extend_model(m, kind, t0, t1, tm, ta, tc, tk, ti).valid_cell(c)
                && extend_model(m, kind, t0, t1, tm, ta, tc, tk, ti).cell_value(c)
                == #[trigger] m.cell_value(c),
{
    let n = extend_model(m, kind, t0, t1, tm, ta, tc, tk, ti);
    assert forall|c: Cell| m.valid_cell(c) implies n.valid_cell(c) && n.cell_value(c)
        == m.cell_value(c) by {
        assert(n.advice0[c.row as int] == m.advice0[c.row as int]);
        if (c.row as int) < m.advice1.len() {
            assert(n.advice1[c.row as int] == m.advice1[c.row as int]);
        }
    }
}

/// The accumulating region list of one assignment pass: the exec counterpart
/// of `AssignmentModel`, built row by row by the operation chip.
#[derive(Debug)]
pub struct Assignment {
    pub ctx: Context,
    pub instance_arity: usize,
    pub advice0: Vec<Value>,
    pub advice1: Vec<Value>,
    pub s_mul: Vec<bool>,
    pub s_add: Vec<bool>,
    pub regions: Vec<Region>,
    pub copies: Vec<CopyConstraint>,
    pub constants: Vec<ConstantBinding>,
    pub instance: Vec<InstanceBinding>,
}

impl View for Assignment {
    type V = AssignmentModel;

    open spec fn view(&self) -> AssignmentModel {
        AssignmentModel {
            ctx: self.ctx,
            instance_arity: self.instance_arity,
            advice0: self.advice0@,
            advice1: self.advice1@,
            s_mul: self.s_mul@,
            s_add: self.s_add@,
            regions: self.regions@,
            copies: self.copies@,
            constants: self.constants@,
            instance: self.instance@,
        }
    }
}

impl Assignment {
    /// Opens an empty assignment pass with the given context and the
    /// backend-declared number of public-input rows.
    pub fn new(ctx: Context, instance_arity: usize) -> (r: Assignment)
        ensures
            r@ == empty_model(ctx, instance_arity),
            r@.wf(),
    {
        let r = Assignment {
            ctx,
            instance_arity,
            advice0: Vec::new(),
            advice1: Vec::new(),
            s_mul: Vec::new(),
            s_add: Vec::new(),
            regions: Vec::new(),
            copies: Vec::new(),
            constants: Vec::new(),
            instance: Vec::new(),
        };
        proof {
            assert(r@ =~= empty_model(ctx, instance_arity));
        }
        r
    }

    /// The number of rows laid out so far.
    pub fn num_rows(&self) -> (r: usize)
        ensures
            r as int == self@.rows(),
    {
        self.advice0.len()
    }

    /// Lays out one fresh row: both advice cells and both selector toggles.
    /// This is the assign / activate-selector step of the region builder; a
    /// cell the operation does not write carries `Unknown`.
    pub fn push_row(&mut self, v0: Value, v1: Value, mul_on: bool, add_on: bool)
        ensures
            final(self)@ == (AssignmentModel {
                advice0: old(self)@.advice0.push(v0),
                advice1: old(self)@.advice1.push(v1),
                s_mul: old(self)@.s_mul.push(mul_on),
                s_add: old(self)@.s_add.push(add_on),
                ..old(self)@
            }),
    {
        self.advice0.push(v0);
        self.advice1.push(v1);
        self.s_mul.push(mul_on);
        self.s_add.push(add_on);
    }

    /// Closes a region over the rows just laid out, recording its placement.
    pub fn close_region(&mut self, kind: RegionKind, start: usize, height: usize)
        ensures
            final(self)@ == (AssignmentModel {
                regions: old(self)@.regions.push(Region { kind, start, height }),
                ..old(self)@
            }),
    {
        self.regions.push(Region { kind, start, height });
    }

    /// Declares that two cells carry the same value.
    pub fn record_copy(&mut self, left: Cell, right: Cell)
        ensures
            final(self)@ == (AssignmentModel {
                copies: old(self)@.copies.push(CopyConstraint { left, right }),
                ..old(self)@
            }),
    {
        self.copies.push(CopyConstraint { left, right });
    }

    /// Certifies that a cell carries a layout constant through the fixed
    /// column's constant-binding mechanism.
    pub fn record_constant(&mut self, cell: Cell, value: Felt)
        ensures
            final(self)@ == (AssignmentModel {
                constants: old(self)@.constants.push(ConstantBinding { cell, value }),
                ..old(self)@
            }),
    {
        self.constants.push(ConstantBinding { cell, value });
    }

    /// Declares that a cell equals the instance column at the given row.
    pub fn bind_instance(&mut self, cell: Cell, row: usize)
        ensures
            final(self)@ == (AssignmentModel {
                instance: old(self)@.instance.push(InstanceBinding { cell, row }),
                ..old(self)@
            }),
    {
        self.instance.push(InstanceBinding { cell, row });
    }
}

} // verus!

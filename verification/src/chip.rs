use vstd::prelude::*;

use crate::error::SynthesisError;
use crate::field::Felt;
use crate::layout::{advice0_col, advice1_col, config_spec, Column, ColumnKind, MyConfig};
use crate::region::{
    lemma_extend_preserves_cells, lemma_extend_wf, Assignment, AssignmentModel, Cell,
    ConstantBinding, Context, CopyConstraint, InstanceBinding, RegionKind,
};
use crate::value::{value_add, value_add_spec, value_mul, value_mul_spec, Value};

verus! {

/// A value bound to the cell that produced it. Produced by exactly one
/// assignment operation and read-only afterwards.
#[derive(Clone, Copy, PartialEq, Eq, Structural, Debug)]
pub struct AssignedCell {
    pub cell: Cell,
    pub value: Value,
}

impl AssignedCell {
    /// The handle points at a laid-out cell and agrees with the value the
    /// region list holds there.
    pub open spec fn wf_in(self, m: AssignmentModel) -> bool {
        m.valid_cell(self.cell) && m.cell_value(self.cell) == self.value
    }
}

/// The content a `load_private` call places in its cell: the given value, or
/// unknown when none was supplied.
pub open spec fn loaded_value(v: Option<Felt>) -> Value {
    match v {
        Option::Some(x) => Value::Known(x),
        Option::None => Value::Unknown,
    }
}

/// `load_private` succeeds unless a proving pass is asked to assign an
/// absent value.
pub open spec fn load_private_ok(ctx: Context, v: Option<Felt>) -> bool {
    ctx is StructureOnly || loaded_value(v) is Known
}

/// The region `load_private` lays out: one row, the value in the first
/// advice cell, no selector, no constraint.
pub open spec fn load_private_model(m: AssignmentModel, v: Option<Felt>) -> AssignmentModel {
    crate::region::extend_model(
        m,
        RegionKind::LoadPrivate,
        seq![loaded_value(v)],
        seq![Value::Unknown],
        seq![false],
        seq![false],
        Seq::empty(),
        Seq::empty(),
        Seq::empty(),
    )
}

/// The handle `load_private` returns: the fresh row's first advice cell.
pub open spec fn load_private_cell(m: AssignmentModel, v: Option<Felt>) -> AssignedCell {
    AssignedCell {
        cell: Cell { column: advice0_col(), row: m.advice0.len() as usize },
        value: loaded_value(v),
    }
}

/// The region `load_constant` lays out: one row, the constant in the first
/// advice cell, certified through the fixed column's constant binding.
pub open spec fn load_constant_model(m: AssignmentModel, c: Felt) -> AssignmentModel {
    crate::region::extend_model(
        m,
        RegionKind::LoadConstant,
        seq![Value::Known(c)],
        seq![Value::Unknown],
        seq![false],
        seq![false],
        Seq::empty(),
        seq![
            ConstantBinding {
                cell: Cell { column: advice0_col(), row: m.advice0.len() as usize },
                value: c,
            },
        ],
        Seq::empty(),
    )
}

/// The handle `load_constant` returns.
pub open spec fn load_constant_cell(m: AssignmentModel, c: Felt) -> AssignedCell {
    AssignedCell {
        cell: Cell { column: advice0_col(), row: m.advice0.len() as usize },
        value: Value::Known(c),
    }
}

/// An arithmetic operation succeeds unless a proving pass is asked to
/// produce a concrete result from an unknown operand.
pub open spec fn mul_ok(ctx: Context, a: AssignedCell, b: AssignedCell) -> bool {
    ctx is StructureOnly || value_mul_spec(a.value, b.value) is Known
}

/// As `mul_ok`, for the sum.
pub open spec fn add_ok(ctx: Context, a: AssignedCell, b: AssignedCell) -> bool {
    ctx is StructureOnly || value_add_spec(a.value, b.value) is Known
}

/// The region `mul` lays out: the operands copied into the two advice cells
/// of its first row, `s_mul` active there, and the product in the first
/// advice cell of its second row.
pub open spec fn mul_model(m: AssignmentModel, a: AssignedCell, b: AssignedCell) -> AssignmentModel {
    crate::region::extend_model(
        m,
        RegionKind::Mul,
        seq![a.value, value_mul_spec(a.value, b.value)],
        seq![b.value, Value::Unknown],
        seq![true, false],
        seq![false, false],
        seq![
            CopyConstraint {
                left: a.cell,
                right: Cell { column: advice0_col(), row: m.advice0.len() as usize },
            },
            CopyConstraint {
                left: b.cell,
                right: Cell { column: advice1_col(), row: m.advice0.len() as usize },
            },
        ],
        Seq::empty(),
        Seq::empty(),
    )
}

/// The handle `mul` returns: the product cell on its region's second row.
pub open spec fn mul_out(m: AssignmentModel, a: AssignedCell, b: AssignedCell) -> AssignedCell {
    AssignedCell {
        cell: Cell { column: advice0_col(), row: (m.advice0.len() + 1) as usize },
        value: value_mul_spec(a.value, b.value),
    }
}

/// As `mul_model`, with `s_add` active and the sum assigned.
pub open spec fn add_model(m: AssignmentModel, a: AssignedCell, b: AssignedCell) -> AssignmentModel {
    crate::region::extend_model(
        m,
        RegionKind::Add,
        seq![a.value, value_add_spec(a.value, b.value)],
        seq![b.value, Value::Unknown],
        seq![false, false],
        seq![true, false],
        seq![
            CopyConstraint {
                left: a.cell,
                right: Cell { column: advice0_col(), row: m.advice0.len() as usize },
            },
            CopyConstraint {
                left: b.cell,
                right: Cell { column: advice1_col(), row: m.advice0.len() as usize },
            },
        ],
        Seq::empty(),
        Seq::empty(),
    )
}

/// The handle `add` returns: the sum cell on its region's second row.
pub open spec fn add_out(m: AssignmentModel, a: AssignedCell, b: AssignedCell) -> AssignedCell {
    AssignedCell {
        cell: Cell { column: advice0_col(), row: (m.advice0.len() + 1) as usize },
        value: value_add_spec(a.value, b.value),
    }
}

/// The region list after `expose_public`: one more instance binding.
pub open spec fn expose_model(m: AssignmentModel, num: AssignedCell, row: usize) -> AssignmentModel {
    AssignmentModel { instance: m.instance.push(InstanceBinding { cell: num.cell, row }), ..m }
}

/// The operation chip: the public operation set (`load_private`,
/// `load_constant`, `mul`, `add`, `expose_public`), each materialized as
/// exactly one region of the builder it is handed.
#[derive(Clone, Copy, PartialEq, Eq, Structural, Debug)]
pub struct MyChip {
    pub config: MyConfig,
}

impl MyChip {
    /// The chip is programmed against the one configuration `configure`
    /// builds.
    pub open spec fn wf(self) -> bool {
        self.config == config_spec()
    }

    pub fn new(config: MyConfig) -> (r: MyChip)
        ensures
            r.config == config,
    {
        MyChip { config }
    }

    /// The configuration this chip was built with.
    pub fn config(&self) -> (r: &MyConfig)
        ensures
            *r == self.config,
    {
        &self.config
    }

    /// Declares the fixed grid shape once, before any witness exists: the
    /// two advice columns and the instance column with copy-equality
    /// enabled, the fixed column with constant-binding enabled, the two
    /// selectors, and the single gate
    /// `s_mul * (lhs * rhs - out) + s_add * (lhs + rhs - out) = 0`, with
    /// `lhs` and `rhs` read from the advice columns on the current row and
    /// `out` from the first advice column on the next row. Which columns
    /// carry equality and constants is recorded by `equality_enabled` and
    /// `constant_enabled`; what this gate enforces is `checker::gate_ok_at`.
    pub fn configure(advice0: Column, advice1: Column, instance: Column, constant: Column) -> (c:
        MyConfig)
        requires
            advice0 == advice0_col(),
            advice1 == advice1_col(),
            instance == crate::layout::instance_col(),
            constant == crate::layout::constant_col(),
        ensures
            c == config_spec(),
    {
        MyConfig {
            advice0,
            advice1,
            instance,
            constant,
            s_mul: crate::layout::Selector { index: 0 },
            s_add: crate::layout::Selector { index: 1 },
        }
    }

    /// Opens a region and assigns the optional private value into its first
    /// advice cell; absent values are an error in a proving pass and an
    /// unknown cell in a structure-only pass.
    pub fn load_private(&self, asg: &mut Assignment, v: Option<Felt>) -> (r: Result<
        AssignedCell,
        SynthesisError,
    >)
        requires
            self.wf(),
            old(asg)@.wf(),
        ensures
            r is Ok <==> load_private_ok(old(asg)@.ctx, v),
            r matches Ok(c) ==> final(asg)@ == load_private_model(old(asg)@, v)
                && final(asg)@.wf() && c == load_private_cell(old(asg)@, v) && c.wf_in(final(asg)@)
                && (
            forall|h: AssignedCell| #[trigger] h.wf_in(old(asg)@) ==> h.wf_in(final(asg)@)),
            r matches Err(e) ==> final(asg)@ == old(asg)@ && e == SynthesisError::MissingValue,
    {
        let value = match v {
            Option::Some(x) => Value::Known(x),
            Option::None => {
                match asg.ctx {
                    Context::Prover => {
                        return Result::Err(SynthesisError::MissingValue);
                    },
                    Context::StructureOnly => Value::Unknown,
                }
            },
        };
        asg.push_row(value, Value::Unknown, false, false);
        let end = asg.num_rows();
        let start = end - 1;
        asg.close_region(RegionKind::LoadPrivate, start, 1);
        let out = AssignedCell {
            cell: Cell { column: Column { index: 0, kind: ColumnKind::Private }, row: start },
            value,
        };
        proof {
            let m = old(asg)@;
            assert(asg@ =~= load_private_model(m, v));
            lemma_extend_wf(
                m,
                RegionKind::LoadPrivate,
                seq![loaded_value(v)],
                seq![Value::Unknown],
                seq![false],
                seq![false],
                Seq::empty(),
                Seq::empty(),
                Seq::empty(),
            );
            lemma_extend_preserves_cells(
                m,
                RegionKind::LoadPrivate,
                seq![loaded_value(v)],
                seq![Value::Unknown],
                seq![false],
                seq![false],
                Seq::empty(),
                Seq::empty(),
                Seq::empty(),
            );
            assert(asg@.cell_value(out.cell) == value);
        }
        Result::Ok(out)
    }

    /// Opens a region, assigns the constant into its first advice cell and
    /// certifies it through the fixed column's constant binding.
    pub fn load_constant(&self, asg: &mut Assignment, c: Felt) -> (r: Result<
        AssignedCell,
        SynthesisError,
    >)
        requires
            self.wf(),
            old(asg)@.wf(),
        ensures
            r is Ok,
            r matches Ok(h) ==> final(asg)@ == load_constant_model(old(asg)@, c)
                && final(asg)@.wf() && h == load_constant_cell(old(asg)@, c) && h.wf_in(final(asg)@)
                && (
            forall|p: AssignedCell| #[trigger] p.wf_in(old(asg)@) ==> p.wf_in(final(asg)@)),
    {
        asg.push_row(Value::Known(c), Value::Unknown, false, false);
        let end = asg.num_rows();
        let start = end - 1;
        asg.close_region(RegionKind::LoadConstant, start, 1);
        asg.record_constant(
            Cell { column: Column { index: 0, kind: ColumnKind::Private }, row: start },
            c,
        );
        let out = AssignedCell {
            cell: Cell { column: Column { index: 0, kind: ColumnKind::Private }, row: start },
            value: Value::Known(c),
        };
        proof {
            let m = old(asg)@;
            assert(asg@ =~= load_constant_model(m, c));
            lemma_extend_wf(
                m,
                RegionKind::LoadConstant,
                seq![Value::Known(c)],
                seq![Value::Unknown],
                seq![false],
                seq![false],
                Seq::empty(),
                seq![
                    ConstantBinding {
                        cell: Cell { column: advice0_col(), row: m.advice0.len() as usize },
                        value: c,
                    },
                ],
                Seq::empty(),
            );
            lemma_extend_preserves_cells(
                m,
                RegionKind::LoadConstant,
                seq![Value::Known(c)],
                seq![Value::Unknown],
                seq![false],
                seq![false],
                Seq::empty(),
                seq![
                    ConstantBinding {
                        cell: Cell { column: advice0_col(), row: m.advice0.len() as usize },
                        value: c,
                    },
                ],
                Seq::empty(),
            );
            assert(asg@.cell_value(out.cell) == Value::Known(c));
        }
        Result::Ok(out)
    }

    /// Opens a region, activates `s_mul` on its first row, copy-constrains
    /// the operands into that row's advice cells, and assigns their product
    /// (unknown if either operand is unknown) to the next row.
    pub fn mul(&self, asg: &mut Assignment, a: AssignedCell, b: AssignedCell) -> (r: Result<
        AssignedCell,
        SynthesisError,
    >)
        requires
            self.wf(),
            old(asg)@.wf(),
            a.wf_in(old(asg)@),
            b.wf_in(old(asg)@),
        ensures
            r is Ok <==> mul_ok(old(asg)@.ctx, a, b),
            r matches Ok(out) ==> final(asg)@ == mul_model(old(asg)@, a, b) && final(asg)@.wf()
                && out == mul_out(old(asg)@, a, b) && out.wf_in(final(asg)@) && (
            forall|h: AssignedCell| #[trigger] h.wf_in(old(asg)@) ==> h.wf_in(final(asg)@)),
            r matches Err(e) ==> final(asg)@ == old(asg)@ && e == SynthesisError::MissingValue,
    {
        let v = value_mul(a.value, b.value);
        let proceed = match (asg.ctx, v) {
            (Context::Prover, Value::Unknown) => false,
            _ => true,
        };
        if !proceed {
            return Result::Err(SynthesisError::MissingValue);
        }
        asg.push_row(a.value, b.value, true, false);
        asg.push_row(v, Value::Unknown, false, false);
        let end = asg.num_rows();
        let start = end - 2;
        asg.close_region(RegionKind::Mul, start, 2);
        let adv0 = Column { index: 0, kind: ColumnKind::Private };
        let adv1 = Column { index: 1, kind: ColumnKind::Private };
        asg.record_copy(a.cell, Cell { column: adv0, row: start });
        asg.record_copy(b.cell, Cell { column: adv1, row: start });
        let out = AssignedCell { cell: Cell { column: adv0, row: end - 1 }, value: v };
        proof {
            let m = old(asg)@;
            let t0 = seq![a.value, value_mul_spec(a.value, b.value)];
            let t1 = seq![b.value, Value::Unknown];
            let tm = seq![true, false];
            let ta = seq![false, false];
            let tc = seq![
                CopyConstraint {
                    left: a.cell,
                    right: Cell { column: advice0_col(), row: m.advice0.len() as usize },
                },
                CopyConstraint {
                    left: b.cell,
                    right: Cell { column: advice1_col(), row: m.advice0.len() as usize },
                },
            ];
            assert(asg@ =~= mul_model(m, a, b));
            lemma_extend_wf(m, RegionKind::Mul, t0, t1, tm, ta, tc, Seq::empty(), Seq::empty());
            lemma_extend_preserves_cells(
                m,
                RegionKind::Mul,
                t0,
                t1,
                tm,
                ta,
                tc,
                Seq::empty(),
                Seq::empty(),
            );
            assert(asg@.advice0[m.rows() + 1] == v);
            assert(asg@.cell_value(out.cell) == v);
        }
        Result::Ok(out)
    }

    /// As `mul`, with `s_add` activated and the sum assigned.
    pub fn add(&self, asg: &mut Assignment, a: AssignedCell, b: AssignedCell) -> (r: Result<
        AssignedCell,
        SynthesisError,
    >)
        requires
            self.wf(),
            old(asg)@.wf(),
            a.wf_in(old(asg)@),
            b.wf_in(old(asg)@),
        ensures
            r is Ok <==> add_ok(old(asg)@.ctx, a, b),
            r matches Ok(out) ==> final(asg)@ == add_model(old(asg)@, a, b) && final(asg)@.wf()
                && out == add_out(old(asg)@, a, b) && out.wf_in(final(asg)@) && (
            forall|h: AssignedCell| #[trigger] h.wf_in(old(asg)@) ==> h.wf_in(final(asg)@)),
            r matches Err(e) ==> final(asg)@ == old(asg)@ && e == SynthesisError::MissingValue,
    {
        let v = value_add(a.value, b.value);
        let proceed = match (asg.ctx, v) {
            (Context::Prover, Value::Unknown) => false,
            _ => true,
        };
        if !proceed {
            return Result::Err(SynthesisError::MissingValue);
        }
        asg.push_row(a.value, b.value, false, true);
        asg.push_row(v, Value::Unknown, false, false);
        let end = asg.num_rows();
        let start = end - 2;
        asg.close_region(RegionKind::Add, start, 2);
        let adv0 = Column { index: 0, kind: ColumnKind::Private };
        let adv1 = Column { index: 1, kind: ColumnKind::Private };
        asg.record_copy(a.cell, Cell { column: adv0, row: start });
        asg.record_copy(b.cell, Cell { column: adv1, row: start });
        let out = AssignedCell { cell: Cell { column: adv0, row: end - 1 }, value: v };
        proof {
            let m = old(asg)@;
            let t0 = seq![a.value, value_add_spec(a.value, b.value)];
            let t1 = seq![b.value, Value::Unknown];
            let tm = seq![false, false];
            let ta = seq![true, false];
            let tc = seq![
                CopyConstraint {
                    left: a.cell,
                    right: Cell { column: advice0_col(), row: m.advice0.len() as usize },
                },
                CopyConstraint {
                    left: b.cell,
                    right: Cell { column: advice1_col(), row: m.advice0.len() as usize },
                },
            ];
            assert(asg@ =~= add_model(m, a, b));
            lemma_extend_wf(m, RegionKind::Add, t0, t1, tm, ta, tc, Seq::empty(), Seq::empty());
            lemma_extend_preserves_cells(
                m,
                RegionKind::Add,
                t0,
                t1,
                tm,
                ta,
                tc,
                Seq::empty(),
                Seq::empty(),
            );
            assert(asg@.advice0[m.rows() + 1] == v);
            assert(asg@.cell_value(out.cell) == v);
        }
        Result::Ok(out)
    }

    /// Declares an equality constraint between the handle's cell and the
    /// instance column at `row`; fails when `row` lies outside the declared
    /// public-input arity.
    pub fn expose_public(&self, asg: &mut Assignment, num: AssignedCell, row: usize) -> (r: Result<
        (),
        SynthesisError,
    >)
        requires
            self.wf(),
            old(asg)@.wf(),
            num.wf_in(old(asg)@),
        ensures
            r is Ok <==> (row as int) < old(asg)@.instance_arity as int,
            r is Ok ==> final(asg)@ == expose_model(old(asg)@, num, row) && final(asg)@.wf(),
            r matches Err(e) ==> final(asg)@ == old(asg)@ && e
                == SynthesisError::PublicRowOutOfRange,
    {
        if row >= asg.instance_arity {
            return Result::Err(SynthesisError::PublicRowOutOfRange);
        }
        asg.bind_instance(num.cell, row);
        proof {
            let m = old(asg)@;
            let n = asg@;
            assert(n == expose_model(m, num, row));
            assert forall|i: int| 0 <= i < n.instance.len() implies n.valid_cell(
                (#[trigger] n.instance[i]).cell,
            ) && (n.instance[i].row as int) < n.instance_arity as int by {
                if i < m.instance.len() {
                    assert(n.instance[i] == m.instance[i]);
                } else {
                    assert(n.instance[i] == InstanceBinding { cell: num.cell, row });
                }
            }
        }
        Result::Ok(())
    }
}

} // verus!

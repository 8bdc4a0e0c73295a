use vstd::prelude::*;

verus! {

/// The kind of a grid column: witness-only advice, publicly bound instance,
/// or a fixed constant baked into the layout.
#[derive(Clone, Copy, PartialEq, Eq, Structural, Debug)]
pub enum ColumnKind {
    Private,
    Public,
    Fixed,
}

/// A vertical lane of the constraint grid, identified by its index within its
/// kind. Immutable once declared.
#[derive(Clone, Copy, PartialEq, Eq, Structural, Debug)]
pub struct Column {
    pub index: usize,
    pub kind: ColumnKind,
}

/// A 0/1 toggle that activates a gate's constraint on a chosen row; it is
/// set during assignment and is never a free witness.
#[derive(Clone, Copy, PartialEq, Eq, Structural, Debug)]
pub struct Selector {
    pub index: usize,
}

/// The immutable configuration handed back by `configure`: handles to the two
/// advice columns, the instance column, the fixed constant column, and the two
/// selectors that drive the single mul/add gate.
#[derive(Clone, Copy, PartialEq, Eq, Structural, Debug)]
pub struct MyConfig {
    pub advice0: Column,
    pub advice1: Column,
    pub instance: Column,
    pub constant: Column,
    pub s_mul: Selector,
    pub s_add: Selector,
}

/// The first advice column.
pub open spec fn advice0_col() -> Column {
    Column { index: 0, kind: ColumnKind::Private }
}

/// The second advice column.
pub open spec fn advice1_col() -> Column {
    Column { index: 1, kind: ColumnKind::Private }
}

/// The instance column carrying the public inputs.
pub open spec fn instance_col() -> Column {
    Column { index: 0, kind: ColumnKind::Public }
}

/// The fixed column carrying baked-in constants.
pub open spec fn constant_col() -> Column {
    Column { index: 0, kind: ColumnKind::Fixed }
}

/// The one configuration this design ever builds: two advice columns, one
/// instance column, one fixed column, and the two gate selectors.
pub open spec fn config_spec() -> MyConfig {
    MyConfig {
        advice0: advice0_col(),
        advice1: advice1_col(),
        instance: instance_col(),
        constant: constant_col(),
        s_mul: Selector { index: 0 },
        s_add: Selector { index: 1 },
    }
}

/// Whether `c` is one of the two advice columns.
pub open spec fn is_advice(c: Column) -> bool {
    c == advice0_col() || c == advice1_col()
}

/// The columns on which copy-equality is enabled: the instance column and
/// both advice columns.
pub open spec fn equality_enabled(c: Column) -> bool {
    c == instance_col() || is_advice(c)
}

/// The columns on which constant-binding is enabled: the fixed column.
pub open spec fn constant_enabled(c: Column) -> bool {
    c == constant_col()
}

} // verus!

//! A minimal PLONK-style constraint grid proving knowledge of an `x` with
//! `x^3 + x + constant = result` for a public `result`: the fixed column
//! layout and its single mul/add gate, a region builder that accumulates
//! cell assignments and equality constraints, the operation chip programmed
//! against it, the straight-line circuit program, and a checker for the
//! accumulated constraints. Field arithmetic and proof generation belong to
//! the backend and are consumed, not implemented, here.

pub mod chip;
pub mod checker;
pub mod circuit;
pub mod error;
pub mod field;
pub mod laws;
pub mod layout;
pub mod region;
pub mod value;

//! What listings can be filtered and ordered by, and the values of filters.
use vstd::prelude::*;

pub mod models;
pub mod providers;
pub mod values;
pub mod builder;

verus! {

/// The kind of a field's values.
#[derive(Clone, Copy, Debug, PartialEq, Eq, Structural)]
pub enum FieldKind {
    String,
    Bool,
}

} // verus!

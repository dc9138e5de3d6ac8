//! What a backend reports about a query: its parameters and result columns.

use vstd::prelude::*;

verus! {

/// A result column as the backend describes it.
pub struct Column {
    pub name: String,
    /// `None` when the backend could not tell.
    pub nullable: Option<bool>,
    /// The backend's native type name.
    pub native_type: String,
}

/// The description of one query on one backend.
pub struct Description {
    /// The native type of each parameter, in order; `None` when unknown.
    pub params: Vec<Option<String>>,
    /// The result columns, in the query's order.
    pub columns: Vec<Column>,
}

} // verus!

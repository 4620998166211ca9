//! CRUD scaffolding: the rules by which a record schema becomes a set of
//! request handlers, and the small runtime those handlers lean on.

use vstd::prelude::*;

pub mod access_control;
pub mod datetime;
pub mod error;
pub mod filter;
pub mod helper;
pub mod macros;
pub mod sort;
pub mod text;

pub use access_control::{CheckPermissions, PermissionFilter};
pub use error::{CrudError, ParseError};
pub use filter::FilterOperator;
pub use sort::{SortDirection, SortSpec};

verus! {

/// Implemented on a record type: names the type of its table.
pub trait CrudStruct {
    type TableType;
}

/// Implemented on a record type: names the type that carries a new record.
/// Where creating is off that type is the unit type.
pub trait CrudInsertable {
    type InsertType;
}

/// Implemented on a record type: names the types that carry a partial
/// change and a replacement. Where changing is off both are the unit type.
pub trait CrudUpdatable {
    type PatchType;

    type PutType;
}

/// Implemented on a record type: names the type that holds the conditions
/// of a list request.
pub trait CrudFilterSpec {
    type FilterSpecType;
}

/// Marks a record type for which a type that carries a new record exists.
pub trait CrudInsertableMarker {

}

/// Marks a record type for which a type that carries a change exists.
pub trait CrudUpdatableMarker {

}

/// What a handler returns.
pub type CrudResult<T, E = crate::error::CrudError> = Result<T, E>;

} // verus!

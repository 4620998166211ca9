//! Authorisation: what a record type says about who may do what.

use crate::{CrudInsertable, CrudStruct, CrudUpdatable};
use vstd::prelude::*;

verus! {

/// What to do with a list before it is handed out.
pub enum PermissionFilter<F> {
    /// Every row may be seen.
    KeepAll,
    /// No row may be seen.
    KeepNone,
    /// The rows that meet a condition may be seen.
    Filter(F),
}

impl<F> PermissionFilter<F> {
    /// Narrows a query to the rows that may be seen. Nothing comes back
    /// where no row may be seen; the query comes back as it is where all
    /// may; otherwise `with_filter` adds the condition to the query.
    pub fn apply<Q, A: FnOnce(Q, F) -> Q>(self, query: Q, with_filter: A) -> (r: Option<Q>)
        requires
            forall|q: Q, f: F| #[trigger] with_filter.requires((q, f)),
        ensures
            match self {
                PermissionFilter::KeepAll => r == Some(query),
                PermissionFilter::KeepNone => r is None,
                PermissionFilter::Filter(f) => r is Some && with_filter.ensures(
                    (query, f),
                    r->Some_0,
                ),
            },
    {
        match self {
            PermissionFilter::KeepAll => Some(query),
            PermissionFilter::KeepNone => None,
            PermissionFilter::Filter(f) => Some(with_filter(query, f)),
        }
    }
}

/// What a record type implements to take part in authorisation. Every
/// question has a default answer, and the default allows.
pub trait CheckPermissions: CrudUpdatable + CrudInsertable + CrudStruct {
    /// The user on whose behalf a request runs. Every handler takes one.
    type AuthUser;

    /// The condition, if any, that narrows a list.
    type Condition;

    /// Whether the user may read this record. By default every read is
    /// allowed.
    fn allow_read(&self, user: &Self::AuthUser) -> (r: bool)
        default_ensures
            r,
    {
        true
    }

    /// Which rows of a list the user may see. By default all of them.
    fn filter_list(user: &Self::AuthUser) -> (r: PermissionFilter<Self::Condition>)
        default_ensures
            r is KeepAll,
    {
        PermissionFilter::KeepAll
    }

    /// Whether the user may create the new record. By default every create
    /// is allowed.
    fn allow_create(new: &<Self as CrudInsertable>::InsertType, user: &Self::AuthUser) -> (r: bool)
        default_ensures
            r,
    {
        true
    }

    /// Whether the user may replace this record by the new one. By default
    /// every update is allowed.
    fn allow_update(&self, new: &<Self as CrudUpdatable>::PutType, user: &Self::AuthUser) -> (r:
        bool)
        default_ensures
            r,
    {
        true
    }

    /// Whether the user may delete this record. By default every delete is
    /// allowed.
    fn allow_delete(&self, user: &Self::AuthUser) -> (r: bool)
        default_ensures
            r,
    {
        true
    }
}

} // verus!

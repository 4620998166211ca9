//! The generator behind the `crud` attribute: what it reads from a struct
//! definition and the source text it gives back.

pub mod crud_impl;
pub mod derive;
pub mod error;
pub mod model;
pub mod props;
pub mod template;

//! A terminal browser over a directory of documents: the catalog of documents
//! with their metadata, the cyclic selection cursor, and the choice of viewer.
use vstd::prelude::*;

pub mod catalog;
pub mod cursor;
pub mod dispatch;
pub mod error;
pub mod metadata;
pub mod session;
pub mod text;

verus! {

} // verus!

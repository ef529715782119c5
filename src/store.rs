//! What the document store hands back to the library.

use vstd::prelude::*;

verus! {

/// What a point query against the document store gave.
///
/// A query that ran and matched nothing (`Missing`) is kept apart from one that
/// could not run (`Failed`).
#[derive(Clone, Debug)]
pub enum Lookup<T> {
    Found(T),
    Missing,
    Failed,
}

/// The document store could not be read.
#[derive(Clone, Copy, Debug, PartialEq, Eq, Structural)]
pub struct StoreError;

} // verus!

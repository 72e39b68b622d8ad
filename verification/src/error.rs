//! Errors that a `Pendulum` can produce.

use vstd::prelude::*;

verus! {

/// Result type for a `Pendulum`.
pub type PendulumResult<T1, T2> = Result<T1, PendulumError<T2>>;

/// Error type for `Pendulum` operations.
#[derive(Debug)]
pub struct PendulumError<T> {
    item: T,
    kind: PendulumErrorKind,
}

/// Enumeration of `Pendulum` errors.
#[derive(Debug, PartialEq, Eq, Structural, Clone, Copy)]
pub enum PendulumErrorKind {
    MaxCapacityReached,
    MaxTimeoutExceeded,
}

impl<T> PendulumError<T> {
    /// The item that was handed back with the error.
    pub closed spec fn spec_item(&self) -> T {
        self.item
    }

    /// The reason for the error.
    pub closed spec fn spec_kind(&self) -> PendulumErrorKind {
        self.kind
    }

    /// The error that `new` builds.
    pub closed spec fn spec_new(item: T, kind: PendulumErrorKind) -> PendulumError<T> {
        PendulumError { item: item, kind: kind }
    }

    /// Create a new `PendulumError`.
    pub fn new(item: T, kind: PendulumErrorKind) -> (e: PendulumError<T>)
        ensures
            e == PendulumError::spec_new(item, kind),
            e.spec_item() == item,
            e.spec_kind() == kind,
    {
        PendulumError { item: item, kind: kind }
    }

    /// Retrieve the error kind of the `PendulumError`.
    pub fn kind(&self) -> (k: &PendulumErrorKind)
        ensures
            *k == self.spec_kind(),
    {
        &self.kind
    }

    /// Retrieve the item contained within the error.
    pub fn item(&self) -> (i: &T)
        ensures
            *i == self.spec_item(),
    {
        &self.item
    }

    /// Break the error down into its parts.
    pub fn into_parts(self) -> (parts: (T, PendulumErrorKind))
        ensures
            parts == (self.spec_item(), self.spec_kind()),
    {
        (self.item, self.kind)
    }
}

/// Taking an error apart gives back exactly what it was built from:
/// `into_parts(new(item, kind)) == (item, kind)`, and an error is determined by
/// its item and kind.
pub proof fn lemma_error_parts_round_trip<T>(item: T, kind: PendulumErrorKind, e: PendulumError<T>)
    ensures
        (PendulumError::spec_new(item, kind).spec_item(), PendulumError::spec_new(item, kind).spec_kind())
            == (item, kind),
        e == PendulumError::spec_new(e.spec_item(), e.spec_kind()),
{
}

} // verus!

//! The differences between a cached entity and an incoming update, one
//! record for each attribute that changed.

pub mod channel;
pub mod emoji;
pub mod member;
pub mod message;
pub mod permission;
pub mod round_trip;

use crate::errors::Error;
use vstd::prelude::*;

verus! {

/// An entity that can be compared with an update of it.
pub trait Diff {
    /// The update.
    type Other;

    /// One change.
    type Output;

    /// The changes that turn the entity into what the update describes, in a
    /// fixed order. Neither the entity nor the update is changed.
    fn diff(&self, other: &Self::Other) -> Result<Vec<Self::Output>, Error>;
}

} // verus!

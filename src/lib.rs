//! Suspend (hibernate-to-disk) conductor: the decisions of a hibernation
//! attempt, stated and proved, with the platform work left to the caller.
use vstd::prelude::*;

pub mod error;
pub mod metadata;
pub mod codec;
pub mod pipeline;
pub mod disk;
pub mod suspend;

verus! {

} // verus!

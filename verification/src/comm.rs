//! The failure of a hand-over between the HTTP side and the scheduler.
use vstd::prelude::*;

verus! {

/// A message could not be handed to the scheduler.
#[derive(Debug, Clone, Copy, PartialEq, Eq, Structural)]
pub struct CommError;

} // verus!

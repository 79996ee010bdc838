//! Timer events

use vstd::prelude::*;

verus! {

/// Timer Events
#[derive(Debug, Clone, Copy, PartialEq, Eq, Structural)]
pub enum Event {
    /// Timer timed out / count down ended
    TimeOut,
}

} // verus!

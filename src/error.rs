use vstd::prelude::*;
use crate::surface::PresentMode;

verus! {

/// Configuration errors reported to the caller.
#[derive(Debug, Clone, Copy, PartialEq, Eq, Structural)]
pub enum FoxyError {
    /// A tick rate of zero, or one whose period is shorter than a nanosecond.
    InvalidTickRate(u32),
    /// A tick length of zero nanoseconds.
    InvalidTickPeriod(u64),
    /// A present mode that the surface does not support.
    InvalidPresentMode(PresentMode),
}

} // verus!

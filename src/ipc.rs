use vstd::prelude::*;

verus! {

/// A request to a running transfer.
#[derive(Debug, Clone, Copy, PartialEq, Eq, Structural)]
pub enum Message {
    /// Change the rate limit to this many units per second, which is positive.
    UpdateRate(u32),
    /// Stop the transfer.
    Interrupted,
}

/// A report from a running transfer.
#[derive(Debug, Clone, Copy, PartialEq, Eq, Structural)]
pub enum ProgressMessage {
    Initial,
    Interrupted,
}

} // verus!

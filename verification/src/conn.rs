//! The decisions of a framed connection that do not depend on the
//! transport.
//!
//! A connection queues encoded messages up to a fixed number before a send
//! has to wait for a flush, and while it pushes an unbounded stream of rows
//! it polls the transport at a fixed interval to notice a peer that has gone
//! away. The transport itself lives outside this crate: it reports what it
//! saw, and the functions here say what that means.

use vstd::prelude::*;

verus! {

/// How many messages may be queued for sending before a send waits.
pub const SEND_BUFFER_CAPACITY: usize = 32;

/// How many seconds pass between two polls for a closed connection.
pub const CLOSE_POLL_INTERVAL_SECS: u64 = 1;

/// What a poll of the transport's readiness showed.
#[derive(Clone, Copy, Debug, PartialEq, Eq, Structural)]
pub enum Poll {
    /// The transport answered; each flag says whether that direction has
    /// been closed.
    Ready { read_closed: bool, write_closed: bool },
    /// The transport failed to answer.
    Failed,
}

/// What to do after a poll.
#[derive(Clone, Copy, Debug, PartialEq, Eq, Structural)]
pub enum Verdict {
    /// Both directions are open: sleep and poll again.
    KeepWaiting,
    /// A direction has been closed: report the connection as closed.
    Closed,
    /// The poll failed: report its error.
    Failed,
}

/// What a poll means: the connection counts as closed as soon as either
/// direction is.
pub open spec fn spec_verdict(poll: Poll) -> Verdict {
    match poll {
        Poll::Ready { read_closed, write_closed } => if read_closed || write_closed {
            Verdict::Closed
        } else {
            Verdict::KeepWaiting
        },
        Poll::Failed => Verdict::Failed,
    }
}

/// Decides what to do after a poll.
pub fn verdict(poll: Poll) -> (v: Verdict)
    ensures
        v == spec_verdict(poll),
{
    match poll {
        Poll::Ready { read_closed, write_closed } => if read_closed || write_closed {
            Verdict::Closed
        } else {
            Verdict::KeepWaiting
        },
        Poll::Failed => Verdict::Failed,
    }
}

} // verus!

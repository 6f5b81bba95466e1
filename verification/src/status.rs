//! The progress state machine of the background computation.
//!
//! The data source drives the transitions; the viewer only reads the
//! current state and renders a status line for it. States are ordered
//! and never move backward; an out-of-order snapshot from the source is
//! a contract violation that the viewer ignores, keeping the last valid
//! state, so that the screen stays responsive.
use vstd::prelude::*;
use vstd::string::StringExecFns;
use crate::magnitude::dec_chars;
use crate::magnitude::u64_to_dec;

verus! {

/// Progress through one phase: `done` out of `total` work items.
/// `total` may be zero transiently, before the source has an estimate.
#[derive(Clone, Copy, PartialEq, Eq, Structural, Debug)]
pub struct Progress {
    pub done: u64,
    pub total: u64,
}

/// The phases of the background computation, in order.
#[derive(Clone, Copy, PartialEq, Eq, Structural, Debug)]
pub enum TableComputationStatus {
    New,
    ComputingGeiger { progress: Progress },
    ComputingTrust { progress: Progress },
    Done,
}

/// The status line text for a state.
pub open spec fn spec_status_text(s: TableComputationStatus) -> Seq<char> {
    match s {
        TableComputationStatus::New => "Computation starting..."@,
        TableComputationStatus::ComputingGeiger { progress } => "Computing Geiger : *"@
            + dec_chars(progress.done as nat) + "* / "@ + dec_chars(progress.total as nat),
        TableComputationStatus::ComputingTrust { progress } => "Computing Trust : *"@ + dec_chars(
            progress.done as nat,
        ) + "* / "@ + dec_chars(progress.total as nat),
        TableComputationStatus::Done => "Computation finished"@,
    }
}

impl TableComputationStatus {
    /// Position of the state in the forward-only order.
    pub open spec fn spec_rank(self) -> int {
        match self {
            TableComputationStatus::New => 0,
            TableComputationStatus::ComputingGeiger { .. } => 1,
            TableComputationStatus::ComputingTrust { .. } => 2,
            TableComputationStatus::Done => 3,
        }
    }

    /// Position of the state in the forward-only order.
    pub fn rank(&self) -> (r: u8)
        ensures
            r as int == self.spec_rank(),
    {
        match self {
            TableComputationStatus::New => 0,
            TableComputationStatus::ComputingGeiger { .. } => 1,
            TableComputationStatus::ComputingTrust { .. } => 2,
            TableComputationStatus::Done => 3,
        }
    }

    /// True only before any phase has started: the one state in which
    /// the table region shows the preparing placeholder instead of rows.
    pub fn is_before_deps(&self) -> (b: bool)
        ensures
            b == (*self is New),
    {
        match self {
            TableComputationStatus::New => true,
            _ => false,
        }
    }

    /// The status line text for this state.
    pub fn status_text(&self) -> (r: String)
        ensures
            r@ == spec_status_text(*self),
    {
        match self {
            TableComputationStatus::New => String::from_str("Computation starting..."),
            TableComputationStatus::ComputingGeiger { progress } => {
                let mut r = String::from_str("Computing Geiger : *");
                let d = u64_to_dec(progress.done);
                r.append(d.as_str());
                r.append("* / ");
                let t = u64_to_dec(progress.total);
                r.append(t.as_str());
                proof {
                    assert(r@ =~= spec_status_text(*self));
                }
                r
            },
            TableComputationStatus::ComputingTrust { progress } => {
                let mut r = String::from_str("Computing Trust : *");
                let d = u64_to_dec(progress.done);
                r.append(d.as_str());
                r.append("* / ");
                let t = u64_to_dec(progress.total);
                r.append(t.as_str());
                proof {
                    assert(r@ =~= spec_status_text(*self));
                }
                r
            },
            TableComputationStatus::Done => String::from_str("Computation finished"),
        }
    }
}

/// The state the viewer keeps after seeing `incoming` while holding
/// `current`: the incoming state, unless adopting it would move the
/// machine backward.
pub open spec fn spec_accept(
    current: TableComputationStatus,
    incoming: TableComputationStatus,
) -> TableComputationStatus {
    if incoming.spec_rank() >= current.spec_rank() {
        incoming
    } else {
        current
    }
}

/// Adopt an incoming status snapshot unless it moves backward.
pub fn accept_status(
    current: TableComputationStatus,
    incoming: TableComputationStatus,
) -> (r: TableComputationStatus)
    ensures
        r == spec_accept(current, incoming),
{
    if incoming.rank() >= current.rank() {
        incoming
    } else {
        current
    }
}

} // verus!

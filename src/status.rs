use vstd::prelude::*;

verus! {

/// Lifecycle of one request: `Queued -> Batching -> Processing -> {Complete, Failed}`.
#[derive(Clone, Copy, Debug, PartialEq, Eq, Structural)]
pub enum RequestStatus {
    Queued,
    Batching,
    Processing,
    Complete,
    Failed,
}

/// Position of a status along the lifecycle path; both terminal states share the last rank.
pub open spec fn rank(s: RequestStatus) -> nat {
    match s {
        RequestStatus::Queued => 0,
        RequestStatus::Batching => 1,
        RequestStatus::Processing => 2,
        RequestStatus::Complete => 3,
        RequestStatus::Failed => 3,
    }
}

pub open spec fn is_terminal_spec(s: RequestStatus) -> bool {
    s == RequestStatus::Complete || s == RequestStatus::Failed
}

/// A write may move a request from `old` to `new`: strictly forward along the
/// path, or a rewrite of the same status. Nothing leaves a terminal status
/// for another one.
pub open spec fn may_follow(old: RequestStatus, new: RequestStatus) -> bool {
    rank(old) < rank(new) || old == new
}

impl RequestStatus {
    pub fn is_terminal(&self) -> (r: bool)
        ensures
            r == is_terminal_spec(*self),
    {
        match self {
            RequestStatus::Complete | RequestStatus::Failed => true,
            _ => false,
        }
    }

    /// Whether a write from `self` to `next` keeps the lifecycle monotonic.
    pub fn can_advance_to(&self, next: RequestStatus) -> (r: bool)
        ensures
            r == may_follow(*self, next),
    {
        let a: u8 = self.rank_of();
        let b: u8 = next.rank_of();
        a < b || *self == next
    }

    fn rank_of(&self) -> (r: u8)
        ensures
            r as nat == rank(*self),
    {
        match self {
            RequestStatus::Queued => 0,
            RequestStatus::Batching => 1,
            RequestStatus::Processing => 2,
            RequestStatus::Complete => 3,
            RequestStatus::Failed => 3,
        }
    }

    /// Lower-case name used in the persisted form.
    pub fn as_str(&self) -> (r: &'static str)
        ensures
            r@ == status_name(*self),
    {
        match self {
            RequestStatus::Queued => "queued",
            RequestStatus::Batching => "batching",
            RequestStatus::Processing => "processing",
            RequestStatus::Complete => "complete",
            RequestStatus::Failed => "failed",
        }
    }
}

pub open spec fn status_name(s: RequestStatus) -> Seq<char> {
    match s {
        RequestStatus::Queued => "queued"@,
        RequestStatus::Batching => "batching"@,
        RequestStatus::Processing => "processing"@,
        RequestStatus::Complete => "complete"@,
        RequestStatus::Failed => "failed"@,
    }
}

} // verus!

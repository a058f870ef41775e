use vstd::prelude::*;
use crate::status::{RequestStatus, rank, may_follow, is_terminal_spec};

verus! {

/// The durable record of one submission, keyed by its request id.
/// `request` and `result` hold the JSON text of the completion request and
/// of the upstream completion response, exactly as received.
/// Timestamps are seconds since the Unix epoch.
#[derive(Clone, Debug)]
pub struct RequestState {
    pub request_id: String,
    pub status: RequestStatus,
    pub batch_id: Option<String>,
    pub request: String,
    pub api_key: String,
    pub result: Option<String>,
    pub error: Option<String>,
    pub created_at: i64,
    pub updated_at: i64,
}

/// One recorded write of a request: the status moves monotonically and the
/// submission's identity, payload and credential never change.
pub open spec fn is_step(a: RequestState, b: RequestState) -> bool {
    &&& may_follow(a.status, b.status)
    &&& b.request_id@ == a.request_id@
    &&& b.request@ == a.request@
    &&& b.api_key@ == a.api_key@
    &&& b.created_at == a.created_at
}

/// Every observed sequence of records of one request, each produced from the
/// previous one by a write, never moves backward along the lifecycle.
pub proof fn lemma_lifecycle_monotonic(trace: Seq<RequestState>)
    requires
        forall|i: int| 0 <= i < trace.len() - 1 ==> #[trigger] is_step(trace[i], trace[i + 1]),
    ensures
        forall|i: int, j: int|
            0 <= i <= j < trace.len() ==> rank(#[trigger] trace[i].status) <= rank(#[trigger] trace[j].status),
    decreases trace.len(),
{
    if trace.len() > 1 {
        let init = trace.drop_last();
        assert forall|i: int| 0 <= i < init.len() - 1 implies #[trigger] is_step(init[i], init[i + 1]) by {
            assert(is_step(trace[i], trace[i + 1]));
        }
        lemma_lifecycle_monotonic(init);
        let n = trace.len() - 1;
        let k = n - 1;
        assert(is_step(trace[k], trace[k + 1]));
        assert(trace[k + 1] == trace[n]);
        assert forall|i: int, j: int| 0 <= i <= j < trace.len() implies rank(#[trigger] trace[i].status) <= rank(#[trigger] trace[j].status) by {
            if j == n && i < n {
                assert(init[i] == trace[i]);
                assert(init[n - 1] == trace[n - 1]);
            } else if j < n {
                assert(init[i] == trace[i]);
                assert(init[j] == trace[j]);
            }
        }
    }
}

fn copy_text(o: &Option<String>) -> (r: Option<String>)
    ensures
        r == *o,
{
    match o {
        Some(t) => Some(t.clone()),
        None => None,
    }
}

impl RequestState {
    /// A field-by-field copy of the record.
    pub fn duplicate(&self) -> (r: RequestState)
        ensures
            r == *self,
    {
        RequestState {
            request_id: self.request_id.clone(),
            status: self.status,
            batch_id: copy_text(&self.batch_id),
            request: self.request.clone(),
            api_key: self.api_key.clone(),
            result: copy_text(&self.result),
            error: copy_text(&self.error),
            created_at: self.created_at,
            updated_at: self.updated_at,
        }
    }

    /// A result is stored exactly when the request completed, an error exactly
    /// when it failed.
    pub open spec fn wf(&self) -> bool {
        &&& (self.result is Some <==> self.status == RequestStatus::Complete)
        &&& (self.error is Some <==> self.status == RequestStatus::Failed)
    }

    /// A fresh record, queued, stamped with `now`.
    pub fn new(request_id: String, request: String, api_key: String, now: i64) -> (r: RequestState)
        ensures
            r.wf(),
            r.status == RequestStatus::Queued,
            r.request_id@ == request_id@,
            r.request@ == request@,
            r.api_key@ == api_key@,
            r.batch_id is None,
            r.result is None,
            r.error is None,
            r.created_at == now,
            r.updated_at == now,
    {
        RequestState {
            request_id,
            status: RequestStatus::Queued,
            batch_id: None,
            request,
            api_key,
            result: None,
            error: None,
            created_at: now,
            updated_at: now,
        }
    }

    /// Moves a request to a non-terminal status and records its batch.
    /// The write is made only where it keeps the lifecycle monotonic; a
    /// terminal status is reached through `complete` or `fail` alone.
    /// Returns whether the record changed.
    pub fn update_status(&mut self, status: RequestStatus, batch_id: Option<String>, now: i64) -> (r: bool)
        ensures
            r == (may_follow(old(self).status, status) && !is_terminal_spec(status)),
            r ==> *final(self) == (RequestState { status, batch_id, updated_at: now, ..*old(self) }),
            !r ==> *final(self) == *old(self),
            is_step(*old(self), *final(self)),
            old(self).wf() ==> final(self).wf(),
    {
        if self.status.can_advance_to(status) && !status.is_terminal() {
            self.status = status;
            self.batch_id = batch_id;
            self.updated_at = now;
            true
        } else {
            false
        }
    }

    /// Records a successful completion with its response. Refused only for a
    /// request that already failed; completing twice overwrites the result.
    /// Returns whether the record changed (and a completion event is owed).
    pub fn complete(&mut self, result: String, now: i64) -> (r: bool)
        ensures
            r == may_follow(old(self).status, RequestStatus::Complete),
            r == (old(self).status != RequestStatus::Failed),
            r ==> *final(self) == (RequestState {
                status: RequestStatus::Complete,
                result: Some(result),
                error: None,
                updated_at: now,
                ..*old(self)
            }),
            !r ==> *final(self) == *old(self),
            is_step(*old(self), *final(self)),
            old(self).wf() ==> final(self).wf(),
            r ==> final(self).wf(),
    {
        if self.status.can_advance_to(RequestStatus::Complete) {
            self.status = RequestStatus::Complete;
            self.result = Some(result);
            self.error = None;
            self.updated_at = now;
            true
        } else {
            false
        }
    }

    /// Records a failure with its message. Refused only for a request that
    /// already completed; failing twice overwrites the message.
    /// Returns whether the record changed (and a completion event is owed).
    pub fn fail(&mut self, error: String, now: i64) -> (r: bool)
        ensures
            r == may_follow(old(self).status, RequestStatus::Failed),
            r == (old(self).status != RequestStatus::Complete),
            r ==> *final(self) == (RequestState {
                status: RequestStatus::Failed,
                error: Some(error),
                result: None,
                updated_at: now,
                ..*old(self)
            }),
            !r ==> *final(self) == *old(self),
            is_step(*old(self), *final(self)),
            old(self).wf() ==> final(self).wf(),
            r ==> final(self).wf(),
    {
        if self.status.can_advance_to(RequestStatus::Failed) {
            self.status = RequestStatus::Failed;
            self.error = Some(error);
            self.result = None;
            self.updated_at = now;
            true
        } else {
            false
        }
    }
}

} // verus!

use vstd::prelude::*;
use crate::status::RequestStatus;
use crate::record::RequestState;

verus! {

/// Errors reported to a client of the completion endpoint.
#[derive(Clone, Debug)]
pub enum ApiError {
    MissingApiKey,
    InternalError(String),
    BatchFailed(String),
}

pub open spec fn missing_key_text() -> Seq<char> {
    "Authorization header with Bearer token is required"@
}

pub open spec fn batch_failed_prefix() -> Seq<char> {
    "Batch processing failed: "@
}

pub open spec fn unknown_error_text() -> Seq<char> {
    "Unknown error"@
}

pub open spec fn no_result_text() -> Seq<char> {
    "No result found for completed request"@
}

pub open spec fn bearer_prefix() -> Seq<char> {
    "Bearer "@
}

/// The token carried by an `authorization` header value, if it has the
/// `Bearer ` scheme.
pub open spec fn bearer_of(h: Seq<char>) -> Option<Seq<char>> {
    if h.len() >= bearer_prefix().len() && h.subrange(0, bearer_prefix().len() as int) == bearer_prefix() {
        Some(h.subrange(bearer_prefix().len() as int, h.len() as int))
    } else {
        None
    }
}

impl ApiError {
    /// HTTP status code of the error response.
    pub fn status_code(&self) -> (r: u16)
        ensures
            self is MissingApiKey ==> r == 401,
            !(self is MissingApiKey) ==> r == 500,
    {
        match self {
            ApiError::MissingApiKey => 401,
            _ => 500,
        }
    }

    /// Text placed under `error.message` in the response body.
    pub fn message(&self) -> (r: String)
        ensures
            self is MissingApiKey ==> r@ == missing_key_text(),
            self matches ApiError::InternalError(m) ==> r@ == m@,
            self matches ApiError::BatchFailed(m) ==> r@ == batch_failed_prefix() + m@,
    {
        match self {
            ApiError::MissingApiKey => String::from_str("Authorization header with Bearer token is required"),
            ApiError::InternalError(m) => m.clone(),
            ApiError::BatchFailed(m) => String::from_str("Batch processing failed: ").concat(m.as_str()),
        }
    }
}

fn has_bearer_prefix(h: &str) -> (r: bool)
    ensures
        r == (h@.len() >= bearer_prefix().len() && h@.subrange(0, bearer_prefix().len() as int)
            == bearer_prefix()),
{
    let prefix = "Bearer ";
    proof {
        reveal_strlit("Bearer ");
    }
    let n = h.unicode_len();
    if n < 7 {
        return false;
    }
    let mut i: usize = 0;
    while i < 7
        invariant
            0 <= i <= 7,
            n == h@.len(),
            n >= 7,
            prefix@ == bearer_prefix(),
            bearer_prefix().len() == 7,
            forall|j: int| 0 <= j < i ==> h@[j] == bearer_prefix()[j],
        decreases 7 - i,
    {
        if h.get_char(i) != prefix.get_char(i) {
            assert(h@.subrange(0, 7)[i as int] != bearer_prefix()[i as int]);
            return false;
        }
        i = i + 1;
    }
    assert(h@.subrange(0, 7) =~= bearer_prefix());
    true
}

/// Extracts the bearer credential from the `authorization` header value.
pub fn bearer_token(header: Option<&str>) -> (r: Result<String, ApiError>)
    ensures
        header is None ==> r is Err,
        header matches Some(h) ==> match bearer_of(h@) {
            Some(t) => r matches Ok(k) && k@ == t,
            None => r is Err,
        },
        r matches Err(e) ==> e is MissingApiKey,
{
    match header {
        None => Err(ApiError::MissingApiKey),
        Some(h) => {
            if has_bearer_prefix(h) {
                proof {
                    reveal_strlit("Bearer ");
                }
                let n = h.unicode_len();
                let token = h.substring_char(7, n);
                Ok(String::from_str(token))
            } else {
                Err(ApiError::MissingApiKey)
            }
        },
    }
}

/// The request id of a submission: the idempotency key when one was sent,
/// else the freshly generated token.
pub fn resolve_request_id(idempotency_key: Option<String>, generated: String) -> (r: String)
    ensures
        idempotency_key matches Some(k) ==> r@ == k@,
        idempotency_key is None ==> r@ == generated@,
{
    match idempotency_key {
        Some(k) => k,
        None => generated,
    }
}

/// What the handler does with a submission, given the record already stored
/// under its request id.
#[derive(Clone, Debug)]
pub enum Admission {
    /// Answer at once with this completion response.
    Respond(String),
    /// Answer at once with this error.
    Reject(ApiError),
    /// The request is in flight: wait for it.
    Wait,
    /// No record exists: create one, queued, then wait.
    Create,
}

/// The failure text of a failed record.
pub open spec fn failure_text(st: RequestState) -> Seq<char> {
    match st.error {
        Some(e) => e@,
        None => unknown_error_text(),
    }
}

fn failure_message(st: &RequestState) -> (r: String)
    ensures
        r@ == failure_text(*st),
{
    match &st.error {
        Some(e) => e.clone(),
        None => String::from_str("Unknown error"),
    }
}

/// Decides how a submission proceeds. Only an absent record leads to a
/// creation; the body and credential of a later submission play no part.
pub fn admission(existing: &Option<RequestState>) -> (r: Admission)
    ensures
        existing is None <==> r is Create,
        existing matches Some(st) ==> match st.status {
            RequestStatus::Complete => match st.result {
                Some(res) => r matches Admission::Respond(b) && b@ == res@,
                None => r matches Admission::Reject(ApiError::InternalError(m)) && m@ == no_result_text(),
            },
            RequestStatus::Failed => r matches Admission::Reject(ApiError::BatchFailed(m))
                && m@ == failure_text(*st),
            _ => r is Wait,
        },
{
    match existing {
        None => Admission::Create,
        Some(st) => match st.status {
            RequestStatus::Complete => match &st.result {
                Some(res) => Admission::Respond(res.clone()),
                None => Admission::Reject(
                    ApiError::InternalError(String::from_str("No result found for completed request")),
                ),
            },
            RequestStatus::Failed => Admission::Reject(ApiError::BatchFailed(failure_message(st))),
            _ => Admission::Wait,
        },
    }
}

/// Outcome of one wake-up of a parked caller.
#[derive(Debug)]
pub enum WaitStep {
    /// The request reached a terminal state: answer with this.
    Finished(Result<String, ApiError>),
    /// Nothing to answer yet: keep waiting.
    KeepWaiting,
}

/// Decides, from the record re-read after a wake-up or a timeout, whether the
/// parked caller can be answered.
pub fn wait_step(current: &Option<RequestState>) -> (r: WaitStep)
    ensures
        current is None ==> r is KeepWaiting,
        current matches Some(st) ==> match st.status {
            RequestStatus::Complete => match st.result {
                Some(res) => r matches WaitStep::Finished(Ok(b)) && b@ == res@,
                None => r is KeepWaiting,
            },
            RequestStatus::Failed => r matches WaitStep::Finished(Err(ApiError::BatchFailed(m)))
                && m@ == failure_text(*st),
            _ => r is KeepWaiting,
        },
{
    match current {
        None => WaitStep::KeepWaiting,
        Some(st) => match st.status {
            RequestStatus::Complete => match &st.result {
                Some(res) => WaitStep::Finished(Ok(res.clone())),
                None => WaitStep::KeepWaiting,
            },
            RequestStatus::Failed => WaitStep::Finished(Err(ApiError::BatchFailed(failure_message(st)))),
            _ => WaitStep::KeepWaiting,
        },
    }
}

/// What a parked caller observed last.
#[derive(Clone, Copy, Debug, PartialEq, Eq, Structural)]
pub enum WaitEvent {
    /// A subscription to the request's completion channel is in place.
    Subscribed,
    /// A message arrived on the channel.
    Message,
    /// No message arrived within the wait bound.
    Timeout,
    /// The subscription stream closed.
    StreamEnded,
    /// The record was re-read and is not terminal yet.
    StillRunning,
}

/// What a parked caller does next.
#[derive(Clone, Copy, Debug, PartialEq, Eq, Structural)]
pub enum WaitAction {
    /// (Re)subscribe to the completion channel.
    Subscribe,
    /// Re-read the record and answer if it is terminal (see `wait_step`).
    Recheck,
    /// Wait for a message, within the wait bound.
    Listen,
}

/// The wait loop's order: every subscription, message and timeout is
/// followed by a re-read of the record, so a completion published before or
/// while subscribing is never missed; a closed stream is resubscribed; a
/// record still running means listening again.
pub fn next_wait_action(event: WaitEvent) -> (r: WaitAction)
    ensures
        event == WaitEvent::StreamEnded <==> r == WaitAction::Subscribe,
        event == WaitEvent::StillRunning <==> r == WaitAction::Listen,
        (event == WaitEvent::Subscribed || event == WaitEvent::Message || event == WaitEvent::Timeout)
            <==> r == WaitAction::Recheck,
{
    match event {
        WaitEvent::StreamEnded => WaitAction::Subscribe,
        WaitEvent::StillRunning => WaitAction::Listen,
        _ => WaitAction::Recheck,
    }
}

} // verus!

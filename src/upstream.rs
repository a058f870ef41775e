use vstd::prelude::*;
use std::collections::HashMap;
use crate::poll::{PollAction, poll_action, is_failed_status, batch_failure_message};

verus! {

/// Token accounting of a completion.
#[derive(Clone, Copy, Debug, PartialEq, Eq, Structural)]
pub struct Usage {
    pub prompt_tokens: u32,
    pub completion_tokens: u32,
    pub total_tokens: u32,
}

/// The batch-creation request for an uploaded file.
#[derive(Clone, Debug)]
pub struct BatchRequest {
    pub input_file_id: String,
    pub endpoint: String,
    pub completion_window: String,
    pub metadata: Option<HashMap<String, String>>,
}

impl BatchRequest {
    /// A batch over `input_file_id` against the chat-completions endpoint,
    /// with a 24-hour completion window and no metadata.
    pub fn for_file(input_file_id: String) -> (r: BatchRequest)
        ensures
            r.input_file_id@ == input_file_id@,
            r.endpoint@ == "/v1/chat/completions"@,
            r.completion_window@ == "24h"@,
            r.metadata is None,
    {
        BatchRequest {
            input_file_id,
            endpoint: String::from_str("/v1/chat/completions"),
            completion_window: String::from_str("24h"),
            metadata: None,
        }
    }
}

/// An upstream batch descriptor, as returned on creation and on status reads.
#[derive(Clone, Debug)]
pub struct BatchResponse {
    pub id: String,
    pub object: String,
    pub endpoint: String,
    pub input_file_id: String,
    pub output_file_id: Option<String>,
    pub error_file_id: Option<String>,
    pub status: String,
    pub created_at: i64,
    pub completed_at: Option<i64>,
    pub metadata: Option<HashMap<String, String>>,
}

impl BatchResponse {
    /// What the poller does next for this descriptor.
    pub fn next_action(&self) -> (r: PollAction)
        ensures
            self.status@ == "completed"@ ==> match self.output_file_id {
                Some(f) => r matches PollAction::FetchResults(g) && g@ == f@,
                None => r is DropBatch,
            },
            is_failed_status(self.status@) ==> (r matches PollAction::FailMembers(m)
                && m@ == batch_failure_message(self.status@)),
            self.status@ != "completed"@ && !is_failed_status(self.status@) ==> r is KeepPolling,
    {
        let out = match &self.output_file_id {
            Some(f) => Some(f.clone()),
            None => None,
        };
        poll_action(self.status.as_str(), out)
    }
}

/// The upstream descriptor of an uploaded file.
#[derive(Clone, Debug)]
pub struct FileUploadResponse {
    pub id: String,
    pub object: String,
    pub bytes: u64,
    pub created_at: i64,
    pub filename: String,
    pub purpose: String,
}

} // verus!

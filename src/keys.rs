use vstd::prelude::*;

verus! {

/// Lifetime of every persisted record: 48 hours from its last write.
pub const RECORD_TTL_SECS: u64 = 48 * 3600;

/// Key of the record of request `id`.
pub fn request_key(id: &str) -> (r: String)
    ensures
        r@ == "request:"@ + id@,
{
    String::from_str("request:").concat(id)
}

/// Key of the ordered member list of batch `batch_id`.
pub fn batch_members_key(batch_id: &str) -> (r: String)
    ensures
        r@ == "batch:"@ + batch_id@,
{
    String::from_str("batch:").concat(batch_id)
}

/// Key of the credential of batch `batch_id`.
pub fn batch_api_key_key(batch_id: &str) -> (r: String)
    ensures
        r@ == "batch_api_key:"@ + batch_id@,
{
    String::from_str("batch_api_key:").concat(batch_id)
}

/// Name of the channel on which the terminal state of request `id` is announced.
pub fn completion_channel(id: &str) -> (r: String)
    ensures
        r@ == "completion:"@ + id@,
{
    String::from_str("completion:").concat(id)
}

/// Key of the set of request ids awaiting dispatch.
pub fn queued_set_key() -> (r: &'static str)
    ensures
        r@ == "queued_requests"@,
{
    "queued_requests"
}

/// Key of the set of batch ids whose pollers must exist.
pub fn processing_set_key() -> (r: &'static str)
    ensures
        r@ == "processing_batches"@,
{
    "processing_batches"
}

} // verus!

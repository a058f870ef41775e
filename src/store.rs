use vstd::prelude::*;
use crate::status::RequestStatus;
use crate::record::RequestState;
use crate::dispatch::DispatchGroup;
use crate::wire::{batch_line, batch_lines};

verus! {

/// One write against the durable store. The dispatcher and the poller decide
/// their writes as values of this type; the runtime performs them in order.
#[derive(Debug)]
pub enum StoreWrite {
    /// `batch:<id>`: the ordered member ids of a batch.
    PutBatchMembers { batch_id: String, request_ids: Vec<String> },
    /// `batch_api_key:<id>`: the credential a batch was created and is polled with.
    PutBatchKey { batch_id: String, api_key: String },
    /// `request:<id>`: a new record, written only if none exists under its id;
    /// when written, its id joins the queued set.
    CreateRequest(RequestState),
    /// `request:<id>`: the new record of a request.
    PutRequest(RequestState),
    /// `request:<id>`: the new record of a request, written only while the
    /// stored record exists with status `expected`; otherwise nothing changes.
    AdvanceRequest { expected: RequestStatus, state: RequestState },
    /// Removal of a request id from the queued set.
    RemoveQueued(String),
    /// Addition of a batch id to the processing-batches set.
    AddProcessing(String),
}

/// `w` writes the record of `m` moved into batch `batch_id` at time `now`.
pub open spec fn puts_batching_record(w: StoreWrite, m: RequestState, batch_id: Seq<char>, now: i64) -> bool {
    match w {
        StoreWrite::AdvanceRequest { expected, state: s } => {
            &&& expected == RequestStatus::Queued
            &&& s.status == RequestStatus::Batching
            &&& s.batch_id matches Some(b) && b@ == batch_id
            &&& s.updated_at == now
            &&& s.request_id == m.request_id
            &&& s.request == m.request
            &&& s.api_key == m.api_key
            &&& s.result == m.result
            &&& s.error == m.error
            &&& s.created_at == m.created_at
        },
        _ => false,
    }
}

/// `w` removes `id` from the queued set.
pub open spec fn removes_queued(w: StoreWrite, id: Seq<char>) -> bool {
    match w {
        StoreWrite::RemoveQueued(x) => x@ == id,
        _ => false,
    }
}

/// `writes` is the move-to-batching of `members` into batch `batch_id` under
/// `api_key`, in this order: the batch record (members, then credential),
/// each member's new record (written only if the stored one is still
/// `Queued`), each member's removal from the queued set, and last the
/// batch's entry in the processing set.
pub open spec fn is_batching_plan(
    members: Seq<RequestState>,
    api_key: Seq<char>,
    batch_id: Seq<char>,
    now: i64,
    writes: Seq<StoreWrite>,
) -> bool {
    let n = members.len() as int;
    &&& writes.len() == 2 * n + 3
    &&& writes[0] matches StoreWrite::PutBatchMembers { batch_id: b, request_ids: ids }
        && b@ == batch_id && ids.len() == n
        && forall|k: int| 0 <= k < n ==> (#[trigger] ids[k])@ == members[k].request_id@
    &&& writes[1] matches StoreWrite::PutBatchKey { batch_id: b, api_key: key } && b@ == batch_id
        && key@ == api_key
    &&& forall|k: int| 0 <= k < n ==> puts_batching_record(#[trigger] writes[2 + k], members[k], batch_id, now)
    &&& forall|k: int| 0 <= k < n ==> removes_queued(#[trigger] writes[2 + n + k], members[k].request_id@)
    &&& writes[2 * n + 2] matches StoreWrite::AddProcessing(b) && b@ == batch_id
}

/// The store writes that hand a dispatched group over to batch `batch_id`.
pub fn move_to_batching(group: &DispatchGroup, batch_id: &String, now: i64) -> (r: Vec<StoreWrite>)
    requires
        group.wf(),
        group.members.len() < usize::MAX / 4,
    ensures
        is_batching_plan(group.members@, group.api_key@, batch_id@, now, r@),
        (forall|k: int| 0 <= k < group.members.len() ==> (#[trigger] group.members[k]).wf())
            ==> forall|k: int| 0 <= k < r.len() ==> write_well_formed(#[trigger] r[k]),
        forall|v: StoreView, id: Seq<char>|
            !(v.records.contains_key(id) && v.records[id].status == RequestStatus::Queued)
                ==> (#[trigger] apply_writes(v, r@).records.contains_key(id)) == v.records.contains_key(id)
                && (v.records.contains_key(id) ==> apply_writes(v, r@).records[id] == v.records[id]),
{
    let n = group.members.len();
    let mut ids: Vec<String> = Vec::new();
    let mut i: usize = 0;
    while i < n
        invariant
            0 <= i <= n,
            n == group.members.len(),
            ids.len() == i,
            forall|k: int| 0 <= k < i ==> (#[trigger] ids[k])@ == group.members[k].request_id@,
        decreases n - i,
    {
        ids.push(group.members[i].request_id.clone());
        i = i + 1;
    }
    let mut writes: Vec<StoreWrite> = Vec::new();
    writes.push(StoreWrite::PutBatchMembers { batch_id: batch_id.clone(), request_ids: ids });
    writes.push(StoreWrite::PutBatchKey { batch_id: batch_id.clone(), api_key: group.api_key.clone() });
    let mut i: usize = 0;
    while i < n
        invariant
            0 <= i <= n,
            n == group.members.len(),
            n < usize::MAX / 4,
            group.wf(),
            writes.len() == 2 + i,
            writes[0] matches StoreWrite::PutBatchMembers { batch_id: b, request_ids: ids }
                && b@ == batch_id@ && ids.len() == n
                && forall|k: int| 0 <= k < n ==> (#[trigger] ids[k])@ == group.members[k].request_id@,
            writes[1] matches StoreWrite::PutBatchKey { batch_id: b, api_key: key } && b@ == batch_id@
                && key@ == group.api_key@,
            forall|k: int| 0 <= k < i ==> puts_batching_record(#[trigger] writes[2 + k], group.members[k], batch_id@, now),
        decreases n - i,
    {
        let mut s = group.members[i].duplicate();
        let changed = s.update_status(RequestStatus::Batching, Some(batch_id.clone()), now);
        assert(changed);
        writes.push(StoreWrite::AdvanceRequest { expected: RequestStatus::Queued, state: s });
        i = i + 1;
    }
    let mut i: usize = 0;
    while i < n
        invariant
            0 <= i <= n,
            n == group.members.len(),
            n < usize::MAX / 4,
            writes.len() == 2 + n + i,
            writes[0] matches StoreWrite::PutBatchMembers { batch_id: b, request_ids: ids }
                && b@ == batch_id@ && ids.len() == n
                && forall|k: int| 0 <= k < n ==> (#[trigger] ids[k])@ == group.members[k].request_id@,
            writes[1] matches StoreWrite::PutBatchKey { batch_id: b, api_key: key } && b@ == batch_id@
                && key@ == group.api_key@,
            forall|k: int| 0 <= k < n ==> puts_batching_record(#[trigger] writes[2 + k], group.members[k], batch_id@, now),
            forall|k: int| 0 <= k < i ==> removes_queued(#[trigger] writes[2 + n + k], group.members[k].request_id@),
        decreases n - i,
    {
        writes.push(StoreWrite::RemoveQueued(group.members[i].request_id.clone()));
        i = i + 1;
    }
    writes.push(StoreWrite::AddProcessing(batch_id.clone()));
    proof {
        if forall|k: int| 0 <= k < group.members.len() ==> (#[trigger] group.members[k]).wf() {
            assert forall|k: int| 0 <= k < writes.len() implies write_well_formed(#[trigger] writes[k]) by {
                if 2 <= k < 2 + n {
                    let j = k - 2;
                    assert(puts_batching_record(writes[2 + j], group.members[j], batch_id@, now));
                    assert(group.members[j].wf());
                    assert(group.members[j].status == RequestStatus::Queued);
                } else if 2 + n <= k < 2 + 2 * n {
                    let j = k - 2 - n;
                    assert(removes_queued(writes[2 + n + j], group.members[j].request_id@));
                }
            }
        }
        assert forall|v: StoreView, id: Seq<char>|
            !(v.records.contains_key(id) && v.records[id].status == RequestStatus::Queued)
                implies (#[trigger] apply_writes(v, writes@).records.contains_key(id)) == v.records.contains_key(id)
                && (v.records.contains_key(id) ==> apply_writes(v, writes@).records[id] == v.records[id]) by {
            lemma_batching_skips_taken_requests(v, *group, batch_id@, now, writes@);
        }
    }
    writes
}

/// The writes that end a tick for one group, once its upload and batch
/// creation are known: none when either upstream call failed (the group's
/// requests stay queued and the next tick tries again), else its
/// move-to-batching into the created batch.
pub fn settle_dispatch(group: &DispatchGroup, created_batch: Option<String>, now: i64) -> (r: Vec<StoreWrite>)
    requires
        group.wf(),
        group.members.len() < usize::MAX / 4,
    ensures
        created_batch is None ==> r@.len() == 0 && forall|v: StoreView| #[trigger] apply_writes(v, r@) == v,
        created_batch matches Some(b) ==> is_batching_plan(group.members@, group.api_key@, b@, now, r@),
{
    match created_batch {
        None => {
            let r: Vec<StoreWrite> = Vec::new();
            assert forall|v: StoreView| #[trigger] apply_writes(v, r@) == v by {
                assert(r@.len() == 0);
            }
            r
        },
        Some(b) => move_to_batching(group, &b, now),
    }
}

/// The request ids that `writes` move out of `Queued` into a batch.
pub open spec fn moved_to_batching(writes: Seq<StoreWrite>) -> Set<Seq<char>> {
    Set::new(|id: Seq<char>| exists|k: int| 0 <= k < writes.len() && puts_batching_of(#[trigger] writes[k], id))
}

pub open spec fn puts_batching_of(w: StoreWrite, id: Seq<char>) -> bool {
    match w {
        StoreWrite::AdvanceRequest { expected, state: s } => expected == RequestStatus::Queued && s.status
            == RequestStatus::Batching && s.request_id@ == id,
        _ => false,
    }
}

/// The `custom_id`s of the items uploaded for `members`: line `k` of the
/// upload carries the request id of member `k`.
pub open spec fn uploaded_custom_ids(members: Seq<RequestState>) -> Set<Seq<char>> {
    Set::new(|id: Seq<char>| exists|k: int| 0 <= k < members.len() && (#[trigger] members[k]).request_id@ == id)
}

/// For a dispatched batch, the `custom_id`s of its uploaded items are exactly
/// the request ids that its move-to-batching takes out of `Queued`, and each
/// of those requests was `Queued` before.
pub proof fn lemma_batch_members_match(group: DispatchGroup, batch_id: Seq<char>, now: i64, writes: Seq<StoreWrite>)
    requires
        group.wf(),
        is_batching_plan(group.members@, group.api_key@, batch_id, now, writes),
    ensures
        uploaded_custom_ids(group.members@) == moved_to_batching(writes),
        forall|k: int| 0 <= k < group.members.len() ==> #[trigger] batch_lines(group.members@)[k]
            == batch_line(group.members[k].request_id@, group.members[k].request@),
        forall|k: int| 0 <= k < group.members.len() ==> (#[trigger] group.members[k]).status == RequestStatus::Queued,
{
    let ms = group.members@;
    let n = ms.len() as int;
    assert forall|id: Seq<char>| uploaded_custom_ids(ms).contains(id) implies moved_to_batching(writes).contains(id) by {
        let k = choose|k: int| 0 <= k < ms.len() && (#[trigger] ms[k]).request_id@ == id;
        assert(puts_batching_record(writes[2 + k], ms[k], batch_id, now));
        assert(puts_batching_of(writes[2 + k], id));
    }
    assert forall|id: Seq<char>| moved_to_batching(writes).contains(id) implies uploaded_custom_ids(ms).contains(id) by {
        let k = choose|k: int| 0 <= k < writes.len() && puts_batching_of(#[trigger] writes[k], id);
        if 2 <= k < 2 + n {
            let j = k - 2;
            assert(puts_batching_record(writes[2 + j], ms[j], batch_id, now));
            assert(ms[j].request_id@ == id);
        } else if 2 + n <= k < 2 + 2 * n {
            let j = k - 2 - n;
            assert(removes_queued(writes[2 + n + j], ms[j].request_id@));
        }
    }
    assert(uploaded_custom_ids(ms) =~= moved_to_batching(writes));
}

/// The contents of the durable store, as the engine sees them.
pub struct StoreView {
    pub records: Map<Seq<char>, RequestState>,
    pub queued: Set<Seq<char>>,
    pub batch_members: Map<Seq<char>, Seq<Seq<char>>>,
    pub batch_keys: Map<Seq<char>, Seq<char>>,
    pub processing: Set<Seq<char>>,
}

pub open spec fn text_views(v: Seq<String>) -> Seq<Seq<char>> {
    v.map_values(|s: String| s@)
}

/// The store after one write.
pub open spec fn apply_write(v: StoreView, w: StoreWrite) -> StoreView {
    match w {
        StoreWrite::PutBatchMembers { batch_id, request_ids } => StoreView {
            batch_members: v.batch_members.insert(batch_id@, text_views(request_ids@)),
            ..v
        },
        StoreWrite::PutBatchKey { batch_id, api_key } => StoreView {
            batch_keys: v.batch_keys.insert(batch_id@, api_key@),
            ..v
        },
        StoreWrite::CreateRequest(s) => if v.records.contains_key(s.request_id@) {
            v
        } else {
            StoreView {
                records: v.records.insert(s.request_id@, s),
                queued: v.queued.insert(s.request_id@),
                ..v
            }
        },
        StoreWrite::PutRequest(s) => StoreView { records: v.records.insert(s.request_id@, s), ..v },
        StoreWrite::AdvanceRequest { expected, state: s } => if v.records.contains_key(s.request_id@)
            && v.records[s.request_id@].status == expected {
            StoreView { records: v.records.insert(s.request_id@, s), ..v }
        } else {
            v
        },
        StoreWrite::RemoveQueued(id) => StoreView { queued: v.queued.remove(id@), ..v },
        StoreWrite::AddProcessing(b) => StoreView { processing: v.processing.insert(b@), ..v },
    }
}

/// The store after a sequence of writes, performed in order.
pub open spec fn apply_writes(v: StoreView, ws: Seq<StoreWrite>) -> StoreView
    decreases ws.len(),
{
    if ws.len() == 0 {
        v
    } else {
        apply_write(apply_writes(v, ws.drop_last()), ws.last())
    }
}

/// The write that records a new submission.
pub fn create_request(state: RequestState) -> (r: StoreWrite)
    ensures
        r == StoreWrite::CreateRequest(state),
{
    StoreWrite::CreateRequest(state)
}

/// Of two creations under one request id, whichever order they reach the
/// store in, exactly one record exists afterwards: the one already stored,
/// else the first to arrive. Neither creation replaces an existing record.
pub proof fn lemma_first_creation_wins(v: StoreView, first: RequestState, second: RequestState)
    requires
        first.request_id@ == second.request_id@,
    ensures
        ({
            let id = first.request_id@;
            let after = apply_writes(v, seq![StoreWrite::CreateRequest(first), StoreWrite::CreateRequest(second)]);
            &&& after.records.dom() == v.records.dom().insert(id)
            &&& after.records[id] == if v.records.contains_key(id) {
                v.records[id]
            } else {
                first
            }
            &&& forall|k: Seq<char>| k != id && #[trigger] v.records.contains_key(k) ==> after.records[k]
                == v.records[k]
        }),
{
    let id = first.request_id@;
    let ws = seq![StoreWrite::CreateRequest(first), StoreWrite::CreateRequest(second)];
    assert(ws.drop_last() =~= seq![StoreWrite::CreateRequest(first)]);
    assert(seq![StoreWrite::CreateRequest(first)].drop_last() =~= Seq::<StoreWrite>::empty());
    assert(apply_writes(v, Seq::<StoreWrite>::empty()) == v);
    assert(seq![StoreWrite::CreateRequest(first)].last() == StoreWrite::CreateRequest(first));
    assert(ws.last() == StoreWrite::CreateRequest(second));
    let mid = apply_writes(v, seq![StoreWrite::CreateRequest(first)]);
    assert(mid == apply_write(v, StoreWrite::CreateRequest(first)));
    assert(mid.records.contains_key(id));
    let after = apply_writes(v, ws);
    assert(after == apply_write(mid, StoreWrite::CreateRequest(second)));
    assert(after == mid);
    assert(after.records.dom() =~= v.records.dom().insert(id));
}

/// Request `id` has an owner in `v`: a queued record sits in the queued set,
/// where the dispatcher finds it again; a record inside a batch names a batch
/// of the processing set, whose poller the startup sweep restarts. A terminal
/// record needs no owner.
pub open spec fn is_owned(v: StoreView, id: Seq<char>) -> bool {
    v.records.contains_key(id) ==> match v.records[id].status {
        RequestStatus::Queued => v.queued.contains(id),
        RequestStatus::Batching | RequestStatus::Processing => v.records[id].batch_id matches Some(b)
            && v.processing.contains(b@),
        _ => true,
    }
}

pub open spec fn is_batched(v: StoreView, id: Seq<char>, batch_id: Seq<char>) -> bool {
    &&& v.records.contains_key(id)
    &&& v.records[id].status == RequestStatus::Batching
    &&& v.records[id].batch_id matches Some(b) && b@ == batch_id
}

/// Request `id` can be picked up again after a crash: it is still queued and
/// in the queued set, or it is in batch `batch_id` and that batch's member
/// list names it.
pub open spec fn is_recoverable(v: StoreView, id: Seq<char>, batch_id: Seq<char>) -> bool {
    ||| v.records.contains_key(id) && v.records[id].status == RequestStatus::Queued && v.queued.contains(id)
    ||| is_batched(v, id, batch_id) && v.batch_members.contains_key(batch_id)
        && v.batch_members[batch_id].contains(id)
}

/// The members of `ms` are stored as they were read: queued, in the queued set.
pub open spec fn members_stored(v: StoreView, ms: Seq<RequestState>) -> bool {
    forall|i: int| 0 <= i < ms.len() ==> {
        let id = (#[trigger] ms[i]).request_id@;
        &&& v.records.contains_key(id)
        &&& v.records[id] == ms[i]
        &&& ms[i].status == RequestStatus::Queued
        &&& v.queued.contains(id)
    }
}

proof fn lemma_batching_prefix(
    v: StoreView,
    ms: Seq<RequestState>,
    key: Seq<char>,
    batch_id: Seq<char>,
    now: i64,
    writes: Seq<StoreWrite>,
    j: int,
)
    requires
        is_batching_plan(ms, key, batch_id, now, writes),
        members_stored(v, ms),
        0 <= j <= writes.len(),
    ensures
        ({
            let w = apply_writes(v, writes.take(j));
            &&& j <= 2 ==> w.records == v.records && w.queued == v.queued
            &&& forall|i: int| 0 <= i < ms.len() && i + 2 < j ==> is_batched(w, (#[trigger] ms[i]).request_id@, batch_id)
            &&& forall|i: int| 0 <= i < ms.len() ==> {
                let id = (#[trigger] ms[i]).request_id@;
                &&& w.records.contains_key(id)
                &&& w.records[id] == v.records[id] || is_batched(w, id, batch_id)
                &&& w.queued.contains(id) || is_batched(w, id, batch_id)
            }
            &&& j >= 1 ==> w.batch_members.contains_key(batch_id) && forall|i: int|
                0 <= i < ms.len() ==> w.batch_members[batch_id].contains((#[trigger] ms[i]).request_id@)
            &&& w.processing == if j == writes.len() {
                v.processing.insert(batch_id)
            } else {
                v.processing
            }
        }),
    decreases j,
{
    let n = ms.len() as int;
    if j == 0 {
        assert(writes.take(0) =~= Seq::<StoreWrite>::empty());
    } else {
        lemma_batching_prefix(v, ms, key, batch_id, now, writes, j - 1);
        let prev = apply_writes(v, writes.take(j - 1));
        assert(writes.take(j).drop_last() =~= writes.take(j - 1));
        assert(writes.take(j).last() == writes[j - 1]);
        let w = apply_writes(v, writes.take(j));
        assert(w == apply_write(prev, writes[j - 1]));
        if j - 1 == 0 {
            assert forall|i: int| 0 <= i < ms.len() implies w.batch_members[batch_id].contains(
                (#[trigger] ms[i]).request_id@,
            ) by {
                if let StoreWrite::PutBatchMembers { batch_id: b, request_ids: ids } = writes[0] {
                    assert(text_views(ids@)[i] == ms[i].request_id@);
                }
            }
        } else if 2 <= j - 1 < 2 + n {
            let i0 = j - 3;
            assert(puts_batching_record(writes[2 + i0], ms[i0], batch_id, now));
            let id0 = ms[i0].request_id@;
            assert forall|i: int| 0 <= i < ms.len() implies {
                let id = (#[trigger] ms[i]).request_id@;
                &&& w.records.contains_key(id)
                &&& w.records[id] == v.records[id] || is_batched(w, id, batch_id)
                &&& w.queued.contains(id) || is_batched(w, id, batch_id)
                &&& (i + 2 < j ==> is_batched(w, id, batch_id))
            } by {
                let id = ms[i].request_id@;
                assert(prev.records.contains_key(id));
                assert(prev.records[id] == v.records[id] || is_batched(prev, id, batch_id));
                assert(prev.records[id0] == v.records[id0] || is_batched(prev, id0, batch_id));
                if i < i0 {
                    assert(is_batched(prev, id, batch_id));
                }
            }
        } else if 2 + n <= j - 1 < 2 + 2 * n {
            let i0 = j - 3 - n;
            assert(removes_queued(writes[2 + n + i0], ms[i0].request_id@));
            assert forall|i: int| 0 <= i < ms.len() implies {
                let id = (#[trigger] ms[i]).request_id@;
                &&& w.records.contains_key(id)
                &&& w.records[id] == v.records[id] || is_batched(w, id, batch_id)
                &&& w.queued.contains(id) || is_batched(w, id, batch_id)
                &&& (i + 2 < j ==> is_batched(w, id, batch_id))
            } by {
                assert(is_batched(prev, ms[i].request_id@, batch_id));
            }
        } else if j - 1 == 2 * n + 2 {
            assert forall|i: int| 0 <= i < ms.len() && i + 2 < j implies is_batched(w, (#[trigger] ms[i]).request_id@, batch_id) by {
                assert(is_batched(prev, ms[i].request_id@, batch_id));
            }
        }
    }
}

/// A crash at any point while a dispatched group is handed over to its batch
/// loses no request: each member is still queued and in the queued set, or
/// it is in the batch and the batch's member list names it. Before the first
/// member's record is rewritten, and after the last write, each member also
/// has an owner (the dispatcher, or the poller the startup sweep restarts).
/// Between those points a member can be in `Batching` while its batch is not
/// yet in the processing set, so ownership is not claimed there.
pub proof fn lemma_dispatch_crash_leaves_owner(
    v: StoreView,
    group: DispatchGroup,
    batch_id: Seq<char>,
    now: i64,
    writes: Seq<StoreWrite>,
    k: int,
)
    requires
        group.wf(),
        is_batching_plan(group.members@, group.api_key@, batch_id, now, writes),
        forall|i: int| 0 <= i < group.members.len() ==> {
            let id = (#[trigger] group.members[i]).request_id@;
            &&& v.records.contains_key(id)
            &&& v.records[id] == group.members[i]
            &&& v.queued.contains(id)
        },
        0 <= k <= writes.len(),
    ensures
        forall|i: int| 0 <= i < group.members.len() ==> is_recoverable(
            apply_writes(v, writes.take(k)),
            (#[trigger] group.members[i]).request_id@,
            batch_id,
        ),
        k <= 2 || k == writes.len() ==> forall|i: int| 0 <= i < group.members.len() ==> is_owned(
            apply_writes(v, writes.take(k)),
            (#[trigger] group.members[i]).request_id@,
        ),
{
    let ms = group.members@;
    assert forall|i: int| 0 <= i < ms.len() implies {
        let id = (#[trigger] ms[i]).request_id@;
        &&& v.records.contains_key(id)
        &&& v.records[id] == ms[i]
        &&& ms[i].status == RequestStatus::Queued
        &&& v.queued.contains(id)
    } by {
        assert(ms[i] == group.members[i]);
    }
    lemma_batching_prefix(v, ms, group.api_key@, batch_id, now, writes, k);
    let w = apply_writes(v, writes.take(k));
    assert forall|i: int| 0 <= i < group.members.len() implies is_recoverable(w, (#[trigger] group.members[i]).request_id@, batch_id) by {
        assert(ms[i] == group.members[i]);
        let id = ms[i].request_id@;
        if !is_batched(w, id, batch_id) {
            assert(w.records[id] == v.records[id]);
        } else if k == 0 {
            assert(w.records == v.records);
        }
    }
    if k <= 2 || k == writes.len() {
        assert forall|i: int| 0 <= i < group.members.len() implies is_owned(w, (#[trigger] group.members[i]).request_id@) by {
            assert(ms[i] == group.members[i]);
            if k > 2 {
                assert(is_batched(w, ms[i].request_id@, batch_id));
            }
        }
    }
}

/// `w` changes no record unless that record is stored `Queued`.
pub open spec fn touches_only_queued(w: StoreWrite) -> bool {
    match w {
        StoreWrite::CreateRequest(_) => false,
        StoreWrite::PutRequest(_) => false,
        StoreWrite::AdvanceRequest { expected, state } => expected == RequestStatus::Queued && state.status
            != RequestStatus::Queued,
        _ => true,
    }
}

proof fn lemma_untouched_records(v: StoreView, ws: Seq<StoreWrite>)
    requires
        forall|k: int| 0 <= k < ws.len() ==> touches_only_queued(#[trigger] ws[k]),
    ensures
        forall|id: Seq<char>| !(#[trigger] v.records.contains_key(id) && v.records[id].status == RequestStatus::Queued)
            ==> apply_writes(v, ws).records.contains_key(id) == v.records.contains_key(id)
            && (v.records.contains_key(id) ==> apply_writes(v, ws).records[id] == v.records[id]),
    decreases ws.len(),
{
    if ws.len() > 0 {
        let init = ws.drop_last();
        assert forall|k: int| 0 <= k < init.len() implies touches_only_queued(#[trigger] init[k]) by {
            assert(init[k] == ws[k]);
        }
        lemma_untouched_records(v, init);
        assert(touches_only_queued(ws[ws.len() - 1]));
    }
}

/// Move-to-batching takes over only requests still queued in the store: a
/// member that another dispatcher already moved on (or that is gone) keeps
/// its stored record, whatever the group's copy of it says.
pub proof fn lemma_batching_skips_taken_requests(
    v: StoreView,
    group: DispatchGroup,
    batch_id: Seq<char>,
    now: i64,
    writes: Seq<StoreWrite>,
)
    requires
        is_batching_plan(group.members@, group.api_key@, batch_id, now, writes),
    ensures
        forall|id: Seq<char>| !(#[trigger] v.records.contains_key(id) && v.records[id].status == RequestStatus::Queued)
            ==> apply_writes(v, writes).records.contains_key(id) == v.records.contains_key(id)
            && (v.records.contains_key(id) ==> apply_writes(v, writes).records[id] == v.records[id]),
{
    let ms = group.members@;
    let n = ms.len() as int;
    assert forall|k: int| 0 <= k < writes.len() implies touches_only_queued(#[trigger] writes[k]) by {
        if 2 <= k < 2 + n {
            assert(puts_batching_record(writes[2 + (k - 2)], ms[k - 2], batch_id, now));
        } else if 2 + n <= k < 2 + 2 * n {
            assert(removes_queued(writes[2 + n + (k - 2 - n)], ms[k - 2 - n].request_id@));
        }
    }
    lemma_untouched_records(v, writes);
}

/// Every stored record holds a result exactly when complete and an error
/// exactly when failed.
pub open spec fn all_well_formed(v: StoreView) -> bool {
    forall|id: Seq<char>| #[trigger] v.records.contains_key(id) ==> v.records[id].wf()
}

/// A write that stores a record stores a well-formed one.
pub open spec fn write_well_formed(w: StoreWrite) -> bool {
    match w {
        StoreWrite::CreateRequest(s) => s.wf(),
        StoreWrite::PutRequest(s) => s.wf(),
        StoreWrite::AdvanceRequest { state: s, .. } => s.wf(),
        _ => true,
    }
}

/// Writes that each store only well-formed records (as every transition of
/// `RequestState` produces) keep every record of the store well-formed.
pub proof fn lemma_store_stays_well_formed(v: StoreView, ws: Seq<StoreWrite>)
    requires
        all_well_formed(v),
        forall|k: int| 0 <= k < ws.len() ==> write_well_formed(#[trigger] ws[k]),
    ensures
        all_well_formed(apply_writes(v, ws)),
    decreases ws.len(),
{
    if ws.len() > 0 {
        let init = ws.drop_last();
        assert forall|k: int| 0 <= k < init.len() implies write_well_formed(#[trigger] init[k]) by {
            assert(init[k] == ws[k]);
        }
        lemma_store_stays_well_formed(v, init);
        assert(write_well_formed(ws[ws.len() - 1]));
    }
}

/// The writes that store the records a failed batch produced, in member
/// order; members left as they were write nothing.
pub open spec fn failure_writes(out: Seq<Option<RequestState>>) -> Seq<StoreWrite>
    decreases out.len(),
{
    if out.len() == 0 {
        Seq::empty()
    } else {
        let p = failure_writes(out.drop_last());
        match out.last() {
            Some(s) => p.push(StoreWrite::PutRequest(s)),
            None => p,
        }
    }
}

/// The store writes for the member records of a failed batch.
pub fn failure_store_writes(out: &Vec<Option<RequestState>>) -> (r: Vec<StoreWrite>)
    ensures
        r@ == failure_writes(out@),
{
    let mut writes: Vec<StoreWrite> = Vec::new();
    let mut i: usize = 0;
    while i < out.len()
        invariant
            0 <= i <= out.len(),
            writes@ == failure_writes(out@.take(i as int)),
        decreases out.len() - i,
    {
        assert(out@.take(i + 1).drop_last() =~= out@.take(i as int));
        assert(out@.take(i + 1).last() == out@[i as int]);
        match &out[i] {
            Some(s) => writes.push(StoreWrite::PutRequest(s.duplicate())),
            None => {},
        }
        i = i + 1;
    }
    assert(out@.take(out.len() as int) =~= out@);
    writes
}

pub open spec fn failed_with(r: RequestState, message: Seq<char>) -> bool {
    &&& r.status == RequestStatus::Failed
    &&& r.error matches Some(e) && e@ == message
    &&& r.result is None
}

proof fn lemma_failure_prefix(
    v: StoreView,
    members: Seq<RequestState>,
    message: String,
    now: i64,
    out: Seq<Option<RequestState>>,
    j: int,
)
    requires
        out.len() == members.len(),
        0 <= j <= out.len(),
        forall|k: int| 0 <= k < members.len() ==> match #[trigger] out[k] {
            Some(s) => members[k].status != RequestStatus::Complete && s == (RequestState {
                status: RequestStatus::Failed,
                error: Some(message),
                result: None,
                updated_at: now,
                ..members[k]
            }),
            None => members[k].status == RequestStatus::Complete,
        },
        forall|k: int| 0 <= k < members.len() ==> #[trigger] v.records.contains_key(members[k].request_id@)
            && v.records[members[k].request_id@] == members[k],
    ensures
        ({
            let w = apply_writes(v, failure_writes(out.take(j)));
            &&& forall|k: int| 0 <= k < members.len() ==> {
                let id = (#[trigger] members[k]).request_id@;
                &&& w.records.contains_key(id)
                &&& w.records[id] == members[k] || (members[k].status != RequestStatus::Complete
                    && failed_with(w.records[id], message@))
            }
            &&& forall|k: int| 0 <= k < j && (#[trigger] members[k]).status != RequestStatus::Complete
                ==> failed_with(w.records[members[k].request_id@], message@)
        }),
    decreases j,
{
    if j == 0 {
        assert(out.take(0) =~= Seq::<Option<RequestState>>::empty());
        assert forall|k: int| 0 <= k < members.len() implies {
            let id = (#[trigger] members[k]).request_id@;
            &&& v.records.contains_key(id)
            &&& v.records[id] == members[k] || (members[k].status != RequestStatus::Complete
                && failed_with(v.records[id], message@))
        } by {
            assert(v.records.contains_key(members[k].request_id@));
        }
    } else {
        lemma_failure_prefix(v, members, message, now, out, j - 1);
        let p = failure_writes(out.take(j - 1));
        assert(out.take(j).drop_last() =~= out.take(j - 1));
        assert(out.take(j).last() == out[j - 1]);
        let prev = apply_writes(v, p);
        let w = apply_writes(v, failure_writes(out.take(j)));
        let jj = j - 1;
        let mj = members[jj];
        assert(v.records.contains_key(mj.request_id@));
        match out[jj] {
            Some(s) => {
                assert(failure_writes(out.take(j)) == p.push(StoreWrite::PutRequest(s)));
                assert(p.push(StoreWrite::PutRequest(s)).drop_last() =~= p);
                assert(w == apply_write(prev, StoreWrite::PutRequest(s)));
                assert(s.request_id@ == mj.request_id@);
                assert forall|k: int| 0 <= k < members.len() implies {
                    let id = (#[trigger] members[k]).request_id@;
                    &&& w.records.contains_key(id)
                    &&& w.records[id] == members[k] || (members[k].status != RequestStatus::Complete
                        && failed_with(w.records[id], message@))
                    &&& (k < j && members[k].status != RequestStatus::Complete ==> failed_with(w.records[id], message@))
                } by {
                    let id = members[k].request_id@;
                    assert(v.records.contains_key(id));
                    if id == mj.request_id@ {
                        assert(members[k] == mj);
                    }
                }
            },
            None => {
                assert(failure_writes(out.take(j)) == p);
            },
        }
    }
}

/// When a batch ends in failure and the records of its members, as read,
/// are replaced by what `fail_members` returned, every member that had not
/// completed is `Failed` with the batch's message and no result, and every
/// completed member keeps its record.
pub proof fn lemma_failed_batch_fails_members(
    v: StoreView,
    members: Seq<RequestState>,
    message: String,
    now: i64,
    out: Seq<Option<RequestState>>,
)
    requires
        out.len() == members.len(),
        forall|k: int| 0 <= k < members.len() ==> match #[trigger] out[k] {
            Some(s) => members[k].status != RequestStatus::Complete && s == (RequestState {
                status: RequestStatus::Failed,
                error: Some(message),
                result: None,
                updated_at: now,
                ..members[k]
            }),
            None => members[k].status == RequestStatus::Complete,
        },
        forall|k: int| 0 <= k < members.len() ==> #[trigger] v.records.contains_key(members[k].request_id@)
            && v.records[members[k].request_id@] == members[k],
    ensures
        forall|k: int| 0 <= k < members.len() && (#[trigger] members[k]).status != RequestStatus::Complete
            ==> failed_with(apply_writes(v, failure_writes(out)).records[members[k].request_id@], message@),
        forall|k: int| 0 <= k < members.len() && (#[trigger] members[k]).status == RequestStatus::Complete
            ==> apply_writes(v, failure_writes(out)).records[members[k].request_id@] == members[k],
{
    lemma_failure_prefix(v, members, message, now, out, out.len() as int);
    assert(out.take(out.len() as int) =~= out);
    let w = apply_writes(v, failure_writes(out));
    assert forall|k: int| 0 <= k < members.len() && (#[trigger] members[k]).status == RequestStatus::Complete
        implies w.records[members[k].request_id@] == members[k] by {
        assert(w.records[members[k].request_id@] == members[k] || failed_with(w.records[members[k].request_id@], message@));
    }
}

} // verus!

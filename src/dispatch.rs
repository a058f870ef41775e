use vstd::prelude::*;
use crate::status::RequestStatus;
use crate::record::RequestState;

verus! {

/// The records of `queued` that a dispatcher tick sends upstream under the
/// credential `key`: those still `Queued` and submitted under `key`, in order.
pub open spec fn members_for(q: Seq<RequestState>, key: Seq<char>) -> Seq<RequestState>
    decreases q.len(),
{
    if q.len() == 0 {
        Seq::empty()
    } else {
        let rest = members_for(q.drop_last(), key);
        if q.last().status == RequestStatus::Queued && q.last().api_key@ == key {
            rest.push(q.last())
        } else {
            rest
        }
    }
}

/// Some record of `q` is still queued under the credential `key`.
pub open spec fn queued_under(q: Seq<RequestState>, key: Seq<char>) -> bool {
    exists|k: int| 0 <= k < q.len() && q[k].status == RequestStatus::Queued && q[k].api_key@ == key
}

proof fn lemma_members_nonempty(q: Seq<RequestState>, key: Seq<char>, k: int)
    requires
        0 <= k < q.len(),
        q[k].status == RequestStatus::Queued,
        q[k].api_key@ == key,
    ensures
        members_for(q, key).len() > 0,
    decreases q.len(),
{
    if k < q.len() - 1 {
        assert(q.drop_last()[k] == q[k]);
        lemma_members_nonempty(q.drop_last(), key, k);
    }
}

proof fn lemma_members_extend(q: Seq<RequestState>, key: Seq<char>, i: int)
    requires
        0 <= i < q.len(),
    ensures
        members_for(q.subrange(0, i + 1), key) == if q[i].status == RequestStatus::Queued
            && q[i].api_key@ == key {
            members_for(q.subrange(0, i), key).push(q[i])
        } else {
            members_for(q.subrange(0, i), key)
        },
{
    assert(q.subrange(0, i + 1).drop_last() =~= q.subrange(0, i));
    assert(q.subrange(0, i + 1).last() == q[i]);
}

/// The records of `queued` that go upstream under `key`.
fn collect_members(queued: &Vec<RequestState>, key: &String) -> (r: Vec<RequestState>)
    ensures
        r@ == members_for(queued@, key@),
{
    let mut members: Vec<RequestState> = Vec::new();
    let mut i: usize = 0;
    while i < queued.len()
        invariant
            0 <= i <= queued.len(),
            members@ == members_for(queued@.subrange(0, i as int), key@),
        decreases queued.len() - i,
    {
        proof {
            lemma_members_extend(queued@, key@, i as int);
        }
        if queued[i].status == RequestStatus::Queued && queued[i].api_key == *key {
            members.push(queued[i].duplicate());
        }
        i = i + 1;
    }
    assert(queued@.subrange(0, queued.len() as int) =~= queued@);
    members
}

fn contains_text(v: &Vec<String>, t: &String) -> (r: bool)
    ensures
        r == exists|j: int| 0 <= j < v.len() && v[j]@ == t@,
{
    let mut j: usize = 0;
    while j < v.len()
        invariant
            0 <= j <= v.len(),
            forall|jj: int| 0 <= jj < j ==> v[jj]@ != t@,
        decreases v.len() - j,
    {
        if v[j] == *t {
            return true;
        }
        j = j + 1;
    }
    false
}

proof fn lemma_members_queued(q: Seq<RequestState>, key: Seq<char>)
    ensures
        forall|i: int| 0 <= i < members_for(q, key).len() ==> (#[trigger] members_for(q, key)[i]).status
            == RequestStatus::Queued && members_for(q, key)[i].api_key@ == key,
    decreases q.len(),
{
    if q.len() > 0 {
        lemma_members_queued(q.drop_last(), key);
    }
}

/// One upstream submission of a tick: the queued records of one credential.
#[derive(Debug)]
pub struct DispatchGroup {
    pub api_key: String,
    pub members: Vec<RequestState>,
}

impl DispatchGroup {
    /// Every member is still queued and was submitted under the group's credential.
    pub open spec fn wf(&self) -> bool {
        forall|i: int| 0 <= i < self.members.len() ==> (#[trigger] self.members[i]).status
            == RequestStatus::Queued && self.members[i].api_key@ == self.api_key@
    }
}

/// Groups the records read from the queued set by credential. Records no
/// longer `Queued` are skipped. Each credential gets exactly one group, which
/// holds every queued record of that credential, in the order read.
pub fn plan_dispatch(queued: &Vec<RequestState>) -> (r: Vec<DispatchGroup>)
    ensures
        forall|g: int| 0 <= g < r.len() ==> #[trigger] r[g].members@ == members_for(queued@, r[g].api_key@),
        forall|g: int| 0 <= g < r.len() ==> #[trigger] r[g].members@.len() > 0,
        forall|g: int| 0 <= g < r.len() ==> #[trigger] r[g].wf(),
        forall|g: int, h: int| 0 <= g < h < r.len() ==> #[trigger] r[g].api_key@ != #[trigger] r[h].api_key@,
        forall|k: int| 0 <= k < queued.len() && #[trigger] queued[k].status == RequestStatus::Queued
            ==> exists|g: int| 0 <= g < r.len() && r[g].api_key@ == queued[k].api_key@,
{
    let mut keys: Vec<String> = Vec::new();
    let mut i: usize = 0;
    while i < queued.len()
        invariant
            0 <= i <= queued.len(),
            forall|a: int, b: int| 0 <= a < b < keys.len() ==> #[trigger] keys[a]@ != #[trigger] keys[b]@,
            forall|k: int| 0 <= k < i && #[trigger] queued[k].status == RequestStatus::Queued
                ==> exists|j: int| 0 <= j < keys.len() && keys[j]@ == queued[k].api_key@,
            forall|j: int| 0 <= j < keys.len() ==> queued_under(queued@, #[trigger] keys[j]@),
        decreases queued.len() - i,
    {
        if queued[i].status == RequestStatus::Queued {
            let found = contains_text(&keys, &queued[i].api_key);
            if !found {
                let ghost old_keys = keys@;
                keys.push(queued[i].api_key.clone());
                assert forall|k: int| 0 <= k <= i && #[trigger] queued[k].status == RequestStatus::Queued
                    implies exists|jj: int| 0 <= jj < keys.len() && keys[jj]@ == queued[k].api_key@ by {
                    if k < i {
                        let jj = choose|jj: int| 0 <= jj < old_keys.len() && old_keys[jj]@ == queued[k].api_key@;
                        assert(keys[jj] == old_keys[jj]);
                    } else {
                        assert(keys[keys.len() - 1]@ == queued[k].api_key@);
                    }
                }
                assert forall|jj: int| 0 <= jj < keys.len() implies queued_under(queued@, #[trigger] keys[jj]@) by {
                    if jj < keys.len() - 1 {
                        assert(keys[jj] == old_keys[jj]);
                    } else {
                        assert(queued@[i as int].api_key@ == keys[jj]@);
                    }
                }
            }
        }
        i = i + 1;
    }
    let mut groups: Vec<DispatchGroup> = Vec::new();
    let mut j: usize = 0;
    while j < keys.len()
        invariant
            0 <= j <= keys.len(),
            groups.len() == j,
            forall|a: int, b: int| 0 <= a < b < keys.len() ==> #[trigger] keys[a]@ != #[trigger] keys[b]@,
            forall|g: int| 0 <= g < j ==> #[trigger] groups[g].api_key@ == keys[g]@,
            forall|g: int| 0 <= g < j ==> #[trigger] groups[g].members@ == members_for(queued@, groups[g].api_key@),
            forall|g: int| 0 <= g < j ==> #[trigger] groups[g].members@.len() > 0,
            forall|g: int| 0 <= g < j ==> #[trigger] groups[g].wf(),
            forall|j: int| 0 <= j < keys.len() ==> queued_under(queued@, #[trigger] keys[j]@),
        decreases keys.len() - j,
    {
        let members = collect_members(queued, &keys[j]);
        proof {
            assert(queued_under(queued@, keys[j as int]@));
            let k = choose|k: int| 0 <= k < queued.len() && queued[k].status == RequestStatus::Queued
                && queued[k].api_key@ == keys[j as int]@;
            lemma_members_nonempty(queued@, keys[j as int]@, k);
            lemma_members_queued(queued@, keys[j as int]@);
        }
        groups.push(DispatchGroup { api_key: keys[j].clone(), members });
        j = j + 1;
    }
    assert forall|k: int| 0 <= k < queued.len() && #[trigger] queued[k].status == RequestStatus::Queued
        implies exists|g: int| 0 <= g < groups.len() && groups[g].api_key@ == queued[k].api_key@ by {
        let jj = choose|jj: int| 0 <= jj < keys.len() && keys[jj]@ == queued[k].api_key@;
        assert(groups[jj].api_key@ == keys[jj]@);
    }
    groups
}

} // verus!

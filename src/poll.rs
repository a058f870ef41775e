use vstd::prelude::*;
use crate::status::RequestStatus;
use crate::record::RequestState;

verus! {

/// Whether two texts are equal, character by character.
pub fn same_text(a: &str, b: &str) -> (r: bool)
    ensures
        r == (a@ == b@),
{
    let n = a.unicode_len();
    let m = b.unicode_len();
    if n != m {
        return false;
    }
    let mut i: usize = 0;
    while i < n
        invariant
            0 <= i <= n,
            n == a@.len(),
            m == b@.len(),
            n == m,
            forall|j: int| 0 <= j < i ==> a@[j] == b@[j],
        decreases n - i,
    {
        if a.get_char(i) != b.get_char(i) {
            return false;
        }
        i = i + 1;
    }
    assert(a@ =~= b@);
    true
}

/// What the poller does after reading a batch's upstream status.
#[derive(Debug)]
pub enum PollAction {
    /// Not terminal: promote members still `Batching`, poll again next tick.
    KeepPolling,
    /// `completed` with an output file: fetch it and complete the members it answers.
    FetchResults(String),
    /// `completed` without an output file: drop the batch; its members stay as they are.
    DropBatch,
    /// `failed`, `expired` or `cancelled`: fail every member with this message.
    FailMembers(String),
}

pub open spec fn is_failed_status(status: Seq<char>) -> bool {
    status == "failed"@ || status == "expired"@ || status == "cancelled"@
}

/// Message stored on members of a batch that ended with `status`.
pub open spec fn batch_failure_message(status: Seq<char>) -> Seq<char> {
    "Batch "@ + status
}

/// Decides the poller's next step from the upstream status of its batch.
pub fn poll_action(status: &str, output_file_id: Option<String>) -> (r: PollAction)
    ensures
        status@ == "completed"@ ==> match output_file_id {
            Some(f) => r matches PollAction::FetchResults(g) && g@ == f@,
            None => r is DropBatch,
        },
        is_failed_status(status@) ==> (r matches PollAction::FailMembers(m)
            && m@ == batch_failure_message(status@)),
        status@ != "completed"@ && !is_failed_status(status@) ==> r is KeepPolling,
{
    proof {
        reveal_strlit("completed");
        reveal_strlit("failed");
        reveal_strlit("expired");
        reveal_strlit("cancelled");
        assert("completed"@[1] != "cancelled"@[1]);
        assert("completed"@ != "failed"@ && "completed"@ != "expired"@);
    }
    if same_text(status, "completed") {
        match output_file_id {
            Some(f) => PollAction::FetchResults(f),
            None => PollAction::DropBatch,
        }
    } else if same_text(status, "failed") || same_text(status, "expired") || same_text(status, "cancelled") {
        let mut m = String::from_str("Batch ");
        m.append(status);
        PollAction::FailMembers(m)
    } else {
        PollAction::KeepPolling
    }
}

/// The new records of the members still `Batching`, now `Processing` in
/// batch `batch_id`; `None` for every other member, which is left as it is.
pub fn promote_members(members: &Vec<RequestState>, batch_id: &String, now: i64) -> (r: Vec<Option<RequestState>>)
    ensures
        r.len() == members.len(),
        forall|k: int| 0 <= k < members.len() ==> match #[trigger] r[k] {
            Some(s) => members[k].status == RequestStatus::Batching && s == (RequestState {
                status: RequestStatus::Processing,
                batch_id: Some(*batch_id),
                updated_at: now,
                ..members[k]
            }),
            None => members[k].status != RequestStatus::Batching,
        },
{
    let mut out: Vec<Option<RequestState>> = Vec::new();
    let mut i: usize = 0;
    while i < members.len()
        invariant
            0 <= i <= members.len(),
            out.len() == i,
            forall|k: int| 0 <= k < i ==> match #[trigger] out[k] {
                Some(s) => members[k].status == RequestStatus::Batching && s == (RequestState {
                    status: RequestStatus::Processing,
                    batch_id: Some(*batch_id),
                    updated_at: now,
                    ..members[k]
                }),
                None => members[k].status != RequestStatus::Batching,
            },
        decreases members.len() - i,
    {
        if members[i].status == RequestStatus::Batching {
            let mut s = members[i].duplicate();
            let changed = s.update_status(RequestStatus::Processing, Some(batch_id.clone()), now);
            assert(changed);
            out.push(Some(s));
        } else {
            out.push(None);
        }
        i = i + 1;
    }
    out
}

/// The new records of the members of a batch that ended in failure, each
/// `Failed` with `message`; `None` for a member that already completed.
/// Each `Some` owes one completion event.
pub fn fail_members(members: &Vec<RequestState>, message: &String, now: i64) -> (r: Vec<Option<RequestState>>)
    ensures
        r.len() == members.len(),
        forall|k: int| 0 <= k < members.len() ==> match #[trigger] r[k] {
            Some(s) => members[k].status != RequestStatus::Complete && s == (RequestState {
                status: RequestStatus::Failed,
                error: Some(*message),
                result: None,
                updated_at: now,
                ..members[k]
            }),
            None => members[k].status == RequestStatus::Complete,
        },
{
    let mut out: Vec<Option<RequestState>> = Vec::new();
    let mut i: usize = 0;
    while i < members.len()
        invariant
            0 <= i <= members.len(),
            out.len() == i,
            forall|k: int| 0 <= k < i ==> match #[trigger] out[k] {
                Some(s) => members[k].status != RequestStatus::Complete && s == (RequestState {
                    status: RequestStatus::Failed,
                    error: Some(*message),
                    result: None,
                    updated_at: now,
                    ..members[k]
                }),
                None => members[k].status == RequestStatus::Complete,
            },
        decreases members.len() - i,
    {
        let mut s = members[i].duplicate();
        if s.fail(message.clone(), now) {
            out.push(Some(s));
        } else {
            out.push(None);
        }
        i = i + 1;
    }
    out
}

/// The pieces of `s` between `\n` separators (one more than there are separators).
pub open spec fn newline_pieces(s: Seq<char>) -> Seq<Seq<char>>
    decreases s.len(),
{
    if s.len() == 0 {
        seq![Seq::empty()]
    } else {
        let p = newline_pieces(s.drop_last());
        if s.last() == '\n' {
            p.push(Seq::empty())
        } else {
            p.update(p.len() - 1, p.last().push(s.last()))
        }
    }
}

/// A piece without the `\r` of a `\r\n` line ending.
pub open spec fn strip_carriage_return(l: Seq<char>) -> Seq<char> {
    if l.len() > 0 && l.last() == '\r' {
        l.drop_last()
    } else {
        l
    }
}

/// The lines of a text: split at `\n` or `\r\n`, where a final line ending
/// opens no further line. A last line with no `\n` after it keeps any `\r`.
pub open spec fn text_lines(s: Seq<char>) -> Seq<Seq<char>> {
    let p = newline_pieces(s);
    let ended = p.drop_last().map_values(|l: Seq<char>| strip_carriage_return(l));
    if p.last().len() == 0 {
        ended
    } else {
        ended.push(p.last())
    }
}

/// Relies on `str::lines`: it yields the lines of the text, split at `\n`
/// or `\r\n`, with no empty last line after a final line ending.
#[verifier::external_body]
fn split_lines(s: &str) -> (r: Vec<String>)
    ensures
        r@.map_values(|l: String| l@) == text_lines(s@),
{
    s.lines().map(|l| l.to_string()).collect()
}

/// Whether `c` has the Unicode `White_Space` property: tab, line feed,
/// vertical tab, form feed, carriage return, space, next line, no-break
/// space, ogham space mark, the spaces U+2000 to U+200A, line and paragraph
/// separators, narrow no-break space, medium mathematical space and
/// ideographic space.
pub open spec fn is_white_space(c: char) -> bool {
    let u = c as u32;
    ||| 0x09 <= u <= 0x0d
    ||| u == 0x20
    ||| u == 0x85
    ||| u == 0xa0
    ||| u == 0x1680
    ||| 0x2000 <= u <= 0x200a
    ||| u == 0x2028
    ||| u == 0x2029
    ||| u == 0x202f
    ||| u == 0x205f
    ||| u == 0x3000
}

/// Relies on `char::is_whitespace`: true exactly for the Unicode `White_Space` characters.
#[verifier::external_body]
fn char_is_whitespace(c: char) -> (r: bool)
    ensures
        r == is_white_space(c),
{
    c.is_whitespace()
}

/// A line holds nothing but white space.
pub open spec fn is_blank(l: Seq<char>) -> bool {
    forall|i: int| 0 <= i < l.len() ==> is_white_space(#[trigger] l[i])
}

/// The lines that hold something other than white space, in order.
pub open spec fn non_blank(ls: Seq<Seq<char>>) -> Seq<Seq<char>>
    decreases ls.len(),
{
    if ls.len() == 0 {
        Seq::empty()
    } else if is_blank(ls.last()) {
        non_blank(ls.drop_last())
    } else {
        non_blank(ls.drop_last()).push(ls.last())
    }
}

fn blank_line(l: &str) -> (r: bool)
    ensures
        r == is_blank(l@),
{
    let n = l.unicode_len();
    let mut i: usize = 0;
    while i < n
        invariant
            0 <= i <= n,
            n == l@.len(),
            forall|j: int| 0 <= j < i ==> is_white_space(#[trigger] l@[j]),
        decreases n - i,
    {
        if !char_is_whitespace(l.get_char(i)) {
            return false;
        }
        i = i + 1;
    }
    true
}

/// The non-blank lines of a downloaded result file, each one result item.
pub fn result_lines(content: &str) -> (r: Vec<String>)
    ensures
        r@.map_values(|l: String| l@) == non_blank(text_lines(content@)),
{
    let lines = split_lines(content);
    let ghost ls = lines@.map_values(|l: String| l@);
    let mut out: Vec<String> = Vec::new();
    let mut i: usize = 0;
    while i < lines.len()
        invariant
            0 <= i <= lines.len(),
            ls == lines@.map_values(|l: String| l@),
            out@.map_values(|l: String| l@) == non_blank(ls.subrange(0, i as int)),
        decreases lines.len() - i,
    {
        proof {
            assert(ls.subrange(0, i + 1).drop_last() =~= ls.subrange(0, i as int));
            assert(ls.subrange(0, i + 1).last() == lines[i as int]@);
        }
        if !blank_line(lines[i].as_str()) {
            let ghost before = out@;
            out.push(lines[i].clone());
            proof {
                assert(out@.map_values(|l: String| l@) =~= before.map_values(|l: String| l@).push(lines[i as int]@));
            }
        }
        i = i + 1;
    }
    assert(ls.subrange(0, lines.len() as int) =~= ls);
    out
}

} // verus!

use vstd::prelude::*;
use crate::record::RequestState;

verus! {

/// How one character is written inside a JSON string: `"` and `\\` and the
/// control characters are escaped (short forms where JSON has them, else
/// `\u00` and two lower-case hex digits); every other character stands as is.
pub open spec fn json_escaped_char(c: char) -> Seq<char> {
    let hex = "0123456789abcdef"@;
    if c == '"' {
        seq!['\\', '"']
    } else if c == '\\' {
        seq!['\\', '\\']
    } else if c == '\x08' {
        seq!['\\', 'b']
    } else if c == '\t' {
        seq!['\\', 't']
    } else if c == '\n' {
        seq!['\\', 'n']
    } else if c == '\x0c' {
        seq!['\\', 'f']
    } else if c == '\r' {
        seq!['\\', 'r']
    } else if (c as u32) < 0x20 {
        seq!['\\', 'u', '0', '0', hex[(c as u32) as int / 16], hex[(c as u32) as int % 16]]
    } else {
        seq![c]
    }
}

/// The characters of `s`, each written as inside a JSON string.
pub open spec fn json_escaped(s: Seq<char>) -> Seq<char>
    decreases s.len(),
{
    if s.len() == 0 {
        Seq::empty()
    } else {
        json_escaped(s.drop_last()) + json_escaped_char(s.last())
    }
}

/// The JSON string literal (quoted and escaped) that encodes `s`.
pub open spec fn json_string_literal(s: Seq<char>) -> Seq<char> {
    seq!['"'] + json_escaped(s) + seq!['"']
}

/// Relies on serde_json::to_string on a `str`: it writes the text between
/// quotes, escaping `"`, `\\` and control characters by its fixed table
/// (short escapes for backspace, tab, newline, form feed and carriage
/// return, `\u00xx` in lower-case hex for the others); serialising into
/// memory does not fail.
#[verifier::external_body]
fn json_quote(s: &str) -> (r: String)
    ensures
        r@ == json_string_literal(s@),
{
    match serde_json::to_string(s) {
        Ok(t) => t,
        Err(_) => String::new(),
    }
}

/// One line of an upload: the item for request `id` with payload `body`.
pub open spec fn batch_line(id: Seq<char>, body: Seq<char>) -> Seq<char> {
    "{\"custom_id\":"@ + json_string_literal(id) + ",\"method\":\"POST\",\"url\":\"/v1/chat/completions\",\"body\":"@
        + body + "}"@
}

/// The upload lines of a group of records, one per record, in order.
pub open spec fn batch_lines(ms: Seq<RequestState>) -> Seq<Seq<char>> {
    ms.map_values(|m: RequestState| batch_line(m.request_id@, m.request@))
}

/// Lines joined by a newline, with no trailing newline.
pub open spec fn join_lines(ls: Seq<Seq<char>>) -> Seq<char>
    decreases ls.len(),
{
    if ls.len() == 0 {
        Seq::empty()
    } else if ls.len() == 1 {
        ls[0]
    } else {
        join_lines(ls.drop_last()) + "\n"@ + ls.last()
    }
}

/// The upload line for request `id` with payload `body`.
pub fn batch_line_text(id: &String, body: &String) -> (r: String)
    ensures
        r@ == batch_line(id@, body@),
{
    let q = json_quote(id.as_str());
    let mut line = String::from_str("{\"custom_id\":");
    line.append(q.as_str());
    line.append(",\"method\":\"POST\",\"url\":\"/v1/chat/completions\",\"body\":");
    line.append(body.as_str());
    line.append("}");
    line
}

/// The JSONL text uploaded for a group of records: one item per record,
/// whose `custom_id` is the request id and whose `body` is the stored
/// request, joined by newlines.
pub fn batch_file_content(members: &Vec<RequestState>) -> (r: String)
    ensures
        r@ == join_lines(batch_lines(members@)),
{
    let mut content = String::new();
    let mut i: usize = 0;
    while i < members.len()
        invariant
            0 <= i <= members.len(),
            content@ == join_lines(batch_lines(members@.subrange(0, i as int))),
        decreases members.len() - i,
    {
        let line = batch_line_text(&members[i].request_id, &members[i].request);
        proof {
            let pre = members@.subrange(0, i as int);
            let next = members@.subrange(0, i + 1);
            assert(pre =~= next.drop_last());
            assert(batch_lines(next).drop_last() =~= batch_lines(pre));
            assert(batch_lines(next).last() == line@);
        }
        if i > 0 {
            content.append("\n");
        } else {
            assert(batch_lines(members@.subrange(0, 1)).len() == 1);
        }
        content.append(line.as_str());
        proof {
            if i == 0 {
                assert(content@ =~= line@);
            }
        }
        i = i + 1;
    }
    assert(members@.subrange(0, members.len() as int) =~= members@);
    content
}

/// Name under which an upload is sent, made unique by `token`.
pub fn upload_file_name(token: &str) -> (r: String)
    ensures
        r@ == "batch_"@ + token@ + ".jsonl"@,
{
    let mut name = String::from_str("batch_");
    name.append(token);
    name.append(".jsonl");
    name
}

/// Body of the batch-creation call for an uploaded file.
pub open spec fn create_batch_body(input_file_id: Seq<char>) -> Seq<char> {
    "{\"input_file_id\":"@ + json_string_literal(input_file_id)
        + ",\"endpoint\":\"/v1/chat/completions\",\"completion_window\":\"24h\",\"metadata\":null}"@
}

/// The JSON body that creates a batch over the uploaded file.
pub fn create_batch_body_text(input_file_id: &str) -> (r: String)
    ensures
        r@ == create_batch_body(input_file_id@),
{
    let q = json_quote(input_file_id);
    let mut body = String::from_str("{\"input_file_id\":");
    body.append(q.as_str());
    body.append(",\"endpoint\":\"/v1/chat/completions\",\"completion_window\":\"24h\",\"metadata\":null}");
    body
}

} // verus!

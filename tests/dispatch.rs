use batch_gateway::dispatch::plan_dispatch;
use batch_gateway::record::RequestState;
use batch_gateway::status::RequestStatus;
use batch_gateway::store::{create_request, move_to_batching, StoreWrite};
use batch_gateway::wire::{batch_file_content, batch_line_text, create_batch_body_text, upload_file_name};

fn rec(id: &str, key: &str, body: &str) -> RequestState {
    RequestState::new(id.to_string(), body.to_string(), key.to_string(), 10)
}

#[test]
fn groups_by_credential_in_order() {
    let q = vec![
        rec("k4", "sk-A", "{\"a\":1}"),
        rec("k5", "sk-B", "{\"b\":1}"),
        rec("k8", "sk-A", "{\"a\":2}"),
    ];
    let groups = plan_dispatch(&q);
    assert_eq!(groups.len(), 2);
    assert_eq!(groups[0].api_key, "sk-A");
    let ids: Vec<&str> = groups[0].members.iter().map(|m| m.request_id.as_str()).collect();
    assert_eq!(ids, vec!["k4", "k8"]);
    assert_eq!(groups[1].api_key, "sk-B");
    assert_eq!(groups[1].members.len(), 1);
    assert_eq!(groups[1].members[0].request_id, "k5");
}

#[test]
fn skips_records_no_longer_queued() {
    let mut moved = rec("k1", "sk-A", "{}");
    moved.update_status(RequestStatus::Batching, Some("b0".to_string()), 11);
    let q = vec![moved, rec("k2", "sk-A", "{}")];
    let groups = plan_dispatch(&q);
    assert_eq!(groups.len(), 1);
    assert_eq!(groups[0].members.len(), 1);
    assert_eq!(groups[0].members[0].request_id, "k2");
}

#[test]
fn empty_queue_gives_no_groups() {
    assert!(plan_dispatch(&Vec::new()).is_empty());
    let mut done = rec("k1", "sk-A", "{}");
    done.complete("{}".to_string(), 12);
    assert!(plan_dispatch(&vec![done]).is_empty());
}

#[test]
fn upload_line_shape() {
    let line = batch_line_text(&"k1".to_string(), &"{\"model\":\"m\"}".to_string());
    assert_eq!(
        line,
        "{\"custom_id\":\"k1\",\"method\":\"POST\",\"url\":\"/v1/chat/completions\",\"body\":{\"model\":\"m\"}}"
    );
    let v: serde_json::Value = serde_json::from_str(&line).unwrap();
    assert_eq!(v["custom_id"], "k1");
    assert_eq!(v["body"]["model"], "m");
}

#[test]
fn upload_line_escapes_request_id() {
    let line = batch_line_text(&"a\"b".to_string(), &"{}".to_string());
    assert!(line.starts_with("{\"custom_id\":\"a\\\"b\","));
    let v: serde_json::Value = serde_json::from_str(&line).unwrap();
    assert_eq!(v["custom_id"], "a\"b");
}

#[test]
fn upload_file_joins_lines_without_trailing_newline() {
    let members = vec![rec("k1", "sk-A", "{\"x\":1}"), rec("k2", "sk-A", "{\"x\":2}")];
    let content = batch_file_content(&members);
    let lines: Vec<&str> = content.split('\n').collect();
    assert_eq!(lines.len(), 2);
    assert!(!content.ends_with('\n'));
    let ids: Vec<String> = lines
        .iter()
        .map(|l| serde_json::from_str::<serde_json::Value>(l).unwrap()["custom_id"].as_str().unwrap().to_string())
        .collect();
    assert_eq!(ids, vec!["k1", "k2"]);
    assert_eq!(batch_file_content(&Vec::new()), "");
}

#[test]
fn upload_name_and_batch_body() {
    assert_eq!(upload_file_name("1234"), "batch_1234.jsonl");
    let body = create_batch_body_text("f1");
    let v: serde_json::Value = serde_json::from_str(&body).unwrap();
    assert_eq!(v["input_file_id"], "f1");
    assert_eq!(v["endpoint"], "/v1/chat/completions");
    assert_eq!(v["completion_window"], "24h");
}

#[test]
fn move_to_batching_write_order() {
    let q = vec![rec("k1", "sk-A", "{}"), rec("k2", "sk-A", "{}")];
    let groups = plan_dispatch(&q);
    let writes = move_to_batching(&groups[0], &"b1".to_string(), 50);
    assert_eq!(writes.len(), 7);
    match &writes[0] {
        StoreWrite::PutBatchMembers { batch_id, request_ids } => {
            assert_eq!(batch_id, "b1");
            assert_eq!(request_ids, &vec!["k1".to_string(), "k2".to_string()]);
        }
        other => panic!("unexpected {:?}", other),
    }
    match &writes[1] {
        StoreWrite::PutBatchKey { batch_id, api_key } => {
            assert_eq!(batch_id, "b1");
            assert_eq!(api_key, "sk-A");
        }
        other => panic!("unexpected {:?}", other),
    }
    for (k, id) in ["k1", "k2"].iter().enumerate() {
        match &writes[2 + k] {
            StoreWrite::AdvanceRequest { expected, state: s } => {
                assert_eq!(*expected, RequestStatus::Queued);
                assert_eq!(s.request_id, *id);
                assert_eq!(s.status, RequestStatus::Batching);
                assert_eq!(s.batch_id.as_deref(), Some("b1"));
                assert_eq!(s.updated_at, 50);
                assert_eq!(s.created_at, 10);
            }
            other => panic!("unexpected {:?}", other),
        }
        match &writes[4 + k] {
            StoreWrite::RemoveQueued(r) => assert_eq!(r, id),
            other => panic!("unexpected {:?}", other),
        }
    }
    assert!(matches!(&writes[6], StoreWrite::AddProcessing(b) if b == "b1"));
}

#[test]
fn batch_members_equal_moved_requests() {
    let q = vec![rec("x1", "sk-A", "{}"), rec("x2", "sk-B", "{}"), rec("x3", "sk-A", "{}")];
    for g in plan_dispatch(&q) {
        let content = batch_file_content(&g.members);
        let mut uploaded: Vec<String> = content
            .split('\n')
            .map(|l| serde_json::from_str::<serde_json::Value>(l).unwrap()["custom_id"].as_str().unwrap().to_string())
            .collect();
        let mut moved: Vec<String> = move_to_batching(&g, &"b".to_string(), 1)
            .iter()
            .filter_map(|w| match w {
                StoreWrite::AdvanceRequest { state: s, .. } if s.status == RequestStatus::Batching => {
                    Some(s.request_id.clone())
                }
                _ => None,
            })
            .collect();
        uploaded.sort();
        moved.sort();
        assert_eq!(uploaded, moved);
    }
}

#[test]
fn creation_write_carries_record() {
    let w = create_request(rec("k1", "sk-A", "{}"));
    match w {
        StoreWrite::CreateRequest(s) => {
            assert_eq!(s.request_id, "k1");
            assert_eq!(s.status, RequestStatus::Queued);
        }
        other => panic!("unexpected {:?}", other),
    }
}

#[test]
fn upload_line_escapes_control_characters() {
    let line = batch_line_text(&"a\u{1}\n\\".to_string(), &"{}".to_string());
    assert!(line.starts_with("{\"custom_id\":\"a\\u0001\\n\\\\\","));
    let line = batch_line_text(&"\u{1f}\u{7f}é".to_string(), &"{}".to_string());
    assert!(line.starts_with("{\"custom_id\":\"\\u001f\u{7f}é\","));
}

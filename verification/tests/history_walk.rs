use fdb_node::history::HistoryWalk;
use fdb_node::result::FdbMetadataHistoryResult;

#[test]
fn walk_from_empty_cid_is_over() {
    let w = HistoryWalk::start(String::new());
    assert!(w.next.is_none());
    assert!(w.entries.is_empty());
}

#[test]
fn walk_follows_previous_links() {
    let mut w = HistoryWalk::start("cid-2".to_string());
    assert_eq!(w.next.as_deref(), Some("cid-2"));
    assert!(w.try_advance(r#"{ "name" : "v2", "previous" : { "/" : "cid-1" } }"#));
    assert_eq!(w.entries, vec![r#"{"name":"v2","previous":{"/":"cid-1"}}"#.to_string()]);
    assert_eq!(w.next.as_deref(), Some("cid-1"));
    w.advance(r#"{"name": "v1"}"#);
    assert_eq!(w.entries.len(), 2);
    assert_eq!(w.entries[1], r#"{"name":"v1"}"#);
    assert!(w.next.is_none());
    let r = FdbMetadataHistoryResult::from(Ok(w.entries));
    assert!(r.success);
    assert_eq!(r.metadata, r#"{"name":"v2","previous":{"/":"cid-1"}}"#);
    assert_eq!(r.history, vec![r#"{"name":"v1"}"#.to_string()]);
}

#[test]
fn empty_previous_link_ends_the_walk() {
    let mut w = HistoryWalk::start("cid".to_string());
    assert!(w.try_advance(r#"{"previous":{"/":""}}"#));
    assert!(w.next.is_none());
}

#[test]
fn non_string_previous_link_ends_the_walk() {
    let mut w = HistoryWalk::start("cid".to_string());
    assert!(w.try_advance(r#"{"previous":{"/":5}}"#));
    assert!(w.next.is_none());
    assert_eq!(w.entries[0], r#"{"previous":{"/":5}}"#);
}

#[test]
fn non_json_block_is_not_taken() {
    let mut w = HistoryWalk::start("cid".to_string());
    assert!(!w.try_advance("not json"));
    assert!(w.entries.is_empty());
    assert_eq!(w.next.as_deref(), Some("cid"));
}

#[test]
fn recorded_block_moves_the_walk_on() {
    let mut w = HistoryWalk::start("cid".to_string());
    w.record_block("{}".to_string(), Some("prev".to_string()));
    assert_eq!(w.entries, vec!["{}".to_string()]);
    assert_eq!(w.next.as_deref(), Some("prev"));
    w.record_block("[]".to_string(), Some(String::new()));
    assert_eq!(w.entries.len(), 2);
    assert!(w.next.is_none());
    w.record_block("1".to_string(), None);
    assert_eq!(w.entries.len(), 3);
    assert!(w.next.is_none());
}

use mars_xlog::probe::{next_request, parse_joined, path_reply, split_lines, INITIAL_QUERY_CAPACITY};

#[test]
fn a_fitting_reply_needs_no_retry() {
    assert_eq!(next_request(INITIAL_QUERY_CAPACITY, 100), None);
    assert_eq!(next_request(INITIAL_QUERY_CAPACITY, INITIAL_QUERY_CAPACITY), None);
}

#[test]
fn an_oversized_reply_retries_with_at_least_the_required_length() {
    let retry = next_request(INITIAL_QUERY_CAPACITY, 10000);
    assert_eq!(retry, Some(10000));
    assert!(retry.unwrap() >= 10000);
}

#[test]
fn oversized_reply_scenario_ends_with_the_split_entries() {
    // First probe: 4096 bytes offered, 10000 required -> retry once.
    let capacity = next_request(INITIAL_QUERY_CAPACITY, 10000).unwrap();
    // Second call: the reply now fits and splits on newlines.
    let entries = parse_joined(capacity, 10000, "/logs/a.xlog\n/logs/b.xlog\n/logs/c.xlog");
    assert_eq!(entries, vec!["/logs/a.xlog", "/logs/b.xlog", "/logs/c.xlog"]);
    assert_eq!(entries.iter().filter(|e| !e.is_empty()).count(), 3);
}

#[test]
fn a_second_shortfall_means_empty_output() {
    let entries = parse_joined(10000, 20000, "partial");
    assert_eq!(entries.len(), 0);
}

#[test]
fn an_empty_reply_is_an_empty_sequence() {
    let entries = parse_joined(INITIAL_QUERY_CAPACITY, 10, "");
    assert_eq!(entries.len(), 0);
    assert_eq!(split_lines("").len(), 0);
}

#[test]
fn splitting_keeps_order_and_empty_pieces() {
    assert_eq!(split_lines("one"), vec!["one"]);
    assert_eq!(split_lines("a\nb"), vec!["a", "b"]);
    assert_eq!(split_lines("a\n"), vec!["a", ""]);
    assert_eq!(split_lines("\n"), vec!["", ""]);
    assert_eq!(split_lines("a\n\nb"), vec!["a", "", "b"]);
}

#[test]
fn path_replies_follow_the_status() {
    assert_eq!(path_reply(0, "/ignored".to_string()), None);
    assert_eq!(path_reply(1, "/logs/app".to_string()), Some("/logs/app".to_string()));
}

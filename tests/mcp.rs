use sway_playground::mcp::{doc_results, doc_snippet, mcp_payload};

#[test]
fn plain_json_answer_is_kept() {
    assert_eq!(mcp_payload("{\"result\":1}"), "{\"result\":1}");
}

#[test]
fn event_stream_gives_first_data_line() {
    let text = "event: message\r\ndata: {\"a\":1}\r\ndata: {\"b\":2}\n";
    assert_eq!(mcp_payload(text), "{\"a\":1}");
    assert_eq!(mcp_payload("event: x\ndata: tail"), "tail");
}

#[test]
fn event_stream_without_data_is_kept() {
    let text = "event: ping\nid: 3\n";
    assert_eq!(mcp_payload(text), text);
    assert_eq!(mcp_payload("event:\n xdata: 1"), "event:\n xdata: 1");
}

#[test]
fn short_text_passes_whole() {
    assert_eq!(doc_snippet(Some("abc".to_string()), Some("zzz".to_string())), "abc");
    assert_eq!(doc_snippet(None, Some("zzz".to_string())), "zzz");
    assert_eq!(doc_snippet(None, None), "No content");
    let exact = "x".repeat(500);
    assert_eq!(doc_snippet(Some(exact.clone()), None), exact);
}

#[test]
fn long_text_is_cut_to_five_hundred_characters() {
    let long = "y".repeat(501);
    assert_eq!(doc_snippet(Some(long), None), format!("{}...", "y".repeat(500)));
    let wide = "é".repeat(300);
    assert_eq!(doc_snippet(Some(wide.clone()), None), format!("{wide}..."));
}

#[test]
fn at_most_three_results() {
    let entries: Vec<(Option<String>, Option<String>)> =
        (0..5).map(|i| (Some(format!("t{i}")), None)).collect();
    assert_eq!(doc_results(entries), vec!["t0", "t1", "t2"]);
    assert_eq!(doc_results(vec![(None, None)]), vec!["No content"]);
    assert!(doc_results(Vec::new()).is_empty());
}

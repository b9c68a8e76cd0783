use athena::sessions::{fts_phrase_query, SearchSessionsTool, SessionSummary, TrajectoryExportTool};

#[test]
fn search_queries_are_quoted_phrases() {
    assert_eq!(fts_phrase_query("rust app"), "\"rust app\"");
}

#[test]
fn search_answers_list_the_hits() {
    let t = SearchSessionsTool;
    assert_eq!((t.name(), t.toolset()), ("search_past_conversations", "memory"));
    assert_eq!(t.answer(&[]), "No past sessions found matching the query.");
    let hits = vec![SessionSummary {
        session_id: "sess-1".to_string(),
        title: None,
        snippet: "build a <b>rust</b> application".to_string(),
    }];
    assert_eq!(
        t.answer(&hits),
        "Found matching past sessions:\n\nSession ID: sess-1\nTitle: Untitled Session\nSnippet: build a <b>rust</b> application\n\n"
    );
    assert_eq!(t.query(None), Err("Missing 'query' parameter".to_string()));
}

#[test]
fn test_trajectory_export() {
    let t = TrajectoryExportTool;
    assert_eq!((t.name(), t.toolset()), ("export_session_trajectory", "memory"));
    let long = "A".repeat(1500);
    let out = t.exported_content("tool", Some(&long)).unwrap();
    assert!(out.ends_with("[TRUNCATED]"));
    assert_eq!(out.len(), 1000 + 15);
    assert_eq!(t.exported_content("user", Some(&long)).unwrap().len(), 1500);
    assert_eq!(t.exported_content("tool", Some("short")).unwrap(), "short");
    assert_eq!(t.exported_content("tool", None), None);
    // Outputs are cut by characters, so a multi-byte character is never split.
    let wide = "a".to_string() + &"é".repeat(1200);
    let cut = t.exported_content("tool", Some(&wide)).unwrap();
    assert_eq!(cut, "a".to_string() + &"é".repeat(999) + "... [TRUNCATED]");
    assert_eq!(t.exported_content("tool", Some(&"é".repeat(1000))).unwrap(), "é".repeat(1000));
    assert_eq!(t.session_id(None), Err("Missing 'session_id' parameter".to_string()));
    assert_eq!(t.success_message("/x.json"), "Successfully exported compressed trajectory to /x.json");
}

#[test]
fn intermediate_assistant_steps_are_left_out_of_exports() {
    let t = TrajectoryExportTool;
    assert!(!t.keeps_message("assistant", Some("assistant")));
    assert!(t.keeps_message("assistant", Some("tool")));
    assert!(t.keeps_message("assistant", None));
    assert!(t.keeps_message("user", Some("assistant")));
}

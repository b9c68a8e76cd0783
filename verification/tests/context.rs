use athena::context::{next_reserve, summary_text_from_reply, ContextEngine};
use athena::message::Message;

#[test]
fn test_context_engine_count_tokens() {
    let engine = ContextEngine::new(100);
    let tokens = engine.count_tokens("Hello world");
    assert!(tokens > 0);
}

#[test]
fn cl100k_counts_hello_world_as_two_tokens() {
    let engine = ContextEngine::new(100);
    assert_eq!(engine.count_tokens("Hello world"), 2);
    assert_eq!(engine.count_tokens(""), 0);
}

#[test]
fn test_context_engine_compress() {
    let engine = ContextEngine::new(20);
    let messages = vec![
        Message::System { content: "Sys".to_string() },
        // This long string will exceed 20 tokens easily
        Message::User { content: "This is a very long string that will definitely exceed twenty tokens because it has a lot of words and complex characters.".to_string(), name: None },
        Message::Assistant { content: Some("Short".to_string()), tool_calls: None, reasoning_content: None },
        Message::Tool { content: "Res".to_string(), tool_call_id: "call_1".to_string() },
    ];

    let compressed = engine.compress(&messages);

    // User messages are never compressed, Assistant/Tool messages are compressed first.
    // It should retain Sys, User, and then insert a mocked <summary>
    assert!(compressed.len() >= 3);

    // Assert User message is verbatim
    match &compressed[1] {
        Message::User { content, .. } => assert!(content.starts_with("This is a very long string")),
        _ => panic!("Expected User message"),
    }

    // Assert Assistant summary
    let has_summary = compressed.iter().any(|m| match m {
        Message::Assistant { content: Some(c), .. } => c.contains("<summary>"),
        _ => false,
    });
    assert!(has_summary, "Missing summary block");
}

#[test]
fn test_context_engine_compress_edge_cases() {
    let engine = ContextEngine::new(50);
    let messages = vec![
        Message::Assistant { content: None, tool_calls: Some(vec![]), reasoning_content: None },
        Message::Assistant { content: Some("Content".to_string()), tool_calls: None, reasoning_content: None },
    ];

    let compressed = engine.compress(&messages);

    // Ensure both fit and the empty assistant message doesn't crash token count
    assert_eq!(compressed.len(), 2);
}

#[test]
fn within_limit_conversation_is_unchanged() {
    let engine = ContextEngine::new(1000);
    let messages = vec![
        Message::System { content: "Sys".to_string() },
        Message::User { content: "Hi".to_string(), name: None },
        Message::Assistant { content: Some("Hello".to_string()), tool_calls: None, reasoning_content: None },
    ];
    let compressed = engine.compress(&messages);
    assert_eq!(compressed.len(), 3);
    match &compressed[2] {
        Message::Assistant { content: Some(c), .. } => assert_eq!(c, "Hello"),
        _ => panic!("expected the assistant turn"),
    }
}

#[test]
fn plan_folds_oldest_turns_and_keeps_order() {
    let engine = ContextEngine::new(20);
    let long = "word ".repeat(30);
    let messages = vec![
        Message::System { content: "Sys".to_string() },
        Message::Assistant { content: Some(long.clone()), tool_calls: None, reasoning_content: None },
        Message::User { content: "Question".to_string(), name: None },
        Message::Tool { content: "Res".to_string(), tool_call_id: "c1".to_string() },
    ];
    let plan = engine.plan(&messages, 0);
    // The long assistant turn is folded; after it the rest fits.
    assert_eq!(plan.to_summarize.len(), 1);
    assert_eq!(plan.retained.len(), 3);
    let prompt = plan.summary_prompt();
    assert!(prompt.starts_with("Please write a concise, one-paragraph summary"));
    assert!(prompt.ends_with(&format!("Assistant: {}\n", long)));
    let out = plan.finish("S");
    assert_eq!(out.len(), 4);
    match &out[2] {
        Message::Assistant { content: Some(c), .. } => assert_eq!(c, "<summary>S</summary>"),
        _ => panic!("summary expected before the first retained tool result"),
    }
    match &out[3] {
        Message::Tool { content, .. } => assert_eq!(content, "Res"),
        _ => panic!("tool result expected last"),
    }
}

#[test]
fn summary_goes_last_when_no_assistant_turn_remains() {
    let engine = ContextEngine::new(5);
    let messages = vec![
        Message::User { content: "Hi".to_string(), name: None },
        Message::Tool { content: "word ".repeat(20), tool_call_id: "c".to_string() },
    ];
    let out = engine.compress(&messages);
    assert_eq!(out.len(), 2);
    match &out[1] {
        Message::Assistant { content: Some(c), .. } => assert_eq!(c, "<summary>Summary generated (mocked)</summary>"),
        _ => panic!("summary expected at the end"),
    }
}

#[test]
fn summary_text_defaults_when_the_model_gives_none() {
    assert_eq!(summary_text_from_reply(None), "Summary generation failed");
    assert_eq!(summary_text_from_reply(Some("sum".to_string())), "sum");
}

#[test]
fn retained_messages_fit_when_system_and_user_messages_do() {
    let engine = ContextEngine::new(20);
    let messages = vec![
        Message::System { content: "Sys".to_string() },
        Message::Assistant { content: Some("word ".repeat(40)), tool_calls: None, reasoning_content: None },
        Message::User { content: "Question".to_string(), name: None },
        Message::Tool { content: "word ".repeat(40), tool_call_id: "c1".to_string() },
        Message::Assistant { content: Some("Done".to_string()), tool_calls: None, reasoning_content: None },
    ];
    let plan = engine.plan(&messages, 0);
    let kept: usize = plan.retained.iter().map(|m| engine.message_tokens(m)).sum();
    assert!(kept <= 20);
    // Only the oldest turns that had to go were folded.
    assert_eq!(plan.to_summarize.len(), 2);
    assert_eq!(plan.retained.len(), 3);
}

#[test]
fn compressed_conversation_fits_with_its_summary() {
    let engine = ContextEngine::new(30);
    let messages = vec![
        Message::System { content: "Sys".to_string() },
        Message::User { content: "Question".to_string(), name: None },
        Message::Assistant { content: Some("word ".repeat(20)), tool_calls: None, reasoning_content: None },
        Message::Tool { content: "word ".repeat(20), tool_call_id: "c1".to_string() },
    ];
    let summary = engine.summary_tokens("Summary generated (mocked)");
    assert!(summary > 0);
    let out = engine.compress(&messages);
    let total: usize = out.iter().map(|m| engine.message_tokens(m)).sum();
    assert!(total <= 30);
    assert!(out.iter().any(|m| matches!(m, Message::Assistant { content: Some(c), .. } if c == "<summary>Summary generated (mocked)</summary>")));
    // Counting the summary, folding the first turn alone is not enough here.
    let plan = engine.plan(&messages, summary);
    assert_eq!(plan.to_summarize.len(), 2);
    assert_eq!(engine.plan(&messages, 0).to_summarize.len(), 1);
}

#[test]
fn reserve_grows_until_the_summary_fits() {
    assert_eq!(next_reserve(0, 12, 1), Some(12));
    assert_eq!(next_reserve(12, 12, 1), None);
    assert_eq!(next_reserve(12, 5, 2), None);
    assert_eq!(next_reserve(0, 12, 3), None);
    assert_eq!(next_reserve(0, 12, 2), Some(12));
}

use athena::budget::IterationBudget;
use athena::conversation::{
    result_signals_error, system_content, tool_call_label, tool_name_for, tool_result_label,
    tool_result_preview, Conversation, ReplyOutcome, ResponseCollector,
};
use athena::message::{to_chat_messages, dialogue_of, AgentEvent, FunctionCall, Message, MessageRole, Skill, ToolCall};
use athena::stream::{usage_event, StreamAccumulator, ToolCallDelta};

fn skill(id: &str, name: &str) -> Skill {
    Skill {
        id: id.to_string(),
        name: name.to_string(),
        description: "Finds things".to_string(),
        instructions: "Look around".to_string(),
        usage_count: 0,
        success_count: 0,
        created_at: 1,
        updated_at: 1,
    }
}

fn call(id: &str, name: &str) -> ToolCall {
    ToolCall {
        id: id.to_string(),
        call_type: "function".to_string(),
        function: FunctionCall { name: name.to_string(), arguments: "{}".to_string() },
    }
}

#[test]
fn system_prompt_lists_relevant_skills() {
    let s = system_content(Some("Base"), &[skill("s1", "Find")]);
    assert_eq!(
        s,
        "Base\n\nRELEVANT SKILLS AVAILABLE:\nSkill: Find\nDescription: Finds things\nInstructions:\nLook around\n\n"
    );
    assert_eq!(system_content(None, &[]), "");
}

#[test]
fn test_run_conversation_no_system_message() {
    let mut c = Conversation::start("Hello", None, &[], IterationBudget::new(3));
    assert_eq!(c.messages().len(), 1);
    match &c.messages()[0] {
        Message::User { content, name } => {
            assert_eq!(content, "Hello");
            assert!(name.is_none());
        }
        _ => panic!("user message expected"),
    }
    assert!(c.begin_turn());
    match c.record_reply("Response without system".to_string(), vec![]) {
        ReplyOutcome::Final(t) => assert_eq!(t, "Response without system"),
        ReplyOutcome::RunTools(_) => panic!("no tools were asked for"),
    }
}

#[test]
fn test_run_conversation_mocked() {
    let mut c = Conversation::start("Say hello", Some("System prompt"), &[], IterationBudget::new(3));
    assert_eq!(c.messages().len(), 2);
    assert!(c.begin_turn());
    match c.record_reply("Hello from the mocked AI!".to_string(), vec![]) {
        ReplyOutcome::Final(t) => assert_eq!(t, "Hello from the mocked AI!"),
        ReplyOutcome::RunTools(_) => panic!("no tools were asked for"),
    }
    assert_eq!(c.api_call_count(), 1);
    assert_eq!(c.budget().remaining(), 2);
    match &c.messages()[2] {
        Message::Assistant { content, tool_calls, .. } => {
            assert_eq!(content.as_deref(), Some("Hello from the mocked AI!"));
            assert!(tool_calls.is_none());
        }
        _ => panic!("assistant message expected"),
    }
}

#[test]
fn test_run_conversation_empty_content() {
    let mut c = Conversation::start("Test", None, &[], IterationBudget::new(1));
    assert!(c.begin_turn());
    match c.record_reply(String::new(), vec![]) {
        ReplyOutcome::Final(t) => assert_eq!(t, ""),
        _ => panic!(),
    }
    match &c.messages()[1] {
        Message::Assistant { content, .. } => assert!(content.is_none()),
        _ => panic!(),
    }
}

#[test]
fn test_run_conversation_max_iterations() {
    let mut c = Conversation::start("Loop", None, &[skill("s1", "Find")], IterationBudget::new(2));
    let mut turns = 0;
    while c.begin_turn() {
        turns += 1;
        match c.record_reply("Looping".to_string(), vec![call("call_1", "run_command")]) {
            ReplyOutcome::RunTools(calls) => {
                assert_eq!(calls.len(), 1);
                assert_eq!(calls[0].id, "call_1");
                c.record_tool_result("call_1".to_string(), "ok".to_string());
            }
            ReplyOutcome::Final(_) => panic!("tools were asked for"),
        }
        assert_eq!(c.successful_skills(), vec!["s1".to_string()]);
    }
    assert_eq!(turns, 2);
    assert_eq!(c.api_call_count(), 2);
    assert!(!c.wants_synthesis());
    assert_eq!(Conversation::exhausted_error(), "Max iterations reached");
    // the skill's system prompt, the user, then (assistant, tool) twice
    assert_eq!(c.messages().len(), 6);
    // The run reports the exhaustion, so its answer is an error.
    let mut collector = ResponseCollector::new();
    assert!(!collector.observe(AgentEvent::TokenDelta("Looping".to_string())));
    assert!(collector.observe(c.exhausted_event()));
    assert_eq!(collector.result(), Err("Max iterations reached".to_string()));
}

#[test]
fn failing_tool_output_marks_the_turn() {
    let mut c = Conversation::start("Go", None, &[skill("s1", "Find")], IterationBudget::new(5));
    assert!(c.begin_turn());
    let _ = c.record_reply(String::new(), vec![call("a", "x"), call("b", "y")]);
    c.record_tool_result("a".to_string(), "fine".to_string());
    c.record_tool_result("b".to_string(), "Permission ERROR".to_string());
    assert!(c.successful_skills().is_empty());
    assert!(c.begin_turn());
    let _ = c.record_reply(String::new(), vec![call("c", "z")]);
    c.record_tool_result("c".to_string(), "fine".to_string());
    assert_eq!(c.successful_skills().len(), 1);
}

#[test]
fn synthesis_is_wanted_from_four_calls() {
    let mut c = Conversation::start("Go", None, &[], IterationBudget::new(10));
    for _ in 0..4 {
        assert!(c.begin_turn());
        let _ = c.record_reply(String::new(), vec![call("a", "x")]);
    }
    assert!(c.wants_synthesis());
}

#[test]
fn error_detection_ignores_case() {
    assert!(result_signals_error("Some ERROR happened"));
    assert!(result_signals_error("{\"error\": 1}"));
    assert!(!result_signals_error("all good"));
}

#[test]
fn labels_and_previews() {
    assert_eq!(tool_call_label("execute_code"), "🐳 [Sandbox]");
    assert_eq!(tool_call_label("read_file"), "🛠️ [Calling Tool]");
    assert_eq!(tool_result_label("run_command"), "🐳 [Sandbox Result]");
    assert_eq!(tool_result_label("read_file"), "✔ [Tool Result]");
    assert_eq!(tool_result_preview("  short  "), "short");
    let long = "a".repeat(200);
    let p = tool_result_preview(&long);
    assert_eq!(p, format!("{}...", "a".repeat(180)));
    assert_eq!(tool_name_for(&[call("x", "one"), call("y", "two")], "y"), "two");
    assert_eq!(tool_name_for(&[call("x", "one")], "z"), "unknown");
}

#[test]
fn response_collector_returns_the_last_final_response() {
    let mut r = ResponseCollector::new();
    assert!(!r.observe(AgentEvent::TokenDelta("Hel".to_string())));
    assert!(!r.observe(AgentEvent::FinalResponse("Hello".to_string())));
    assert_eq!(r.result(), Ok("Hello".to_string()));
    let mut e = ResponseCollector::new();
    assert!(e.observe(AgentEvent::Error("API Error: 401".to_string())));
    assert_eq!(e.result(), Err("API Error: 401".to_string()));
    assert_eq!(ResponseCollector::new().result(), Ok(String::new()));
}

#[test]
fn stream_gathers_text_and_tool_calls_by_index() {
    let mut acc = StreamAccumulator::new();
    acc.push_content("Hello ");
    acc.push_content("World");
    acc.push_tool_delta(ToolCallDelta {
        index: Some(1),
        id: Some("call_b".to_string()),
        name: Some("second".to_string()),
        arguments: Some("{".to_string()),
    });
    acc.push_tool_delta(ToolCallDelta {
        index: None,
        id: Some("call_a".to_string()),
        name: Some("first".to_string()),
        arguments: None,
    });
    acc.push_tool_delta(ToolCallDelta { index: Some(1), id: None, name: None, arguments: Some("}".to_string()) });
    let (text, calls) = acc.finish();
    assert_eq!(text, "Hello World");
    assert_eq!(calls.len(), 2);
    assert_eq!(calls[0].id, "call_a");
    assert_eq!(calls[0].function.name, "first");
    assert_eq!(calls[0].function.arguments, "");
    assert_eq!(calls[1].id, "call_b");
    assert_eq!(calls[1].function.arguments, "{}");
    assert_eq!(calls[1].call_type, "function");
}

#[test]
fn usage_is_reported_only_with_cache_activity() {
    assert!(usage_event(None, Some(0)).is_none());
    match usage_event(Some(5), None) {
        Some(AgentEvent::TokenUsage { cache_read, cache_creation }) => {
            assert_eq!(cache_read, 5);
            assert_eq!(cache_creation, 0);
        }
        _ => panic!("usage expected"),
    }
}

#[test]
fn wire_messages_mirror_the_conversation() {
    let messages = vec![
        Message::System { content: "S".to_string() },
        Message::User { content: "U".to_string(), name: Some("me".to_string()) },
        Message::Assistant {
            content: None,
            tool_calls: Some(vec![ToolCall { call_type: "other".to_string(), ..call("c", "n") }]),
            reasoning_content: None,
        },
        Message::Tool { content: "R".to_string(), tool_call_id: "c".to_string() },
    ];
    let wire = to_chat_messages(&messages);
    assert_eq!(wire.len(), 4);
    assert_eq!(wire[0].role, MessageRole::System);
    assert_eq!(wire[1].name.as_deref(), Some("me"));
    assert_eq!(wire[2].content, "");
    assert_eq!(wire[2].tool_calls.as_ref().unwrap()[0].call_type, "function");
    assert_eq!(wire[3].tool_call_id.as_deref(), Some("c"));
    let d = dialogue_of(&messages);
    assert_eq!(d.len(), 2);
    assert_eq!(d[0].role, MessageRole::User);
    assert!(d[0].name.is_none());
    assert_eq!(d[1].role, MessageRole::Assistant);
    assert!(d[1].tool_calls.is_none());
}

#[test]
fn a_cancelled_conversation_begins_no_more_turns() {
    let mut c = Conversation::start("Go", None, &[], IterationBudget::new(5));
    assert!(c.begin_turn());
    let _ = c.record_reply(String::new(), vec![call("a", "x")]);
    c.record_tool_result("a".to_string(), "ok".to_string());
    c.cancel();
    assert_eq!(c.budget().remaining(), 0);
    assert!(!c.begin_turn());
    assert_eq!(c.api_call_count(), 1);
    let mut collector = ResponseCollector::new();
    assert!(collector.observe(c.exhausted_event()));
    assert_eq!(collector.result(), Err("Max iterations reached".to_string()));
}

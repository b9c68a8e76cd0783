use athena::gateway::{
    cron_answer_error, cron_error_report, cron_job_list, entry_name, is_blank_line, log_content,
    log_role, normalize_schedule, notification_method, plugin_file_name, rpc_route, skill_file_name,
    skill_template, slack_event_action, wasm_skeleton, CronJob, RpcRoute, SlackAction,
    WhatsAppPayload, WhatsAppResponse,
};
use athena::message::{AgentEvent, Message};

#[test]
fn five_field_schedules_gain_seconds() {
    assert_eq!(normalize_schedule("0 * * * *"), "0 0 * * * *");
    assert_eq!(normalize_schedule("1/10 * * * * *"), "1/10 * * * * *");
    assert_eq!(normalize_schedule("invalid cron"), "invalid cron");
    assert_eq!(normalize_schedule(&normalize_schedule("*/5 * * * *")), "0 */5 * * * *");
}

#[test]
fn cron_jobs_are_listed() {
    assert!(cron_job_list(&[]).is_none());
    let jobs = vec![
        CronJob { schedule: "0 * * * *".to_string(), query: "check".to_string(), channel: Some(-100123), thread: Some(7) },
        CronJob { schedule: "5 * * * *".to_string(), query: "ping".to_string(), channel: None, thread: None },
    ];
    assert_eq!(
        cron_job_list(&jobs).unwrap(),
        "Active Jobs:\n  [0] '0 * * * *' -> check (Channel: -100123) (Thread: 7)\n  [1] '5 * * * *' -> ping"
    );
    assert_eq!(jobs[1].summary(), "5 * * * * -> ping");
}

#[test]
fn cron_answers_are_checked() {
    assert_eq!(cron_answer_error("", None), Some("Schedule cannot be empty."));
    assert_eq!(cron_answer_error("* * * * *", Some("")), Some("Query cannot be empty."));
    assert_eq!(cron_answer_error("* * * * *", Some("q")), None);
    let j = CronJob::from_answers("s".to_string(), "q".to_string(), Some("-100123456789"), Some("12x"));
    assert_eq!(j.channel, Some(-100123456789));
    assert_eq!(j.thread, None);
    let k = CronJob::from_answers("s".to_string(), "q".to_string(), Some("+5"), Some("2147483648"));
    assert_eq!(k.channel, Some(5));
    assert_eq!(k.thread, None);
    assert_eq!(cron_error_report("boom"), "Cron Job Error: boom");
}

#[test]
fn test_slack_url_verification() {
    let a = slack_event_action(Some("url_verification"), Some("test_challenge_string"), None, None, None, None);
    assert_eq!(a.reply(), "test_challenge_string");
}

#[test]
fn test_slack_event_callback_ignores_unknown() {
    let a = slack_event_action(Some("event_callback"), None, Some("unknown_event"), None, None, None);
    assert!(matches!(a, SlackAction::Acknowledge));
    assert_eq!(a.reply(), "OK");
}

#[test]
fn slack_mentions_are_dispatched() {
    match slack_event_action(Some("event_callback"), None, Some("app_mention"), Some("hi"), None, Some("1.2")) {
        SlackAction::Dispatch { text, channel, thread_ts } => {
            assert_eq!(text, "hi");
            assert_eq!(channel, "");
            assert_eq!(thread_ts.as_deref(), Some("1.2"));
        }
        _ => panic!("dispatch expected"),
    }
}

#[test]
fn test_whatsapp_empty_payload() {
    let p = WhatsAppPayload { message: None, audio_base64: None };
    let text = p.incoming_text(None);
    assert_eq!(text, "");
    let r = WhatsAppResponse::for_empty(&text).unwrap();
    assert_eq!(r.response, "No message content or audio could be parsed.");
    assert!(WhatsAppResponse::for_empty("hi").is_none());
    assert_eq!(p.incoming_text(Some("spoken".to_string())), "spoken");
    assert_eq!(WhatsAppResponse::processing_error().response, "Error processing message");
    assert!(p.audio_bytes().is_none());
    let q = WhatsAppPayload { message: None, audio_base64: Some("aGVsbG8=".to_string()) };
    assert_eq!(q.audio_bytes(), Some(b"hello".to_vec()));
    let bad = WhatsAppPayload { message: None, audio_base64: Some("***".to_string()) };
    assert!(bad.audio_bytes().is_none());
    let name = q.audio_file_name();
    assert!(name.starts_with("wa_audio_") && name.ends_with(".ogg") && name.len() == 9 + 36 + 4);
}

#[test]
fn rpc_methods_are_routed() {
    assert_eq!(rpc_route("agent/run"), RpcRoute::AgentRun);
    assert_eq!(rpc_route("config/set"), RpcRoute::ConfigSet);
    assert_eq!(rpc_route("nope"), RpcRoute::Unknown);
    assert!(is_blank_line("  \t "));
    assert!(!is_blank_line(" {} "));
    assert_eq!(notification_method(&AgentEvent::TokenDelta("x".into())), Some("agent.token"));
    assert_eq!(notification_method(&AgentEvent::TokenUsage { cache_read: 1, cache_creation: 0 }), None);
}

#[test]
fn dashboard_entries() {
    assert_eq!(entry_name("  my skill "), Some("my skill".to_string()));
    assert_eq!(entry_name("   "), None);
    assert_eq!(skill_file_name("s"), "s.rs");
    assert_eq!(plugin_file_name("p"), "p.wasm");
    assert!(skill_template("s").starts_with("// Skill: s\n"));
    assert_eq!(wasm_skeleton(), vec![0x00, 0x61, 0x73, 0x6d, 0x01, 0x00, 0x00, 0x00]);
}

#[test]
fn session_log_rows() {
    let m = Message::Assistant { content: None, tool_calls: None, reasoning_content: None };
    assert_eq!(log_role(&m), "assistant");
    assert_eq!(log_content(&m), None);
    assert_eq!(log_content(&Message::User { content: "u".into(), name: None }), Some("u".to_string()));
}

#[test]
fn settings_are_read_when_newer_or_without_a_scheduler() {
    assert_eq!(athena::gateway::reload_check(0, Some(5), true), (true, 5));
    assert_eq!(athena::gateway::reload_check(5, Some(5), true), (false, 5));
    assert_eq!(athena::gateway::reload_check(5, None, false), (true, 5));
    assert_eq!(athena::gateway::reload_check(9, Some(3), false), (true, 9));
    assert!(athena::gateway::restart_scheduler(true, true));
    assert!(athena::gateway::restart_scheduler(false, false));
    assert!(!athena::gateway::restart_scheduler(false, true));
}

#[test]
fn rpc_lines_are_answered_with_their_ids() {
    let answer = |line: &str| athena::gateway::rpc_answer(line);
    assert!(answer("   ").is_none());
    assert!(answer("not json").is_none());
    assert!(answer(r#"{"method":"agent/cancel","id":1}"#).is_none());
    assert!(answer(r#"{"jsonrpc":"2.0","method":"agent/cancel","id":"x"}"#).is_none());
    match answer(r#"{"jsonrpc":"2.0","method":"agent/run","params":{"prompt":"hi"},"id":7}"#) {
        Some((Some(7), athena::gateway::RpcOutcome::Run { prompt })) => assert_eq!(prompt, "hi"),
        _ => panic!("run expected"),
    }
    match answer(r#"{"jsonrpc":"2.0","method":"agent/run","id":null}"#) {
        Some((None, athena::gateway::RpcOutcome::Run { prompt })) => assert_eq!(prompt, ""),
        _ => panic!("run expected"),
    }
    assert!(matches!(answer(r#"{"jsonrpc":"2.0","method":"agent/cancel","id":3}"#), Some((Some(3), athena::gateway::RpcOutcome::Cancel))));
    assert!(matches!(answer(r#"{"jsonrpc":"2.0","method":"config/get"}"#), Some((None, athena::gateway::RpcOutcome::Config))));
    assert!(matches!(answer(r#"{"jsonrpc":"2.0","method":"nope","id":9}"#), Some((Some(9), athena::gateway::RpcOutcome::MethodNotFound))));
    assert!(matches!(athena::gateway::run_outcome(&Ok("x".to_string())), athena::gateway::RpcOutcome::Started));
    match athena::gateway::run_outcome(&Err("Max iterations reached".to_string())) {
        athena::gateway::RpcOutcome::RunFailed(e) => assert_eq!(e, "Max iterations reached"),
        _ => panic!("failure expected"),
    }
}

#[test]
fn slack_confirmations_go_to_the_payload_channel() {
    let p = |s: &str| athena::gateway::SlackInteractivePayload { payload: s.to_string() };
    assert_eq!(
        athena::gateway::slack_interactive_target(&p(r#"{"channel":{"id":"C1"},"message":{"ts":"1.5"}}"#)),
        Some(("C1".to_string(), Some("1.5".to_string())))
    );
    assert_eq!(athena::gateway::slack_interactive_target(&p(r#"{"channel":{"id":"C1"}}"#)), Some(("C1".to_string(), None)));
    assert_eq!(athena::gateway::slack_interactive_target(&p(r#"{"message":{"ts":"1"}}"#)), None);
    assert_eq!(athena::gateway::slack_interactive_target(&p("{")), None);
}

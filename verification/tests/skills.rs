use athena::message::{ChatMessage, FunctionCall, MessageRole, Skill, ToolCall};
use athena::skills::{
    clean_reply, parse_draft, AgentSkillIoFormat, AgentSkillsHub, MemoryNudge, SkillDraft,
    SkillImprover, SkillSynthesizer, SynthesisError, MEMORY_REQUEST, SYNTHESIS_REQUEST,
};

fn chat(role: MessageRole, content: &str) -> ChatMessage {
    ChatMessage { role, content: content.to_string(), name: None, tool_calls: None, tool_call_id: None }
}

fn skill() -> Skill {
    Skill {
        id: "id-1".to_string(),
        name: "Old".to_string(),
        description: "Old desc".to_string(),
        instructions: "Old body".to_string(),
        usage_count: 7,
        success_count: 1,
        created_at: 100,
        updated_at: 200,
    }
}

#[test]
fn fences_are_removed_from_replies() {
    assert_eq!(clean_reply("```json\n{\"a\":1}\n```"), "{\"a\":1}");
    assert_eq!(clean_reply("  plain  "), "plain");
    assert_eq!(clean_reply("```{}```"), "{}");
}

#[test]
fn drafts_are_read_from_json() {
    match parse_draft("```json\n{\"name\": \"Find Port\", \"description\": \"Finds it\", \"body\": \"Use lsof\"}\n```") {
        Ok(d) => {
            assert_eq!(d.name, "Find Port");
            assert_eq!(d.description, "Finds it");
            assert_eq!(d.body, "Use lsof");
        }
        Err(_) => panic!("valid draft"),
    }
    assert!(matches!(parse_draft("not json"), Err(SynthesisError::InvalidJson(raw)) if raw == "not json"));
    assert!(matches!(parse_draft("{\"description\": \"d\"}"), Err(SynthesisError::MissingName)));
    assert!(matches!(parse_draft("{\"name\": \"n\"}"), Err(SynthesisError::MissingDescription)));
    assert!(matches!(parse_draft("{\"name\": \"n\", \"description\": \"d\", \"body\": 3}"), Err(SynthesisError::MissingBody)));
    assert!(matches!(SkillSynthesizer::parse_reply(None), Err(SynthesisError::NoContent)));
    assert_eq!(SynthesisError::MissingBody.message(), "Missing body");
    assert_eq!(
        SynthesisError::InvalidJson("x".to_string()).message(),
        "Failed to parse JSON from synthesis response. Raw: x"
    );
}

#[test]
fn synthesis_prompt_lists_the_conversation() {
    let mut assistant = chat(MessageRole::Assistant, "");
    assistant.tool_calls = Some(vec![ToolCall {
        id: "c".to_string(),
        call_type: "function".to_string(),
        function: FunctionCall { name: "ls".to_string(), arguments: "{}".to_string() },
    }]);
    let mut tool = chat(MessageRole::Tool, "files");
    tool.name = Some("ls".to_string());
    let history = vec![chat(MessageRole::System, "sys"), chat(MessageRole::User, "list"), assistant, tool];
    let p = SkillSynthesizer::prompt(&history);
    assert_eq!(
        p,
        format!("{}\nUSER: list\nASSISTANT CALLED TOOL: ls with {{}}\n\nTOOL RESULT (ls): files\n", SYNTHESIS_REQUEST)
    );
}

#[test]
fn quality_gate_accepts_yes_in_any_case() {
    assert!(SkillSynthesizer::gate_passed("Yes."));
    assert!(!SkillSynthesizer::gate_passed("No"));
    let d = SkillDraft { name: "N".to_string(), description: "D".to_string(), body: "B".to_string() };
    assert!(SkillSynthesizer::gate_prompt(&d).ends_with("Skill Name: N\nDescription: D\nBody: B"));
    let s = SkillSynthesizer::new_skill(d, 42);
    assert_eq!(s.id.len(), 36);
    assert_eq!(s.usage_count, 0);
    assert_eq!(s.created_at, 42);
    assert_eq!(s.updated_at, 42);
    assert_eq!(s.instructions, "B");
}

#[test]
fn memory_prompt_reads_the_last_ten_messages() {
    let mut history = Vec::new();
    for i in 0..12 {
        history.push(chat(MessageRole::User, &format!("u{}", i)));
    }
    history.push(chat(MessageRole::Assistant, ""));
    let p = MemoryNudge::prompt(&history);
    assert!(p.starts_with(MEMORY_REQUEST));
    assert!(!p.contains("USER: u2\n"));
    assert!(p.contains("USER: u3\n"));
    assert!(p.ends_with("USER: u11\n"));
    assert!(!p.contains("ASSISTANT"));
}

#[test]
fn test_memory_nudge() {
    assert_eq!(
        MemoryNudge::facts(Some("  - User prefers dark mode\n- User lives in Seattle\n")),
        Some("- User prefers dark mode\n- User lives in Seattle".to_string())
    );
    assert_eq!(MemoryNudge::facts(Some("NO_FACTS")), None);
    assert_eq!(MemoryNudge::facts(Some("   ")), None);
    assert_eq!(MemoryNudge::facts(None), None);
    assert_eq!(MemoryNudge::memory_entry("a", "2025-01-02"), "- [2025-01-02] a\n");
    let facts = MemoryNudge::facts(Some("- User prefers dark mode\n- User lives in Seattle")).unwrap();
    assert_eq!(
        MemoryNudge::fact_list(&facts),
        vec!["User prefers dark mode".to_string(), "User lives in Seattle".to_string()]
    );
    let (memory, user) = MemoryNudge::memory_appends(&facts, "2025-01-02");
    assert_eq!(memory, "- [2025-01-02] User prefers dark mode\n- [2025-01-02] User lives in Seattle\n");
    assert_eq!(user, "");
}

#[test]
fn improvement_resets_the_counters() {
    let s = skill();
    assert!(SkillImprover::has_enough_uses(&s));
    let p = SkillImprover::prompt("14", &s);
    assert!(p.starts_with("The following skill has a low success rate (14% across 7 uses)."));
    assert!(p.contains("Name: Old\nDescription: Old desc\nBody: Old body\n\n"));
    let d = SkillImprover::parse_reply("{\"name\": \"New\", \"description\": \"Nd\", \"body\": \"Nb\"}").unwrap();
    let n = SkillImprover::improved(s, d, 300);
    assert_eq!(n.id, "id-1");
    assert_eq!(n.created_at, 100);
    assert_eq!(n.updated_at, 300);
    assert_eq!(n.usage_count, 0);
    assert_eq!(n.success_count, 0);
    assert_eq!(n.name, "New");
    assert!(SkillImprover::parse_reply("{}").is_none());
}

#[test]
fn skills_round_trip_through_the_exchange_format() {
    let out = AgentSkillsHub::export_format(&[skill()]);
    assert_eq!(out.len(), 1);
    assert_eq!(out[0].name, "Old");
    let item = AgentSkillIoFormat { name: "A".to_string(), description: "B".to_string(), instructions: "C".to_string() };
    let s = AgentSkillsHub::imported_skill(item, 9);
    assert_eq!(s.id.len(), 36);
    assert_eq!((s.usage_count, s.success_count, s.created_at, s.updated_at), (0, 0, 9, 9));
    let mut second = skill();
    second.name = "Other".to_string();
    let originals = vec![skill(), second];
    let back = AgentSkillsHub::imported_skills(AgentSkillsHub::export_format(&originals), 4);
    assert_eq!(back.len(), 2);
    for (b, o) in back.iter().zip(originals.iter()) {
        assert_eq!((&b.name, &b.description, &b.instructions), (&o.name, &o.description, &o.instructions));
        assert_eq!((b.usage_count, b.success_count, b.created_at), (0, 0, 4));
        assert_eq!(b.id.len(), 36);
    }
    assert!(!SkillSynthesizer::gate_passed(""));
}

#[test]
fn facts_about_the_user_also_go_to_the_user_file() {
    assert!(MemoryNudge::is_about_user("The user likes tea"));
    assert!(MemoryNudge::is_about_user("I work nights"));
    assert!(MemoryNudge::is_about_user("Deploys use MY key"));
    assert!(!MemoryNudge::is_about_user("Idle servers sleep"));
    assert!(!MemoryNudge::is_about_user("Project uses Rust"));
    assert_eq!(MemoryNudge::fact_text("  -  spaced out  "), "spaced out");
    assert_eq!(MemoryNudge::fact_list("- a\n\n  - \n-b\r\nplain"), vec!["a".to_string(), "b".to_string(), "plain".to_string()]);
    assert!(MemoryNudge::fact_list("").is_empty());
    let (memory, user) = MemoryNudge::memory_appends("- I like tea\n- Builds run at night", "2024-12-31");
    assert_eq!(memory, "- [2024-12-31] I like tea\n- [2024-12-31] Builds run at night\n");
    assert_eq!(user, "- [2024-12-31] I like tea\n");
}

use athena::prompts::{build_system_prompt, combine_agents_md, CLI_BASE_PROMPT};
use athena::tools::{code_request, CodeLanguage, CODE_TOOLSET, CODE_TOOL_NAME};

#[test]
fn system_prompt_places_context_round_the_base() {
    assert_eq!(build_system_prompt(None, None, None), CLI_BASE_PROMPT);
    assert_eq!(
        build_system_prompt(Some("A"), Some("U"), Some("M")),
        format!("A\n\n{}\n\n--- USER CONTEXT ---\nU\n\n--- MEMORY ---\nM", CLI_BASE_PROMPT)
    );
}

#[test]
fn agents_md_combines_workspace_and_global() {
    assert_eq!(combine_agents_md(None, None), None);
    assert_eq!(
        combine_agents_md(Some(("/w/AGENTS.md", "local")), Some(("/h/AGENTS.md", "global"))),
        Some("--- AGENTS.md (Workspace: /w/AGENTS.md) ---\nlocal\n\n--- AGENTS.md (Global: /h/AGENTS.md) ---\nglobal".to_string())
    );
}

#[test]
fn test_code_execution_tool() {
    assert_eq!(CODE_TOOL_NAME, "execute_code");
    assert_eq!(CODE_TOOLSET, "code_execution");
    assert_eq!(code_request(None, None, None).err(), Some("Missing or invalid 'language' argument"));
    assert_eq!(code_request(Some("python"), None, None).err(), Some("Missing or invalid 'code' argument"));
    assert_eq!(code_request(Some("ruby"), Some("x"), None).err(), Some("Unsupported language"));
    let r = code_request(Some("node"), Some("1+1"), None).ok().unwrap();
    assert_eq!(r.language, CodeLanguage::Node);
    assert_eq!(r.timeout_seconds, 30);
    let p = r.language.sandbox_path();
    assert!(p.starts_with("/tmp/code_") && p.ends_with(".js"));
    assert_eq!(p.len(), "/tmp/code_".len() + 36 + 3);
    assert_eq!(CodeLanguage::Python.sandbox_command("/tmp/code_u.py"), "python3 /tmp/code_u.py");
    let f = CodeLanguage::Python.local_file_name();
    assert!(f.starts_with("athena_code_eval_") && f.ends_with(".py"));
}

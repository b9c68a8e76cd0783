use vstd::prelude::*;
use crate::text::{trim, trim_spec};

verus! {

/// The standing instructions of the interactive terminal agent.
pub const CLI_BASE_PROMPT: &'static str = "You are Athena, a powerful AI assistant running locally on the user's system via an interactive terminal. You have full access to execute terminal commands, read files, and automate tasks through your tools. Do not decline requests to run commands on the user's system. Use your provided tools to accomplish the user's goals.\nIMPORTANT: You have an internal cron engine that runs jobs automatically. You can configure this by editing ~/.athena/config.yaml under the `cron_jobs` block. Cron jobs execute your conversations internally. You can configure them to report back to Telegram by setting the `channel` (integer) and `thread` (integer) fields on the cron job.\nYou can also manage skills (in ~/.athena/skills) and plugins (in ~/.athena/plugins) and MCP endpoints.\nYou have hot-reloading enabled, meaning if you edit config.yaml to add a cron job, the gateway will detect it within 30 seconds and start running it automatically.";

/// The system prompt of conversations that arrive through a chat gateway.
pub const GATEWAY_SYSTEM_PROMPT: &'static str = "You are Athena, a powerful AI assistant running locally on the user's system via a channel gateway. You have full access to execute terminal commands, read files, and automate tasks through your tools. Do not decline requests to run commands on the user's system. Use your provided tools to accomplish the user's goals. IMPORTANT: You have an internal cron engine that runs jobs automatically. You can configure this by editing ~/.athena/config.yaml under the `cron_jobs` block. Cron jobs execute your conversations internally. You can configure them to report back to Telegram/Slack/Whatsapp/Discord by setting the `channel` (integer) and `thread` (integer) fields on the cron job. You can also manage skills (in ~/.athena/skills) and plugins (in ~/.athena/plugins) and MCP endpoints. You have hot-reloading enabled, meaning if you edit config.yaml to add a cron job, the gateway will detect it within 30 seconds and start running it automatically.";

/// The system prompt of conversations that a cron job starts.
pub const CRON_SYSTEM_PROMPT: &'static str = "You are Athena, a powerful AI assistant running locally on the user's system via an internal cron job. You have full access to execute terminal commands, read files, and automate tasks through your tools. You can also modify your own internal cron jobs located in ~/.athena/config.yaml. Use your provided tools to accomplish the user's goals.";

/// The system prompt of conversations started from the dashboard.
pub const DASHBOARD_SYSTEM_PROMPT: &'static str = "You are a helpful dashboard assistant.";

/// The system prompt of conversations started from the terminal UI.
pub const TUI_SYSTEM_PROMPT: &'static str = "You are Athena TUI.";

/// The terminal agent's system prompt: the AGENTS.md text (if any), the
/// standing instructions, then the user context and the memory (if any).
pub open spec fn system_prompt_spec(
    agents_md: Option<Seq<char>>,
    user_md: Option<Seq<char>>,
    memory_md: Option<Seq<char>>,
) -> Seq<char> {
    (match agents_md {
        Some(a) => a + "\n\n"@,
        None => Seq::<char>::empty(),
    }) + CLI_BASE_PROMPT@ + (match user_md {
        Some(u) => "\n\n--- USER CONTEXT ---\n"@ + u,
        None => Seq::<char>::empty(),
    }) + (match memory_md {
        Some(m) => "\n\n--- MEMORY ---\n"@ + m,
        None => Seq::<char>::empty(),
    })
}

/// `o` as its characters, if there is one.
pub open spec fn opt_view(o: Option<&str>) -> Option<Seq<char>> {
    match o {
        Some(s) => Some(s@),
        None => None,
    }
}

/// Each context file shows up on its own, whatever the others are: without
/// any file the prompt is the standing instructions; an AGENTS.md text comes
/// first, followed by a blank line; a USER.md text adds its section after
/// the instructions; a MEMORY.md text adds its section at the very end.
pub proof fn lemma_sections_are_independent(agents_md: Option<Seq<char>>, user_md: Option<Seq<char>>, m: Seq<char>, u: Seq<char>, a: Seq<char>)
    ensures
        system_prompt_spec(None, None, None) == CLI_BASE_PROMPT@,
        system_prompt_spec(Some(a), None, None) == a + "\n\n"@ + CLI_BASE_PROMPT@,
        system_prompt_spec(agents_md, Some(u), None)
            == system_prompt_spec(agents_md, None, None) + "\n\n--- USER CONTEXT ---\n"@ + u,
        system_prompt_spec(agents_md, user_md, Some(m))
            == system_prompt_spec(agents_md, user_md, None) + "\n\n--- MEMORY ---\n"@ + m,
{
    assert(system_prompt_spec(None, None, None) =~= CLI_BASE_PROMPT@);
    assert(system_prompt_spec(Some(a), None, None) =~= a + "\n\n"@ + CLI_BASE_PROMPT@);
    assert(system_prompt_spec(agents_md, Some(u), None)
        =~= system_prompt_spec(agents_md, None, None) + "\n\n--- USER CONTEXT ---\n"@ + u);
    assert(system_prompt_spec(agents_md, user_md, Some(m))
        =~= system_prompt_spec(agents_md, user_md, None) + "\n\n--- MEMORY ---\n"@ + m);
}

/// Builds the terminal agent's system prompt from the texts of AGENTS.md,
/// USER.md and MEMORY.md, each where it was found.
pub fn build_system_prompt(agents_md: Option<&str>, user_md: Option<&str>, memory_md: Option<&str>) -> (p: String)
    ensures
        p@ == system_prompt_spec(opt_view(agents_md), opt_view(user_md), opt_view(memory_md)),
{
    let mut p = String::new();
    match agents_md {
        Some(a) => {
            p.append(a);
            p.append("\n\n");
        },
        None => {},
    }
    p.append(CLI_BASE_PROMPT);
    match user_md {
        Some(u) => {
            p.append("\n\n--- USER CONTEXT ---\n");
            p.append(u);
        },
        None => {},
    }
    match memory_md {
        Some(m) => {
            p.append("\n\n--- MEMORY ---\n");
            p.append(m);
        },
        None => {},
    }
    p
}

/// The block for one AGENTS.md file found at `path`; `scope` says whether
/// it belongs to the workspace or is global.
pub open spec fn agents_block(scope: Seq<char>, path: Seq<char>, content: Seq<char>) -> Seq<char> {
    "--- AGENTS.md ("@ + scope + ": "@ + path + ") ---\n"@ + content + "\n\n"@
}

/// The AGENTS.md context: the workspace file nearest the working directory,
/// then the global one, each with its heading; `None` when neither exists.
pub open spec fn agents_md_spec(workspace: Option<(Seq<char>, Seq<char>)>, global: Option<(Seq<char>, Seq<char>)>) -> Option<Seq<char>> {
    if workspace is None && global is None {
        None
    } else {
        Some(trim_spec((match workspace {
            Some((p, c)) => agents_block("Workspace"@, p, c),
            None => Seq::<char>::empty(),
        }) + (match global {
            Some((p, c)) => agents_block("Global"@, p, c),
            None => Seq::<char>::empty(),
        })))
    }
}

/// `o` as characters, if there is one.
pub open spec fn opt_pair_view(o: Option<(&str, &str)>) -> Option<(Seq<char>, Seq<char>)> {
    match o {
        Some((a, b)) => Some((a@, b@)),
        None => None,
    }
}

/// Combines the workspace and the global AGENTS.md, each given as the path
/// it was read from and its text.
pub fn combine_agents_md(workspace: Option<(&str, &str)>, global: Option<(&str, &str)>) -> (r: Option<String>)
    ensures
        r.deep_view() == agents_md_spec(opt_pair_view(workspace), opt_pair_view(global)),
{
    if workspace.is_none() && global.is_none() {
        return None;
    }
    let mut s = String::new();
    match workspace {
        Some((path, content)) => {
            s.append("--- AGENTS.md (");
            s.append("Workspace");
            s.append(": ");
            s.append(path);
            s.append(") ---\n");
            s.append(content);
            s.append("\n\n");
        },
        None => {},
    }
    match global {
        Some((path, content)) => {
            s.append("--- AGENTS.md (");
            s.append("Global");
            s.append(": ");
            s.append(path);
            s.append(") ---\n");
            s.append(content);
            s.append("\n\n");
        },
        None => {},
    }
    let ghost ws = match opt_pair_view(workspace) {
        Some((p, c)) => agents_block("Workspace"@, p, c),
        None => Seq::<char>::empty(),
    };
    let ghost gs = match opt_pair_view(global) {
        Some((p, c)) => agents_block("Global"@, p, c),
        None => Seq::<char>::empty(),
    };
    assert(s@ =~= ws + gs);
    let r = String::from_str(trim(s.as_str()));
    assert(r@ == trim_spec(ws + gs));
    Some(r)
}

} // verus!

use vstd::prelude::*;
use crate::ids::{fresh_id, is_uuid_text};
use crate::message::{ChatMessage, ChatMessageView, MessageRole, Skill, ToolCallView};
use crate::text::{
    contains, lowercase, seq_contains, strip_prefixes, strip_suffixes, to_lowercase, trim,
    trim_end_matches, trim_spec, trim_start_matches,
};

verus! {

/// What a JSON text gives for `text[key].as_str()`: `None` where the text is
/// not JSON, `Some(None)` where the key is missing or holds no string.
pub uninterp spec fn json_string_field(text: Seq<char>, key: Seq<char>) -> Option<Option<Seq<char>>>;

/// Parses `text` with `serde_json::from_str::<serde_json::Value>` and reads
/// `value[key].as_str()`; indexing a value that is no object, or lacks the
/// key, gives JSON null, so nothing here panics. The contract names the
/// result and says nothing more of it.
#[verifier::external_body]
fn json_str_field(text: &str, key: &str) -> (r: Option<Option<String>>)
    ensures
        r.deep_view() == json_string_field(text@, key@),
{
    match serde_json::from_str::<serde_json::Value>(text) {
        Ok(v) => match v[key].as_str() {
            Some(s) => Some(Some(s.to_string())),
            None => Some(None),
        },
        Err(_) => None,
    }
}

/// The fields of a skill as a model writes them.
pub struct SkillDraft {
    pub name: String,
    pub description: String,
    pub body: String,
}

/// Why a model's skill proposal was not accepted.
pub enum SynthesisError {
    /// The model's answer had no choice.
    NoContent,
    /// The answer, with its code fences removed, is no JSON; the raw answer is kept.
    InvalidJson(String),
    MissingName,
    MissingDescription,
    MissingBody,
}

/// A model's answer without the markdown code fences that models often put
/// round JSON, and without white space at either end.
pub open spec fn clean_reply_spec(content: Seq<char>) -> Seq<char> {
    trim_spec(strip_suffixes(strip_prefixes(strip_prefixes(content, "```json"@), "```"@), "```"@))
}

/// A model's answer without code fences and surrounding white space.
pub fn clean_reply(content: &str) -> (r: &str)
    ensures
        r@ == clean_reply_spec(content@),
{
    let a = trim_start_matches(content, "```json");
    let b = trim_start_matches(a, "```");
    let c = trim_end_matches(b, "```");
    trim(c)
}

/// What a skill proposal gives: its three fields, or the first thing missing.
pub open spec fn parse_draft_spec(content: Seq<char>) -> Result<(Seq<char>, Seq<char>, Seq<char>), SynthesisError> {
    let clean = clean_reply_spec(content);
    match json_string_field(clean, "name"@) {
        None => Err(SynthesisError::InvalidJson(arbitrary())),
        Some(None) => Err(SynthesisError::MissingName),
        Some(Some(n)) => match json_string_field(clean, "description"@) {
            Some(Some(d)) => match json_string_field(clean, "body"@) {
                Some(Some(b)) => Ok((n, d, b)),
                _ => Err(SynthesisError::MissingBody),
            },
            _ => Err(SynthesisError::MissingDescription),
        },
    }
}

/// Reads the name, description and body that a model proposed for a skill.
pub fn parse_draft(content: &str) -> (r: Result<SkillDraft, SynthesisError>)
    ensures
        match parse_draft_spec(content@) {
            Ok((n, d, b)) => r matches Ok(x) && x.name@ == n && x.description@ == d && x.body@ == b,
            Err(SynthesisError::InvalidJson(_)) => r matches Err(SynthesisError::InvalidJson(raw)) && raw@ == content@,
            Err(SynthesisError::MissingName) => r matches Err(SynthesisError::MissingName),
            Err(SynthesisError::MissingDescription) => r matches Err(SynthesisError::MissingDescription),
            Err(SynthesisError::MissingBody) => r matches Err(SynthesisError::MissingBody),
            Err(SynthesisError::NoContent) => false,
        },
{
    let clean = clean_reply(content);
    let name = match json_str_field(clean, "name") {
        None => return Err(SynthesisError::InvalidJson(String::from_str(content))),
        Some(None) => return Err(SynthesisError::MissingName),
        Some(Some(n)) => n,
    };
    let description = match json_str_field(clean, "description") {
        Some(Some(d)) => d,
        _ => return Err(SynthesisError::MissingDescription),
    };
    let body = match json_str_field(clean, "body") {
        Some(Some(b)) => b,
        _ => return Err(SynthesisError::MissingBody),
    };
    Ok(SkillDraft { name, description, body })
}

impl SynthesisError {
    /// The message that reports the error.
    pub fn message(&self) -> (m: String)
        ensures
            self is NoContent ==> m@ == "No content in LLM response"@,
            self matches SynthesisError::InvalidJson(raw) ==> m@
                == "Failed to parse JSON from synthesis response. Raw: "@ + raw@,
            self is MissingName ==> m@ == "Missing name"@,
            self is MissingDescription ==> m@ == "Missing description"@,
            self is MissingBody ==> m@ == "Missing body"@,
    {
        match self {
            SynthesisError::NoContent => String::from_str("No content in LLM response"),
            SynthesisError::InvalidJson(raw) => {
                let mut m = String::from_str("Failed to parse JSON from synthesis response. Raw: ");
                m.append(raw.as_str());
                m
            },
            SynthesisError::MissingName => String::from_str("Missing name"),
            SynthesisError::MissingDescription => String::from_str("Missing description"),
            SynthesisError::MissingBody => String::from_str("Missing body"),
        }
    }
}

/// The lines of the synthesis request that stand for one message.
pub open spec fn synthesis_lines(m: ChatMessageView) -> Seq<char> {
    match m.role {
        MessageRole::User => "\nUSER: "@ + m.content + "\n"@,
        MessageRole::Assistant => (if m.content.len() > 0 {
            "\nASSISTANT: "@ + m.content + "\n"@
        } else {
            Seq::<char>::empty()
        }) + match m.tool_calls {
            Some(cs) => tool_call_lines(cs),
            None => Seq::<char>::empty(),
        },
        MessageRole::Tool => "\nTOOL RESULT ("@ + match m.name {
            Some(n) => n,
            None => Seq::<char>::empty(),
        } + "): "@ + m.content + "\n"@,
        MessageRole::System => Seq::<char>::empty(),
    }
}

/// One line for each tool call of an assistant turn.
pub open spec fn tool_call_lines(cs: Seq<ToolCallView>) -> Seq<char>
    decreases cs.len(),
{
    if cs.len() == 0 {
        Seq::<char>::empty()
    } else {
        tool_call_lines(cs.drop_last()) + "ASSISTANT CALLED TOOL: "@ + cs.last().name + " with "@
            + cs.last().arguments + "\n"@
    }
}

/// The synthesis request for a conversation.
pub open spec fn synthesis_prompt_spec(h: Seq<ChatMessageView>) -> Seq<char>
    decreases h.len(),
{
    if h.len() == 0 {
        SYNTHESIS_REQUEST@
    } else {
        synthesis_prompt_spec(h.drop_last()) + synthesis_lines(h.last())
    }
}

/// The opening of the request that turns a conversation into a skill.
pub const SYNTHESIS_REQUEST: &'static str = "You are an AI tasked with synthesizing a reusable skill from a successful conversation.\nReview the following conversation history where an agent successfully completed a task.\nIdentify the core pattern, tools used, and steps taken.\nDistill this into a generic, reusable skill.\n\nYour output MUST be a JSON object with exactly these fields:\n{\n  \"name\": \"A short, descriptive name (e.g. Find Process Port)\",\n  \"description\": \"A 1-2 sentence description of what the skill does\",\n  \"body\": \"The detailed markdown instructions for how to execute the skill\"\n}\n\nCONVERSATION HISTORY:\n";

/// The request that asks whether a skill is worth keeping.
pub open spec fn gate_prompt_spec(name: Seq<char>, description: Seq<char>, body: Seq<char>) -> Seq<char> {
    "Review the following skill and answer ONLY 'yes' or 'no'.\nIs this skill generic, reusable, and generally applicable for an AI agent?\nSkill Name: "@
        + name + "\nDescription: "@ + description + "\nBody: "@ + body
}

/// Turns successful conversations into reusable skills.
pub struct SkillSynthesizer;

impl SkillSynthesizer {
    /// The request that asks the model to distil a conversation into a skill.
    pub fn prompt(history: &[ChatMessage]) -> (p: String)
        ensures
            p@ == synthesis_prompt_spec(history.deep_view()),
    {
        let ghost h = history.deep_view();
        let mut p = String::from_str(SYNTHESIS_REQUEST);
        for i in 0..history.len()
            invariant
                h == history.deep_view(),
                p@ == synthesis_prompt_spec(h.take(i as int)),
        {
            proof {
                assert(h.take(i + 1).drop_last() =~= h.take(i as int));
                assert(h[i as int] == history@[i as int].deep_view());
            }
            let m = &history[i];
            match m.role {
                MessageRole::User => {
                    p.append("\nUSER: ");
                    p.append(m.content.as_str());
                    p.append("\n");
                },
                MessageRole::Assistant => {
                    if !m.content.as_str().is_empty() {
                        p.append("\nASSISTANT: ");
                        p.append(m.content.as_str());
                        p.append("\n");
                    }
                    match &m.tool_calls {
                        Some(cs) => {
                            let ghost base = p@;
                            let ghost cv = cs.deep_view();
                            for k in 0..cs.len()
                                invariant
                                    cv == cs.deep_view(),
                                    p@ == base + tool_call_lines(cv.take(k as int)),
                            {
                                proof {
                                    assert(cv.take(k + 1).drop_last() =~= cv.take(k as int));
                                    assert(cv[k as int] == cs@[k as int].deep_view());
                                }
                                p.append("ASSISTANT CALLED TOOL: ");
                                p.append(cs[k].function.name.as_str());
                                p.append(" with ");
                                p.append(cs[k].function.arguments.as_str());
                                p.append("\n");
                                proof {
                                    assert(p@ =~= base + tool_call_lines(cv.take(k + 1)));
                                }
                            }
                            proof {
                                assert(cv.take(cv.len() as int) =~= cv);
                            }
                        },
                        None => {},
                    }
                },
                MessageRole::Tool => {
                    p.append("\nTOOL RESULT (");
                    match &m.name {
                        Some(n) => p.append(n.as_str()),
                        None => {},
                    }
                    p.append("): ");
                    p.append(m.content.as_str());
                    p.append("\n");
                },
                MessageRole::System => {},
            }
            proof {
                assert(p@ =~= synthesis_prompt_spec(h.take(i + 1)));
            }
        }
        proof {
            assert(h.take(h.len() as int) =~= h);
        }
        p
    }

    /// Reads the skill that the model proposed.
    pub fn parse_reply(first_choice_content: Option<&str>) -> (r: Result<SkillDraft, SynthesisError>)
        ensures
            first_choice_content is None ==> r matches Err(SynthesisError::NoContent),
            first_choice_content matches Some(c) ==> match parse_draft_spec(c@) {
                Ok((n, d, b)) => r matches Ok(x) && x.name@ == n && x.description@ == d && x.body@ == b,
                Err(SynthesisError::InvalidJson(_)) => r matches Err(SynthesisError::InvalidJson(raw)) && raw@ == c@,
                Err(SynthesisError::MissingName) => r matches Err(SynthesisError::MissingName),
                Err(SynthesisError::MissingDescription) => r matches Err(SynthesisError::MissingDescription),
                Err(SynthesisError::MissingBody) => r matches Err(SynthesisError::MissingBody),
                Err(SynthesisError::NoContent) => false,
            },
    {
        match first_choice_content {
            None => Err(SynthesisError::NoContent),
            Some(c) => parse_draft(c),
        }
    }

    /// The request that asks the model whether the proposed skill is reusable.
    pub fn gate_prompt(draft: &SkillDraft) -> (p: String)
        ensures
            p@ == gate_prompt_spec(draft.name@, draft.description@, draft.body@),
    {
        let mut p = String::from_str("Review the following skill and answer ONLY 'yes' or 'no'.\nIs this skill generic, reusable, and generally applicable for an AI agent?\nSkill Name: ");
        p.append(draft.name.as_str());
        p.append("\nDescription: ");
        p.append(draft.description.as_str());
        p.append("\nBody: ");
        p.append(draft.body.as_str());
        p
    }

    /// Whether the model's answer to the quality gate accepts the skill:
    /// its lower-case form contains "yes".
    pub fn gate_passed(answer: &str) -> (b: bool)
        ensures
            b == seq_contains(lowercase(answer@), "yes"@),
    {
        let lower = to_lowercase(answer);
        contains(lower.as_str(), "yes")
    }

    /// The skill to store for an accepted proposal: under a fresh id,
    /// unused, created at `now`.
    pub fn new_skill(draft: SkillDraft, now: i64) -> (s: Skill)
        ensures
            is_uuid_text(s.id@),
            s.name == draft.name,
            s.description == draft.description,
            s.instructions == draft.body,
            s.usage_count == 0,
            s.success_count == 0,
            s.created_at == now,
            s.updated_at == now,
    {
        Skill {
            id: fresh_id(),
            name: draft.name,
            description: draft.description,
            instructions: draft.body,
            usage_count: 0,
            success_count: 0,
            created_at: now,
            updated_at: now,
        }
    }
}

/// The most recent messages that the memory pass reads.
pub const MEMORY_WINDOW: usize = 10;

/// The last ten messages of a conversation (all of them when it is shorter).
pub open spec fn recent(h: Seq<ChatMessageView>) -> Seq<ChatMessageView> {
    if h.len() > MEMORY_WINDOW {
        h.skip(h.len() - MEMORY_WINDOW)
    } else {
        h
    }
}

/// The line of the memory request that stands for one message: user and
/// non-empty assistant turns only.
pub open spec fn memory_line(m: ChatMessageView) -> Seq<char> {
    match m.role {
        MessageRole::User => "USER: "@ + m.content + "\n"@,
        MessageRole::Assistant => if m.content.len() > 0 {
            "ASSISTANT: "@ + m.content + "\n"@
        } else {
            Seq::<char>::empty()
        },
        _ => Seq::<char>::empty(),
    }
}

/// The lines of the given messages, in order.
pub open spec fn memory_lines(h: Seq<ChatMessageView>) -> Seq<char>
    decreases h.len(),
{
    if h.len() == 0 {
        Seq::<char>::empty()
    } else {
        memory_lines(h.drop_last()) + memory_line(h.last())
    }
}

/// The opening of the request for facts worth remembering.
pub const MEMORY_REQUEST: &'static str = "You are an AI tasked with maintaining a long-term memory file for future interactions.\nReview the following recent conversation history.\nIdentify up to 3 important facts, user preferences, or task contexts that are worth remembering long-term.\nIf there are no new facts worth remembering, respond with the exact string \"NO_FACTS\".\nOtherwise, return a bulleted list of facts (starting with '- '). Do not include any conversational filler.\n\nCONVERSATION HISTORY:\n";

/// What a model answers when nothing is worth remembering.
pub const NO_FACTS: &'static str = "NO_FACTS";

/// The facts that an answer of the memory pass gives: its trimmed text,
/// unless that is empty or says there are none.
pub open spec fn facts_spec(answer: Seq<char>) -> Option<Seq<char>> {
    let t = trim_spec(answer);
    if t.len() == 0 || seq_contains(t, NO_FACTS@) {
        None
    } else {
        Some(t)
    }
}

/// The lines of `s`: the texts between its line breaks, in order (one
/// empty line for an empty text).
pub open spec fn lines_of(s: Seq<char>) -> Seq<Seq<char>>
    decreases s.len(),
{
    if s.len() == 0 {
        seq![Seq::<char>::empty()]
    } else if s.last() == '\n' {
        lines_of(s.drop_last()).push(Seq::<char>::empty())
    } else {
        let l = lines_of(s.drop_last());
        l.update(l.len() - 1, l.last().push(s.last()))
    }
}

/// The fact that one line of the answer states: the line without white
/// space at either end and without its bullet `-`.
pub open spec fn fact_of(line: Seq<char>) -> Seq<char> {
    let t = trim_spec(line);
    if t.len() > 0 && t[0] == '-' {
        trim_spec(t.skip(1))
    } else {
        t
    }
}

/// The facts of the given lines, in order; lines that state nothing are skipped.
pub open spec fn facts_of(lines: Seq<Seq<char>>) -> Seq<Seq<char>>
    decreases lines.len(),
{
    if lines.len() == 0 {
        Seq::<Seq<char>>::empty()
    } else if fact_of(lines.last()).len() > 0 {
        facts_of(lines.drop_last()).push(fact_of(lines.last()))
    } else {
        facts_of(lines.drop_last())
    }
}

/// The facts listed in the memory pass's answer, one per bullet line.
pub open spec fn fact_list_spec(facts: Seq<char>) -> Seq<Seq<char>> {
    facts_of(lines_of(facts))
}

/// Whether a fact is about the user: it mentions "the user" (in any case),
/// or has the word "I", or the word "my" (in any case).
pub open spec fn about_user(fact: Seq<char>) -> bool {
    ||| seq_contains(lowercase(fact), "the user"@)
    ||| seq_contains(" "@ + fact + " "@, " I "@)
    ||| seq_contains(" "@ + lowercase(fact) + " "@, " my "@)
}

/// The line written to a memory file for one fact, stamped with its date.
pub open spec fn entry_spec(fact: Seq<char>, date: Seq<char>) -> Seq<char> {
    "- ["@ + date + "] "@ + fact + "\n"@
}

/// The lines written to MEMORY.md: every fact, in order.
pub open spec fn entries_spec(facts: Seq<Seq<char>>, date: Seq<char>) -> Seq<char>
    decreases facts.len(),
{
    if facts.len() == 0 {
        Seq::<char>::empty()
    } else {
        entries_spec(facts.drop_last(), date) + entry_spec(facts.last(), date)
    }
}

/// The lines written to USER.md: the facts about the user, in order.
pub open spec fn user_entries_spec(facts: Seq<Seq<char>>, date: Seq<char>) -> Seq<char>
    decreases facts.len(),
{
    if facts.len() == 0 {
        Seq::<char>::empty()
    } else if about_user(facts.last()) {
        user_entries_spec(facts.drop_last(), date) + entry_spec(facts.last(), date)
    } else {
        user_entries_spec(facts.drop_last(), date)
    }
}

proof fn lemma_lines_nonempty(s: Seq<char>)
    ensures
        lines_of(s).len() >= 1,
    decreases s.len(),
{
    if s.len() > 0 {
        lemma_lines_nonempty(s.drop_last());
    }
}

/// Keeps a long-term memory file of facts from finished conversations.
pub struct MemoryNudge;

impl MemoryNudge {
    /// The request that asks the model for facts worth remembering from the
    /// last ten messages.
    pub fn prompt(history: &[ChatMessage]) -> (p: String)
        ensures
            p@ == MEMORY_REQUEST@ + memory_lines(recent(history.deep_view())),
    {
        let ghost h = history.deep_view();
        let n = history.len();
        let start: usize = if n > MEMORY_WINDOW { n - MEMORY_WINDOW } else { 0 };
        let ghost r = recent(h);
        proof {
            assert(r =~= h.skip(start as int));
        }
        let mut p = String::from_str(MEMORY_REQUEST);
        for i in start..n
            invariant
                h == history.deep_view(),
                n == h.len(),
                start <= n,
                r == h.skip(start as int),
                p@ == MEMORY_REQUEST@ + memory_lines(r.take(i - start)),
        {
            proof {
                assert(r.take(i - start + 1).drop_last() =~= r.take(i - start));
                assert(r[i - start] == h[i as int]);
                assert(h[i as int] == history@[i as int].deep_view());
            }
            let m = &history[i];
            match m.role {
                MessageRole::User => {
                    p.append("USER: ");
                    p.append(m.content.as_str());
                    p.append("\n");
                },
                MessageRole::Assistant => {
                    if !m.content.as_str().is_empty() {
                        p.append("ASSISTANT: ");
                        p.append(m.content.as_str());
                        p.append("\n");
                    }
                },
                _ => {},
            }
            proof {
                assert(p@ =~= MEMORY_REQUEST@ + memory_lines(r.take(i - start + 1)));
            }
        }
        proof {
            assert(r.take(n - start) =~= r);
        }
        p
    }

    /// The facts to record from the model's answer (the content of its first
    /// choice, empty where there is none), or `None` when there are none.
    pub fn facts(first_choice_content: Option<&str>) -> (f: Option<String>)
        ensures
            f.deep_view() == facts_spec(match first_choice_content {
                Some(c) => c@,
                None => Seq::<char>::empty(),
            }),
    {
        let answer = match first_choice_content {
            Some(c) => c,
            None => "",
        };
        proof {
            reveal_strlit("");
        }
        let t = trim(answer);
        if t.is_empty() || contains(t, NO_FACTS) {
            None
        } else {
            Some(String::from_str(t))
        }
    }

    /// The line written to a memory file for one fact, stamped with `date`.
    pub fn memory_entry(fact: &str, date: &str) -> (e: String)
        ensures
            e@ == entry_spec(fact@, date@),
    {
        let mut e = String::from_str("- [");
        e.append(date);
        e.append("] ");
        e.append(fact);
        e.append("\n");
        e
    }

    /// The fact that one line of the answer states.
    pub fn fact_text(line: &str) -> (r: &str)
        ensures
            r@ == fact_of(line@),
    {
        let t = trim(line);
        let n = t.unicode_len();
        if n > 0 && t.get_char(0) == '-' {
            trim(t.substring_char(1, n))
        } else {
            t
        }
    }

    /// The facts listed in the answer, one per bullet line, in order.
    pub fn fact_list(facts: &str) -> (out: Vec<String>)
        ensures
            out@.map_values(|f: String| f@) == fact_list_spec(facts@),
    {
        let cs = crate::text::chars_of(facts);
        let ghost s = facts@;
        let n = cs.len();
        let mut out: Vec<String> = Vec::new();
        let mut start: usize = 0;
        let mut i: usize = 0;
        proof {
            assert(s.take(0) =~= Seq::<char>::empty());
            assert(s.subrange(0, 0) =~= Seq::<char>::empty());
        }
        while i < n
            invariant
                n == s.len(),
                cs@ == s,
                s == facts@,
                start <= i <= n,
                lines_of(s.take(i as int)).last() == s.subrange(start as int, i as int),
                out@.map_values(|f: String| f@) == facts_of(lines_of(s.take(i as int)).drop_last()),
            decreases n - i,
        {
            let ghost li = lines_of(s.take(i as int));
            proof {
                lemma_lines_nonempty(s.take(i as int));
                assert(s.take(i + 1).drop_last() =~= s.take(i as int));
                assert(s.take(i + 1).last() == s[i as int]);
            }
            if cs[i] == '\n' {
                let line = facts.substring_char(start, i);
                let f = Self::fact_text(line);
                let ghost before = out@.map_values(|f: String| f@);
                proof {
                    let l2 = lines_of(s.take(i + 1));
                    assert(l2 == li.push(Seq::<char>::empty()));
                    assert(l2.drop_last() =~= li);
                    assert(li == li.drop_last().push(li.last()));
                }
                if f.unicode_len() > 0 {
                    out.push(String::from_str(f));
                    proof {
                        assert(out@.map_values(|f: String| f@) =~= before.push(fact_of(li.last())));
                    }
                }
                start = i + 1;
                proof {
                    assert(s.subrange(start as int, i + 1) =~= Seq::<char>::empty());
                }
            } else {
                proof {
                    let l2 = lines_of(s.take(i + 1));
                    assert(l2 == li.update(li.len() - 1, li.last().push(s[i as int])));
                    assert(l2.drop_last() =~= li.drop_last());
                    assert(l2.last() == li.last().push(s[i as int]));
                    assert(s.subrange(start as int, i + 1) =~= s.subrange(start as int, i as int).push(s[i as int]));
                }
            }
            i = i + 1;
        }
        proof {
            assert(s.take(n as int) =~= s);
            lemma_lines_nonempty(s);
        }
        let ghost ls = lines_of(s);
        let line = facts.substring_char(start, n);
        let f = Self::fact_text(line);
        let ghost before = out@.map_values(|f: String| f@);
        proof {
            assert(ls == ls.drop_last().push(ls.last()));
        }
        if f.unicode_len() > 0 {
            out.push(String::from_str(f));
            proof {
                assert(out@.map_values(|f: String| f@) =~= before.push(fact_of(ls.last())));
            }
        }
        out
    }

    /// Whether a fact is about the user.
    pub fn is_about_user(fact: &str) -> (b: bool)
        ensures
            b == about_user(fact@),
    {
        let lower = to_lowercase(fact);
        if contains(lower.as_str(), "the user") {
            return true;
        }
        let mut padded = String::from_str(" ");
        padded.append(fact);
        padded.append(" ");
        if contains(padded.as_str(), " I ") {
            return true;
        }
        let mut lpadded = String::from_str(" ");
        lpadded.append(lower.as_str());
        lpadded.append(" ");
        contains(lpadded.as_str(), " my ")
    }

    /// What a memory pass appends, for the facts of its answer and the day
    /// `date`: every fact to MEMORY.md, and the facts about the user to
    /// USER.md, each on a line stamped with the date.
    pub fn memory_appends(facts: &str, date: &str) -> (r: (String, String))
        ensures
            r.0@ == entries_spec(fact_list_spec(facts@), date@),
            r.1@ == user_entries_spec(fact_list_spec(facts@), date@),
    {
        let list = Self::fact_list(facts);
        let ghost fs = fact_list_spec(facts@);
        let mut memory = String::new();
        let mut user = String::new();
        for k in 0..list.len()
            invariant
                list@.map_values(|f: String| f@) == fs,
                memory@ == entries_spec(fs.take(k as int), date@),
                user@ == user_entries_spec(fs.take(k as int), date@),
        {
            proof {
                assert(fs.take(k + 1).drop_last() =~= fs.take(k as int));
                assert(fs.take(k + 1).last() == fs[k as int]);
                assert(fs[k as int] == list@[k as int]@);
            }
            let e = Self::memory_entry(list[k].as_str(), date);
            memory.append(e.as_str());
            if Self::is_about_user(list[k].as_str()) {
                user.append(e.as_str());
            }
        }
        proof {
            assert(fs.take(fs.len() as int) =~= fs);
        }
        (memory, user)
    }
}

/// The smallest number of uses from which a skill's success rate is judged.
pub const MIN_USES_FOR_REVIEW: i32 = 5;

/// Rewrites skills that keep failing.
pub struct SkillImprover;

/// The request that asks the model to rewrite a skill whose success rate,
/// as shown to the model, is `rate_text` percent.
pub open spec fn improvement_prompt_spec(rate_text: Seq<char>, s: Skill) -> Seq<char> {
    "The following skill has a low success rate ("@ + rate_text + "% across "@
        + crate::text::int_text(s.usage_count as int) + " uses).\nPlease rewrite the instructions (body) to be more accurate, robust, and helpful.\nRetain the original name and description unless they are fundamentally flawed.\n\nCURRENT SKILL:\nName: "@
        + s.name@ + "\nDescription: "@ + s.description@ + "\nBody: "@ + s.instructions@
        + "\n\nYour output MUST be a JSON object with exactly these fields:\n{\n  \"name\": \"A short, descriptive name\",\n  \"description\": \"A 1-2 sentence description\",\n  \"body\": \"The improved, detailed markdown instructions\"\n}"@
}

impl SkillImprover {
    /// Whether a skill has been used often enough for its success rate to count.
    pub fn has_enough_uses(skill: &Skill) -> (b: bool)
        ensures
            b == (skill.usage_count >= MIN_USES_FOR_REVIEW),
    {
        skill.usage_count >= MIN_USES_FOR_REVIEW
    }

    /// The rewrite request for a skill; `rate_text` is its success rate in
    /// percent, rounded to a whole number.
    pub fn prompt(rate_text: &str, skill: &Skill) -> (p: String)
        ensures
            p@ == improvement_prompt_spec(rate_text@, *skill),
    {
        let mut p = String::from_str("The following skill has a low success rate (");
        p.append(rate_text);
        p.append("% across ");
        crate::text::push_i64(&mut p, skill.usage_count as i64);
        p.append(" uses).\nPlease rewrite the instructions (body) to be more accurate, robust, and helpful.\nRetain the original name and description unless they are fundamentally flawed.\n\nCURRENT SKILL:\nName: ");
        p.append(skill.name.as_str());
        p.append("\nDescription: ");
        p.append(skill.description.as_str());
        p.append("\nBody: ");
        p.append(skill.instructions.as_str());
        p.append("\n\nYour output MUST be a JSON object with exactly these fields:\n{\n  \"name\": \"A short, descriptive name\",\n  \"description\": \"A 1-2 sentence description\",\n  \"body\": \"The improved, detailed markdown instructions\"\n}");
        p
    }

    /// Reads the rewritten skill from the model's answer; `None` where the
    /// answer is no JSON or lacks one of the three fields.
    pub fn parse_reply(content: &str) -> (r: Option<SkillDraft>)
        ensures
            match parse_draft_spec(content@) {
                Ok((n, d, b)) => r matches Some(x) && x.name@ == n && x.description@ == d && x.body@ == b,
                Err(_) => r is None,
            },
    {
        match parse_draft(content) {
            Ok(d) => Some(d),
            Err(_) => None,
        }
    }

    /// The rewritten skill: same id and creation time, the new text, its
    /// counters reset so that the new version is judged afresh, updated now.
    pub fn improved(skill: Skill, draft: SkillDraft, now: i64) -> (s: Skill)
        ensures
            s.id == skill.id,
            s.created_at == skill.created_at,
            s.name == draft.name,
            s.description == draft.description,
            s.instructions == draft.body,
            s.usage_count == 0,
            s.success_count == 0,
            s.updated_at == now,
    {
        Skill {
            id: skill.id,
            name: draft.name,
            description: draft.description,
            instructions: draft.body,
            usage_count: 0,
            success_count: 0,
            created_at: skill.created_at,
            updated_at: now,
        }
    }
}

/// A skill in the agentskills.io exchange format.
#[derive(Clone, Debug)]
pub struct AgentSkillIoFormat {
    pub name: String,
    pub description: String,
    pub instructions: String,
}

/// The text of a skill: its name, description and instructions.
pub open spec fn skill_text(s: Skill) -> (Seq<char>, Seq<char>, Seq<char>) {
    (s.name@, s.description@, s.instructions@)
}

/// The text of an entry of the exchange format.
pub open spec fn entry_text(e: AgentSkillIoFormat) -> (Seq<char>, Seq<char>, Seq<char>) {
    (e.name@, e.description@, e.instructions@)
}

/// The texts of skills, in order.
pub open spec fn skill_texts(ss: Seq<Skill>) -> Seq<(Seq<char>, Seq<char>, Seq<char>)> {
    ss.map_values(|s: Skill| skill_text(s))
}

/// The texts of exchange entries, in order.
pub open spec fn entry_texts(es: Seq<AgentSkillIoFormat>) -> Seq<(Seq<char>, Seq<char>, Seq<char>)> {
    es.map_values(|e: AgentSkillIoFormat| entry_text(e))
}

/// Exporting skills and importing what was exported gives back the same
/// skills, in order, by name, description and instructions: the exported
/// entries carry the skills' texts, and the imported skills carry the
/// entries' texts.
pub proof fn lemma_export_import_round_trip(
    skills: Seq<Skill>,
    exported: Seq<AgentSkillIoFormat>,
    imported: Seq<Skill>,
)
    requires
        entry_texts(exported) == skill_texts(skills),
        skill_texts(imported) == entry_texts(exported),
    ensures
        skill_texts(imported) == skill_texts(skills),
{
}

/// Moves skills to and from the agentskills.io exchange format.
pub struct AgentSkillsHub;

impl AgentSkillsHub {
    /// The exchange form of the given skills, in order: name, description and
    /// instructions only.
    pub fn export_format(skills: &[Skill]) -> (out: Vec<AgentSkillIoFormat>)
        ensures
            out@.len() == skills@.len(),
            forall|k: int| 0 <= k < out@.len() ==> {
                &&& (#[trigger] out@[k]).name@ == skills@[k].name@
                &&& out@[k].description@ == skills@[k].description@
                &&& out@[k].instructions@ == skills@[k].instructions@
            },
            entry_texts(out@) == skill_texts(skills@),
    {
        let mut out: Vec<AgentSkillIoFormat> = Vec::new();
        for i in 0..skills.len()
            invariant
                out@.len() == i,
                forall|k: int| 0 <= k < i ==> {
                    &&& (#[trigger] out@[k]).name@ == skills@[k].name@
                    &&& out@[k].description@ == skills@[k].description@
                    &&& out@[k].instructions@ == skills@[k].instructions@
                },
        {
            out.push(AgentSkillIoFormat {
                name: skills[i].name.clone(),
                description: skills[i].description.clone(),
                instructions: skills[i].instructions.clone(),
            });
        }
        assert(entry_texts(out@) =~= skill_texts(skills@));
        out
    }

    /// The skill stored for an imported entry: under a fresh id, unused,
    /// created at `now`.
    pub fn imported_skill(item: AgentSkillIoFormat, now: i64) -> (s: Skill)
        ensures
            is_uuid_text(s.id@),
            s.name == item.name,
            s.description == item.description,
            s.instructions == item.instructions,
            s.usage_count == 0,
            s.success_count == 0,
            s.created_at == now,
            s.updated_at == now,
    {
        Skill {
            id: fresh_id(),
            name: item.name,
            description: item.description,
            instructions: item.instructions,
            usage_count: 0,
            success_count: 0,
            created_at: now,
            updated_at: now,
        }
    }

    /// The skills stored for imported entries, in order: each under a fresh
    /// id, unused, created at `now`.
    pub fn imported_skills(items: Vec<AgentSkillIoFormat>, now: i64) -> (out: Vec<Skill>)
        ensures
            skill_texts(out@) == entry_texts(items@),
            forall|k: int| 0 <= k < out@.len() ==> {
                &&& is_uuid_text((#[trigger] out@[k]).id@)
                &&& out@[k].usage_count == 0
                &&& out@[k].success_count == 0
                &&& out@[k].created_at == now
                &&& out@[k].updated_at == now
            },
    {
        let ghost src = items@;
        let mut rest = items;
        assert forall|k: int| 0 <= k < src.len() implies #[trigger] rest@[k] == src[0 + k] by {}
        let mut out: Vec<Skill> = Vec::new();
        let n = rest.len();
        let mut i: usize = 0;
        while i < n
            invariant
                n == src.len(),
                i <= n,
                rest@.len() == n - i,
                forall|k: int| 0 <= k < n - i ==> #[trigger] rest@[k] == src[i + k],
                out@.len() == i,
                forall|k: int| 0 <= k < i ==> {
                    &&& skill_text(#[trigger] out@[k]) == entry_text(src[k])
                    &&& is_uuid_text(out@[k].id@)
                    &&& out@[k].usage_count == 0
                    &&& out@[k].success_count == 0
                    &&& out@[k].created_at == now
                    &&& out@[k].updated_at == now
                },
            decreases n - i,
        {
            let item = rest.remove(0);
            out.push(Self::imported_skill(item, now));
            i = i + 1;
        }
        assert(skill_texts(out@) =~= entry_texts(src));
        out
    }
}

} // verus!

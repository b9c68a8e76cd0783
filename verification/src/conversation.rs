use vstd::prelude::*;
use vstd::string::StringSliceAdditionalSpecFns;
use vstd::utf8::{decode_utf8, is_char_boundary};
use crate::budget::IterationBudget;
use crate::message::{copy_tool_calls, AgentEvent, Message, MessageView, Skill, ToolCall, ToolCallView};
use crate::text::{byte_prefix, contains, lowercase, seq_contains, str_eq, to_lowercase, trim, trim_spec};

verus! {

/// How a skill is presented to the model in the system prompt.
pub open spec fn skill_block(s: Skill) -> Seq<char> {
    "Skill: "@ + s.name@ + "\nDescription: "@ + s.description@ + "\nInstructions:\n"@
        + s.instructions@ + "\n\n"@
}

/// The blocks of all skills, in order.
pub open spec fn skill_blocks(ss: Seq<Skill>) -> Seq<char>
    decreases ss.len(),
{
    if ss.len() == 0 {
        Seq::<char>::empty()
    } else {
        skill_blocks(ss.drop_last()) + skill_block(ss.last())
    }
}

/// The system prompt of a conversation: the caller's prompt (or nothing),
/// followed, where skills were found for the request, by their blocks.
pub open spec fn system_content_spec(system_message: Option<Seq<char>>, ss: Seq<Skill>) -> Seq<char> {
    let base = match system_message {
        Some(s) => s,
        None => Seq::<char>::empty(),
    };
    if ss.len() > 0 {
        base + "\n\nRELEVANT SKILLS AVAILABLE:\n"@ + skill_blocks(ss)
    } else {
        base
    }
}

/// The messages a conversation opens with: the system prompt unless it is
/// empty, then the user's request.
pub open spec fn opening_spec(system_content: Seq<char>, user_message: Seq<char>) -> Seq<MessageView> {
    let user = MessageView::User { content: user_message, name: None };
    if system_content.len() == 0 {
        seq![user]
    } else {
        seq![MessageView::System { content: system_content }, user]
    }
}

/// The ids of the skills, in order.
pub open spec fn skill_ids(ss: Seq<Skill>) -> Seq<Seq<char>> {
    ss.map_values(|s: Skill| s.id@)
}

/// Whether a tool's output reports a failure: its lower-case form contains "error".
pub open spec fn signals_error(result: Seq<char>) -> bool {
    seq_contains(lowercase(result), "error"@)
}

/// The message recorded for a model reply.
pub open spec fn reply_message(content: Seq<char>, calls: Seq<ToolCallView>) -> MessageView {
    MessageView::Assistant {
        content: if content.len() == 0 { None } else { Some(content) },
        tool_calls: if calls.len() == 0 { None } else { Some(calls) },
        reasoning_content: None,
    }
}

/// The error with which a conversation ends when its budget runs out.
pub const MAX_ITERATIONS_ERROR: &'static str = "Max iterations reached";

/// The number of model calls from which a conversation is worth turning into a skill.
pub const SYNTHESIS_THRESHOLD: usize = 4;

/// What to do after a model reply.
pub enum ReplyOutcome {
    /// The reply asked for no tool: the conversation ends with this text.
    Final(String),
    /// The reply asked for these tools; their results come back one by one.
    RunTools(Vec<ToolCall>),
}

/// The bookkeeping of one conversation with the model: its messages, the
/// iteration budget it draws on, the calls it made, and the skills it used.
pub struct Conversation {
    messages: Vec<Message>,
    budget: IterationBudget,
    granted: Ghost<nat>,
    turns: usize,
    api_call_count: usize,
    awaiting_reply: bool,
    turn_successful: bool,
    used_skills: Vec<String>,
}

impl Conversation {
    /// The messages so far.
    pub closed spec fn history(&self) -> Seq<MessageView> {
        self.messages.deep_view()
    }

    /// The iterations that were left when the conversation started.
    pub closed spec fn granted(&self) -> nat {
        self.granted@
    }

    /// The iterations left.
    pub closed spec fn remaining(&self) -> nat {
        self.budget@
    }

    /// The model calls recorded so far.
    pub closed spec fn calls(&self) -> nat {
        self.api_call_count as nat
    }

    /// Whether a turn has begun whose reply is not recorded yet.
    pub closed spec fn awaiting(&self) -> bool {
        self.awaiting_reply
    }

    /// Whether no tool output of the current turn reported a failure.
    pub closed spec fn clean_turn(&self) -> bool {
        self.turn_successful
    }

    /// The ids of the skills offered to the model.
    pub closed spec fn skills(&self) -> Seq<Seq<char>> {
        self.used_skills@.map_values(|s: String| s@)
    }

    /// Every recorded model call took one iteration of the budget.
    pub closed spec fn wf(&self) -> bool {
        &&& self.granted@ <= usize::MAX
        &&& self.turns + self.budget@ == self.granted@
        &&& self.api_call_count + (if self.awaiting_reply { 1int } else { 0int }) == self.turns
    }

    /// Opens a conversation: the system prompt (with the skills found for
    /// the request) unless it is empty, then the user's message.
    pub fn start(user_message: &str, system_message: Option<&str>, skills: &[Skill], budget: IterationBudget) -> (c: Self)
        ensures
            c.wf(),
            c.history() == opening_spec(
                system_content_spec(
                    match system_message { Some(s) => Some(s@), None => None },
                    skills@,
                ),
                user_message@,
            ),
            c.granted() == budget@,
            c.remaining() == budget@,
            c.calls() == 0,
            !c.awaiting(),
            c.skills() == skill_ids(skills@),
    {
        proof {
            budget.lemma_bounded();
        }
        let content = system_content(system_message, skills);
        let mut messages: Vec<Message> = Vec::new();
        if !content.as_str().is_empty() {
            messages.push(Message::System { content });
        }
        messages.push(Message::User { content: String::from_str(user_message), name: None });
        let mut ids: Vec<String> = Vec::new();
        for i in 0..skills.len()
            invariant
                ids@.len() == i,
                forall|k: int| 0 <= k < i ==> #[trigger] ids@[k]@ == skills@[k].id@,
        {
            ids.push(skills[i].id.clone());
        }
        let c = Conversation {
            messages,
            budget,
            granted: Ghost(budget@),
            turns: 0,
            api_call_count: 0,
            awaiting_reply: false,
            turn_successful: true,
            used_skills: ids,
        };
        assert(c.history() =~= opening_spec(
            system_content_spec(
                match system_message { Some(s) => Some(s@), None => None },
                skills@,
            ),
            user_message@,
        ));
        assert(c.skills() =~= skill_ids(skills@));
        c
    }

    /// Begins the next turn when the budget allows one; returns `false`, and
    /// changes nothing, when it is spent.
    pub fn begin_turn(&mut self) -> (go: bool)
        requires
            old(self).wf(),
            !old(self).awaiting(),
        ensures
            final(self).wf(),
            go == (old(self).remaining() > 0),
            go ==> final(self).remaining() == old(self).remaining() - 1,
            !go ==> final(self).remaining() == old(self).remaining(),
            final(self).awaiting() == go,
            go ==> final(self).clean_turn(),
            final(self).history() == old(self).history(),
            final(self).granted() == old(self).granted(),
            final(self).calls() == old(self).calls(),
            final(self).skills() == old(self).skills(),
    {
        let go = self.budget.consume();
        if go {
            self.turns = self.turns + 1;
            self.awaiting_reply = true;
            self.turn_successful = true;
        }
        go
    }

    /// Records the model's reply to the current turn. A reply without tool
    /// calls ends the conversation with its text; otherwise its tool calls
    /// are to be run.
    pub fn record_reply(&mut self, content: String, tool_calls: Vec<ToolCall>) -> (o: ReplyOutcome)
        requires
            old(self).wf(),
            old(self).awaiting(),
        ensures
            final(self).wf(),
            !final(self).awaiting(),
            final(self).calls() == old(self).calls() + 1,
            final(self).history() == old(self).history().push(
                reply_message(content@, tool_calls.deep_view()),
            ),
            tool_calls@.len() == 0 ==> (o matches ReplyOutcome::Final(t) && t@ == content@),
            tool_calls@.len() > 0 ==> (o matches ReplyOutcome::RunTools(cs)
                && cs.deep_view() == tool_calls.deep_view()),
            final(self).remaining() == old(self).remaining(),
            final(self).granted() == old(self).granted(),
            final(self).clean_turn() == old(self).clean_turn(),
            final(self).skills() == old(self).skills(),
    {
        self.awaiting_reply = false;
        self.api_call_count = self.api_call_count + 1;
        if tool_calls.len() == 0 {
            let text = if content.as_str().is_empty() { None } else { Some(content.clone()) };
            self.messages.push(Message::Assistant { content: text, tool_calls: None, reasoning_content: None });
            proof {
                assert(self.history() =~= old(self).history().push(reply_message(content@, tool_calls.deep_view())));
            }
            ReplyOutcome::Final(content)
        } else {
            let calls = copy_tool_calls(&tool_calls);
            let text = if content.as_str().is_empty() { None } else { Some(content) };
            self.messages.push(Message::Assistant { content: text, tool_calls: Some(tool_calls), reasoning_content: None });
            proof {
                assert(self.history() =~= old(self).history().push(reply_message(content@, calls.deep_view())));
            }
            ReplyOutcome::RunTools(calls)
        }
    }

    /// Records the output of one tool call; an output that reports an error
    /// marks the turn as unsuccessful.
    pub fn record_tool_result(&mut self, tool_call_id: String, result: String)
        requires
            old(self).wf(),
        ensures
            final(self).wf(),
            final(self).history() == old(self).history().push(
                MessageView::Tool { content: result@, tool_call_id: tool_call_id@ },
            ),
            final(self).clean_turn() == (old(self).clean_turn() && !signals_error(result@)),
            final(self).awaiting() == old(self).awaiting(),
            final(self).calls() == old(self).calls(),
            final(self).remaining() == old(self).remaining(),
            final(self).granted() == old(self).granted(),
            final(self).skills() == old(self).skills(),
    {
        if result_signals_error(result.as_str()) {
            self.turn_successful = false;
        }
        self.messages.push(Message::Tool { content: result, tool_call_id });
        proof {
            assert(self.history() =~= old(self).history().push(
                MessageView::Tool { content: result@, tool_call_id: tool_call_id@ },
            ));
        }
    }

    /// The skills whose use this turn counts as a success: all that were
    /// offered when no tool output reported a failure, none otherwise.
    pub fn successful_skills(&self) -> (ids: Vec<String>)
        ensures
            self.clean_turn() ==> ids@.map_values(|s: String| s@) == self.skills(),
            !self.clean_turn() ==> ids@.len() == 0,
    {
        let mut ids: Vec<String> = Vec::new();
        if self.turn_successful {
            for i in 0..self.used_skills.len()
                invariant
                    ids@.len() == i,
                    forall|k: int| 0 <= k < i ==> #[trigger] ids@[k]@ == self.used_skills@[k]@,
            {
                ids.push(self.used_skills[i].clone());
            }
            assert(ids@.map_values(|s: String| s@) =~= self.skills());
        }
        ids
    }

    /// Whether the conversation made enough model calls to be worth turning into a skill.
    pub fn wants_synthesis(&self) -> (b: bool)
        ensures
            b == (self.calls() >= SYNTHESIS_THRESHOLD),
    {
        self.api_call_count >= SYNTHESIS_THRESHOLD
    }

    /// The messages so far.
    pub fn messages(&self) -> (m: &Vec<Message>)
        ensures
            m.deep_view() == self.history(),
    {
        &self.messages
    }

    /// The model calls recorded so far.
    pub fn api_call_count(&self) -> (n: usize)
        ensures
            n == self.calls(),
    {
        self.api_call_count
    }

    /// The budget that is left, to hand back to the agent.
    pub fn budget(&self) -> (b: IterationBudget)
        ensures
            b@ == self.remaining(),
    {
        self.budget
    }

    /// Cancels the conversation: withdraws the iterations it has left, so
    /// that its next turn does not begin. What happened so far stays.
    pub fn cancel(&mut self)
        requires
            old(self).wf(),
        ensures
            final(self).wf(),
            final(self).remaining() == 0,
            final(self).granted() == old(self).granted() - old(self).remaining(),
            final(self).calls() == old(self).calls(),
            final(self).history() == old(self).history(),
            final(self).awaiting() == old(self).awaiting(),
            final(self).clean_turn() == old(self).clean_turn(),
            final(self).skills() == old(self).skills(),
    {
        self.granted = Ghost((self.granted@ - self.budget@) as nat);
        self.budget.cancel();
    }

    /// The error with which a conversation ends when its budget is spent.
    pub fn exhausted_error() -> (e: String)
        ensures
            e@ == MAX_ITERATIONS_ERROR@,
    {
        String::from_str(MAX_ITERATIONS_ERROR)
    }

    /// The event with which a conversation ends once its budget is spent
    /// between turns: the error "Max iterations reached". By then every
    /// iteration granted went to one model call.
    pub fn exhausted_event(&self) -> (e: AgentEvent)
        requires
            self.wf(),
            !self.awaiting(),
            self.remaining() == 0,
        ensures
            e matches AgentEvent::Error(m) && m@ == MAX_ITERATIONS_ERROR@,
            self.calls() == self.granted(),
    {
        AgentEvent::Error(String::from_str(MAX_ITERATIONS_ERROR))
    }
}

/// Every skill found is injected into the system prompt, in order, as its
/// own block: without skills the prompt is the caller's prompt (or nothing);
/// the first skill adds the heading and its block; each further skill adds
/// exactly its block at the end.
pub proof fn lemma_every_skill_injected(system_message: Option<Seq<char>>, ss: Seq<Skill>, s: Skill)
    ensures
        system_content_spec(system_message, Seq::<Skill>::empty())
            == (match system_message { Some(m) => m, None => Seq::<char>::empty() }),
        system_content_spec(system_message, seq![s])
            == (match system_message { Some(m) => m, None => Seq::<char>::empty() })
                + "\n\nRELEVANT SKILLS AVAILABLE:\n"@
                + ("Skill: "@ + s.name@ + "\nDescription: "@ + s.description@ + "\nInstructions:\n"@
                    + s.instructions@ + "\n\n"@),
        ss.len() > 0 ==> system_content_spec(system_message, ss.push(s))
            == system_content_spec(system_message, ss)
                + ("Skill: "@ + s.name@ + "\nDescription: "@ + s.description@ + "\nInstructions:\n"@
                    + s.instructions@ + "\n\n"@),
{
    let one = seq![s];
    assert(one.drop_last() =~= Seq::<Skill>::empty());
    assert(one.last() == s);
    assert(skill_blocks(one) =~= skill_blocks(Seq::<Skill>::empty()) + skill_block(s));
    let more = ss.push(s);
    assert(more.drop_last() =~= ss);
    assert(more.last() == s);
    assert(skill_blocks(more) == skill_blocks(ss) + skill_block(s));
}

/// A conversation never records more model calls than the iterations it was granted.
pub proof fn lemma_calls_within_budget(c: Conversation)
    requires
        c.wf(),
    ensures
        c.calls() + c.remaining() <= c.granted(),
{
}

/// Between turns, the model calls made and the iterations left add up to
/// the iterations granted: a conversation whose every reply asks for tools
/// makes exactly as many model calls as it was granted before its budget
/// is spent.
pub proof fn lemma_calls_use_the_budget(c: Conversation)
    requires
        c.wf(),
        !c.awaiting(),
    ensures
        c.calls() + c.remaining() == c.granted(),
{
}

/// The system prompt of a conversation with the skills found for its request.
pub fn system_content(system_message: Option<&str>, skills: &[Skill]) -> (s: String)
    ensures
        s@ == system_content_spec(
            match system_message { Some(m) => Some(m@), None => None },
            skills@,
        ),
{
    let mut s = match system_message {
        Some(m) => String::from_str(m),
        None => String::new(),
    };
    if skills.len() > 0 {
        s.append("\n\nRELEVANT SKILLS AVAILABLE:\n");
        let ghost base = s@;
        for i in 0..skills.len()
            invariant
                s@ == base + skill_blocks(skills@.take(i as int)),
        {
            proof {
                assert(skills@.take(i + 1).drop_last() =~= skills@.take(i as int));
            }
            let sk = &skills[i];
            s.append("Skill: ");
            s.append(sk.name.as_str());
            s.append("\nDescription: ");
            s.append(sk.description.as_str());
            s.append("\nInstructions:\n");
            s.append(sk.instructions.as_str());
            s.append("\n\n");
            proof {
                assert(s@ =~= base + skill_blocks(skills@.take(i + 1)));
            }
        }
        proof {
            assert(skills@.take(skills@.len() as int) =~= skills@);
        }
    }
    s
}

/// Whether a tool's output reports a failure.
pub fn result_signals_error(result: &str) -> (b: bool)
    ensures
        b == signals_error(result@),
{
    let lower = to_lowercase(result);
    contains(lower.as_str(), "error")
}

/// Whether the tool runs code in the sandbox.
pub open spec fn is_sandbox_tool(name: Seq<char>) -> bool {
    name == "run_command"@ || name == "execute_code"@
}

/// The label shown when a tool is called.
pub fn tool_call_label(name: &str) -> (l: &'static str)
    ensures
        is_sandbox_tool(name@) ==> l@ == "🐳 [Sandbox]"@,
        !is_sandbox_tool(name@) ==> l@ == "🛠️ [Calling Tool]"@,
{
    if str_eq(name, "run_command") || str_eq(name, "execute_code") {
        "🐳 [Sandbox]"
    } else {
        "🛠️ [Calling Tool]"
    }
}

/// The label shown with a tool's output.
pub fn tool_result_label(name: &str) -> (l: &'static str)
    ensures
        is_sandbox_tool(name@) ==> l@ == "🐳 [Sandbox Result]"@,
        !is_sandbox_tool(name@) ==> l@ == "✔ [Tool Result]"@,
{
    if str_eq(name, "run_command") || str_eq(name, "execute_code") {
        "🐳 [Sandbox Result]"
    } else {
        "✔ [Tool Result]"
    }
}

/// The longest output, in bytes, shown in full.
pub const PREVIEW_BYTES: usize = 180;

/// The shown form of a tool's output: its first 180 bytes followed by "..."
/// when it is longer, without white space at either end.
pub fn tool_result_preview(result: &str) -> (p: String)
    requires
        result.spec_bytes().len() <= usize::MAX,
        result.spec_bytes().len() <= PREVIEW_BYTES || is_char_boundary(result.spec_bytes(), PREVIEW_BYTES as int),
    ensures
        result.spec_bytes().len() > PREVIEW_BYTES ==> p@ == trim_spec(
            decode_utf8(result.spec_bytes().subrange(0, PREVIEW_BYTES as int)) + "..."@,
        ),
        result.spec_bytes().len() <= PREVIEW_BYTES ==> p@ == trim_spec(result@),
{
    if result.len() > PREVIEW_BYTES {
        let head = byte_prefix(result, PREVIEW_BYTES);
        assert(head@ == decode_utf8(result.spec_bytes().subrange(0, PREVIEW_BYTES as int)));
        let mut s = String::from_str(head);
        s.append("...");
        assert(s@ == head@ + "..."@);
        let t = trim(s.as_str());
        assert(t@ == trim_spec(s@));
        String::from_str(t)
    } else {
        String::from_str(trim(result))
    }
}

/// The name of the first tool call with the given id, or "unknown".
pub open spec fn tool_name_spec(calls: Seq<ToolCallView>, id: Seq<char>) -> Seq<char>
    decreases calls.len(),
{
    if calls.len() == 0 {
        "unknown"@
    } else if calls[0].id == id {
        calls[0].name
    } else {
        tool_name_spec(calls.drop_first(), id)
    }
}

/// The name of the tool call that an output belongs to.
pub fn tool_name_for(calls: &[ToolCall], id: &str) -> (name: String)
    ensures
        name@ == tool_name_spec(calls.deep_view(), id@),
{
    let ghost cs = calls.deep_view();
    let mut i: usize = 0;
    assert(cs.skip(0) =~= cs);
    while i < calls.len()
        invariant
            cs == calls.deep_view(),
            i <= cs.len(),
            tool_name_spec(cs, id@) == tool_name_spec(cs.skip(i as int), id@),
        decreases cs.len() - i,
    {
        proof {
            assert(cs.skip(i as int)[0] == cs[i as int]);
            assert(cs.skip(i as int).drop_first() =~= cs.skip(i + 1));
            assert(cs[i as int] == calls@[i as int].deep_view());
        }
        if str_eq(calls[i].id.as_str(), id) {
            return calls[i].function.name.clone();
        }
        i = i + 1;
    }
    proof {
        assert(cs.skip(i as int).len() == 0);
    }
    String::from_str("unknown")
}

/// What `run_conversation` returns for the events a conversation reported:
/// the first error, or else the text of the last final response (empty when
/// there was none).
pub open spec fn response_of(events: Seq<AgentEvent>) -> Result<Seq<char>, Seq<char>>
    decreases events.len(),
{
    if events.len() == 0 {
        Ok(Seq::<char>::empty())
    } else {
        match response_of(events.drop_last()) {
            Err(e) => Err(e),
            Ok(t) => match events.last() {
                AgentEvent::FinalResponse(c) => Ok(c@),
                AgentEvent::Error(e) => Err(e@),
                _ => Ok(t),
            },
        }
    }
}

/// A conversation that reports an error fails: once an error event is
/// observed the answer is an error, that one unless an earlier error came first.
pub proof fn lemma_error_event_fails(events: Seq<AgentEvent>, e: String)
    ensures
        response_of(events.push(AgentEvent::Error(e))) is Err,
        response_of(events) is Ok ==> response_of(events.push(AgentEvent::Error(e))) == Err::<Seq<char>, Seq<char>>(e@),
        response_of(events) is Err ==> response_of(events.push(AgentEvent::Error(e))) == response_of(events),
{
    let pushed = events.push(AgentEvent::Error(e));
    assert(pushed.drop_last() =~= events);
    assert(pushed.last() == AgentEvent::Error(e));
}

/// Follows the events of a conversation to the answer that `run_conversation` gives.
pub struct ResponseCollector {
    final_response: String,
    error: Option<String>,
    seen: Ghost<Seq<AgentEvent>>,
}

impl ResponseCollector {
    /// The events observed so far.
    pub closed spec fn observed(&self) -> Seq<AgentEvent> {
        self.seen@
    }

    /// Whether an error was observed.
    pub closed spec fn stopped(&self) -> bool {
        self.error is Some
    }

    /// The collector's state stands for the answer of the events observed.
    pub closed spec fn wf(&self) -> bool {
        match response_of(self.seen@) {
            Ok(t) => self.error is None && self.final_response@ == t,
            Err(e) => self.error is Some && self.error->0@ == e,
        }
    }

    /// Nothing observed yet.
    pub fn new() -> (c: Self)
        ensures
            c.wf(),
            c.observed() == Seq::<AgentEvent>::empty(),
            !c.stopped(),
    {
        ResponseCollector { final_response: String::new(), error: None, seen: Ghost(Seq::empty()) }
    }

    /// Observes the next event; returns `true` when it was an error, after
    /// which nothing more is awaited.
    pub fn observe(&mut self, event: AgentEvent) -> (stop: bool)
        requires
            old(self).wf(),
            !old(self).stopped(),
        ensures
            final(self).wf(),
            final(self).observed() == old(self).observed().push(event),
            stop == final(self).stopped(),
            stop == (event is Error),
    {
        let ghost e = event;
        proof {
            assert(self.seen@.push(e).drop_last() =~= self.seen@);
        }
        match event {
            AgentEvent::FinalResponse(c) => {
                self.final_response = c;
            },
            AgentEvent::Error(err) => {
                self.error = Some(err);
            },
            _ => {},
        }
        self.seen = Ghost(self.seen@.push(e));
        self.error.is_some()
    }

    /// The answer: the error observed, or the last final response.
    pub fn result(self) -> (r: Result<String, String>)
        requires
            self.wf(),
        ensures
            r is Ok ==> response_of(self.observed()) == Ok::<Seq<char>, Seq<char>>(r->Ok_0@),
            r is Err ==> response_of(self.observed()) == Err::<Seq<char>, Seq<char>>(r->Err_0@),
    {
        match self.error {
            Some(e) => Err(e),
            None => Ok(self.final_response),
        }
    }
}

} // verus!

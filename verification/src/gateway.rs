use vstd::prelude::*;
use crate::ids::{fresh_id, is_uuid_text};
use crate::message::{AgentEvent, Message};
use crate::text::{is_ws, count_words, int_text, parse_i32, parse_i64, parse_int_spec, push_i64, push_u64, decimal, str_eq, trim, trim_end, trim_end_spec, trim_spec, word_count};

verus! {

/// A query that the gateway runs on a schedule, and where its answer goes.
#[derive(Clone, Debug)]
pub struct CronJob {
    pub schedule: String,
    pub query: String,
    pub channel: Option<i64>,
    pub thread: Option<i32>,
}

/// A cron schedule in the six-field form the scheduler reads: a standard
/// five-field schedule gets a leading `0` for the seconds.
pub open spec fn schedule_spec(s: Seq<char>) -> Seq<char> {
    if word_count(s) == 5 {
        "0 "@ + s
    } else {
        s
    }
}

/// The six-field form of a schedule.
pub fn normalize_schedule(schedule: &str) -> (s: String)
    ensures
        s@ == schedule_spec(schedule@),
{
    if count_words(schedule) == 5 {
        let mut s = String::from_str("0 ");
        s.append(schedule);
        s
    } else {
        String::from_str(schedule)
    }
}

proof fn lemma_word_count_concat(a: Seq<char>, b: Seq<char>)
    requires
        a.len() > 0,
        is_ws(a.last()),
    ensures
        word_count(a + b) == word_count(a) + word_count(b),
    decreases b.len(),
{
    if b.len() == 0 {
        assert(a + b =~= a);
    } else {
        lemma_word_count_concat(a, b.drop_last());
        let ab = a + b;
        assert(ab.drop_last() =~= a + b.drop_last());
        assert(ab.last() == b.last());
        if b.len() == 1 {
            assert(ab[ab.len() - 2] == a.last());
        } else {
            assert(ab[ab.len() - 2] == b[b.len() - 2]);
        }
    }
}

/// A five-field schedule gains the seconds field and then has six fields;
/// any other schedule is left as it is. Normalizing twice is normalizing once.
pub proof fn lemma_schedule_normalization(s: Seq<char>)
    ensures
        word_count(s) == 5 ==> word_count(schedule_spec(s)) == 6,
        word_count(s) != 5 ==> schedule_spec(s) == s,
        schedule_spec(schedule_spec(s)) == schedule_spec(s),
{
    let z = "0 "@;
    reveal_strlit("0 ");
    assert(z.len() == 2 && z[0] == '0' && z[1] == ' ');
    assert(is_ws(z.last()));
    assert(z.drop_last() =~= seq!['0']);
    assert(seq!['0'].drop_last() =~= Seq::<char>::empty());
    assert(('0' as u32) == 48u32);
    assert(!is_ws('0'));
    assert(seq!['0'].last() == '0');
    assert(word_count(Seq::<char>::empty()) == 0);
    assert(word_count(seq!['0']) == 1);
    assert(word_count(z) == 1);
    lemma_word_count_concat(z, s);
}

/// How the job at position `i` is listed.
pub open spec fn job_line(i: int, j: CronJob) -> Seq<char> {
    "  ["@ + int_text(i) + "] '"@ + j.schedule@ + "' -> "@ + j.query@ + channel_part(j.channel)
        + thread_part(j.thread) + "\n"@
}

/// The note on the channel a job reports to, if it has one.
pub open spec fn channel_part(c: Option<i64>) -> Seq<char> {
    match c {
        Some(c) => " (Channel: "@ + int_text(c as int) + ")"@,
        None => Seq::<char>::empty(),
    }
}

/// The note on the thread a job reports to, if it has one.
pub open spec fn thread_part(t: Option<i32>) -> Seq<char> {
    match t {
        Some(t) => " (Thread: "@ + int_text(t as int) + ")"@,
        None => Seq::<char>::empty(),
    }
}

fn push_channel(m: &mut String, c: Option<i64>)
    ensures
        final(m)@ == old(m)@ + channel_part(c),
{
    match c {
        Some(c) => {
            m.append(" (Channel: ");
            push_i64(m, c);
            m.append(")");
        },
        None => {},
    }
}

fn push_thread(m: &mut String, t: Option<i32>)
    ensures
        final(m)@ == old(m)@ + thread_part(t),
{
    match t {
        Some(t) => {
            m.append(" (Thread: ");
            push_i64(m, t as i64);
            m.append(")");
        },
        None => {},
    }
}

/// The lines of the first `n` jobs.
pub open spec fn job_lines(jobs: Seq<CronJob>, n: int) -> Seq<char>
    decreases n,
{
    if n <= 0 {
        Seq::<char>::empty()
    } else {
        job_lines(jobs, n - 1) + job_line(n - 1, jobs[n - 1])
    }
}

fn push_job_line(m: &mut String, i: usize, j: &CronJob)
    ensures
        final(m)@ == old(m)@ + job_line(i as int, *j),
{
    m.append("  [");
    push_u64(m, i as u64);
    m.append("] '");
    m.append(j.schedule.as_str());
    m.append("' -> ");
    m.append(j.query.as_str());
    push_channel(m, j.channel);
    push_thread(m, j.thread);
    m.append("\n");
}

/// The listing of the active jobs, or `None` when there are none.
pub fn cron_job_list(jobs: &[CronJob]) -> (r: Option<String>)
    ensures
        jobs@.len() == 0 ==> r is None,
        jobs@.len() > 0 ==> (r matches Some(t)
            && t@ == trim_end_spec("Active Jobs:\n"@ + job_lines(jobs@, jobs@.len() as int))),
{
    if jobs.len() == 0 {
        return None;
    }
    let mut m = String::from_str("Active Jobs:\n");
    let ghost base = m@;
    for i in 0..jobs.len()
        invariant
            m@ == base + job_lines(jobs@, i as int),
    {
        push_job_line(&mut m, i, &jobs[i]);
        proof {
            assert(m@ =~= base + job_lines(jobs@, i + 1));
        }
    }
    Some(String::from_str(trim_end(m.as_str())))
}

impl CronJob {
    /// A new job; the channel and thread are kept where their text reads as
    /// an integer, and dropped otherwise.
    pub fn from_answers(schedule: String, query: String, channel_text: Option<&str>, thread_text: Option<&str>) -> (j: Self)
        ensures
            j.schedule == schedule,
            j.query == query,
            j.channel is Some <==> (channel_text matches Some(c) && parse_int_spec(c@) matches Some(v)
                && i64::MIN <= v <= i64::MAX),
            j.channel matches Some(v) ==> (channel_text matches Some(c) && parse_int_spec(c@) == Some(v as int)),
            j.thread is Some <==> (thread_text matches Some(t) && parse_int_spec(t@) matches Some(v)
                && i32::MIN <= v <= i32::MAX),
            j.thread matches Some(v) ==> (thread_text matches Some(t) && parse_int_spec(t@) == Some(v as int)),
    {
        let channel = match channel_text {
            Some(c) => parse_i64(c),
            None => None,
        };
        let thread = match thread_text {
            Some(t) => parse_i32(t),
            None => None,
        };
        CronJob { schedule, query, channel, thread }
    }

    /// The job as "schedule -> query".
    pub fn summary(&self) -> (s: String)
        ensures
            s@ == self.schedule@ + " -> "@ + self.query@,
    {
        let mut s = String::new();
        s.append(self.schedule.as_str());
        s.append(" -> ");
        s.append(self.query.as_str());
        s
    }
}

/// Why a new job was refused: its schedule, or else its query, is empty.
pub fn cron_answer_error(schedule: &str, query: Option<&str>) -> (e: Option<&'static str>)
    ensures
        schedule@.len() == 0 ==> (e matches Some(m) && m@ == "Schedule cannot be empty."@),
        schedule@.len() > 0 ==> match query {
            Some(q) => if q@.len() == 0 {
                e matches Some(m) && m@ == "Query cannot be empty."@
            } else {
                e is None
            },
            None => e is None,
        },
{
    if schedule.is_empty() {
        Some("Schedule cannot be empty.")
    } else {
        match query {
            Some(q) => if q.is_empty() { Some("Query cannot be empty.") } else { None },
            None => None,
        }
    }
}

/// What a cron job reports to its channel when the agent fails.
pub fn cron_error_report(error: &str) -> (m: String)
    ensures
        m@ == "Cron Job Error: "@ + error@,
{
    let mut m = String::from_str("Cron Job Error: ");
    m.append(error);
    m
}

/// The first step of the gateway's periodic check for new cron jobs, given
/// when the settings file was last seen changed, when it was modified (where
/// that can be read) and whether a scheduler is running: whether to read the
/// settings (the file is newer, or no scheduler runs yet) and the
/// modification time seen from now on.
pub fn reload_check(last_seen: u128, modified: Option<u128>, has_scheduler: bool) -> (r: (bool, u128))
    ensures
        r.1 == (match modified {
            Some(m) => if m > last_seen { m } else { last_seen },
            None => last_seen,
        }),
        r.0 == ((modified matches Some(m) && m > last_seen) || !has_scheduler),
{
    let (newer, seen) = match modified {
        Some(m) => if m > last_seen { (true, m) } else { (false, last_seen) },
        None => (false, last_seen),
    };
    (newer || !has_scheduler, seen)
}

/// Whether the scheduler is (re)started once the settings are read: when
/// the jobs differ from those running, or no scheduler runs yet.
pub fn restart_scheduler(jobs_changed: bool, has_scheduler: bool) -> (b: bool)
    ensures
        b == (jobs_changed || !has_scheduler),
{
    jobs_changed || !has_scheduler
}

/// A slash command sent to the Slack app.
#[derive(Clone, Debug)]
pub struct SlackCommandPayload {
    pub text: String,
    pub channel_id: String,
}

/// A click on an interactive Slack block; `payload` is its JSON text.
#[derive(Clone, Debug)]
pub struct SlackInteractivePayload {
    pub payload: String,
}

/// What the gateway does with a Slack event.
pub enum SlackAction {
    /// Answers Slack's URL verification with its challenge.
    Challenge(String),
    /// Hands the text to the agent and posts the answer to the channel
    /// (in the thread, if there is one); Slack gets "OK".
    Dispatch { text: String, channel: String, thread_ts: Option<String> },
    /// Nothing to do; Slack gets "OK".
    Acknowledge,
}

/// The action for a Slack event, given its type, its challenge, and the type,
/// text, channel and thread of the inner event (each where present).
pub fn slack_event_action(
    kind: Option<&str>,
    challenge: Option<&str>,
    event_type: Option<&str>,
    text: Option<&str>,
    channel: Option<&str>,
    thread_ts: Option<&str>,
) -> (a: SlackAction)
    ensures
        ({
            let is_kind = |k: Seq<char>| kind matches Some(x) && x@ == k;
            let ev = event_type matches Some(e) && (e@ == "app_mention"@ || e@ == "message"@);
            if is_kind("url_verification"@) && challenge is Some {
                a matches SlackAction::Challenge(c) && c@ == challenge->0@
            } else if is_kind("event_callback"@) && ev && text is Some {
                a matches SlackAction::Dispatch { text: t, channel: c, thread_ts: th }
                    && t@ == text->0@
                    && c@ == (match channel { Some(c0) => c0@, None => Seq::<char>::empty() })
                    && th.deep_view() == (match thread_ts { Some(t0) => Some(t0@), None => None })
            } else {
                a is Acknowledge
            }
        }),
{
    let is_verification = match kind {
        Some(k) => str_eq(k, "url_verification"),
        None => false,
    };
    if is_verification {
        match challenge {
            Some(c) => return SlackAction::Challenge(String::from_str(c)),
            None => {},
        }
    }
    let is_callback = match kind {
        Some(k) => str_eq(k, "event_callback"),
        None => false,
    };
    let is_message = match event_type {
        Some(e) => str_eq(e, "app_mention") || str_eq(e, "message"),
        None => false,
    };
    proof {
        reveal_strlit("url_verification");
        reveal_strlit("event_callback");
        assert("url_verification"@[0] != "event_callback"@[0]);
    }
    if is_callback && is_message {
        match text {
            Some(t) => {
                let c = match channel {
                    Some(c) => String::from_str(c),
                    None => String::new(),
                };
                let th = match thread_ts {
                    Some(t0) => Some(String::from_str(t0)),
                    None => None,
                };
                return SlackAction::Dispatch { text: String::from_str(t), channel: c, thread_ts: th };
            },
            None => {},
        }
    }
    SlackAction::Acknowledge
}

impl SlackAction {
    /// The body that Slack gets back: the challenge, or "OK".
    pub fn reply(&self) -> (r: String)
        ensures
            self matches SlackAction::Challenge(c) ==> r@ == c@,
            !(self is Challenge) ==> r@ == "OK"@,
    {
        match self {
            SlackAction::Challenge(c) => c.clone(),
            _ => String::from_str("OK"),
        }
    }
}

/// What Slack gets back at once for a slash command.
pub const SLACK_COMMAND_ACK: &'static str = "Processing command...";

/// What is posted when a user confirms a tool call in an interactive block.
pub const SLACK_INTERACTIVE_CONFIRMATION: &'static str = "Tool execution confirmed by user via interactive block.";

/// A message from the WhatsApp bridge: text, or a voice note in base64.
#[derive(Clone, Debug)]
pub struct WhatsAppPayload {
    pub message: Option<String>,
    pub audio_base64: Option<String>,
}

/// The answer sent back to the WhatsApp bridge.
#[derive(Clone, Debug)]
pub struct WhatsAppResponse {
    pub response: String,
}

/// The bytes that the standard base64 alphabet (with padding) decodes
/// `text` to, or `None` where `text` is no valid encoding.
pub uninterp spec fn base64_standard_decode(text: Seq<char>) -> Option<Seq<u8>>;

/// Calls `base64::Engine::decode` with the `STANDARD` engine. The contract
/// names the result and says nothing more of it.
#[verifier::external_body]
fn decode_base64(text: &str) -> (r: Option<Vec<u8>>)
    ensures
        r.deep_view() == base64_standard_decode(text@),
{
    match base64::Engine::decode(&base64::engine::general_purpose::STANDARD, text) {
        Ok(bytes) => Some(bytes),
        Err(_) => None,
    }
}

impl WhatsAppPayload {
    /// The voice note's bytes: `None` where there is none or its base64 does not decode.
    pub fn audio_bytes(&self) -> (b: Option<Vec<u8>>)
        ensures
            self.audio_base64 is None ==> b is None,
            self.audio_base64 matches Some(a) ==> b.deep_view() == base64_standard_decode(a@),
    {
        match &self.audio_base64 {
            Some(a) => decode_base64(a.as_str()),
            None => None,
        }
    }

    /// A fresh name for the temporary file that holds a voice note.
    pub fn audio_file_name(&self) -> (f: String)
        ensures
            exists|u: Seq<char>| is_uuid_text(u) && f@ == "wa_audio_"@ + u + ".ogg"@,
    {
        let u = fresh_id();
        let mut f = String::from_str("wa_audio_");
        f.append(u.as_str());
        f.append(".ogg");
        f
    }

    /// The text handed to the agent: the transcript of the voice note where
    /// there is one, else the message (empty where there is none).
    pub fn incoming_text(&self, transcript: Option<String>) -> (t: String)
        ensures
            transcript is Some ==> t@ == transcript->0@,
            transcript is None ==> t@ == (match self.message { Some(m) => m@, None => Seq::<char>::empty() }),
    {
        match transcript {
            Some(s) => s,
            None => match &self.message {
                Some(m) => m.clone(),
                None => String::new(),
            },
        }
    }
}

impl WhatsAppResponse {
    /// The answer when there is nothing to hand to the agent: `Some` exactly
    /// when the incoming text is empty.
    pub fn for_empty(text: &str) -> (r: Option<WhatsAppResponse>)
        ensures
            text@.len() == 0 ==> (r matches Some(x) && x.response@ == "No message content or audio could be parsed."@),
            text@.len() > 0 ==> r is None,
    {
        if text.is_empty() {
            Some(WhatsAppResponse { response: String::from_str("No message content or audio could be parsed.") })
        } else {
            None
        }
    }

    /// The answer when the agent failed.
    pub fn processing_error() -> (r: WhatsAppResponse)
        ensures
            r.response@ == "Error processing message"@,
    {
        WhatsAppResponse { response: String::from_str("Error processing message") }
    }
}

/// The methods of the terminal UI's JSON-RPC protocol.
#[derive(Clone, Copy, Debug, PartialEq, Eq, Structural)]
pub enum RpcRoute {
    AgentRun,
    AgentCancel,
    SessionList,
    SessionLoad,
    ConfigGet,
    ConfigSet,
    Unknown,
}

/// The route of a JSON-RPC method name.
pub open spec fn route_spec(method: Seq<char>) -> RpcRoute {
    if method == "agent/run"@ {
        RpcRoute::AgentRun
    } else if method == "agent/cancel"@ {
        RpcRoute::AgentCancel
    } else if method == "session/list"@ {
        RpcRoute::SessionList
    } else if method == "session/load"@ {
        RpcRoute::SessionLoad
    } else if method == "config/get"@ {
        RpcRoute::ConfigGet
    } else if method == "config/set"@ {
        RpcRoute::ConfigSet
    } else {
        RpcRoute::Unknown
    }
}

/// The method name that the protocol gives each route (none for an unknown method).
pub open spec fn route_method(r: RpcRoute) -> Option<Seq<char>> {
    match r {
        RpcRoute::AgentRun => Some("agent/run"@),
        RpcRoute::AgentCancel => Some("agent/cancel"@),
        RpcRoute::SessionList => Some("session/list"@),
        RpcRoute::SessionLoad => Some("session/load"@),
        RpcRoute::ConfigGet => Some("config/get"@),
        RpcRoute::ConfigSet => Some("config/set"@),
        RpcRoute::Unknown => None,
    }
}

/// A method is routed to the route that it names: a known route's method
/// is routed back to that route, and a method routed to a known route is
/// that route's method. Every other method is unknown.
pub proof fn lemma_routes_are_named_by_their_methods(method: Seq<char>, r: RpcRoute)
    ensures
        route_method(r) matches Some(m) ==> route_spec(m) == r,
        route_method(route_spec(method)) matches Some(m) ==> m == method,
        route_spec(method) is Unknown <==> !(exists|k: RpcRoute| route_method(k) == Some(method)),
{
    reveal_strlit("agent/run");
    reveal_strlit("agent/cancel");
    reveal_strlit("session/list");
    reveal_strlit("session/load");
    reveal_strlit("config/get");
    reveal_strlit("config/set");
    assert("agent/run"@[6] != "agent/cancel"@[6]);
    assert("session/list"@[9] != "session/load"@[9]);
    assert("config/get"@[7] != "config/set"@[7]);
    assert("agent/run"@[0] != "session/list"@[0] && "agent/run"@[0] != "config/get"@[0]);
    assert("session/list"@[0] != "config/get"@[0]);
    if !(route_spec(method) is Unknown) {
        assert(route_method(route_spec(method)) == Some(method));
    }
}

/// The route of a JSON-RPC method name.
pub fn rpc_route(method: &str) -> (r: RpcRoute)
    ensures
        r == route_spec(method@),
{
    if str_eq(method, "agent/run") {
        RpcRoute::AgentRun
    } else if str_eq(method, "agent/cancel") {
        RpcRoute::AgentCancel
    } else if str_eq(method, "session/list") {
        RpcRoute::SessionList
    } else if str_eq(method, "session/load") {
        RpcRoute::SessionLoad
    } else if str_eq(method, "config/get") {
        RpcRoute::ConfigGet
    } else if str_eq(method, "config/set") {
        RpcRoute::ConfigSet
    } else {
        RpcRoute::Unknown
    }
}

/// The fields of a JSON-RPC request line that the terminal UI's protocol
/// reads, as `serde_json` gives them: the strings at `jsonrpc` and `method`
/// (`None` where absent or no string), the id (`Some(None)` where absent or
/// null, `Some(Some(n))` for an unsigned 64-bit integer, `None` for anything
/// else) and the string at `params.prompt`. `None` where the line is no JSON.
pub uninterp spec fn rpc_fields_of(line: Seq<char>) -> Option<(Option<Seq<char>>, Option<Seq<char>>, Option<Option<u64>>, Option<Seq<char>>)>;

/// The fields of a request line, as read.
pub struct RpcFields {
    pub jsonrpc: Option<String>,
    pub method: Option<String>,
    pub id: Option<Option<u64>>,
    pub prompt: Option<String>,
}

/// `o` as its characters, if there is one.
pub open spec fn opt_chars(o: Option<String>) -> Option<Seq<char>> {
    match o {
        Some(s) => Some(s@),
        None => None,
    }
}

/// Parses `line` with `serde_json::from_str::<serde_json::Value>` and reads
/// `jsonrpc`, `method` and `params.prompt` with `Value::get` and `as_str`,
/// and `id` with `Value::get` and `as_u64`. The contract names the result
/// and says nothing more of it.
#[verifier::external_body]
fn parse_rpc_fields(line: &str) -> (r: Option<RpcFields>)
    ensures
        r matches Some(f) ==> rpc_fields_of(line@) == Some((opt_chars(f.jsonrpc), opt_chars(f.method), f.id, opt_chars(f.prompt))),
        r is None ==> rpc_fields_of(line@) is None,
{
    let v: serde_json::Value = serde_json::from_str(line).ok()?;
    let text = |x: Option<&serde_json::Value>| x.and_then(|s| s.as_str()).map(String::from);
    let id = match v.get("id") {
        None | Some(serde_json::Value::Null) => Some(None),
        Some(i) => i.as_u64().map(Some),
    };
    let prompt = text(v.get("params").and_then(|p| p.get("prompt")));
    Some(RpcFields { jsonrpc: text(v.get("jsonrpc")), method: text(v.get("method")), id, prompt })
}

/// A request line as the protocol reads it: its method, its id and its
/// prompt; `None` where it is no JSON or lacks a string `jsonrpc`, a string
/// `method` or an id that is absent, null or an unsigned 64-bit integer.
pub open spec fn rpc_call_of(line: Seq<char>) -> Option<(Seq<char>, Option<u64>, Option<Seq<char>>)> {
    match rpc_fields_of(line) {
        Some((Some(_), Some(method), Some(id), prompt)) => Some((method, id, prompt)),
        _ => None,
    }
}

/// What the terminal UI does for a request.
pub enum RpcOutcome {
    /// Runs the agent on the prompt; the answer then comes from `run_outcome`.
    Run { prompt: String },
    /// Answers `{"status": "Started"}`: the run ended with an answer.
    Started,
    /// Answers `{"error": ...}` with the run's error.
    RunFailed(String),
    /// Cancels the running conversation and answers `{"status": "cancelled"}`.
    Cancel,
    /// Answers with the (empty) list of sessions.
    SessionList,
    /// Answers `{"status": "loaded"}`.
    SessionLoaded,
    /// Answers with the model in use: `{"model": "gpt-4o"}`.
    Config,
    /// Answers `{"status": "updated"}`.
    ConfigUpdated,
    /// Answers the error `{"message": "Method not found"}`.
    MethodNotFound,
}

/// The outcome for a request of the given method and prompt.
pub open spec fn outcome_spec(o: RpcOutcome, method: Seq<char>, prompt: Option<Seq<char>>) -> bool {
    match route_spec(method) {
        RpcRoute::AgentRun => o matches RpcOutcome::Run { prompt: p }
            && p@ == (match prompt { Some(x) => x, None => Seq::<char>::empty() }),
        RpcRoute::AgentCancel => o is Cancel,
        RpcRoute::SessionList => o is SessionList,
        RpcRoute::SessionLoad => o is SessionLoaded,
        RpcRoute::ConfigGet => o is Config,
        RpcRoute::ConfigSet => o is ConfigUpdated,
        RpcRoute::Unknown => o is MethodNotFound,
    }
}

/// The answer to one request line: `None` for a blank line or one that is
/// no request; else the request's id and what to do with it.
pub fn rpc_answer(line: &str) -> (a: Option<(Option<u64>, RpcOutcome)>)
    ensures
        trim_spec(line@).len() == 0 ==> a is None,
        trim_spec(line@).len() > 0 ==> match rpc_call_of(line@) {
            None => a is None,
            Some((method, id, prompt)) => a matches Some((i, o)) && i == id && outcome_spec(o, method, prompt),
        },
{
    if is_blank_line(line) {
        return None;
    }
    let (method, id, prompt) = match parse_rpc_fields(line) {
        Some(RpcFields { jsonrpc: Some(_), method: Some(m), id: Some(i), prompt }) => (m, i, prompt),
        _ => return None,
    };
    let outcome = match rpc_route(method.as_str()) {
        RpcRoute::AgentRun => RpcOutcome::Run {
            prompt: match prompt {
                Some(p) => p,
                None => String::new(),
            },
        },
        RpcRoute::AgentCancel => RpcOutcome::Cancel,
        RpcRoute::SessionList => RpcOutcome::SessionList,
        RpcRoute::SessionLoad => RpcOutcome::SessionLoaded,
        RpcRoute::ConfigGet => RpcOutcome::Config,
        RpcRoute::ConfigSet => RpcOutcome::ConfigUpdated,
        RpcRoute::Unknown => RpcOutcome::MethodNotFound,
    };
    Some((id, outcome))
}

/// The answer to a run: started where the conversation ended with an
/// answer, else the conversation's error.
pub fn run_outcome(result: &Result<String, String>) -> (o: RpcOutcome)
    ensures
        result is Ok ==> o is Started,
        result matches Err(e) ==> (o matches RpcOutcome::RunFailed(m) && m@ == e@),
{
    match result {
        Ok(_) => RpcOutcome::Started,
        Err(e) => RpcOutcome::RunFailed(e.clone()),
    }
}

/// What `serde_json` gives for `text[outer][inner].as_str()`: `None` where
/// the text is not JSON, `Some(None)` where either key is missing or the
/// value is no string.
pub uninterp spec fn json_string_path(text: Seq<char>, outer: Seq<char>, inner: Seq<char>) -> Option<Option<Seq<char>>>;

/// Parses `text` with `serde_json::from_str::<serde_json::Value>` and reads
/// `value[outer][inner].as_str()`; indexing a value that is no object, or
/// lacks the key, gives JSON null, so nothing here panics. The contract
/// names the result and says nothing more of it.
#[verifier::external_body]
fn json_str_path(text: &str, outer: &str, inner: &str) -> (r: Option<Option<String>>)
    ensures
        r matches Some(Some(s)) ==> json_string_path(text@, outer@, inner@) == Some(Some(s@)),
        r matches Some(None) ==> json_string_path(text@, outer@, inner@) == Some(None::<Seq<char>>),
        r is None ==> json_string_path(text@, outer@, inner@) is None,
{
    match serde_json::from_str::<serde_json::Value>(text) {
        Ok(v) => Some(v[outer][inner].as_str().map(String::from)),
        Err(_) => None,
    }
}

/// The string at `payload[outer][inner]`, where there is one.
pub open spec fn payload_string(payload: Seq<char>, outer: Seq<char>, inner: Seq<char>) -> Option<Seq<char>> {
    match json_string_path(payload, outer, inner) {
        Some(Some(s)) => Some(s),
        _ => None,
    }
}

/// Where the confirmation of an interactive Slack block goes: the channel
/// `channel.id` of its payload, and the thread `message.ts` where there is
/// one; `None` where the payload names no channel.
pub fn slack_interactive_target(p: &SlackInteractivePayload) -> (t: Option<(String, Option<String>)>)
    ensures
        payload_string(p.payload@, "channel"@, "id"@) is None ==> t is None,
        payload_string(p.payload@, "channel"@, "id"@) matches Some(c) ==> (t matches Some((c2, ts))
            && c2@ == c
            && ts.deep_view() == payload_string(p.payload@, "message"@, "ts"@)),
{
    let channel = match json_str_path(p.payload.as_str(), "channel", "id") {
        Some(Some(c)) => c,
        _ => return None,
    };
    let ts = match json_str_path(p.payload.as_str(), "message", "ts") {
        Some(Some(t)) => Some(t),
        _ => None,
    };
    Some((channel, ts))
}

/// Whether a request line holds nothing but white space (and is skipped).
pub fn is_blank_line(line: &str) -> (b: bool)
    ensures
        b == (trim_spec(line@).len() == 0),
{
    trim(line).is_empty()
}

/// The notification method under which an agent event is forwarded to the
/// terminal UI; cache usage is not forwarded.
pub fn notification_method(e: &AgentEvent) -> (m: Option<&'static str>)
    ensures
        e is TokenDelta ==> (m matches Some(s) && s@ == "agent.token"@),
        e is ToolCallStart ==> (m matches Some(s) && s@ == "agent.tool_start"@),
        e is ToolCallComplete ==> (m matches Some(s) && s@ == "agent.tool_complete"@),
        e is FinalResponse ==> (m matches Some(s) && s@ == "agent.final"@),
        e is Error ==> (m matches Some(s) && s@ == "agent.error"@),
        e is TokenUsage ==> m is None,
{
    match e {
        AgentEvent::TokenDelta(_) => Some("agent.token"),
        AgentEvent::ToolCallStart { .. } => Some("agent.tool_start"),
        AgentEvent::ToolCallComplete { .. } => Some("agent.tool_complete"),
        AgentEvent::FinalResponse(_) => Some("agent.final"),
        AgentEvent::TokenUsage { .. } => None,
        AgentEvent::Error(_) => Some("agent.error"),
    }
}

/// The name under which the dashboard creates a skill or plugin: the
/// requested name without surrounding white space; `None` when that is empty.
pub fn entry_name(requested: &str) -> (n: Option<String>)
    ensures
        trim_spec(requested@).len() == 0 ==> n is None,
        trim_spec(requested@).len() > 0 ==> (n matches Some(s) && s@ == trim_spec(requested@)),
{
    let t = trim(requested);
    if t.is_empty() {
        None
    } else {
        Some(String::from_str(t))
    }
}

/// The file that holds a new skill.
pub fn skill_file_name(name: &str) -> (f: String)
    ensures
        f@ == name@ + ".rs"@,
{
    let mut f = String::from_str(name);
    f.append(".rs");
    f
}

/// The file that holds a new plugin.
pub fn plugin_file_name(name: &str) -> (f: String)
    ensures
        f@ == name@ + ".wasm"@,
{
    let mut f = String::from_str(name);
    f.append(".wasm");
    f
}

/// The source written for a new skill.
pub fn skill_template(name: &str) -> (t: String)
    ensures
        t@ == "// Skill: "@ + name@ + "\n// Description: A new custom semantic skill definition\n\npub fn execute() {\n    println!(\"Executing "@
            + name@ + " skill...\");\n}\n"@,
{
    let mut t = String::from_str("// Skill: ");
    t.append(name);
    t.append("\n// Description: A new custom semantic skill definition\n\npub fn execute() {\n    println!(\"Executing ");
    t.append(name);
    t.append(" skill...\");\n}\n");
    t
}

/// The bytes of a new, empty WebAssembly plugin: the magic number and version 1.
pub fn wasm_skeleton() -> (b: Vec<u8>)
    ensures
        b@ == seq![0x00u8, 0x61u8, 0x73u8, 0x6du8, 0x01u8, 0x00u8, 0x00u8, 0x00u8],
{
    let mut b: Vec<u8> = Vec::new();
    b.push(0x00);
    b.push(0x61);
    b.push(0x73);
    b.push(0x6d);
    b.push(0x01);
    b.push(0x00);
    b.push(0x00);
    b.push(0x00);
    assert(b@ =~= seq![0x00u8, 0x61u8, 0x73u8, 0x6du8, 0x01u8, 0x00u8, 0x00u8, 0x00u8]);
    b
}

/// The role under which a message is stored in the session log.
pub fn log_role(m: &Message) -> (r: &'static str)
    ensures
        m is System ==> r@ == "system"@,
        m is User ==> r@ == "user"@,
        m is Assistant ==> r@ == "assistant"@,
        m is Tool ==> r@ == "tool"@,
{
    match m {
        Message::System { .. } => "system",
        Message::User { .. } => "user",
        Message::Assistant { .. } => "assistant",
        Message::Tool { .. } => "tool",
    }
}

/// The content under which a message is stored in the session log.
pub fn log_content(m: &Message) -> (c: Option<String>)
    ensures
        match m {
            Message::System { content } => c matches Some(s) && s@ == content@,
            Message::User { content, .. } => c matches Some(s) && s@ == content@,
            Message::Assistant { content, .. } => c.deep_view() == content.deep_view(),
            Message::Tool { content, .. } => c matches Some(s) && s@ == content@,
        },
{
    match m {
        Message::System { content } => Some(content.clone()),
        Message::User { content, .. } => Some(content.clone()),
        Message::Assistant { content, .. } => crate::message::copy_opt_string(content),
        Message::Tool { content, .. } => Some(content.clone()),
    }
}

} // verus!

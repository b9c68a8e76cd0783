use vstd::prelude::*;
use vstd::string::StringSliceAdditionalSpecFns;
use crate::text::str_eq;

verus! {

/// A past session that matched a full-text search, with the matching snippet.
#[derive(Clone, Debug)]
pub struct SessionSummary {
    pub session_id: String,
    pub title: Option<String>,
    pub snippet: String,
}

/// The full-text query for a search: the user's words as one quoted phrase.
pub fn fts_phrase_query(query: &str) -> (q: String)
    ensures
        q@ == "\""@ + query@ + "\""@,
{
    let mut q = String::from_str("\"");
    q.append(query);
    q.append("\"");
    q
}

/// How one search hit is listed.
pub open spec fn hit_text(s: SessionSummary) -> Seq<char> {
    "Session ID: "@ + s.session_id@ + "\nTitle: "@ + match s.title {
        Some(t) => t@,
        None => "Untitled Session"@,
    } + "\nSnippet: "@ + s.snippet@ + "\n\n"@
}

/// The hits, listed in order.
pub open spec fn hits_text(hits: Seq<SessionSummary>) -> Seq<char>
    decreases hits.len(),
{
    if hits.len() == 0 {
        Seq::<char>::empty()
    } else {
        hits_text(hits.drop_last()) + hit_text(hits.last())
    }
}

/// What the search tool answers for the given hits.
pub open spec fn search_answer(hits: Seq<SessionSummary>) -> Seq<char> {
    if hits.len() == 0 {
        "No past sessions found matching the query."@
    } else {
        "Found matching past sessions:\n\n"@ + hits_text(hits)
    }
}

/// The search answer lists every hit with its own session id, title and
/// snippet, in order: no hits give the fixed "nothing found" answer; one hit
/// gives the heading and its entry; each further hit adds exactly its entry.
/// A hit's title is shown as it is; "Untitled Session" stands only for a
/// hit without a title.
pub proof fn lemma_search_lists_every_hit(hits: Seq<SessionSummary>, h: SessionSummary)
    ensures
        search_answer(Seq::<SessionSummary>::empty()) == "No past sessions found matching the query."@,
        search_answer(seq![h]) == "Found matching past sessions:\n\n"@
            + ("Session ID: "@ + h.session_id@ + "\nTitle: "@
                + (match h.title { Some(t) => t@, None => "Untitled Session"@ })
                + "\nSnippet: "@ + h.snippet@ + "\n\n"@),
        hits.len() > 0 ==> search_answer(hits.push(h)) == search_answer(hits)
            + ("Session ID: "@ + h.session_id@ + "\nTitle: "@
                + (match h.title { Some(t) => t@, None => "Untitled Session"@ })
                + "\nSnippet: "@ + h.snippet@ + "\n\n"@),
{
    let one = seq![h];
    assert(one.drop_last() =~= Seq::<SessionSummary>::empty());
    assert(one.last() == h);
    assert(hits_text(one) =~= hits_text(Seq::<SessionSummary>::empty()) + hit_text(h));
    let more = hits.push(h);
    assert(more.drop_last() =~= hits);
    assert(more.last() == h);
    assert(hits_text(more) == hits_text(hits) + hit_text(h));
}

/// The tool with which the agent searches its past conversations.
#[derive(Clone)]
pub struct SearchSessionsTool;

impl SearchSessionsTool {
    pub fn name(&self) -> (n: &'static str)
        ensures
            n@ == "search_past_conversations"@,
    {
        "search_past_conversations"
    }

    pub fn toolset(&self) -> (t: &'static str)
        ensures
            t@ == "memory"@,
    {
        "memory"
    }

    /// The query of a call, or the error that a call without one gets.
    pub fn query(&self, query: Option<String>) -> (r: Result<String, String>)
        ensures
            query is Some ==> (r matches Ok(q) && q@ == query->0@),
            query is None ==> (r matches Err(e) && e@ == "Missing 'query' parameter"@),
    {
        match query {
            Some(q) => Ok(q),
            None => Err(String::from_str("Missing 'query' parameter")),
        }
    }

    /// The answer for the hits of a search.
    pub fn answer(&self, hits: &[SessionSummary]) -> (a: String)
        ensures
            a@ == search_answer(hits@),
    {
        if hits.len() == 0 {
            return String::from_str("No past sessions found matching the query.");
        }
        let mut a = String::from_str("Found matching past sessions:\n\n");
        let ghost base = a@;
        for i in 0..hits.len()
            invariant
                a@ == base + hits_text(hits@.take(i as int)),
        {
            proof {
                assert(hits@.take(i + 1).drop_last() =~= hits@.take(i as int));
            }
            let h = &hits[i];
            a.append("Session ID: ");
            a.append(h.session_id.as_str());
            a.append("\nTitle: ");
            match &h.title {
                Some(t) => a.append(t.as_str()),
                None => a.append("Untitled Session"),
            }
            a.append("\nSnippet: ");
            a.append(h.snippet.as_str());
            a.append("\n\n");
            proof {
                assert(a@ =~= base + hits_text(hits@.take(i + 1)));
            }
        }
        proof {
            assert(hits@.take(hits@.len() as int) =~= hits@);
        }
        a
    }
}

/// The longest tool output, in characters, kept whole in an exported trajectory.
pub const TRAJECTORY_KEEP_CHARS: usize = 1000;

/// The mark that ends a shortened tool output.
pub const TRUNCATION_MARK: &'static str = "... [TRUNCATED]";

/// The tool with which the agent exports a past session for training or analysis.
#[derive(Clone)]
pub struct TrajectoryExportTool;

impl TrajectoryExportTool {
    pub fn name(&self) -> (n: &'static str)
        ensures
            n@ == "export_session_trajectory"@,
    {
        "export_session_trajectory"
    }

    pub fn toolset(&self) -> (t: &'static str)
        ensures
            t@ == "memory"@,
    {
        "memory"
    }

    /// The session id of a call, or the error that a call without one gets.
    pub fn session_id(&self, session_id: Option<String>) -> (r: Result<String, String>)
        ensures
            session_id is Some ==> (r matches Ok(s) && s@ == session_id->0@),
            session_id is None ==> (r matches Err(e) && e@ == "Missing 'session_id' parameter"@),
    {
        match session_id {
            Some(s) => Ok(s),
            None => Err(String::from_str("Missing 'session_id' parameter")),
        }
    }

    /// The content a message keeps in the export: a tool output longer than
    /// 1000 characters is cut to its first 1000 characters and marked as
    /// truncated; everything else stays as it is.
    pub fn exported_content(&self, role: &str, content: Option<&str>) -> (r: Option<String>)
        ensures
            content is None ==> r is None,
            content matches Some(c) ==> r is Some && r->0@ == (
                if role@ == "tool"@ && c@.len() > TRAJECTORY_KEEP_CHARS {
                    c@.take(TRAJECTORY_KEEP_CHARS as int) + TRUNCATION_MARK@
                } else {
                    c@
                }),
    {
        match content {
            Some(c) => {
                if str_eq(role, "tool") && c.unicode_len() > TRAJECTORY_KEEP_CHARS {
                    let mut s = String::from_str(c.substring_char(0, TRAJECTORY_KEEP_CHARS));
                    s.append(TRUNCATION_MARK);
                    Some(s)
                } else {
                    Some(String::from_str(c))
                }
            },
            None => None,
        }
    }

    /// Whether a message goes into the export, given the role of the message
    /// after it: an assistant message that another assistant message follows
    /// is an intermediate step and is left out; everything else goes in.
    pub fn keeps_message(&self, role: &str, next_role: Option<&str>) -> (b: bool)
        ensures
            b == !(role@ == "assistant"@ && (next_role matches Some(n) && n@ == "assistant"@)),
    {
        match next_role {
            Some(n) => !(str_eq(role, "assistant") && str_eq(n, "assistant")),
            None => true,
        }
    }

    /// What the tool answers once the trajectory is written to `path`.
    pub fn success_message(&self, path: &str) -> (m: String)
        ensures
            m@ == "Successfully exported compressed trajectory to "@ + path@,
    {
        let mut m = String::from_str("Successfully exported compressed trajectory to ");
        m.append(path);
        m
    }
}

} // verus!

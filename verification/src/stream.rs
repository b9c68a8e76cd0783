use vstd::prelude::*;
use crate::message::{AgentEvent, FunctionCall, ToolCall, ToolCallView};

verus! {

/// One streamed fragment of a tool call: the fragments that share an index
/// make up one call.
pub struct ToolCallDelta {
    pub index: Option<usize>,
    pub id: Option<String>,
    pub name: Option<String>,
    pub arguments: Option<String>,
}

/// `Some(s)` as its characters, `None` as nothing.
pub open spec fn opt_text(o: Option<String>) -> Seq<char> {
    match o {
        Some(s) => s@,
        None => Seq::<char>::empty(),
    }
}

/// A tool call before any fragment has arrived.
pub open spec fn blank_call() -> ToolCallView {
    ToolCallView {
        id: Seq::<char>::empty(),
        call_type: "function"@,
        name: Seq::<char>::empty(),
        arguments: Seq::<char>::empty(),
    }
}

/// `c` with the fragment `d` appended to its id, name and arguments.
pub open spec fn extend_call(c: ToolCallView, d: ToolCallDelta) -> ToolCallView {
    ToolCallView {
        id: c.id + opt_text(d.id),
        call_type: c.call_type,
        name: c.name + opt_text(d.name),
        arguments: c.arguments + opt_text(d.arguments),
    }
}

/// The index that a fragment belongs to (`0` when it names none).
pub open spec fn delta_index(d: ToolCallDelta) -> usize {
    match d.index {
        Some(i) => i,
        None => 0,
    }
}

/// Whether the indices of the entries strictly increase.
pub open spec fn sorted_by_index(e: Seq<(usize, ToolCallView)>) -> bool {
    forall|a: int, b: int| 0 <= a < b < e.len() ==> #[trigger] e[a].0 < #[trigger] e[b].0
}

/// The number of entries whose index is below `idx`.
pub open spec fn insert_position(e: Seq<(usize, ToolCallView)>, idx: usize) -> int
    decreases e.len(),
{
    if e.len() == 0 {
        0
    } else if e.last().0 < idx {
        insert_position(e.drop_last(), idx) + 1
    } else {
        insert_position(e.drop_last(), idx)
    }
}

/// The entries after the fragment `d` has arrived: the entry with its index
/// grows, or a new entry takes its place in index order.
pub open spec fn add_delta(e: Seq<(usize, ToolCallView)>, d: ToolCallDelta) -> Seq<(usize, ToolCallView)> {
    let idx = delta_index(d);
    if exists|p: int| 0 <= p < e.len() && #[trigger] e[p].0 == idx {
        let p = choose|p: int| 0 <= p < e.len() && #[trigger] e[p].0 == idx;
        e.update(p, (idx, extend_call(e[p].1, d)))
    } else {
        e.insert(insert_position(e, idx), (idx, extend_call(blank_call(), d)))
    }
}

/// Gathers a streamed model reply: its text, and its tool calls by index.
pub struct StreamAccumulator {
    content: String,
    calls: Vec<(usize, ToolCall)>,
}

impl StreamAccumulator {
    /// The text gathered so far.
    pub closed spec fn text(&self) -> Seq<char> {
        self.content@
    }

    /// The tool calls gathered so far, with their indices, in index order.
    pub closed spec fn entries(&self) -> Seq<(usize, ToolCallView)> {
        self.calls@.map_values(|e: (usize, ToolCall)| (e.0, e.1.deep_view()))
    }

    /// The entries are ordered by index, and every call is a function call.
    pub closed spec fn wf(&self) -> bool {
        &&& sorted_by_index(self.entries())
        &&& forall|k: int| 0 <= k < self.entries().len() ==> #[trigger] self.entries()[k].1.call_type == "function"@
    }

    /// Nothing gathered yet.
    pub fn new() -> (a: Self)
        ensures
            a.wf(),
            a.text() == Seq::<char>::empty(),
            a.entries() == Seq::<(usize, ToolCallView)>::empty(),
    {
        let a = StreamAccumulator { content: String::new(), calls: Vec::new() };
        assert(a.entries() =~= Seq::<(usize, ToolCallView)>::empty());
        a
    }

    /// Appends a fragment of the reply's text.
    pub fn push_content(&mut self, delta: &str)
        requires
            old(self).wf(),
        ensures
            final(self).wf(),
            final(self).text() == old(self).text() + delta@,
            final(self).entries() == old(self).entries(),
    {
        self.content.append(delta);
    }

    proof fn lemma_insert_position(e: Seq<(usize, ToolCallView)>, idx: usize, p: int)
        requires
            sorted_by_index(e),
            0 <= p <= e.len(),
            forall|k: int| 0 <= k < p ==> #[trigger] e[k].0 < idx,
            p == e.len() || e[p].0 > idx,
        ensures
            insert_position(e, idx) == p,
        decreases e.len(),
    {
        if e.len() > 0 {
            let t = e.drop_last();
            if p == e.len() {
                assert forall|k: int| 0 <= k < p - 1 implies #[trigger] t[k].0 < idx by {
                    assert(t[k] == e[k]);
                }
                if p - 1 < t.len() {
                } else {
                }
                Self::lemma_insert_position(t, idx, p - 1);
            } else {
                assert(e.last().0 >= e[p].0);
                assert forall|k: int| 0 <= k < p implies #[trigger] t[k].0 < idx by {
                    assert(t[k] == e[k]);
                }
                if p < t.len() {
                    assert(t[p] == e[p]);
                }
                Self::lemma_insert_position(t, idx, p);
            }
        }
    }

    /// Adds a fragment of a tool call.
    pub fn push_tool_delta(&mut self, d: ToolCallDelta)
        requires
            old(self).wf(),
        ensures
            final(self).wf(),
            final(self).text() == old(self).text(),
            final(self).entries() == add_delta(old(self).entries(), d),
    {
        let ghost e = self.entries();
        let idx = match d.index {
            Some(i) => i,
            None => 0,
        };
        let n = self.calls.len();
        let mut p: usize = 0;
        while p < n && self.calls[p].0 < idx
            invariant
                n == self.calls@.len(),
                e == self.entries(),
                self.wf(),
                p <= n,
                forall|k: int| 0 <= k < p ==> #[trigger] e[k].0 < idx,
            decreases n - p,
        {
            assert(e[p as int].0 == self.calls@[p as int].0);
            p = p + 1;
        }
        let fresh = p == n || self.calls[p].0 != idx;
        if fresh {
            proof {
                if p < n {
                    assert(e[p as int].0 == self.calls@[p as int].0);
                    assert(e[p as int].0 > idx);
                }
                Self::lemma_insert_position(e, idx, p as int);
                assert forall|q: int| 0 <= q < e.len() implies #[trigger] e[q].0 != idx by {
                    if q < p {
                    } else if q > p {
                        assert(e[q].0 > e[p as int].0);
                    }
                }
            }
            let mut c = ToolCall {
                id: String::new(),
                call_type: String::from_str("function"),
                function: FunctionCall { name: String::new(), arguments: String::new() },
            };
            match &d.id {
                Some(s) => c.id.append(s.as_str()),
                None => {},
            }
            match &d.name {
                Some(s) => c.function.name.append(s.as_str()),
                None => {},
            }
            match &d.arguments {
                Some(s) => c.function.arguments.append(s.as_str()),
                None => {},
            }
            assert(c.deep_view() == extend_call(blank_call(), d));
            self.calls.insert(p, (idx, c));
            proof {
                assert(self.entries() =~= e.insert(p as int, (idx, extend_call(blank_call(), d))));
                assert forall|a: int, b: int| 0 <= a < b < self.entries().len() implies
                    #[trigger] self.entries()[a].0 < #[trigger] self.entries()[b].0 by {
                    let f = self.entries();
                    if b < p {
                        assert(f[a] == e[a] && f[b] == e[b]);
                    } else if b == p {
                        assert(f[a] == e[a]);
                    } else if a < p {
                        assert(f[a] == e[a] && f[b] == e[b - 1]);
                    } else if a == p {
                        assert(f[b] == e[b - 1]);
                    } else {
                        assert(f[a] == e[a - 1] && f[b] == e[b - 1]);
                    }
                }
                assert forall|k: int| 0 <= k < self.entries().len() implies
                    #[trigger] self.entries()[k].1.call_type == "function"@ by {
                    let f = self.entries();
                    if k < p {
                        assert(f[k] == e[k]);
                    } else if k > p {
                        assert(f[k] == e[k - 1]);
                    }
                }
            }
        } else {
            proof {
                assert(e[p as int].0 == idx);
            }
            let (i0, mut c) = self.calls.remove(p);
            match &d.id {
                Some(s) => c.id.append(s.as_str()),
                None => {},
            }
            match &d.name {
                Some(s) => c.function.name.append(s.as_str()),
                None => {},
            }
            match &d.arguments {
                Some(s) => c.function.arguments.append(s.as_str()),
                None => {},
            }
            self.calls.insert(p, (i0, c));
            proof {
                let q = choose|q: int| 0 <= q < e.len() && #[trigger] e[q].0 == idx;
                if q != p {
                    if q < p {
                        assert(e[q].0 < e[p as int].0);
                    } else {
                        assert(e[p as int].0 < e[q].0);
                    }
                }
                assert(self.entries() =~= e.update(p as int, (idx, extend_call(e[p as int].1, d))));
                assert forall|a: int, b: int| 0 <= a < b < self.entries().len() implies
                    #[trigger] self.entries()[a].0 < #[trigger] self.entries()[b].0 by {
                    assert(self.entries()[a].0 == e[a].0 && self.entries()[b].0 == e[b].0);
                }
                assert forall|k: int| 0 <= k < self.entries().len() implies
                    #[trigger] self.entries()[k].1.call_type == "function"@ by {
                    assert(self.entries()[k].1.call_type == e[k].1.call_type);
                }
            }
        }
    }

    /// The reply's text and its tool calls in index order.
    pub fn finish(self) -> (r: (String, Vec<ToolCall>))
        ensures
            r.0@ == self.text(),
            r.1.deep_view() == self.entries().map_values(|e: (usize, ToolCallView)| e.1),
    {
        let mut out: Vec<ToolCall> = Vec::new();
        let ghost e = self.entries();
        let mut calls = self.calls;
        let n = calls.len();
        let mut i: usize = 0;
        while i < n
            invariant
                n == calls@.len(),
                e == calls@.map_values(|x: (usize, ToolCall)| (x.0, x.1.deep_view())),
                i <= n,
                out@.len() == i,
                forall|k: int| 0 <= k < i ==> #[trigger] out@[k].deep_view() == e[k].1,
            decreases n - i,
        {
            out.push(copy_call(&calls[i].1));
            i = i + 1;
        }
        assert(out.deep_view() =~= e.map_values(|x: (usize, ToolCallView)| x.1));
        (self.content, out)
    }
}

fn copy_call(c: &ToolCall) -> (r: ToolCall)
    ensures
        r.deep_view() == c.deep_view(),
{
    crate::message::copy_tool_call(c)
}

/// The cache usage event of a streamed chunk: reported only when the
/// provider read from or wrote to its prompt cache.
pub fn usage_event(cache_read: Option<u64>, cache_creation: Option<u64>) -> (e: Option<AgentEvent>)
    ensures
        ({
            let r = match cache_read { Some(n) => n, None => 0 };
            let c = match cache_creation { Some(n) => n, None => 0 };
            &&& (r > 0 || c > 0) ==> e == Some(AgentEvent::TokenUsage { cache_read: r, cache_creation: c })
            &&& !(r > 0 || c > 0) ==> e is None
        }),
{
    let r = match cache_read {
        Some(n) => n,
        None => 0,
    };
    let c = match cache_creation {
        Some(n) => n,
        None => 0,
    };
    if r > 0 || c > 0 {
        Some(AgentEvent::TokenUsage { cache_read: r, cache_creation: c })
    } else {
        None
    }
}

} // verus!

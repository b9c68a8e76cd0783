use vstd::prelude::*;
use crate::message::{copy_message, Message, MessageView};

verus! {

/// The number of tokens that OpenAI's `cl100k_base` encoding gives `text`
/// with all special tokens allowed, or `None` where the encoding could not be
/// loaded.
pub uninterp spec fn cl100k_token_count(text: Seq<char>) -> Option<usize>;

/// Calls `tiktoken_rs::cl100k_base()` and, where it loads, counts what
/// `CoreBPE::encode_with_special_tokens(text)` returns. The contract names that
/// count and says nothing more of it: the encoding is tiktoken's.
#[verifier::external_body]
fn cl100k_count(text: &str) -> (r: Option<usize>)
    ensures
        r == cl100k_token_count(text@),
{
    match tiktoken_rs::cl100k_base() {
        Ok(bpe) => Some(bpe.encode_with_special_tokens(text).len()),
        Err(_) => None,
    }
}

/// The approximate number of tokens in `text`: the `cl100k_base` count, or a
/// quarter of the number of characters where the encoding cannot be loaded.
pub open spec fn token_count(text: Seq<char>) -> nat {
    match cl100k_token_count(text) {
        Some(n) => n as nat,
        None => text.len() / 4,
    }
}

/// Assistant turns and tool results may be folded into a summary; system and
/// user messages never are.
pub open spec fn is_compressible(m: MessageView) -> bool {
    m is Assistant || m is Tool
}

/// The tokens that a message's content counts for.
pub open spec fn message_tokens(m: MessageView) -> nat {
    match m {
        MessageView::System { content } => token_count(content),
        MessageView::User { content, .. } => token_count(content),
        MessageView::Assistant { content, .. } => match content {
            Some(c) => token_count(c),
            None => 0,
        },
        MessageView::Tool { content, .. } => token_count(content),
    }
}

/// The tokens of all messages.
pub open spec fn total_tokens(ms: Seq<MessageView>) -> nat
    decreases ms.len(),
{
    if ms.len() == 0 {
        0
    } else {
        total_tokens(ms.drop_last()) + message_tokens(ms.last())
    }
}

/// The tokens of the compressible messages.
pub open spec fn compressible_tokens(ms: Seq<MessageView>) -> nat
    decreases ms.len(),
{
    if ms.len() == 0 {
        0
    } else if is_compressible(ms.last()) {
        compressible_tokens(ms.drop_last()) + message_tokens(ms.last())
    } else {
        compressible_tokens(ms.drop_last())
    }
}

/// The messages that are never compressed, in order.
pub open spec fn kept(ms: Seq<MessageView>) -> Seq<MessageView>
    decreases ms.len(),
{
    if ms.len() == 0 {
        seq![]
    } else if is_compressible(ms.last()) {
        kept(ms.drop_last())
    } else {
        kept(ms.drop_last()).push(ms.last())
    }
}

/// The compressible messages, in order.
pub open spec fn folded(ms: Seq<MessageView>) -> Seq<MessageView>
    decreases ms.len(),
{
    if ms.len() == 0 {
        seq![]
    } else if is_compressible(ms.last()) {
        folded(ms.drop_last()).push(ms.last())
    } else {
        folded(ms.drop_last())
    }
}

/// The tokens of the conversation once the compressible messages of
/// `ms.take(i)` are folded away, counting `reserve` tokens for the summary
/// that stands for them whenever at least one is folded.
pub open spec fn tokens_after_folding(ms: Seq<MessageView>, i: int, reserve: nat) -> int {
    total_tokens(ms) - compressible_tokens(ms.take(i)) + (if folded(ms.take(i)).len() > 0 { reserve as int } else { 0 })
}

/// Where the scan from the oldest message stops: at the first position from
/// `i` on where the conversation, with the compressible messages before it
/// folded into a summary of `reserve` tokens, fits in `max` (or at the end).
pub open spec fn scan_end(ms: Seq<MessageView>, max: nat, reserve: nat, i: int) -> int
    decreases ms.len() - i,
{
    if i < 0 || i >= ms.len() || tokens_after_folding(ms, i, reserve) <= max {
        i
    } else {
        scan_end(ms, max, reserve, i + 1)
    }
}

/// The messages that stay as they are: those before the scan's end that are
/// never compressed, and all after it.
pub open spec fn retained_spec(ms: Seq<MessageView>, max: nat, reserve: nat) -> Seq<MessageView> {
    let e = scan_end(ms, max, reserve, 0);
    kept(ms.take(e)) + ms.skip(e)
}

/// The messages that go into the summary: the compressible ones before the scan's end.
pub open spec fn summarized_spec(ms: Seq<MessageView>, max: nat, reserve: nat) -> Seq<MessageView> {
    folded(ms.take(scan_end(ms, max, reserve, 0)))
}

/// The assistant message that stands for the folded messages.
pub open spec fn summary_message(text: Seq<char>) -> MessageView {
    MessageView::Assistant {
        content: Some("<summary>"@ + text + "</summary>"@),
        tool_calls: None,
        reasoning_content: None,
    }
}

/// `s` with `sm` placed before its first compressible message, or at its end.
pub open spec fn with_summary(s: Seq<MessageView>, sm: MessageView) -> Seq<MessageView>
    decreases s.len(),
{
    if s.len() == 0 {
        seq![sm]
    } else if is_compressible(s[0]) {
        seq![sm] + s
    } else {
        seq![s[0]] + with_summary(s.drop_first(), sm)
    }
}

/// What compression gives for the messages `ms`, a limit `max`, `reserve`
/// tokens set aside for the summary, and the summary text.
pub open spec fn compress_with(ms: Seq<MessageView>, max: nat, reserve: nat, text: Seq<char>) -> Seq<MessageView> {
    if summarized_spec(ms, max, reserve).len() == 0 {
        retained_spec(ms, max, reserve)
    } else {
        with_summary(retained_spec(ms, max, reserve), summary_message(text))
    }
}

/// What compression gives for the messages `ms`, a limit `max` and a summary
/// text, setting aside exactly the summary message's own tokens.
pub open spec fn compress_spec(ms: Seq<MessageView>, max: nat, text: Seq<char>) -> Seq<MessageView> {
    compress_with(ms, max, message_tokens(summary_message(text)), text)
}

/// The request for a summary of the folded messages.
pub open spec fn summary_prompt_spec(d: Seq<MessageView>) -> Seq<char>
    decreases d.len(),
{
    if d.len() == 0 {
        SUMMARY_REQUEST@
    } else {
        summary_prompt_spec(d.drop_last()) + summary_line(d.last())
    }
}

/// The line of the summary request that stands for one folded message.
pub open spec fn summary_line(m: MessageView) -> Seq<char> {
    match m {
        MessageView::Assistant { content, .. } => "Assistant: "@ + match content {
            Some(c) => c,
            None => Seq::<char>::empty(),
        } + "\n"@,
        MessageView::Tool { content, .. } => "Tool: "@ + content + "\n"@,
        _ => Seq::<char>::empty(),
    }
}

/// The opening of the request for a summary.
pub const SUMMARY_REQUEST: &'static str = "Please write a concise, one-paragraph summary of the following assistant actions and tool results. Retain all factual information, IDs, and paths.\n\n";

/// The summary text used where no model is asked for one.
pub const MOCK_SUMMARY: &'static str = "Summary generated (mocked)";

/// The summary text used where the model gives no answer.
pub const FAILED_SUMMARY: &'static str = "Summary generation failed";

proof fn lemma_take_step(ms: Seq<MessageView>, i: int)
    requires
        0 <= i < ms.len(),
    ensures
        ms.take(i + 1).drop_last() == ms.take(i),
        ms.take(i + 1).last() == ms[i],
{
    assert(ms.take(i + 1).drop_last() =~= ms.take(i));
}

proof fn lemma_token_bounds(ms: Seq<MessageView>, i: int)
    requires
        0 <= i <= ms.len(),
    ensures
        compressible_tokens(ms.take(i)) <= total_tokens(ms.take(i)),
        total_tokens(ms.take(i)) <= total_tokens(ms),
    decreases ms.len() - i,
{
    if i == ms.len() {
        assert(ms.take(i) =~= ms);
        lemma_compressible_le_total(ms);
    } else {
        lemma_token_bounds(ms, i + 1);
        lemma_take_step(ms, i);
        lemma_compressible_le_total(ms.take(i));
    }
}

proof fn lemma_compressible_le_total(ms: Seq<MessageView>)
    ensures
        compressible_tokens(ms) <= total_tokens(ms),
    decreases ms.len(),
{
    if ms.len() > 0 {
        lemma_compressible_le_total(ms.drop_last());
    }
}

proof fn lemma_scan_end_bounds(ms: Seq<MessageView>, max: nat, reserve: nat, i: int)
    requires
        0 <= i <= ms.len(),
    ensures
        i <= scan_end(ms, max, reserve, i) <= ms.len(),
        scan_end(ms, max, reserve, i) == ms.len()
            || tokens_after_folding(ms, scan_end(ms, max, reserve, i), reserve) <= max,
    decreases ms.len() - i,
{
    if i < ms.len() && tokens_after_folding(ms, i, reserve) > max {
        lemma_scan_end_bounds(ms, max, reserve, i + 1);
    }
}

proof fn lemma_with_summary_prefix(r: Seq<MessageView>, sm: MessageView, i: int)
    requires
        0 <= i <= r.len(),
        forall|k: int| 0 <= k < i ==> !is_compressible(#[trigger] r[k]),
    ensures
        with_summary(r, sm) == r.take(i) + with_summary(r.skip(i), sm),
    decreases i,
{
    if i == 0 {
        assert(r.take(0) + with_summary(r.skip(0), sm) =~= with_summary(r, sm)) by {
            assert(r.skip(0) =~= r);
        }
    } else {
        let t = r.drop_first();
        assert forall|k: int| 0 <= k < i - 1 implies !is_compressible(#[trigger] t[k]) by {
            assert(t[k] == r[k + 1]);
        }
        lemma_with_summary_prefix(t, sm, i - 1);
        assert(t.skip(i - 1) =~= r.skip(i));
        assert(r.take(i) =~= seq![r[0]] + t.take(i - 1));
        assert(!is_compressible(r[0]));
    }
}

/// The token limit of a conversation and the rules by which a conversation
/// over it is shortened.
pub struct ContextEngine {
    pub max_tokens: usize,
}

/// The outcome of the first step of compression: the messages that stay and
/// those that are to be folded into a summary.
pub struct CompressionPlan {
    pub retained: Vec<Message>,
    pub to_summarize: Vec<Message>,
}

impl ContextEngine {
    /// An engine that keeps conversations within `max_tokens` tokens.
    pub fn new(max_tokens: usize) -> (e: Self)
        ensures
            e.max_tokens == max_tokens,
    {
        ContextEngine { max_tokens }
    }

    /// Counts the approximate number of tokens in a string using the
    /// `cl100k_base` encoding.
    pub fn count_tokens(&self, text: &str) -> (n: usize)
        ensures
            n == token_count(text@),
    {
        match cl100k_count(text) {
            Some(n) => n,
            None => text.unicode_len() / 4,
        }
    }

    /// The tokens that a message's content counts for.
    pub fn message_tokens(&self, m: &Message) -> (n: usize)
        ensures
            n == message_tokens(m.deep_view()),
    {
        match m {
            Message::System { content } => self.count_tokens(content.as_str()),
            Message::User { content, .. } => self.count_tokens(content.as_str()),
            Message::Assistant { content, .. } => match content {
                Some(c) => self.count_tokens(c.as_str()),
                None => 0,
            },
            Message::Tool { content, .. } => self.count_tokens(content.as_str()),
        }
    }

    /// Splits the conversation into the messages that stay and those that
    /// are folded into a summary, setting `reserve` tokens aside for the
    /// summary. Within the limit nothing is folded; over it, the oldest
    /// assistant turns and tool results are folded until the rest, with the
    /// summary, fits or the conversation ends. System and user messages always stay.
    pub fn plan(&self, messages: &[Message], reserve: usize) -> (p: CompressionPlan)
        ensures
            p.retained.deep_view() == retained_spec(messages.deep_view(), self.max_tokens as nat, reserve as nat),
            p.to_summarize.deep_view() == summarized_spec(messages.deep_view(), self.max_tokens as nat, reserve as nat),
    {
        let ghost ms = messages.deep_view();
        let ghost max = self.max_tokens as nat;
        let ghost r = reserve as nat;
        let n = messages.len();
        let mut total: u128 = 0;
        for i in 0..n
            invariant
                n == ms.len(),
                ms == messages.deep_view(),
                total == total_tokens(ms.take(i as int)),
                total <= i * 0xffff_ffff_ffff_ffff,
        {
            let t = self.message_tokens(&messages[i]);
            proof {
                lemma_take_step(ms, i as int);
                assert(total + t <= (i + 1) * 0xffff_ffff_ffff_ffff) by (nonlinear_arith)
                    requires
                        total <= i * 0xffff_ffff_ffff_ffff,
                        t <= 0xffff_ffff_ffff_ffff,
                ;
                assert((i + 1) * 0xffff_ffff_ffff_ffff <= 0xffff_ffff_ffff_fffe_0000_0000_0000_0001) by (nonlinear_arith)
                    requires
                        i + 1 <= 0xffff_ffff_ffff_ffff,
                ;
            }
            total = total + t as u128;
        }
        proof {
            assert(ms.take(n as int) =~= ms);
            assert(n * 0xffff_ffff_ffff_ffff <= 0xffff_ffff_ffff_fffe_0000_0000_0000_0001) by (nonlinear_arith)
                requires
                    n <= 0xffff_ffff_ffff_ffff,
            ;
        }
        let mut retained: Vec<Message> = Vec::new();
        let mut to_summarize: Vec<Message> = Vec::new();
        let mut current: u128 = total;
        let mut idx: usize = 0;
        proof {
            assert(ms.take(0) =~= Seq::<MessageView>::empty());
            assert(retained.deep_view() =~= kept(ms.take(0)));
            assert(to_summarize.deep_view() =~= folded(ms.take(0)));
        }
        let mut set_aside: u128 = 0;
        while idx < n && current + set_aside > self.max_tokens as u128
            invariant
                set_aside == (if to_summarize@.len() > 0 { reserve as u128 } else { 0u128 }),
                n == ms.len(),
                ms == messages.deep_view(),
                max == self.max_tokens as nat,
                r == reserve as nat,
                total == total_tokens(ms),
                total <= 0xffff_ffff_ffff_fffe_0000_0000_0000_0001,
                idx <= n,
                current == total_tokens(ms) - compressible_tokens(ms.take(idx as int)),
                current <= total,
                retained.deep_view() == kept(ms.take(idx as int)),
                to_summarize.deep_view() == folded(ms.take(idx as int)),
                scan_end(ms, max, r, 0) == scan_end(ms, max, r, idx as int),
            decreases n - idx,
        {
            proof {
                lemma_take_step(ms, idx as int);
                lemma_token_bounds(ms, idx as int + 1);
            }
            let m = &messages[idx];
            match m {
                Message::Assistant { .. } | Message::Tool { .. } => {
                    let t = self.message_tokens(m);
                    to_summarize.push(copy_message(m));
                    set_aside = reserve as u128;
                    proof {
                        assert(to_summarize.deep_view() =~= folded(ms.take(idx + 1)));
                    }
                    current = current - t as u128;
                },
                _ => {
                    retained.push(copy_message(m));
                    proof {
                        assert(retained.deep_view() =~= kept(ms.take(idx + 1)));
                    }
                },
            }
            idx = idx + 1;
        }
        proof {
            assert(scan_end(ms, max, r, idx as int) == idx);
        }
        let ghost head = retained.deep_view();
        for k in idx..n
            invariant
                n == ms.len(),
                ms == messages.deep_view(),
                idx <= n,
                retained.deep_view() == head + ms.subrange(idx as int, k as int),
        {
            let ghost before = retained.deep_view();
            let c = copy_message(&messages[k]);
            retained.push(c);
            proof {
                assert(ms[k as int] == messages@[k as int].deep_view());
                assert(retained.deep_view() =~= before.push(ms[k as int]));
                assert(ms.subrange(idx as int, k + 1) =~= ms.subrange(idx as int, k as int).push(ms[k as int]));
                assert(retained.deep_view() =~= head + ms.subrange(idx as int, k + 1));
            }
        }
        proof {
            assert(ms.subrange(idx as int, n as int) =~= ms.skip(idx as int));
        }
        CompressionPlan { retained, to_summarize }
    }

    /// Compresses a list of messages so that the total token count is under
    /// `max_tokens`, folding the oldest assistant turns and tool results into
    /// a summary block; where no model is asked, the summary says so.
    pub fn compress(&self, messages: &[Message]) -> (r: Vec<Message>)
        ensures
            r.deep_view() == compress_spec(messages.deep_view(), self.max_tokens as nat, MOCK_SUMMARY@),
    {
        let reserve = self.summary_tokens(MOCK_SUMMARY);
        let plan = self.plan(messages, reserve);
        plan.finish(MOCK_SUMMARY)
    }

    /// The tokens of the message that stands for folded messages with the
    /// given summary text.
    pub fn summary_tokens(&self, summary_text: &str) -> (n: usize)
        ensures
            n == message_tokens(summary_message(summary_text@)),
    {
        let mut t = String::from_str("<summary>");
        t.append(summary_text);
        t.append("</summary>");
        self.count_tokens(t.as_str())
    }
}

impl CompressionPlan {
    /// The request that asks a model to summarize the folded messages.
    pub fn summary_prompt(&self) -> (p: String)
        ensures
            p@ == summary_prompt_spec(self.to_summarize.deep_view()),
    {
        let ghost d = self.to_summarize.deep_view();
        let mut p = String::from_str(SUMMARY_REQUEST);
        for i in 0..self.to_summarize.len()
            invariant
                d == self.to_summarize.deep_view(),
                p@ == summary_prompt_spec(d.take(i as int)),
        {
            proof {
                lemma_take_step(d, i as int);
            }
            match &self.to_summarize[i] {
                Message::Assistant { content, .. } => {
                    p.append("Assistant: ");
                    match content {
                        Some(c) => p.append(c.as_str()),
                        None => {},
                    }
                    p.append("\n");
                },
                Message::Tool { content, .. } => {
                    p.append("Tool: ");
                    p.append(content.as_str());
                    p.append("\n");
                },
                _ => {},
            }
            proof {
                assert(p@ =~= summary_prompt_spec(d.take(i + 1)));
            }
        }
        proof {
            assert(d.take(d.len() as int) =~= d);
        }
        p
    }

    /// The compressed conversation: the retained messages, with an assistant
    /// message holding `<summary>…</summary>` placed before the first retained
    /// assistant turn or tool result (or at the end). Where nothing was folded
    /// the retained messages come back as they are.
    pub fn finish(self, summary_text: &str) -> (r: Vec<Message>)
        ensures
            r.deep_view() == (if self.to_summarize.deep_view().len() == 0 {
                self.retained.deep_view()
            } else {
                with_summary(self.retained.deep_view(), summary_message(summary_text@))
            }),
    {
        if self.to_summarize.len() == 0 {
            return self.retained;
        }
        let ghost rs = self.retained.deep_view();
        let mut text = String::from_str("<summary>");
        text.append(summary_text);
        text.append("</summary>");
        let sm = Message::Assistant { content: Some(text), tool_calls: None, reasoning_content: None };
        let ghost smv = sm.deep_view();
        assert(smv == summary_message(summary_text@));
        let mut out: Vec<Message> = Vec::new();
        let mut inserted = false;
        let n = self.retained.len();
        for i in 0..n
            invariant
                n == rs.len(),
                rs == self.retained.deep_view(),
                smv == sm.deep_view(),
                !inserted ==> out.deep_view() == rs.take(i as int),
                !inserted ==> forall|k: int| 0 <= k < i ==> !is_compressible(#[trigger] rs[k]),
                inserted ==> out.deep_view() + rs.skip(i as int) == with_summary(rs, smv),
        {
            let m = &self.retained[i];
            let is_c = match m {
                Message::Assistant { .. } | Message::Tool { .. } => true,
                _ => false,
            };
            if !inserted && is_c {
                proof {
                    lemma_with_summary_prefix(rs, smv, i as int);
                    assert(with_summary(rs.skip(i as int), smv) == seq![smv] + rs.skip(i as int));
                }
                out.push(copy_message(&sm));
                inserted = true;
                proof {
                    assert(out.deep_view() + rs.skip(i as int) =~= with_summary(rs, smv));
                }
            }
            let ghost before = out.deep_view();
            out.push(copy_message(m));
            proof {
                if inserted {
                    assert(out.deep_view() + rs.skip(i + 1) =~= before + rs.skip(i as int));
                } else {
                    assert(out.deep_view() =~= rs.take(i + 1));
                }
            }
        }
        if !inserted {
            proof {
                lemma_with_summary_prefix(rs, smv, n as int);
                assert(rs.skip(n as int) =~= Seq::<MessageView>::empty());
                assert(rs.take(n as int) =~= rs);
            }
            out.push(sm);
            proof {
                assert(out.deep_view() =~= with_summary(rs, smv));
            }
        } else {
            proof {
                assert(rs.skip(n as int) =~= Seq::<MessageView>::empty());
                assert(out.deep_view() + rs.skip(n as int) =~= out.deep_view());
            }
        }
        out
    }
}

/// The number of summaries asked for, at most, in one compression.
pub const SUMMARY_ROUNDS: usize = 3;

/// What follows the `round`-th summary (counting from 1), of `needed`
/// tokens, for a plan made with `reserve` tokens set aside: `None` when the
/// summary keeps within the reserve, or when it was the last summary to ask
/// for (the plan is finished with it); else the reserve to plan again with.
pub fn next_reserve(reserve: usize, needed: usize, round: usize) -> (r: Option<usize>)
    ensures
        needed <= reserve || round >= SUMMARY_ROUNDS ==> r is None,
        needed > reserve && round < SUMMARY_ROUNDS ==> r == Some(needed),
{
    if needed <= reserve || round >= SUMMARY_ROUNDS {
        None
    } else {
        Some(needed)
    }
}

/// The summary text taken from a model's answer: the content of its first
/// choice, or a note that the summary failed where there is none (or the
/// request failed).
pub fn summary_text_from_reply(first_choice_content: Option<String>) -> (t: String)
    ensures
        first_choice_content is Some ==> t@ == first_choice_content->0@,
        first_choice_content is None ==> t@ == FAILED_SUMMARY@,
{
    match first_choice_content {
        Some(c) => c,
        None => String::from_str(FAILED_SUMMARY),
    }
}

proof fn lemma_kept_concat(a: Seq<MessageView>, b: Seq<MessageView>)
    ensures
        kept(a + b) == kept(a) + kept(b),
    decreases b.len(),
{
    if b.len() == 0 {
        assert(a + b =~= a);
        assert(kept(a) + kept(b) =~= kept(a));
    } else {
        lemma_kept_concat(a, b.drop_last());
        assert((a + b).drop_last() =~= a + b.drop_last());
        assert((a + b).last() == b.last());
        if is_compressible(b.last()) {
        } else {
            assert(kept(a) + kept(b.drop_last()).push(b.last()) =~= (kept(a) + kept(b.drop_last())).push(b.last()));
        }
    }
}

proof fn lemma_kept_idempotent(a: Seq<MessageView>)
    ensures
        kept(kept(a)) == kept(a),
    decreases a.len(),
{
    if a.len() > 0 {
        lemma_kept_idempotent(a.drop_last());
        if !is_compressible(a.last()) {
            let k = kept(a.drop_last());
            assert(kept(a) == k.push(a.last()));
            assert(k.push(a.last()).drop_last() =~= k);
        }
    }
}

proof fn lemma_kept_with_summary(r: Seq<MessageView>, sm: MessageView)
    requires
        is_compressible(sm),
    ensures
        kept(with_summary(r, sm)) == kept(r),
    decreases r.len(),
{
    lemma_kept_concat(seq![sm], r);
    assert(kept(seq![sm]) =~= Seq::<MessageView>::empty()) by {
        let one = seq![sm];
        assert(one.len() == 1);
        assert(one.last() == sm);
        assert(one.drop_last() =~= Seq::<MessageView>::empty());
        assert(kept(one.drop_last()) =~= Seq::<MessageView>::empty());
    }
    if r.len() == 0 {
        assert(seq![sm] + r =~= seq![sm]);
    } else if is_compressible(r[0]) {
        assert(kept(seq![sm] + r) =~= kept(r));
    } else {
        lemma_kept_with_summary(r.drop_first(), sm);
        lemma_kept_concat(seq![r[0]], r.drop_first());
        lemma_kept_concat(seq![r[0]], with_summary(r.drop_first(), sm));
        assert(seq![r[0]] + r.drop_first() =~= r);
    }
}

proof fn lemma_with_summary_contains(r: Seq<MessageView>, sm: MessageView)
    ensures
        with_summary(r, sm).contains(sm),
    decreases r.len(),
{
    if r.len() == 0 {
        assert(with_summary(r, sm)[0] == sm);
    } else if is_compressible(r[0]) {
        assert(with_summary(r, sm)[0] == sm);
    } else {
        lemma_with_summary_contains(r.drop_first(), sm);
        let w = with_summary(r.drop_first(), sm);
        let i = choose|i: int| 0 <= i < w.len() && w[i] == sm;
        assert(with_summary(r, sm)[i + 1] == sm);
    }
}

/// A conversation within the token limit comes back unchanged.
pub proof fn lemma_within_limit_unchanged(ms: Seq<MessageView>, max: nat, text: Seq<char>)
    requires
        total_tokens(ms) <= max,
    ensures
        compress_spec(ms, max, text) == ms,
{
    let r = message_tokens(summary_message(text));
    assert(ms.take(0) =~= Seq::<MessageView>::empty());
    assert(folded(ms.take(0)).len() == 0);
    assert(scan_end(ms, max, r, 0) == 0);
    assert(ms.skip(0) =~= ms);
    assert(kept(ms.take(0)) + ms.skip(0) =~= ms);
}

/// Compression never drops or changes a system or user message: those of
/// the result are those of the input, in the same order.
pub proof fn lemma_system_and_user_messages_kept(ms: Seq<MessageView>, max: nat, text: Seq<char>)
    ensures
        kept(compress_spec(ms, max, text)) == kept(ms),
{
    let r = message_tokens(summary_message(text));
    let e = scan_end(ms, max, r, 0);
    lemma_scan_end_bounds(ms, max, r, 0);
    lemma_kept_concat(kept(ms.take(e)), ms.skip(e));
    lemma_kept_idempotent(ms.take(e));
    lemma_kept_concat(ms.take(e), ms.skip(e));
    assert(ms.take(e) + ms.skip(e) =~= ms);
    if summarized_spec(ms, max, r).len() != 0 {
        lemma_kept_with_summary(retained_spec(ms, max, r), summary_message(text));
    }
}

/// Whenever messages are folded away, the result holds the summary that stands for them.
pub proof fn lemma_summary_present(ms: Seq<MessageView>, max: nat, text: Seq<char>)
    requires
        summarized_spec(ms, max, message_tokens(summary_message(text))).len() > 0,
    ensures
        compress_spec(ms, max, text).contains(summary_message(text)),
{
    lemma_with_summary_contains(retained_spec(ms, max, message_tokens(summary_message(text))), summary_message(text));
}

proof fn lemma_total_concat(a: Seq<MessageView>, b: Seq<MessageView>)
    ensures
        total_tokens(a + b) == total_tokens(a) + total_tokens(b),
    decreases b.len(),
{
    if b.len() == 0 {
        assert(a + b =~= a);
    } else {
        lemma_total_concat(a, b.drop_last());
        assert((a + b).drop_last() =~= a + b.drop_last());
        assert((a + b).last() == b.last());
    }
}

proof fn lemma_kept_total(a: Seq<MessageView>)
    ensures
        total_tokens(kept(a)) + compressible_tokens(a) == total_tokens(a),
    decreases a.len(),
{
    if a.len() > 0 {
        lemma_kept_total(a.drop_last());
        if !is_compressible(a.last()) {
            let k = kept(a.drop_last());
            assert(k.push(a.last()).drop_last() =~= k);
            assert(k.push(a.last()).last() == a.last());
        }
    }
}

proof fn lemma_kept_none_compressible(a: Seq<MessageView>)
    ensures
        forall|k: int| 0 <= k < kept(a).len() ==> !is_compressible(#[trigger] kept(a)[k]),
    decreases a.len(),
{
    if a.len() > 0 {
        lemma_kept_none_compressible(a.drop_last());
        let k0 = kept(a.drop_last());
        if !is_compressible(a.last()) {
            assert forall|k: int| 0 <= k < kept(a).len() implies !is_compressible(#[trigger] kept(a)[k]) by {
                if k < k0.len() {
                    assert(kept(a)[k] == k0[k]);
                }
            }
        }
    }
}

/// `with_summary` inserts the summary once: before the first compressible
/// message, or at the end.
proof fn lemma_with_summary_insert(r: Seq<MessageView>, sm: MessageView)
    ensures
        exists|p: int| #![trigger r.take(p)]
            0 <= p <= r.len()
            && with_summary(r, sm) == r.take(p).push(sm) + r.skip(p)
            && (forall|k: int| 0 <= k < p ==> !is_compressible(#[trigger] r[k]))
            && (p < r.len() ==> is_compressible(r[p])),
    decreases r.len(),
{
    if r.len() == 0 {
        assert(with_summary(r, sm) =~= r.take(0).push(sm) + r.skip(0));
    } else if is_compressible(r[0]) {
        assert(with_summary(r, sm) =~= r.take(0).push(sm) + r.skip(0));
    } else {
        let t = r.drop_first();
        lemma_with_summary_insert(t, sm);
        let q = choose|q: int| #![trigger t.take(q)]
            0 <= q <= t.len()
            && with_summary(t, sm) == t.take(q).push(sm) + t.skip(q)
            && (forall|k: int| 0 <= k < q ==> !is_compressible(#[trigger] t[k]))
            && (q < t.len() ==> is_compressible(t[q]));
        assert(with_summary(r, sm) =~= r.take(q + 1).push(sm) + r.skip(q + 1));
        assert forall|k: int| 0 <= k < q + 1 implies !is_compressible(#[trigger] r[k]) by {
            if k > 0 {
                assert(r[k] == t[k - 1]);
            }
        }
        if q + 1 < r.len() {
            assert(r[q + 1] == t[q]);
        }
    }
}

proof fn lemma_total_with_summary(r: Seq<MessageView>, sm: MessageView)
    ensures
        total_tokens(with_summary(r, sm)) == total_tokens(r) + message_tokens(sm),
{
    lemma_with_summary_insert(r, sm);
    let p = choose|p: int| #![trigger r.take(p)]
        0 <= p <= r.len()
        && with_summary(r, sm) == r.take(p).push(sm) + r.skip(p)
        && (forall|k: int| 0 <= k < p ==> !is_compressible(#[trigger] r[k]))
        && (p < r.len() ==> is_compressible(r[p]));
    lemma_total_concat(r.take(p).push(sm), r.skip(p));
    lemma_total_concat(r.take(p), seq![sm]);
    assert(r.take(p) + seq![sm] =~= r.take(p).push(sm));
    lemma_total_concat(r.take(p), r.skip(p));
    assert(r.take(p) + r.skip(p) =~= r);
    let one = seq![sm];
    assert(one.drop_last() =~= Seq::<MessageView>::empty());
    assert(one.last() == sm);
    assert(total_tokens(one) == total_tokens(one.drop_last()) + message_tokens(sm));
    assert(total_tokens(Seq::<MessageView>::empty()) == 0);
}

/// The tokens of the messages that stay: all tokens but those folded before
/// the scan's end.
proof fn lemma_retained_total(ms: Seq<MessageView>, max: nat, reserve: nat)
    ensures
        total_tokens(retained_spec(ms, max, reserve))
            == total_tokens(ms) - compressible_tokens(ms.take(scan_end(ms, max, reserve, 0))),
{
    let e = scan_end(ms, max, reserve, 0);
    lemma_scan_end_bounds(ms, max, reserve, 0);
    let head = ms.take(e);
    let tail = ms.skip(e);
    lemma_total_concat(kept(head), tail);
    lemma_kept_total(head);
    lemma_total_concat(head, tail);
    assert(head + tail =~= ms);
}

/// Folding goes on until the conversation, with the summary counted at its
/// reserve, fits within the limit, or no compressible message is left: then
/// every assistant turn and tool result is folded. So whenever the system
/// and user messages together with the reserve fit, and the summary keeps
/// within its reserve, the compressed conversation, summary included, fits
/// within the limit.
pub proof fn lemma_compressed_fits_with_reserve(ms: Seq<MessageView>, max: nat, reserve: nat, text: Seq<char>)
    ensures
        tokens_after_folding(ms, scan_end(ms, max, reserve, 0), reserve) <= max
            || summarized_spec(ms, max, reserve) == folded(ms),
        total_tokens(kept(ms)) + reserve <= max && message_tokens(summary_message(text)) <= reserve
            ==> total_tokens(compress_with(ms, max, reserve, text)) <= max,
{
    let e = scan_end(ms, max, reserve, 0);
    lemma_scan_end_bounds(ms, max, reserve, 0);
    lemma_retained_total(ms, max, reserve);
    if e == ms.len() {
        assert(ms.take(e) =~= ms);
        lemma_kept_total(ms);
    }
    if summarized_spec(ms, max, reserve).len() > 0 {
        lemma_total_with_summary(retained_spec(ms, max, reserve), summary_message(text));
    }
}

/// Compression keeps the conversation within the limit: whenever the
/// system and user messages together with the summary message fit, so does
/// the compressed conversation, summary included.
pub proof fn lemma_compressed_fits(ms: Seq<MessageView>, max: nat, text: Seq<char>)
    ensures
        total_tokens(kept(ms)) + message_tokens(summary_message(text)) <= max
            ==> total_tokens(compress_spec(ms, max, text)) <= max,
{
    lemma_compressed_fits_with_reserve(ms, max, message_tokens(summary_message(text)), text);
}

/// The shape of a compressed conversation: for the scan's end `e`, the
/// folded messages are the assistant turns and tool results before `e`; the
/// messages that stay are the system and user messages before `e` followed,
/// unchanged and in order, by all messages from `e` on, so every folded
/// message comes before every assistant turn or tool result that stays; and
/// where something is folded, the summary is inserted once, just before the
/// first assistant turn or tool result that stays (or at the end).
pub proof fn lemma_compress_shape(ms: Seq<MessageView>, max: nat, reserve: nat, text: Seq<char>)
    ensures
        ({
            let e = scan_end(ms, max, reserve, 0);
            let r = retained_spec(ms, max, reserve);
            &&& 0 <= e <= ms.len()
            &&& summarized_spec(ms, max, reserve) == folded(ms.take(e))
            &&& r == kept(ms.take(e)) + ms.skip(e)
            &&& forall|k: int| 0 <= k < r.len() && #[trigger] is_compressible(r[k])
                    ==> kept(ms.take(e)).len() <= k && r[k] == ms[e + k - kept(ms.take(e)).len()]
            &&& summarized_spec(ms, max, reserve).len() == 0 ==> compress_with(ms, max, reserve, text) == r
            &&& summarized_spec(ms, max, reserve).len() > 0 ==> exists|p: int| #![trigger r.take(p)]
                    0 <= p <= r.len()
                    && compress_with(ms, max, reserve, text) == r.take(p).push(summary_message(text)) + r.skip(p)
                    && (forall|k: int| 0 <= k < p ==> !is_compressible(#[trigger] r[k]))
                    && (p < r.len() ==> is_compressible(r[p]))
        }),
{
    let e = scan_end(ms, max, reserve, 0);
    let r = retained_spec(ms, max, reserve);
    let kh = kept(ms.take(e));
    lemma_scan_end_bounds(ms, max, reserve, 0);
    lemma_kept_none_compressible(ms.take(e));
    assert forall|k: int| 0 <= k < r.len() && #[trigger] is_compressible(r[k])
        implies kh.len() <= k && r[k] == ms[e + k - kh.len()] by {
        if k < kh.len() {
            assert(r[k] == kh[k]);
        } else {
            assert(r[k] == ms.skip(e)[k - kh.len()]);
        }
    }
    lemma_with_summary_insert(r, summary_message(text));
}

} // verus!

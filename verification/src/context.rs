//! What the context compressor draws from a conversation: the background,
//! the decisions, the user's intent, the results, the errors, the open
//! issues and the plans, and the token estimate that decides when to
//! compress.

use vstd::prelude::*;
use crate::network::Message;
use crate::text::{seq_join, has_substring, contains_str, string_views};

verus! {

/// Whether a message passes a rule: it has the role, when one is given,
/// and its content contains the first keyword or the second, when given.
pub open spec fn matches_rule(m: Message, role: Option<Seq<char>>, k1: Seq<char>, k2: Option<Seq<char>>) -> bool {
    &&& match role { Some(r) => m.role@ == r, None => true }
    &&& has_substring(m.content@, k1) || (k2 matches Some(k) && has_substring(m.content@, k))
}

/// The contents of the messages that pass a rule, in order.
pub open spec fn matching_contents(ms: Seq<Message>, role: Option<Seq<char>>, k1: Seq<char>, k2: Option<Seq<char>>) -> Seq<Seq<char>>
    decreases ms.len(),
{
    if ms.len() == 0 {
        Seq::empty()
    } else {
        let r = matching_contents(ms.drop_last(), role, k1, k2);
        if matches_rule(ms.last(), role, k1, k2) { r.push(ms.last().content@) } else { r }
    }
}

/// The contents of the messages that pass a rule.
fn collect_matching(messages: &[Message], role: Option<&str>, k1: &str, k2: Option<&str>) -> (res: Vec<String>)
    ensures
        string_views(res@) == matching_contents(messages@, match role { Some(r) => Some(r@), None => None },
            k1@, match k2 { Some(k) => Some(k@), None => None }),
{
    let ghost rv: Option<Seq<char>> = match role { Some(r) => Some(r@), None => None };
    let ghost kv: Option<Seq<char>> = match k2 { Some(k) => Some(k@), None => None };
    let ghost ms = messages@;
    let mut res: Vec<String> = Vec::new();
    let mut i: usize = 0;
    while i < messages.len()
        invariant
            i <= ms.len(),
            ms == messages@,
            rv == match role { Some(r) => Some(r@), None => None::<Seq<char>> },
            kv == match k2 { Some(k) => Some(k@), None => None::<Seq<char>> },
            string_views(res@) == matching_contents(ms.take(i as int), rv, k1@, kv),
        decreases messages.len() - i,
    {
        let m = &messages[i];
        let role_ok = match role {
            Some(r) => m.role == String::from_str(r),
            None => true,
        };
        let key_ok = contains_str(m.content.as_str(), k1) || match k2 {
            Some(k) => contains_str(m.content.as_str(), k),
            None => false,
        };
        let ghost before = string_views(res@);
        if role_ok && key_ok {
            res.push(m.content.clone());
            assert(string_views(res@) =~= before.push(m.content@));
        }
        proof {
            assert(ms.take(i + 1).drop_last() =~= ms.take(i as int));
            assert(ms.take(i + 1).last() == ms[i as int]);
        }
        i = i + 1;
    }
    assert(ms.take(ms.len() as int) =~= ms);
    res
}

/// The first five messages, or all of them when there are fewer.
pub open spec fn first_five(ms: Seq<Message>) -> Seq<Message> {
    if ms.len() < 5 { ms } else { ms.take(5) }
}

/// The background: the contents of the user and system messages among the
/// first five, joined with " | ".
pub open spec fn background_of(ms: Seq<Message>) -> Seq<char> {
    seq_join(background_parts(first_five(ms)), " | "@)
}

/// The contents of the user and system messages, in order.
pub open spec fn background_parts(ms: Seq<Message>) -> Seq<Seq<char>>
    decreases ms.len(),
{
    if ms.len() == 0 {
        Seq::empty()
    } else {
        let r = background_parts(ms.drop_last());
        let m = ms.last();
        if m.role@ == "user"@ || m.role@ == "system"@ { r.push(m.content@) } else { r }
    }
}

/// The background context of a conversation.
pub fn extract_background_context(messages: &[Message]) -> (s: String)
    ensures
        s@ == background_of(messages@),
{
    let ghost ms = first_five(messages@);
    let count = if messages.len() < 5 { messages.len() } else { 5 };
    let mut parts: Vec<String> = Vec::new();
    let mut i: usize = 0;
    while i < count
        invariant
            i <= count,
            count == ms.len(),
            ms == first_five(messages@),
            forall|j: int| 0 <= j < count ==> ms[j] == messages@[j],
            string_views(parts@) == background_parts(ms.take(i as int)),
        decreases count - i,
    {
        let m = &messages[i];
        let ghost before = string_views(parts@);
        if m.role == String::from_str("user") || m.role == String::from_str("system") {
            parts.push(m.content.clone());
            assert(string_views(parts@) =~= before.push(m.content@));
        }
        proof {
            assert(ms.take(i + 1).drop_last() =~= ms.take(i as int));
            assert(ms.take(i + 1).last() == ms[i as int]);
        }
        i = i + 1;
    }
    assert(ms.take(count as int) =~= ms);
    crate::text::join_strings(&parts, " | ")
}

/// The key decisions: assistant messages that speak of deciding or
/// choosing ("决定", "选择").
pub fn extract_key_decisions(messages: &[Message]) -> (v: Vec<String>)
    ensures
        string_views(v@) == matching_contents(messages@, Some("assistant"@), "决定"@, Some("选择"@)),
{
    collect_matching(messages, Some("assistant"), "决定", Some("选择"))
}

/// The results: assistant messages that speak of a result ("结果").
pub fn summarize_execution_results(messages: &[Message]) -> (v: Vec<String>)
    ensures
        string_views(v@) == matching_contents(messages@, Some("assistant"@), "结果"@, None),
{
    collect_matching(messages, Some("assistant"), "结果", None)
}

/// The error cases: messages that mention an error ("错误" or "error").
pub fn extract_error_cases(messages: &[Message]) -> (v: Vec<String>)
    ensures
        string_views(v@) == matching_contents(messages@, None, "错误"@, Some("error"@)),
{
    collect_matching(messages, None, "错误", Some("error"))
}

/// The open issues: messages that mention a problem or something to solve
/// ("问题" or "待解决").
pub fn identify_open_issues(messages: &[Message]) -> (v: Vec<String>)
    ensures
        string_views(v@) == matching_contents(messages@, None, "问题"@, Some("待解决"@)),
{
    collect_matching(messages, None, "问题", Some("待解决"))
}

/// The plans: messages that mention a plan or a next step ("计划" or
/// "下一步").
pub fn generate_future_plans(messages: &[Message]) -> (v: Vec<String>)
    ensures
        string_views(v@) == matching_contents(messages@, None, "计划"@, Some("下一步"@)),
{
    collect_matching(messages, None, "计划", Some("下一步"))
}

/// The position of the last user message, if any.
pub open spec fn last_user(ms: Seq<Message>) -> Option<int>
    decreases ms.len(),
{
    if ms.len() == 0 {
        None
    } else if ms.last().role@ == "user"@ {
        Some(ms.len() - 1)
    } else {
        last_user(ms.drop_last())
    }
}

proof fn lemma_last_user(ms: Seq<Message>)
    ensures
        last_user(ms) matches Some(i) ==> 0 <= i < ms.len() && ms[i].role@ == "user"@,
    decreases ms.len(),
{
    if ms.len() > 0 {
        lemma_last_user(ms.drop_last());
    }
}

/// The user's intent: the content of the last user message, or "No clear
/// user intent identified" when there is none.
pub fn extract_user_intent(messages: &[Message]) -> (s: String)
    ensures
        match last_user(messages@) {
            Some(i) => s@ == messages@[i].content@,
            None => s@ == "No clear user intent identified"@,
        },
{
    let ghost ms = messages@;
    let mut i = messages.len();
    assert(ms.take(ms.len() as int) =~= ms);
    while i > 0
        invariant
            i <= ms.len(),
            ms == messages@,
            last_user(ms) == last_user(ms.take(i as int)),
        decreases i,
    {
        let ghost t = ms.take(i as int);
        assert(t.drop_last() =~= ms.take(i - 1));
        assert(t.last() == ms[i - 1]);
        if messages[i - 1].role == String::from_str("user") {
            proof { lemma_last_user(ms); }
            return messages[i - 1].content.clone();
        }
        i = i - 1;
    }
    assert(ms.take(0) =~= Seq::<Message>::empty());
    String::from_str("No clear user intent identified")
}

/// The byte length of each content, summed.
pub open spec fn content_bytes(ms: Seq<Message>) -> nat
    decreases ms.len(),
{
    if ms.len() == 0 { 0 } else { content_bytes(ms.drop_last()) + crate::gateway::byte_len(ms.last().content@) }
}

/// The estimated number of tokens: a token for every four bytes of content,
/// counted over all messages and cut to 32 bits.
pub fn estimate_token_count(messages: &[Message]) -> (n: u32)
    requires
        content_bytes(messages@) <= usize::MAX,
    ensures
        n == ((content_bytes(messages@) / 4) as u32),
{
    let ghost ms = messages@;
    let mut total: usize = 0;
    let mut i: usize = 0;
    while i < messages.len()
        invariant
            i <= ms.len(),
            ms == messages@,
            content_bytes(ms) <= usize::MAX,
            total == content_bytes(ms.take(i as int)),
        decreases messages.len() - i,
    {
        proof {
            assert(ms.take(i + 1).drop_last() =~= ms.take(i as int));
            assert(ms.take(i + 1).last() == ms[i as int]);
            lemma_content_bytes_prefix(ms, i + 1);
        }
        let len = messages[i].content.as_str().len();
        total = total + len;
        i = i + 1;
    }
    assert(ms.take(ms.len() as int) =~= ms);
    (total / 4) as u32
}

proof fn lemma_content_bytes_prefix(ms: Seq<Message>, k: int)
    requires
        0 <= k <= ms.len(),
    ensures
        content_bytes(ms.take(k)) <= content_bytes(ms),
    decreases ms.len() - k,
{
    if k < ms.len() {
        lemma_content_bytes_prefix(ms, k + 1);
        assert(ms.take(k + 1).drop_last() =~= ms.take(k));
    } else {
        assert(ms.take(k) =~= ms);
    }
}

} // verus!

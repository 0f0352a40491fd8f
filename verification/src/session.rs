//! Stateful conversation sessions and their registry.
//!
//! A session's message count always equals the length of its history, and
//! a turn appends the user message and then the assistant reply, so the
//! reply of a turn always directly follows its user message. A registry
//! holds sessions keyed by identifier, each identifier held once.

use vstd::prelude::*;
use crate::chat::Message;
use crate::chat::Model;
use crate::chat::Role;
use crate::chat::Tool;
use crate::chat::Usage;
use crate::error::GrokError;

verus! {

/// Relies on chrono::Utc::now and its millisecond timestamp; the result
/// depends on the clock, so nothing is assumed of it.
#[verifier::external_body]
pub(crate) fn now_millis() -> i64 {
    chrono::Utc::now().timestamp_millis()
}

/// Relies on uuid::Uuid::new_v4 and its hyphenated rendering: a fresh
/// random identifier, 36 characters long; nothing further is assumed of
/// a random value.
#[verifier::external_body]
pub(crate) fn fresh_id() -> (r: String)
    ensures
        r@.len() == 36,
{
    uuid::Uuid::new_v4().to_string()
}

/// The system messages of a history, in order.
pub open spec fn keep_system(s: Seq<Message>) -> Seq<Message> {
    s.filter(|m: Message| m.role is System)
}

/// Session metadata.
#[derive(Debug, Clone)]
pub struct SessionMetadata {
    /// Human-readable title.
    pub title: Option<String>,
    /// Creation timestamp, in milliseconds.
    pub created_at: i64,
    /// Last activity timestamp, in milliseconds.
    pub updated_at: i64,
    /// Running token count for the session.
    pub total_tokens: u64,
    /// Number of messages in the session.
    pub message_count: usize,
}

/// A stateful conversation session.
#[derive(Debug)]
pub struct Session {
    /// Unique session ID.
    pub id: String,
    /// Model used for this session.
    pub model: Model,
    /// Conversation history, in append order.
    pub messages: Vec<Message>,
    /// Tools enabled for this session.
    pub tools: Vec<Tool>,
    /// Session metadata.
    pub metadata: SessionMetadata,
}

impl Session {
    /// The reported message count agrees with the history.
    pub open spec fn wf(&self) -> bool {
        self.metadata.message_count == self.messages@.len()
    }

    /// Create a new session with a fresh identifier.
    pub fn new(model: Model, title: Option<String>) -> (s: Session)
        ensures
            s.wf(),
            s.id@.len() == 36,
            s.model == model,
            s.metadata.title == title,
            s.messages@.len() == 0,
            s.tools@.len() == 0,
            s.metadata.total_tokens == 0,
            s.metadata.message_count == 0,
            s.metadata.created_at == s.metadata.updated_at,
    {
        let id = fresh_id();
        let now = now_millis();
        Session {
            id,
            model,
            messages: Vec::new(),
            tools: Vec::new(),
            metadata: SessionMetadata {
                title,
                created_at: now,
                updated_at: now,
                total_tokens: 0,
                message_count: 0,
            },
        }
    }

    /// Rebuild a session from stored parts.
    pub fn restore(id: String, model: Model, created_at: i64, messages: Vec<Message>) -> (s:
        Session)
        ensures
            s.wf(),
            s.id == id,
            s.model == model,
            s.messages == messages,
            s.tools@.len() == 0,
            s.metadata.title is None,
            s.metadata.created_at == created_at,
            s.metadata.total_tokens == 0,
    {
        let count = messages.len();
        Session {
            id,
            model,
            messages,
            tools: Vec::new(),
            metadata: SessionMetadata {
                title: None,
                created_at,
                updated_at: created_at,
                total_tokens: 0,
                message_count: count,
            },
        }
    }

    /// Add a tool to the session.
    pub fn add_tool(&mut self, tool: Tool)
        ensures
            final(self).tools@ == old(self).tools@.push(tool),
            final(self).id == old(self).id,
            final(self).model == old(self).model,
            final(self).messages == old(self).messages,
            final(self).metadata == old(self).metadata,
    {
        self.tools.push(tool);
    }

    /// Add several tools to the session.
    pub fn add_tools(&mut self, tools: Vec<Tool>)
        ensures
            final(self).tools@ == old(self).tools@ + tools@,
            final(self).id == old(self).id,
            final(self).model == old(self).model,
            final(self).messages == old(self).messages,
            final(self).metadata == old(self).metadata,
    {
        let mut tools = tools;
        self.tools.append(&mut tools);
    }

    /// Append a message to the history; the count and the activity
    /// timestamp move with it, as one observable unit.
    pub fn append(&mut self, message: Message)
        requires
            old(self).wf(),
        ensures
            final(self).wf(),
            final(self).messages@ == old(self).messages@.push(message),
            final(self).metadata.message_count == old(self).metadata.message_count + 1,
            final(self).id == old(self).id,
            final(self).model == old(self).model,
            final(self).tools == old(self).tools,
            final(self).metadata.title == old(self).metadata.title,
            final(self).metadata.created_at == old(self).metadata.created_at,
            final(self).metadata.total_tokens == old(self).metadata.total_tokens,
    {
        self.messages.push(message);
        self.metadata.message_count = self.messages.len();
        self.metadata.updated_at = now_millis();
    }

    /// Open a turn: append the user message. The turn is not rolled back
    /// if the exchange later fails; a caller that wants atomicity removes
    /// the trailing user message itself.
    pub fn begin_turn(&mut self, content: &str)
        requires
            old(self).wf(),
        ensures
            final(self).wf(),
            final(self).messages@.len() == old(self).messages@.len() + 1,
            final(self).messages@.drop_last() == old(self).messages@,
            final(self).messages@.last().role == Role::User,
            final(self).messages@.last().content@ == content@,
            final(self).messages@.last().tool_calls is None,
            final(self).id == old(self).id,
            final(self).model == old(self).model,
            final(self).tools == old(self).tools,
            final(self).metadata.title == old(self).metadata.title,
            final(self).metadata.created_at == old(self).metadata.created_at,
            final(self).metadata.total_tokens == old(self).metadata.total_tokens,
    {
        let m = Message::user(content);
        self.append(m);
        proof {
            assert(self.messages@.drop_last() =~= old(self).messages@);
        }
    }

    /// Close a turn: append the assistant reply and record its token
    /// usage, saturating at the counter's width.
    pub fn complete_turn(&mut self, reply: Message, usage: Option<Usage>)
        requires
            old(self).wf(),
        ensures
            final(self).wf(),
            final(self).messages@ == old(self).messages@.push(reply),
            final(self).metadata.total_tokens as nat == clamped(
                old(self).metadata.total_tokens as nat + match usage {
                    Some(u) => u.total_tokens as nat,
                    None => 0,
                },
                u64::MAX as nat,
            ),
            final(self).id == old(self).id,
            final(self).model == old(self).model,
            final(self).tools == old(self).tools,
            final(self).metadata.title == old(self).metadata.title,
            final(self).metadata.created_at == old(self).metadata.created_at,
    {
        self.append(reply);
        match usage {
            Some(u) => {
                self.metadata.total_tokens = self.metadata.total_tokens.saturating_add(
                    u.total_tokens as u64,
                );
            },
            None => {},
        }
    }

    /// The conversation history.
    pub fn messages(&self) -> (r: &Vec<Message>)
        ensures
            r == &self.messages,
    {
        &self.messages
    }

    /// The session metadata.
    pub fn metadata(&self) -> (r: &SessionMetadata)
        ensures
            r == &self.metadata,
    {
        &self.metadata
    }

    /// Clear the history, keeping only the system messages.
    pub fn clear_history(&mut self)
        requires
            old(self).wf(),
        ensures
            final(self).wf(),
            final(self).messages@ == keep_system(old(self).messages@),
            final(self).id == old(self).id,
            final(self).model == old(self).model,
            final(self).tools == old(self).tools,
            final(self).metadata.title == old(self).metadata.title,
            final(self).metadata.created_at == old(self).metadata.created_at,
            final(self).metadata.total_tokens == old(self).metadata.total_tokens,
    {
        let mut msgs: Vec<Message> = Vec::new();
        core::mem::swap(&mut self.messages, &mut msgs);
        let ghost orig = msgs@;
        let mut kept: Vec<Message> = Vec::new();
        let mut k: usize = 0;
        let n = msgs.len();
        proof {
            assert(orig.take(0) =~= Seq::<Message>::empty());
            reveal(Seq::filter);
        }
        while k < n
            invariant
                n == orig.len(),
                0 <= k <= n,
                msgs@ == orig.skip(k as int),
                kept@ == keep_system(orig.take(k as int)),
            decreases n - k,
        {
            proof {
                assert(msgs@[0] == orig[k as int]);
                assert(orig.take(k + 1).drop_last() =~= orig.take(k as int));
                assert(orig.take(k + 1).last() == orig[k as int]);
                assert(msgs@.remove(0) =~= orig.skip(k + 1));
                reveal(Seq::filter);
            }
            let m = msgs.remove(0);
            let keep = match m.role {
                Role::System => true,
                _ => false,
            };
            if keep {
                kept.push(m);
            }
            k = k + 1;
        }
        proof {
            assert(orig.take(n as int) =~= orig);
        }
        let count = kept.len();
        self.messages = kept;
        self.metadata.message_count = count;
        self.metadata.updated_at = now_millis();
    }

    /// The number of messages in the session.
    pub fn message_count(&self) -> (r: usize)
        ensures
            r == self.metadata.message_count,
    {
        self.metadata.message_count
    }
}

/// The reply of a turn stands directly after its user message: opening a
/// turn on history `h` and closing it with `reply` yields the history
/// `h` with the user message and then the reply appended, so the reply of
/// turn `n` is never placed before turn `n`'s user message nor after a
/// later turn's user message.
pub proof fn lemma_turn_order(h: Seq<Message>, user: Message, reply: Message)
    ensures
        h.push(user).push(reply)[h.len() as int] == user,
        h.push(user).push(reply)[h.len() as int + 1] == reply,
        h.push(user).push(reply).len() == h.len() + 2,
        forall|k: int| 0 <= k < h.len() ==> h.push(user).push(reply)[k] == h[k],
{
}

/// Turns run one after the other never interleave: the reply of the
/// first turn stands after that turn's user message and before the
/// second turn's user message, which in turn precedes the second reply.
pub proof fn lemma_turns_serialize(
    h: Seq<Message>,
    user1: Message,
    reply1: Message,
    user2: Message,
    reply2: Message,
)
    ensures
        ({
            let t = h.push(user1).push(reply1).push(user2).push(reply2);
            &&& t.len() == h.len() + 4
            &&& t[h.len() as int] == user1
            &&& t[h.len() as int + 1] == reply1
            &&& t[h.len() as int + 2] == user2
            &&& t[h.len() as int + 3] == reply2
        }),
{
}

/// Session statistics.
#[derive(Debug, Clone, Copy, PartialEq, Eq, Structural)]
pub struct SessionStats {
    /// Total number of sessions.
    pub total_sessions: usize,
    /// Total number of messages across all sessions.
    pub total_messages: usize,
    /// Total tokens used across all sessions.
    pub total_tokens: u64,
}

/// The first position holding a session with the given identifier.
pub open spec fn find_session(s: Seq<Session>, id: Seq<char>) -> Option<int>
    decreases s.len(),
{
    if s.len() == 0 {
        None
    } else if s[0].id@ == id {
        Some(0int)
    } else {
        match find_session(s.drop_first(), id) {
            Some(i) => Some(i + 1),
            None => None,
        }
    }
}

/// What `find_session` finds: the first match, or evidence of none.
pub proof fn lemma_find_session(s: Seq<Session>, id: Seq<char>)
    ensures
        match find_session(s, id) {
            Some(i) => 0 <= i < s.len() && s[i].id@ == id && forall|j: int|
                0 <= j < i ==> s[j].id@ != id,
            None => forall|j: int| 0 <= j < s.len() ==> s[j].id@ != id,
        },
    decreases s.len(),
{
    if s.len() > 0 && s[0].id@ != id {
        lemma_find_session(s.drop_first(), id);
        match find_session(s.drop_first(), id) {
            Some(i) => {
                assert forall|j: int| 0 <= j < i + 1 implies s[j].id@ != id by {
                    if j > 0 {
                        assert(s.drop_first()[j - 1] == s[j]);
                    }
                }
            },
            None => {
                assert forall|j: int| 0 <= j < s.len() implies s[j].id@ != id by {
                    if j > 0 {
                        assert(s.drop_first()[j - 1] == s[j]);
                    }
                }
            },
        }
    }
}

/// The total message count over a set of sessions.
pub open spec fn sum_messages(s: Seq<Session>) -> nat
    decreases s.len(),
{
    if s.len() == 0 {
        0
    } else {
        sum_messages(s.drop_last()) + s.last().metadata.message_count as nat
    }
}

/// The total token count over a set of sessions.
pub open spec fn sum_tokens(s: Seq<Session>) -> nat
    decreases s.len(),
{
    if s.len() == 0 {
        0
    } else {
        sum_tokens(s.drop_last()) + s.last().metadata.total_tokens as nat
    }
}

/// A value clamped to a ceiling.
pub open spec fn clamped(n: nat, max: nat) -> nat {
    if n > max {
        max
    } else {
        n
    }
}

/// Registry of sessions, each held once under its identifier.
#[derive(Debug)]
pub struct SessionManager {
    /// The sessions, identifiers pairwise distinct.
    pub sessions: Vec<Session>,
}

impl SessionManager {
    /// Identifiers are pairwise distinct and every session is consistent.
    pub open spec fn wf(&self) -> bool {
        &&& forall|i: int, j: int|
            0 <= i < j < self.sessions@.len() ==> #[trigger] self.sessions@[i].id@ != #[trigger] self.sessions@[j].id@
        &&& forall|i: int| 0 <= i < self.sessions@.len() ==> (#[trigger] self.sessions@[i]).wf()
    }

    /// Create an empty registry.
    pub fn new() -> (m: SessionManager)
        ensures
            m.wf(),
            m.sessions@.len() == 0,
    {
        SessionManager { sessions: Vec::new() }
    }

    /// Create a session and register it, returning its identifier. A
    /// session already held under the same identifier is replaced.
    pub fn create_session(&mut self, model: Model, title: Option<String>) -> (r: String)
        requires
            old(self).wf(),
        ensures
            final(self).wf(),
            r@.len() == 36,
            ({
                let found = find_session(final(self).sessions@, r@);
                found matches Some(i) && {
                    let s = final(self).sessions@[i];
                    &&& s.wf()
                    &&& s.id@ == r@
                    &&& s.model == model
                    &&& s.metadata.title == title
                    &&& s.messages@.len() == 0
                    &&& s.metadata.message_count == 0
                    &&& s.metadata.total_tokens == 0
                }
            }),
            forall|j: int|
                0 <= j < old(self).sessions@.len() && (#[trigger] old(self).sessions@[j]).id@
                    != r@ ==> final(self).sessions@.contains(old(self).sessions@[j]),
            find_session(old(self).sessions@, r@) is None ==> final(self).sessions@.len() == old(
                self,
            ).sessions@.len() + 1,
    {
        let session = Session::new(model, title);
        let id = session.id.clone();
        self.insert_session(session);
        id
    }

    /// Register a session under its identifier, replacing any session
    /// already held under it.
    pub fn insert_session(&mut self, session: Session)
        requires
            old(self).wf(),
            session.wf(),
        ensures
            final(self).wf(),
            ({
                let found = find_session(final(self).sessions@, session.id@);
                found matches Some(i) && final(self).sessions@[i] == session
            }),
            forall|j: int|
                0 <= j < old(self).sessions@.len() && (#[trigger] old(self).sessions@[j]).id@
                    != session.id@ ==> final(self).sessions@.contains(old(self).sessions@[j]),
            (match find_session(old(self).sessions@, session.id@) {
                None => final(self).sessions@ == old(self).sessions@.push(session),
                Some(i) => final(self).sessions@ == old(self).sessions@.update(i, session),
            }),
    {
        proof {
            lemma_find_session(self.sessions@, session.id@);
        }
        match self.position_of(session.id.as_str()) {
            Some(i) => {
                self.sessions[i] = session;
                proof {
                    let olds = old(self).sessions@;
                    let news = self.sessions@;
                    lemma_find_session_prefix_stable(olds, news, session.id@);
                    assert forall|j: int|
                        0 <= j < olds.len() && olds[j].id@ != session.id@ implies news.contains(
                        #[trigger] olds[j],
                    ) by {
                        assert(news[j] == olds[j]);
                    }
                }
            },
            None => {
                self.sessions.push(session);
                proof {
                    let olds = old(self).sessions@;
                    let news = self.sessions@;
                    lemma_find_session_push(olds, session);
                    assert forall|j: int|
                        0 <= j < olds.len() && olds[j].id@ != session.id@ implies news.contains(
                        #[trigger] olds[j],
                    ) by {
                        assert(news[j] == olds[j]);
                    }
                }
            },
        }
    }

    /// The position of the session with the given identifier, if any.
    fn position_of(&self, session_id: &str) -> (r: Option<usize>)
        ensures
            match find_session(self.sessions@, session_id@) {
                Some(i) => r matches Some(u) && u == i,
                None => r is None,
            },
    {
        proof {
            lemma_find_session(self.sessions@, session_id@);
        }
        let n = self.sessions.len();
        let mut i: usize = 0;
        while i < n
            invariant
                n == self.sessions@.len(),
                0 <= i <= n,
                forall|j: int| 0 <= j < i ==> (#[trigger] self.sessions@[j]).id@ != session_id@,
            decreases n - i,
        {
            if crate::strutil::str_eq(self.sessions[i].id.as_str(), session_id) {
                proof {
                    lemma_find_session_first(self.sessions@, session_id@, i as int);
                }
                return Some(i);
            }
            i = i + 1;
        }
        proof {
            lemma_find_session(self.sessions@, session_id@);
            if find_session(self.sessions@, session_id@) is Some {
                let k = find_session(self.sessions@, session_id@).unwrap();
                assert(self.sessions@[k].id@ == session_id@);
            }
        }
        None
    }

    /// The session with the given identifier, if registered.
    pub fn get_session(&self, session_id: &str) -> (r: Option<&Session>)
        ensures
            match find_session(self.sessions@, session_id@) {
                Some(i) => r matches Some(s) && *s == self.sessions@[i],
                None => r is None,
            },
    {
        proof {
            lemma_find_session(self.sessions@, session_id@);
        }
        match self.position_of(session_id) {
            Some(i) => Some(&self.sessions[i]),
            None => None,
        }
    }

    /// Check a session out of the registry, taking ownership; pair with
    /// `insert_session` to put a changed session back.
    pub fn take_session(&mut self, session_id: &str) -> (r: Option<Session>)
        requires
            old(self).wf(),
        ensures
            final(self).wf(),
            match find_session(old(self).sessions@, session_id@) {
                Some(i) => r matches Some(s) && s == old(self).sessions@[i] && (final(self).sessions@ == old(self).sessions@.remove(i)),
                None => r is None && final(self).sessions@ == old(self).sessions@,
            },
    {
        proof {
            lemma_find_session(self.sessions@, session_id@);
        }
        match self.position_of(session_id) {
            Some(i) => {
                let s = self.sessions.remove(i);
                proof {
                    let olds = old(self).sessions@;
                    let news = self.sessions@;
                    assert forall|a: int, b: int|
                        0 <= a < b < news.len() implies (#[trigger] news[a]).id@ != (
                    #[trigger] news[b]).id@ by {
                        let oa = if a < i { a } else { a + 1 };
                        let ob = if b < i { b } else { b + 1 };
                        assert(news[a] == olds[oa]);
                        assert(news[b] == olds[ob]);
                    }
                    assert forall|a: int| 0 <= a < news.len() implies (#[trigger] news[a]).wf()
                        by {
                        let oa = if a < i { a } else { a + 1 };
                        assert(news[a] == olds[oa]);
                    }
                }
                Some(s)
            },
            None => None,
        }
    }

    /// All registered sessions.
    pub fn list_sessions(&self) -> (r: &Vec<Session>)
        ensures
            r == &self.sessions,
    {
        &self.sessions
    }

    /// Remove a session; removing an identifier that is not registered is
    /// a reported error.
    pub fn delete_session(&mut self, session_id: &str) -> (r: Result<(), GrokError>)
        requires
            old(self).wf(),
        ensures
            final(self).wf(),
            match find_session(old(self).sessions@, session_id@) {
                Some(i) => r is Ok && final(self).sessions@ == old(self).sessions@.remove(i),
                None => r matches Err(GrokError::Session(m)) && m@ == "Session '"@ + session_id@
                    + "' not found"@ && final(self).sessions@ == old(self).sessions@,
            },
    {
        match self.take_session(session_id) {
            Some(_) => Ok(()),
            None => {
                let mut m = String::from_str("Session '");
                m.append(session_id);
                m.append("' not found");
                Err(GrokError::Session(m))
            },
        }
    }

    /// Aggregate statistics over all sessions, each counter clamped at
    /// its width.
    pub fn stats(&self) -> (r: SessionStats)
        ensures
            r.total_sessions == self.sessions@.len(),
            r.total_messages == clamped(sum_messages(self.sessions@), usize::MAX as nat),
            r.total_tokens == clamped(sum_tokens(self.sessions@), u64::MAX as nat),
    {
        let n = self.sessions.len();
        let mut total_messages: usize = 0;
        let mut total_tokens: u64 = 0;
        let mut i: usize = 0;
        proof {
            assert(self.sessions@.take(0) =~= Seq::<Session>::empty());
        }
        while i < n
            invariant
                n == self.sessions@.len(),
                0 <= i <= n,
                total_messages == clamped(
                    sum_messages(self.sessions@.take(i as int)),
                    usize::MAX as nat,
                ),
                total_tokens == clamped(
                    sum_tokens(self.sessions@.take(i as int)),
                    u64::MAX as nat,
                ),
            decreases n - i,
        {
            proof {
                assert(self.sessions@.take(i + 1).drop_last() =~= self.sessions@.take(i as int));
                assert(self.sessions@.take(i + 1).last() == self.sessions@[i as int]);
            }
            total_messages = total_messages.saturating_add(
                self.sessions[i].metadata.message_count,
            );
            total_tokens = total_tokens.saturating_add(self.sessions[i].metadata.total_tokens);
            i = i + 1;
        }
        proof {
            assert(self.sessions@.take(n as int) =~= self.sessions@);
        }
        SessionStats { total_sessions: n, total_messages, total_tokens }
    }
}

/// Updating one position leaves every other session where `find_session`
/// saw it; the updated identifier is found at the same place when the new
/// session keeps it.
proof fn lemma_find_session_prefix_stable(before: Seq<Session>, after: Seq<Session>, id: Seq<char>)
    requires
        before.len() == after.len(),
        find_session(before, id) matches Some(i) && after =~= before.update(i, after[i])
            && after[i].id@ == id,
    ensures
        find_session(after, id) == find_session(before, id),
    decreases before.len(),
{
    let i = find_session(before, id).unwrap();
    lemma_find_session(before, id);
    if i == 0 {
    } else {
        assert(after[0] == before[0]);
        assert(after.drop_first() =~= before.drop_first().update(i - 1, after[i]));
        assert(before.drop_first()[i - 1].id@ == id) by {
            assert(before.drop_first()[i - 1] == before[i]);
        }
        lemma_find_session_drop(before.drop_first(), id, i - 1);
        lemma_find_session_prefix_stable(before.drop_first(), after.drop_first(), id);
    }
}

/// When the first match stands at `i`, `find_session` returns `i`.
proof fn lemma_find_session_first(s: Seq<Session>, id: Seq<char>, i: int)
    requires
        0 <= i < s.len(),
        s[i].id@ == id,
        forall|j: int| 0 <= j < i ==> (#[trigger] s[j]).id@ != id,
    ensures
        find_session(s, id) == Some(i),
    decreases i,
{
    if i > 0 {
        assert(forall|j: int|
            0 <= j < i - 1 ==> (#[trigger] s.drop_first()[j]).id@ == s[j + 1].id@);
        lemma_find_session_first(s.drop_first(), id, i - 1);
    }
}

/// Alias of `lemma_find_session_first` under the shape the update proof
/// needs.
proof fn lemma_find_session_drop(s: Seq<Session>, id: Seq<char>, i: int)
    requires
        find_session(s, id) == Some(i),
    ensures
        0 <= i < s.len() && s[i].id@ == id,
{
    lemma_find_session(s, id);
}

/// Pushing a session with a new identifier finds it at the end.
proof fn lemma_find_session_push(s: Seq<Session>, session: Session)
    requires
        find_session(s, session.id@) is None,
    ensures
        find_session(s.push(session), session.id@) == Some(s.len() as int),
{
    lemma_find_session(s, session.id@);
    lemma_find_session_first(s.push(session), session.id@, s.len() as int);
}

} // verus!

//! Collections: named, tagged groupings of sessions with derived
//! aggregate statistics.
//!
//! A collection holds a non-owning membership relation: session
//! identifiers, each at most once. Its derived counters are recomputed
//! from the current membership against the session registry whenever the
//! membership changes — never incremented or decremented in place.

use vstd::prelude::*;
use crate::error::GrokError;
use crate::session::Session;
use crate::session::SessionManager;
use crate::session::clamped;
use crate::session::find_session;
use crate::session::fresh_id;
use crate::session::now_millis;
use crate::strutil::contains_seq;
use crate::strutil::contains_str;
use crate::strutil::lower_of;
use crate::strutil::lower_str;
use crate::strutil::str_eq;

verus! {

/// Collection metadata, including the derived counters.
#[derive(Debug, Clone)]
pub struct CollectionMetadata {
    /// Human-readable name.
    pub name: String,
    /// Description of the collection.
    pub description: Option<String>,
    /// Creation timestamp, in milliseconds.
    pub created_at: i64,
    /// Last activity timestamp, in milliseconds.
    pub updated_at: i64,
    /// Tags for organization.
    pub tags: Vec<String>,
    /// Number of member sessions.
    pub session_count: usize,
    /// Messages across all member sessions.
    pub total_messages: usize,
    /// Tokens across all member sessions.
    pub total_tokens: u64,
}

/// A collection of related sessions.
#[derive(Debug)]
pub struct Collection {
    /// Unique collection ID.
    pub id: String,
    /// Collection metadata.
    pub metadata: CollectionMetadata,
    /// Identifiers of the member sessions, pairwise distinct.
    pub session_ids: Vec<String>,
}

/// The first position of an identifier in a membership list.
pub open spec fn find_id(ids: Seq<String>, id: Seq<char>) -> Option<int>
    decreases ids.len(),
{
    if ids.len() == 0 {
        None
    } else if ids[0]@ == id {
        Some(0int)
    } else {
        match find_id(ids.drop_first(), id) {
            Some(i) => Some(i + 1),
            None => None,
        }
    }
}

/// What `find_id` finds: the first match, or evidence of none.
pub proof fn lemma_find_id(ids: Seq<String>, id: Seq<char>)
    ensures
        match find_id(ids, id) {
            Some(i) => 0 <= i < ids.len() && ids[i]@ == id && forall|j: int|
                0 <= j < i ==> ids[j]@ != id,
            None => forall|j: int| 0 <= j < ids.len() ==> ids[j]@ != id,
        },
    decreases ids.len(),
{
    if ids.len() > 0 && ids[0]@ != id {
        lemma_find_id(ids.drop_first(), id);
        match find_id(ids.drop_first(), id) {
            Some(i) => {
                assert forall|j: int| 0 <= j < i + 1 implies ids[j]@ != id by {
                    if j > 0 {
                        assert(ids.drop_first()[j - 1] == ids[j]);
                    }
                }
            },
            None => {
                assert forall|j: int| 0 <= j < ids.len() implies ids[j]@ != id by {
                    if j > 0 {
                        assert(ids.drop_first()[j - 1] == ids[j]);
                    }
                }
            },
        }
    }
}

/// The messages of the member sessions, counted against a registry;
/// a member without a registered session counts as zero.
pub open spec fn member_messages(ids: Seq<String>, sessions: Seq<Session>) -> nat
    decreases ids.len(),
{
    if ids.len() == 0 {
        0
    } else {
        member_messages(ids.drop_last(), sessions) + match find_session(
            sessions,
            ids.last()@,
        ) {
            Some(i) => sessions[i].metadata.message_count as nat,
            None => 0,
        }
    }
}

/// The tokens of the member sessions, counted against a registry.
pub open spec fn member_tokens(ids: Seq<String>, sessions: Seq<Session>) -> nat
    decreases ids.len(),
{
    if ids.len() == 0 {
        0
    } else {
        member_tokens(ids.drop_last(), sessions) + match find_session(sessions, ids.last()@) {
            Some(i) => sessions[i].metadata.total_tokens as nat,
            None => 0,
        }
    }
}

/// The derived counters agree with the current membership, read against
/// the given registry, each clamped at its width.
pub open spec fn counters_match(c: Collection, sessions: Seq<Session>) -> bool {
    &&& c.metadata.session_count == c.session_ids@.len()
    &&& c.metadata.total_messages == clamped(
        member_messages(c.session_ids@, sessions),
        usize::MAX as nat,
    )
    &&& c.metadata.total_tokens == clamped(
        member_tokens(c.session_ids@, sessions),
        u64::MAX as nat,
    )
}

/// A membership of exactly one registered session carries exactly that
/// session's own counters.
pub proof fn lemma_single_member_counters(ids: Seq<String>, sessions: Seq<Session>, i: int)
    requires
        ids.len() == 1,
        find_session(sessions, ids[0]@) == Some(i),
        0 <= i < sessions.len(),
    ensures
        member_messages(ids, sessions) == sessions[i].metadata.message_count,
        member_tokens(ids, sessions) == sessions[i].metadata.total_tokens,
{
    assert(ids.drop_last() =~= Seq::<String>::empty());
    assert(ids.last() == ids[0]);
    assert(member_messages(Seq::<String>::empty(), sessions) == 0);
    assert(member_tokens(Seq::<String>::empty(), sessions) == 0);
    assert(member_messages(ids, sessions) == member_messages(ids.drop_last(), sessions)
        + sessions[i].metadata.message_count);
    assert(member_tokens(ids, sessions) == member_tokens(ids.drop_last(), sessions)
        + sessions[i].metadata.total_tokens);
}

impl Collection {
    /// Member identifiers are pairwise distinct.
    pub open spec fn wf(&self) -> bool {
        forall|i: int, j: int|
            0 <= i < j < self.session_ids@.len() ==> (#[trigger] self.session_ids@[i])@ != (
            #[trigger] self.session_ids@[j])@
    }

    /// Create a new, empty collection with a fresh identifier.
    pub fn new(name: &str, description: Option<String>, tags: Vec<String>) -> (c: Collection)
        ensures
            c.wf(),
            c.id@.len() == 36,
            c.metadata.name@ == name@,
            c.metadata.description == description,
            c.metadata.tags == tags,
            c.metadata.session_count == 0,
            c.metadata.total_messages == 0,
            c.metadata.total_tokens == 0,
            c.session_ids@.len() == 0,
            c.metadata.created_at == c.metadata.updated_at,
    {
        let id = fresh_id();
        let now = now_millis();
        Collection {
            id,
            metadata: CollectionMetadata {
                name: name.to_owned(),
                description,
                created_at: now,
                updated_at: now,
                tags,
                session_count: 0,
                total_messages: 0,
                total_tokens: 0,
            },
            session_ids: Vec::new(),
        }
    }

    /// Rebuild a collection from stored parts; the membership rows must
    /// carry each identifier at most once.
    pub fn restore(
        id: String,
        name: String,
        description: Option<String>,
        created_at: i64,
        session_ids: Vec<String>,
    ) -> (c: Collection)
        requires
            forall|i: int, j: int|
                0 <= i < j < session_ids@.len() ==> (#[trigger] session_ids@[i])@ != (
                #[trigger] session_ids@[j])@,
        ensures
            c.wf(),
            c.id == id,
            c.metadata.name == name,
            c.metadata.description == description,
            c.metadata.created_at == created_at,
            c.metadata.tags@.len() == 0,
            c.metadata.session_count == session_ids@.len(),
            c.metadata.total_messages == 0,
            c.metadata.total_tokens == 0,
            c.session_ids == session_ids,
    {
        let count = session_ids.len();
        Collection {
            id,
            metadata: CollectionMetadata {
                name,
                description,
                created_at,
                updated_at: created_at,
                tags: Vec::new(),
                session_count: count,
                total_messages: 0,
                total_tokens: 0,
            },
            session_ids,
        }
    }

    /// The position of a member identifier, if present.
    fn member_position(&self, session_id: &str) -> (r: Option<usize>)
        ensures
            match find_id(self.session_ids@, session_id@) {
                Some(i) => r matches Some(u) && u == i,
                None => r is None,
            },
    {
        proof {
            lemma_find_id(self.session_ids@, session_id@);
        }
        let n = self.session_ids.len();
        let mut i: usize = 0;
        while i < n
            invariant
                n == self.session_ids@.len(),
                0 <= i <= n,
                forall|j: int| 0 <= j < i ==> (#[trigger] self.session_ids@[j])@ != session_id@,
            decreases n - i,
        {
            if str_eq(self.session_ids[i].as_str(), session_id) {
                proof {
                    lemma_find_id_first(self.session_ids@, session_id@, i as int);
                }
                return Some(i);
            }
            i = i + 1;
        }
        proof {
            if find_id(self.session_ids@, session_id@) is Some {
                let k = find_id(self.session_ids@, session_id@).unwrap();
                assert(self.session_ids@[k]@ == session_id@);
            }
        }
        None
    }

    /// Recompute the derived counters from the current membership.
    fn recompute(&mut self, sessions: &SessionManager)
        ensures
            final(self).id == old(self).id,
            final(self).session_ids == old(self).session_ids,
            final(self).metadata.name == old(self).metadata.name,
            final(self).metadata.description == old(self).metadata.description,
            final(self).metadata.created_at == old(self).metadata.created_at,
            final(self).metadata.tags == old(self).metadata.tags,
            counters_match(*final(self), sessions.sessions@),
    {
        let n = self.session_ids.len();
        let mut total_messages: usize = 0;
        let mut total_tokens: u64 = 0;
        let mut i: usize = 0;
        proof {
            assert(self.session_ids@.take(0) =~= Seq::<String>::empty());
        }
        while i < n
            invariant
                n == self.session_ids@.len(),
                0 <= i <= n,
                self.session_ids == old(self).session_ids,
                total_messages == clamped(
                    member_messages(self.session_ids@.take(i as int), sessions.sessions@),
                    usize::MAX as nat,
                ),
                total_tokens == clamped(
                    member_tokens(self.session_ids@.take(i as int), sessions.sessions@),
                    u64::MAX as nat,
                ),
            decreases n - i,
        {
            proof {
                assert(self.session_ids@.take(i + 1).drop_last() =~= self.session_ids@.take(
                    i as int,
                ));
                assert(self.session_ids@.take(i + 1).last() == self.session_ids@[i as int]);
            }
            match sessions.get_session(self.session_ids[i].as_str()) {
                Some(s) => {
                    total_messages = total_messages.saturating_add(s.metadata.message_count);
                    total_tokens = total_tokens.saturating_add(s.metadata.total_tokens);
                },
                None => {},
            }
            i = i + 1;
        }
        proof {
            assert(self.session_ids@.take(n as int) =~= self.session_ids@);
        }
        self.metadata.session_count = n;
        self.metadata.total_messages = total_messages;
        self.metadata.total_tokens = total_tokens;
        self.metadata.updated_at = now_millis();
    }

    /// Add a session to the collection; membership is by identifier, a
    /// session already a member stays a member once, and the derived
    /// counters are recomputed from the new membership.
    pub fn add_session(&mut self, session: &Session, sessions: &SessionManager) -> (r: Result<
        (),
        GrokError,
    >)
        requires
            old(self).wf(),
        ensures
            r is Ok,
            final(self).wf(),
            final(self).id == old(self).id,
            (match find_id(old(self).session_ids@, session.id@) {
                Some(_) => final(self).session_ids == old(self).session_ids,
                None => final(self).session_ids@ == old(self).session_ids@.push(session.id),
            }),
            counters_match(*final(self), sessions.sessions@),
    {
        proof {
            lemma_find_id(self.session_ids@, session.id@);
        }
        match self.member_position(session.id.as_str()) {
            Some(_) => {},
            None => {
                let id = session.id.clone();
                self.session_ids.push(id);
                proof {
                    let olds = old(self).session_ids@;
                    let news = self.session_ids@;
                    assert forall|a: int, b: int|
                        0 <= a < b < news.len() implies (#[trigger] news[a])@ != (
                    #[trigger] news[b])@ by {
                        if b < news.len() - 1 {
                            assert(news[a] == olds[a] && news[b] == olds[b]);
                        } else {
                            assert(news[b]@ == session.id@);
                            if a < news.len() - 1 {
                                assert(news[a] == olds[a]);
                            }
                        }
                    }
                }
            },
        }
        self.recompute(sessions);
        Ok(())
    }

    /// Remove a session from the collection and recompute the derived
    /// counters; removing a non-member is a reported error.
    pub fn remove_session(&mut self, session_id: &str, sessions: &SessionManager) -> (r: Result<
        (),
        GrokError,
    >)
        requires
            old(self).wf(),
        ensures
            final(self).wf(),
            final(self).id == old(self).id,
            (match find_id(old(self).session_ids@, session_id@) {
                Some(i) => r is Ok && (final(self).session_ids@ == old(self).session_ids@.remove(i)) && counters_match(*final(self), sessions.sessions@),
                None => r matches Err(GrokError::Collection(m)) && m@ == "Session '"@
                    + session_id@ + "' not in collection"@ && (final(self).session_ids == old(self).session_ids) && final(self).metadata == old(self).metadata,
            }),
    {
        proof {
            lemma_find_id(self.session_ids@, session_id@);
        }
        match self.member_position(session_id) {
            Some(i) => {
                self.session_ids.remove(i);
                proof {
                    let olds = old(self).session_ids@;
                    let news = self.session_ids@;
                    assert forall|a: int, b: int|
                        0 <= a < b < news.len() implies (#[trigger] news[a])@ != (
                    #[trigger] news[b])@ by {
                        let oa = if a < i { a } else { a + 1 };
                        let ob = if b < i { b } else { b + 1 };
                        assert(news[a] == olds[oa]);
                        assert(news[b] == olds[ob]);
                    }
                }
                self.recompute(sessions);
                Ok(())
            },
            None => {
                let mut m = String::from_str("Session '");
                m.append(session_id);
                m.append("' not in collection");
                Err(GrokError::Collection(m))
            },
        }
    }

    /// The member session with the given identifier, resolved against the
    /// registry.
    pub fn get_session<'a>(&self, sessions: &'a SessionManager, session_id: &str) -> (r: Option<
        &'a Session,
    >)
        ensures
            (match (find_id(self.session_ids@, session_id@), find_session(
                sessions.sessions@,
                session_id@,
            )) {
                (Some(_), Some(i)) => r matches Some(s) && *s == sessions.sessions@[i],
                _ => r is None,
            }),
    {
        match self.member_position(session_id) {
            Some(_) => sessions.get_session(session_id),
            None => None,
        }
    }

    /// The identifiers of the member sessions.
    pub fn list_sessions(&self) -> (r: &Vec<String>)
        ensures
            r == &self.session_ids,
    {
        &self.session_ids
    }

    /// The member whose session title contains the query, ignoring letter
    /// case.
    pub fn search_sessions(&self, sessions: &SessionManager, query: &str) -> (r: Vec<String>)
        ensures
            r@.map(|k: int, s: String| s@) == self.session_ids@.map(
                |k: int, s: String| s@,
            ).filter(|id: Seq<char>| title_matches(sessions.sessions@, id, lower_of(query@))),
    {
        let qlow = lower_str(query);
        let n = self.session_ids.len();
        let mut out: Vec<String> = Vec::new();
        let mut i: usize = 0;
        let ghost idviews = self.session_ids@.map(|k: int, s: String| s@);
        let ghost pred = |id: Seq<char>| title_matches(
            sessions.sessions@,
            id,
            lower_of(query@),
        );
        proof {
            assert(idviews.take(0) =~= Seq::<Seq<char>>::empty());
            reveal(Seq::filter);
            assert(out@.map(|k: int, s: String| s@) =~= idviews.take(0).filter(pred));
        }
        while i < n
            invariant
                n == self.session_ids@.len(),
                0 <= i <= n,
                qlow@ == lower_of(query@),
                idviews == self.session_ids@.map(|k: int, s: String| s@),
                pred == (|id: Seq<char>| title_matches(
                    sessions.sessions@,
                    id,
                    lower_of(query@),
                )),
                out@.map(|k: int, s: String| s@) == idviews.take(i as int).filter(pred),
            decreases n - i,
        {
            proof {
                reveal(Seq::filter);
                assert(idviews.take(i + 1).drop_last() =~= idviews.take(i as int));
                assert(idviews.take(i + 1).last() == idviews[i as int]);
            }
            let matched = match sessions.get_session(self.session_ids[i].as_str()) {
                Some(s) => match &s.metadata.title {
                    Some(t) => {
                        let tlow = lower_str(t.as_str());
                        contains_str(tlow.as_str(), qlow.as_str())
                    },
                    None => false,
                },
                None => false,
            };
            proof {
                assert(matched == pred(idviews[i as int]));
            }
            if matched {
                let id = self.session_ids[i].clone();
                out.push(id);
                proof {
                    assert(out@.map(|k: int, s: String| s@) =~= idviews.take(i + 1).filter(
                        pred,
                    ));
                }
            }
            i = i + 1;
        }
        proof {
            assert(idviews.take(n as int) =~= idviews);
        }
        out
    }
}

/// The member's session exists and its title contains the query.
pub open spec fn title_matches(sessions: Seq<Session>, id: Seq<char>, qlow: Seq<char>) -> bool {
    match find_session(sessions, id) {
        Some(i) => match sessions[i].metadata.title {
            Some(t) => contains_seq(lower_of(t@), qlow),
            None => false,
        },
        None => false,
    }
}

/// The first position holding a collection with the given identifier.
pub open spec fn find_collection(s: Seq<Collection>, id: Seq<char>) -> Option<int>
    decreases s.len(),
{
    if s.len() == 0 {
        None
    } else if s[0].id@ == id {
        Some(0int)
    } else {
        match find_collection(s.drop_first(), id) {
            Some(i) => Some(i + 1),
            None => None,
        }
    }
}

/// What `find_collection` finds: the first match, or evidence of none.
pub proof fn lemma_find_collection(s: Seq<Collection>, id: Seq<char>)
    ensures
        match find_collection(s, id) {
            Some(i) => 0 <= i < s.len() && s[i].id@ == id && forall|j: int|
                0 <= j < i ==> s[j].id@ != id,
            None => forall|j: int| 0 <= j < s.len() ==> s[j].id@ != id,
        },
    decreases s.len(),
{
    if s.len() > 0 && s[0].id@ != id {
        lemma_find_collection(s.drop_first(), id);
        match find_collection(s.drop_first(), id) {
            Some(i) => {
                assert forall|j: int| 0 <= j < i + 1 implies s[j].id@ != id by {
                    if j > 0 {
                        assert(s.drop_first()[j - 1] == s[j]);
                    }
                }
            },
            None => {
                assert forall|j: int| 0 <= j < s.len() implies s[j].id@ != id by {
                    if j > 0 {
                        assert(s.drop_first()[j - 1] == s[j]);
                    }
                }
            },
        }
    }
}

/// When the first match stands at `i`, `find_collection` returns `i`.
proof fn lemma_find_collection_first(s: Seq<Collection>, id: Seq<char>, i: int)
    requires
        0 <= i < s.len(),
        s[i].id@ == id,
        forall|j: int| 0 <= j < i ==> (#[trigger] s[j]).id@ != id,
    ensures
        find_collection(s, id) == Some(i),
    decreases i,
{
    if i > 0 {
        assert(forall|j: int|
            0 <= j < i - 1 ==> (#[trigger] s.drop_first()[j]).id@ == s[j + 1].id@);
        lemma_find_collection_first(s.drop_first(), id, i - 1);
    }
}

/// The collection's name, description or one of its tags contains the
/// query, ignoring letter case.
pub open spec fn collection_matches(c: Collection, qlow: Seq<char>) -> bool {
    ||| contains_seq(lower_of(c.metadata.name@), qlow)
    ||| (c.metadata.description matches Some(d) && contains_seq(lower_of(d@), qlow))
    ||| exists|i: int|
        0 <= i < c.metadata.tags@.len() && contains_seq(
            lower_of((#[trigger] c.metadata.tags@[i])@),
            qlow,
        )
}

/// The collection carries the tag, letter for letter.
pub open spec fn has_tag(c: Collection, tag: Seq<char>) -> bool {
    exists|i: int| 0 <= i < c.metadata.tags@.len() && (#[trigger] c.metadata.tags@[i])@ == tag
}

/// The total member-session count over a set of collections.
pub open spec fn col_sum_sessions(s: Seq<Collection>) -> nat
    decreases s.len(),
{
    if s.len() == 0 {
        0
    } else {
        col_sum_sessions(s.drop_last()) + s.last().metadata.session_count as nat
    }
}

/// The total message count over a set of collections.
pub open spec fn col_sum_messages(s: Seq<Collection>) -> nat
    decreases s.len(),
{
    if s.len() == 0 {
        0
    } else {
        col_sum_messages(s.drop_last()) + s.last().metadata.total_messages as nat
    }
}

/// The total token count over a set of collections.
pub open spec fn col_sum_tokens(s: Seq<Collection>) -> nat
    decreases s.len(),
{
    if s.len() == 0 {
        0
    } else {
        col_sum_tokens(s.drop_last()) + s.last().metadata.total_tokens as nat
    }
}

/// Collection statistics.
#[derive(Debug, Clone, Copy, PartialEq, Eq, Structural)]
pub struct CollectionStats {
    /// Total number of collections.
    pub total_collections: usize,
    /// Member sessions across all collections.
    pub total_sessions: usize,
    /// Messages across all collections.
    pub total_messages: usize,
    /// Tokens across all collections.
    pub total_tokens: u64,
}

/// Registry of collections, each held once under its identifier.
#[derive(Debug)]
pub struct CollectionManager {
    /// The collections, identifiers pairwise distinct.
    pub collections: Vec<Collection>,
}

impl CollectionManager {
    /// Identifiers are pairwise distinct and every collection is
    /// consistent.
    pub open spec fn wf(&self) -> bool {
        &&& forall|i: int, j: int|
            0 <= i < j < self.collections@.len() ==> (#[trigger] self.collections@[i]).id@ != (
            #[trigger] self.collections@[j]).id@
        &&& forall|i: int|
            0 <= i < self.collections@.len() ==> (#[trigger] self.collections@[i]).wf()
    }

    /// Create an empty registry.
    pub fn new() -> (m: CollectionManager)
        ensures
            m.wf(),
            m.collections@.len() == 0,
    {
        CollectionManager { collections: Vec::new() }
    }

    /// Create a collection and register it, returning its identifier. A
    /// collection already held under the same identifier is replaced.
    pub fn create_collection(&mut self, name: &str, description: Option<String>, tags: Vec<
        String,
    >) -> (r: String)
        requires
            old(self).wf(),
        ensures
            final(self).wf(),
            r@.len() == 36,
            ({
                let found = find_collection(final(self).collections@, r@);
                found matches Some(i) && {
                    let c = final(self).collections@[i];
                    &&& c.wf()
                    &&& c.id@ == r@
                    &&& c.metadata.name@ == name@
                    &&& c.metadata.description == description
                    &&& c.metadata.tags == tags
                    &&& c.session_ids@.len() == 0
                    &&& c.metadata.session_count == 0
                    &&& c.metadata.total_messages == 0
                    &&& c.metadata.total_tokens == 0
                }
            }),
            find_collection(old(self).collections@, r@) is None ==> final(self).collections@.len()
                == old(self).collections@.len() + 1,
    {
        let collection = Collection::new(name, description, tags);
        let id = collection.id.clone();
        proof {
            lemma_find_collection(self.collections@, collection.id@);
        }
        match self.position_of(id.as_str()) {
            Some(i) => {
                self.collections[i] = collection;
                proof {
                    let news = self.collections@;
                    lemma_find_collection_first(news, id@, i as int);
                }
            },
            None => {
                self.collections.push(collection);
                proof {
                    let olds = old(self).collections@;
                    let news = self.collections@;
                    lemma_find_collection_first(news, id@, olds.len() as int);
                }
            },
        }
        id
    }

    /// The position of the collection with the given identifier, if any.
    fn position_of(&self, collection_id: &str) -> (r: Option<usize>)
        ensures
            match find_collection(self.collections@, collection_id@) {
                Some(i) => r matches Some(u) && u == i,
                None => r is None,
            },
    {
        proof {
            lemma_find_collection(self.collections@, collection_id@);
        }
        let n = self.collections.len();
        let mut i: usize = 0;
        while i < n
            invariant
                n == self.collections@.len(),
                0 <= i <= n,
                forall|j: int|
                    0 <= j < i ==> (#[trigger] self.collections@[j]).id@ != collection_id@,
            decreases n - i,
        {
            if str_eq(self.collections[i].id.as_str(), collection_id) {
                proof {
                    lemma_find_collection_first(self.collections@, collection_id@, i as int);
                }
                return Some(i);
            }
            i = i + 1;
        }
        proof {
            if find_collection(self.collections@, collection_id@) is Some {
                let k = find_collection(self.collections@, collection_id@).unwrap();
                assert(self.collections@[k].id@ == collection_id@);
            }
        }
        None
    }

    /// The collection with the given identifier, if registered.
    pub fn get_collection(&self, collection_id: &str) -> (r: Option<&Collection>)
        ensures
            match find_collection(self.collections@, collection_id@) {
                Some(i) => r matches Some(c) && *c == self.collections@[i],
                None => r is None,
            },
    {
        proof {
            lemma_find_collection(self.collections@, collection_id@);
        }
        match self.position_of(collection_id) {
            Some(i) => Some(&self.collections[i]),
            None => None,
        }
    }

    /// Check a collection out of the registry, taking ownership; pair
    /// with `put_collection` to put a changed collection back.
    pub fn take_collection(&mut self, collection_id: &str) -> (r: Option<Collection>)
        requires
            old(self).wf(),
        ensures
            final(self).wf(),
            (match find_collection(old(self).collections@, collection_id@) {
                Some(i) => r matches Some(c) && c == old(self).collections@[i] && (final(self).collections@ == old(self).collections@.remove(i)),
                None => r is None && final(self).collections@ == old(self).collections@,
            }),
    {
        proof {
            lemma_find_collection(self.collections@, collection_id@);
        }
        match self.position_of(collection_id) {
            Some(i) => {
                let c = self.collections.remove(i);
                proof {
                    let olds = old(self).collections@;
                    let news = self.collections@;
                    assert forall|a: int, b: int|
                        0 <= a < b < news.len() implies (#[trigger] news[a]).id@ != (
                    #[trigger] news[b]).id@ by {
                        let oa = if a < i { a } else { a + 1 };
                        let ob = if b < i { b } else { b + 1 };
                        assert(news[a] == olds[oa]);
                        assert(news[b] == olds[ob]);
                    }
                    assert forall|a: int| 0 <= a < news.len() implies (#[trigger] news[a]).wf()
                        by {
                        let oa = if a < i { a } else { a + 1 };
                        assert(news[a] == olds[oa]);
                    }
                }
                Some(c)
            },
            None => None,
        }
    }

    /// Put a collection back into the registry under its identifier,
    /// replacing any collection already held under it.
    pub fn put_collection(&mut self, collection: Collection)
        requires
            old(self).wf(),
            collection.wf(),
        ensures
            final(self).wf(),
            ({
                let found = find_collection(final(self).collections@, collection.id@);
                found matches Some(i) && final(self).collections@[i] == collection
            }),
            (match find_collection(old(self).collections@, collection.id@) {
                None => final(self).collections@ == old(self).collections@.push(collection),
                Some(i) => final(self).collections@ == old(self).collections@.update(
                    i,
                    collection,
                ),
            }),
    {
        proof {
            lemma_find_collection(self.collections@, collection.id@);
        }
        let ghost cid = collection.id@;
        match self.position_of(collection.id.as_str()) {
            Some(i) => {
                self.collections[i] = collection;
                proof {
                    lemma_find_collection_first(self.collections@, cid, i as int);
                }
            },
            None => {
                self.collections.push(collection);
                proof {
                    lemma_find_collection_first(
                        self.collections@,
                        cid,
                        old(self).collections@.len() as int,
                    );
                }
            },
        }
    }

    /// All registered collections.
    pub fn list_collections(&self) -> (r: &Vec<Collection>)
        ensures
            r == &self.collections,
    {
        &self.collections
    }

    /// Remove a collection; removing an identifier that is not registered
    /// is a reported error.
    pub fn delete_collection(&mut self, collection_id: &str) -> (r: Result<(), GrokError>)
        requires
            old(self).wf(),
        ensures
            final(self).wf(),
            (match find_collection(old(self).collections@, collection_id@) {
                Some(i) => r is Ok && (final(self).collections@ == old(self).collections@.remove(i)),
                None => r matches Err(GrokError::Collection(m)) && m@ == "Collection '"@
                    + collection_id@ + "' not found"@ && (final(self).collections@ == old(self).collections@),
            }),
    {
        match self.take_collection(collection_id) {
            Some(_) => Ok(()),
            None => {
                let mut m = String::from_str("Collection '");
                m.append(collection_id);
                m.append("' not found");
                Err(GrokError::Collection(m))
            },
        }
    }

    /// The identifiers of the collections whose name, description or tags
    /// contain the query, ignoring letter case.
    pub fn search_collections(&self, query: &str) -> (r: Vec<String>)
        ensures
            r@.map(|k: int, s: String| s@) == self.collections@.filter(
                |c: Collection| collection_matches(c, lower_of(query@)),
            ).map(|k: int, c: Collection| c.id@),
    {
        let qlow = lower_str(query);
        let n = self.collections.len();
        let mut out: Vec<String> = Vec::new();
        let mut i: usize = 0;
        let ghost pred = |c: Collection| collection_matches(c, lower_of(query@));
        let ghost idof = |k: int, c: Collection| c.id@;
        proof {
            reveal(Seq::filter);
            assert(self.collections@.take(0) =~= Seq::<Collection>::empty());
            assert(out@.map(|k: int, s: String| s@) =~= self.collections@.take(0).filter(
                pred,
            ).map(idof));
        }
        while i < n
            invariant
                n == self.collections@.len(),
                0 <= i <= n,
                qlow@ == lower_of(query@),
                pred == (|c: Collection| collection_matches(c, lower_of(query@))),
                idof == (|k: int, c: Collection| c.id@),
                out@.map(|k: int, s: String| s@) == self.collections@.take(i as int).filter(
                    pred,
                ).map(idof),
            decreases n - i,
        {
            proof {
                reveal(Seq::filter);
                assert(self.collections@.take(i + 1).drop_last() =~= self.collections@.take(
                    i as int,
                ));
                assert(self.collections@.take(i + 1).last() == self.collections@[i as int]);
            }
            let c = &self.collections[i];
            let matched = self.entry_matches(i, qlow.as_str());
            if matched {
                let id = c.id.clone();
                let ghost pre_out = out@;
                out.push(id);
                proof {
                    reveal(Seq::filter);
                    let cs = self.collections@;
                    let cur = cs.take(i + 1);
                    assert(pred(cs[i as int]));
                    assert(cur.filter(pred) == cur.drop_last().filter(pred).push(cs[i as int]));
                    assert(out@ == pre_out.push(cs[i as int].id));
                    assert(out@.map(|k: int, s: String| s@) =~= pre_out.map(
                        |k: int, s: String| s@,
                    ).push(cs[i as int].id@));
                    assert(cs.take(i as int).filter(pred).map(idof).push(cs[i as int].id@)
                        =~= cur.filter(pred).map(idof));
                }
            }
            i = i + 1;
        }
        proof {
            assert(self.collections@.take(n as int) =~= self.collections@);
        }
        out
    }

    /// Whether the collection at `i` matches the lowercased query.
    fn entry_matches(&self, i: usize, qlow: &str) -> (r: bool)
        requires
            i < self.collections@.len(),
        ensures
            r == collection_matches(self.collections@[i as int], qlow@),
    {
        let c = &self.collections[i];
        let nlow = lower_str(c.metadata.name.as_str());
        let name_hit = contains_str(nlow.as_str(), qlow);
        if name_hit {
            return true;
        }
        let desc_hit = match &c.metadata.description {
            Some(d) => {
                let dlow = lower_str(d.as_str());
                contains_str(dlow.as_str(), qlow)
            },
            None => false,
        };
        if desc_hit {
            return true;
        }
        let m = c.metadata.tags.len();
        let mut j: usize = 0;
        while j < m
            invariant
                i < self.collections@.len(),
                *c == self.collections@[i as int],
                m == c.metadata.tags@.len(),
                0 <= j <= m,
                !contains_seq(lower_of(c.metadata.name@), qlow@),
                !(c.metadata.description matches Some(d) && contains_seq(lower_of(d@), qlow@)),
                forall|k: int|
                    0 <= k < j ==> !contains_seq(
                        lower_of((#[trigger] c.metadata.tags@[k])@),
                        qlow@,
                    ),
            decreases m - j,
        {
            let tlow = lower_str(c.metadata.tags[j].as_str());
            if contains_str(tlow.as_str(), qlow) {
                proof {
                    assert(contains_seq(lower_of((c.metadata.tags@[j as int])@), qlow@));
                    assert(collection_matches(self.collections@[i as int], qlow@));
                }
                return true;
            }
            j = j + 1;
        }
        false
    }

    /// The identifiers of the collections carrying the tag, letter for
    /// letter.
    pub fn collections_by_tag(&self, tag: &str) -> (r: Vec<String>)
        ensures
            r@.map(|k: int, s: String| s@) == self.collections@.filter(
                |c: Collection| has_tag(c, tag@),
            ).map(|k: int, c: Collection| c.id@),
    {
        let n = self.collections.len();
        let mut out: Vec<String> = Vec::new();
        let mut i: usize = 0;
        let ghost pred = |c: Collection| has_tag(c, tag@);
        let ghost idof = |k: int, c: Collection| c.id@;
        proof {
            reveal(Seq::filter);
            assert(self.collections@.take(0) =~= Seq::<Collection>::empty());
            assert(out@.map(|k: int, s: String| s@) =~= self.collections@.take(0).filter(
                pred,
            ).map(idof));
        }
        while i < n
            invariant
                n == self.collections@.len(),
                0 <= i <= n,
                pred == (|c: Collection| has_tag(c, tag@)),
                idof == (|k: int, c: Collection| c.id@),
                out@.map(|k: int, s: String| s@) == self.collections@.take(i as int).filter(
                    pred,
                ).map(idof),
            decreases n - i,
        {
            proof {
                reveal(Seq::filter);
                assert(self.collections@.take(i + 1).drop_last() =~= self.collections@.take(
                    i as int,
                ));
                assert(self.collections@.take(i + 1).last() == self.collections@[i as int]);
            }
            let c = &self.collections[i];
            let matched = self.entry_has_tag(i, tag);
            if matched {
                let id = c.id.clone();
                let ghost pre_out = out@;
                out.push(id);
                proof {
                    reveal(Seq::filter);
                    let cs = self.collections@;
                    let cur = cs.take(i + 1);
                    assert(pred(cs[i as int]));
                    assert(cur.filter(pred) == cur.drop_last().filter(pred).push(cs[i as int]));
                    assert(out@ == pre_out.push(cs[i as int].id));
                    assert(out@.map(|k: int, s: String| s@) =~= pre_out.map(
                        |k: int, s: String| s@,
                    ).push(cs[i as int].id@));
                    assert(cs.take(i as int).filter(pred).map(idof).push(cs[i as int].id@)
                        =~= cur.filter(pred).map(idof));
                }
            }
            i = i + 1;
        }
        proof {
            assert(self.collections@.take(n as int) =~= self.collections@);
        }
        out
    }

    /// Whether the collection at `i` carries the tag.
    fn entry_has_tag(&self, i: usize, tag: &str) -> (r: bool)
        requires
            i < self.collections@.len(),
        ensures
            r == has_tag(self.collections@[i as int], tag@),
    {
        let c = &self.collections[i];
        let m = c.metadata.tags.len();
        let mut j: usize = 0;
        while j < m
            invariant
                i < self.collections@.len(),
                *c == self.collections@[i as int],
                m == c.metadata.tags@.len(),
                0 <= j <= m,
                forall|k: int| 0 <= k < j ==> (#[trigger] c.metadata.tags@[k])@ != tag@,
            decreases m - j,
        {
            if str_eq(c.metadata.tags[j].as_str(), tag) {
                proof {
                    assert((c.metadata.tags@[j as int])@ == tag@);
                    assert(has_tag(self.collections@[i as int], tag@));
                }
                return true;
            }
            j = j + 1;
        }
        false
    }

    /// Aggregate statistics over all collections, each counter clamped at
    /// its width.
    pub fn stats(&self) -> (r: CollectionStats)
        ensures
            r.total_collections == self.collections@.len(),
            r.total_sessions == clamped(col_sum_sessions(self.collections@), usize::MAX as nat),
            r.total_messages == clamped(col_sum_messages(self.collections@), usize::MAX as nat),
            r.total_tokens == clamped(col_sum_tokens(self.collections@), u64::MAX as nat),
    {
        let n = self.collections.len();
        let mut total_sessions: usize = 0;
        let mut total_messages: usize = 0;
        let mut total_tokens: u64 = 0;
        let mut i: usize = 0;
        proof {
            assert(self.collections@.take(0) =~= Seq::<Collection>::empty());
        }
        while i < n
            invariant
                n == self.collections@.len(),
                0 <= i <= n,
                total_sessions == clamped(
                    col_sum_sessions(self.collections@.take(i as int)),
                    usize::MAX as nat,
                ),
                total_messages == clamped(
                    col_sum_messages(self.collections@.take(i as int)),
                    usize::MAX as nat,
                ),
                total_tokens == clamped(
                    col_sum_tokens(self.collections@.take(i as int)),
                    u64::MAX as nat,
                ),
            decreases n - i,
        {
            proof {
                assert(self.collections@.take(i + 1).drop_last() =~= self.collections@.take(
                    i as int,
                ));
                assert(self.collections@.take(i + 1).last() == self.collections@[i as int]);
            }
            total_sessions = total_sessions.saturating_add(
                self.collections[i].metadata.session_count,
            );
            total_messages = total_messages.saturating_add(
                self.collections[i].metadata.total_messages,
            );
            total_tokens = total_tokens.saturating_add(
                self.collections[i].metadata.total_tokens,
            );
            i = i + 1;
        }
        proof {
            assert(self.collections@.take(n as int) =~= self.collections@);
        }
        CollectionStats { total_collections: n, total_sessions, total_messages, total_tokens }
    }
}

/// When the first match stands at `i`, `find_id` returns `i`.
proof fn lemma_find_id_first(ids: Seq<String>, id: Seq<char>, i: int)
    requires
        0 <= i < ids.len(),
        ids[i]@ == id,
        forall|j: int| 0 <= j < i ==> (#[trigger] ids[j])@ != id,
    ensures
        find_id(ids, id) == Some(i),
    decreases i,
{
    if i > 0 {
        assert(forall|j: int| 0 <= j < i - 1 ==> (#[trigger] ids.drop_first()[j])@ == ids[j + 1]@);
        lemma_find_id_first(ids.drop_first(), id, i - 1);
    }
}

} // verus!

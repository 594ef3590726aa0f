//! The session registry: a store mapping each user identity to its one
//! session. Sessions are created lazily, exactly once per user, and removed
//! on an explicit clear. The view is a map from user identity to session
//! value; the invariant keeps at most one session per user, each well formed
//! and keyed by its own identity.

use vstd::prelude::*;
use crate::errors::CoreError;
use crate::session::{Session, SessionView};
use crate::turn::{Role, Turn, is_blank};

verus! {

/// No two entries claim the same user.
spec fn uniq_ids(s: Seq<SessionView>) -> bool {
    forall|i: int, j: int| 0 <= i < j < s.len() ==> s[i].user_id != s[j].user_id
}

/// Every entry is a well-formed session.
spec fn all_wf(s: Seq<SessionView>) -> bool {
    forall|i: int| 0 <= i < s.len() ==> s[i].wf()
}

/// The map that a sequence of entries denotes: each entry keyed by its user.
spec fn entries_map(s: Seq<SessionView>) -> Map<Seq<char>, SessionView>
    decreases s.len(),
{
    if s.len() == 0 {
        Map::empty()
    } else {
        entries_map(s.drop_last()).insert(s.last().user_id, s.last())
    }
}

proof fn lemma_contains(s: Seq<SessionView>, u: Seq<char>)
    ensures
        entries_map(s).contains_key(u) <==> exists|i: int| 0 <= i < s.len() && s[i].user_id == u,
    decreases s.len(),
{
    if s.len() > 0 {
        let d = s.drop_last();
        lemma_contains(d, u);
        if s.last().user_id == u {
            assert(s[s.len() - 1].user_id == u);
        } else {
            if entries_map(s).contains_key(u) {
                let i = choose|i: int| 0 <= i < d.len() && d[i].user_id == u;
                assert(s[i].user_id == u);
            }
            if exists|i: int| 0 <= i < s.len() && s[i].user_id == u {
                let i = choose|i: int| 0 <= i < s.len() && s[i].user_id == u;
                assert(d[i].user_id == u);
            }
        }
    }
}

proof fn lemma_drop_last_uniq(s: Seq<SessionView>)
    requires
        uniq_ids(s),
        s.len() > 0,
    ensures
        uniq_ids(s.drop_last()),
{
    let d = s.drop_last();
    assert forall|i: int, j: int| 0 <= i < j < d.len() implies d[i].user_id != d[j].user_id by {
        assert(d[i] == s[i]);
        assert(d[j] == s[j]);
    }
}

proof fn lemma_value(s: Seq<SessionView>, i: int)
    requires
        uniq_ids(s),
        0 <= i < s.len(),
    ensures
        entries_map(s).contains_key(s[i].user_id),
        entries_map(s)[s[i].user_id] == s[i],
    decreases s.len(),
{
    let d = s.drop_last();
    if i == s.len() - 1 {
    } else {
        assert(s.last().user_id != s[i].user_id);
        assert(d[i] == s[i]);
        lemma_drop_last_uniq(s);
        lemma_value(d, i);
    }
}

proof fn lemma_push(s: Seq<SessionView>, v: SessionView)
    ensures
        entries_map(s.push(v)) == entries_map(s).insert(v.user_id, v),
{
    assert(s.push(v).drop_last() =~= s);
    assert(s.push(v).last() == v);
}

proof fn lemma_remove_keeps(s: Seq<SessionView>, i: int)
    requires
        uniq_ids(s),
        all_wf(s),
        0 <= i < s.len(),
    ensures
        uniq_ids(s.remove(i)),
        all_wf(s.remove(i)),
        forall|j: int| 0 <= j < s.remove(i).len() ==> s.remove(i)[j].user_id != s[i].user_id,
{
    s.remove_ensures(i);
    let r = s.remove(i);
    assert forall|a: int, b: int| 0 <= a < b < r.len() implies r[a].user_id != r[b].user_id by {
        let a0 = if a < i { a } else { a + 1 };
        let b0 = if b < i { b } else { b + 1 };
        assert(r[a] == s[a0]);
        assert(r[b] == s[b0]);
    }
    assert forall|j: int| 0 <= j < r.len() implies r[j].user_id != s[i].user_id by {
        let j0 = if j < i { j } else { j + 1 };
        assert(r[j] == s[j0]);
    }
}

proof fn lemma_remove(s: Seq<SessionView>, i: int)
    requires
        uniq_ids(s),
        0 <= i < s.len(),
    ensures
        entries_map(s.remove(i)) =~= entries_map(s).remove(s[i].user_id),
    decreases s.len(),
{
    s.remove_ensures(i);
    let u = s[i].user_id;
    let d = s.drop_last();
    lemma_drop_last_uniq(s);
    if i == s.len() - 1 {
        assert(s.remove(i) =~= d);
        lemma_contains(d, u);
        assert(!entries_map(d).contains_key(u)) by {
            if entries_map(d).contains_key(u) {
                let j = choose|j: int| 0 <= j < d.len() && d[j].user_id == u;
                assert(s[j].user_id == s[i].user_id);
            }
        }
        assert(entries_map(d).insert(u, s.last()).remove(u) =~= entries_map(d));
    } else {
        assert(d[i] == s[i]);
        lemma_remove(d, i);
        assert(s.remove(i).drop_last() =~= d.remove(i));
        assert(s.remove(i).last() == s.last());
        assert(s.last().user_id != u);
        assert(entries_map(d).remove(u).insert(s.last().user_id, s.last()) =~= entries_map(
            d,
        ).insert(s.last().user_id, s.last()).remove(u));
    }
}

proof fn lemma_dom(s: Seq<SessionView>)
    requires
        uniq_ids(s),
    ensures
        entries_map(s).dom().finite(),
        entries_map(s).dom().len() == s.len(),
    decreases s.len(),
{
    broadcast use vstd::set::group_set_axioms;

    if s.len() == 0 {
        assert(entries_map(s).dom() =~= Set::<Seq<char>>::empty());
    } else {
        let d = s.drop_last();
        lemma_drop_last_uniq(s);
        lemma_dom(d);
        lemma_contains(d, s.last().user_id);
        assert(!entries_map(d).contains_key(s.last().user_id)) by {
            if entries_map(d).contains_key(s.last().user_id) {
                let j = choose|j: int| 0 <= j < d.len() && d[j].user_id == s.last().user_id;
                assert(s[j].user_id == s[s.len() - 1].user_id);
            }
        }
        assert(entries_map(s).dom() =~= entries_map(d).dom().insert(s.last().user_id));
    }
}

proof fn lemma_view_remove(s: Seq<Session>, i: int)
    requires
        0 <= i < s.len(),
    ensures
        s.remove(i).map_values(|x: Session| x@) =~= s.map_values(|x: Session| x@).remove(i),
{
    s.remove_ensures(i);
    s.map_values(|x: Session| x@).remove_ensures(i);
}

/// Lazy creation as a map transformer: what one `get_or_create` call does to
/// the registry, when `s` is the session a fresh creation would store.
pub open spec fn spec_get_or_create(
    m: Map<Seq<char>, SessionView>,
    u: Seq<char>,
    s: SessionView,
) -> Map<Seq<char>, SessionView> {
    if m.contains_key(u) {
        m
    } else {
        m.insert(u, s)
    }
}

/// Single-creation law: however many `get_or_create` calls race for one
/// user, only the first can create. After any one call the user has a
/// session — the prior one if there was one, else the freshly built one —
/// and every later call returns that same session and changes nothing, even
/// if it raced to build its own candidate `s2`.
pub proof fn lemma_single_creation(
    m: Map<Seq<char>, SessionView>,
    u: Seq<char>,
    s1: SessionView,
    s2: SessionView,
)
    ensures
        ({
            let m1 = spec_get_or_create(m, u, s1);
            &&& m1.contains_key(u)
            &&& m1[u] == if m.contains_key(u) {
                m[u]
            } else {
                s1
            }
            &&& spec_get_or_create(m1, u, s2) == m1
        }),
{
}

/// Clear-idempotence law: removing a user who has no session changes
/// nothing, and after one removal the user is gone, so removing twice is the
/// same as removing once.
pub proof fn lemma_clear_idempotent(m: Map<Seq<char>, SessionView>, u: Seq<char>)
    ensures
        !m.remove(u).contains_key(u),
        m.remove(u).remove(u) =~= m.remove(u),
        !m.contains_key(u) ==> m.remove(u) =~= m,
{
}

/// The store of sessions, keyed by user identity. Its view is a map from
/// user identity to session value.
#[derive(Debug)]
pub struct SessionRegistry {
    entries: Vec<Session>,
}

impl View for SessionRegistry {
    type V = Map<Seq<char>, SessionView>;

    closed spec fn view(&self) -> Map<Seq<char>, SessionView> {
        entries_map(self.seq_view())
    }
}

impl SessionRegistry {
    spec fn seq_view(&self) -> Seq<SessionView> {
        self.entries@.map_values(|s: Session| s@)
    }

    /// The registry invariant: at most one session per user, every session
    /// well formed and stored under its own user identity.
    pub closed spec fn inv(&self) -> bool {
        &&& uniq_ids(self.seq_view())
        &&& all_wf(self.seq_view())
    }

    /// Registry invariant, as the map view shows it: every registered
    /// session is well formed and keyed by its own user identity.
    pub proof fn lemma_sessions_wf(&self, u: Seq<char>)
        requires
            self.inv(),
            self@.contains_key(u),
        ensures
            self@[u].wf(),
            self@[u].user_id == u,
    {
        lemma_contains(self.seq_view(), u);
        let i = choose|i: int| 0 <= i < self.seq_view().len() && self.seq_view()[i].user_id == u;
        lemma_value(self.seq_view(), i);
    }

    /// An empty registry.
    pub fn new() -> (r: SessionRegistry)
        ensures
            r.inv(),
            r@ =~= Map::<Seq<char>, SessionView>::empty(),
    {
        let r = SessionRegistry { entries: Vec::new() };
        proof {
            assert(r.seq_view() =~= Seq::<SessionView>::empty());
        }
        r
    }

    /// Finds the entry of a user, if any.
    fn find_index(&self, user_id: &String) -> (r: Option<usize>)
        requires
            self.inv(),
        ensures
            match r {
                Some(i) => i < self.entries@.len() && self.entries@[i as int]@.user_id
                    == user_id@ && self@.contains_key(user_id@),
                None => !self@.contains_key(user_id@),
            },
    {
        let n = self.entries.len();
        let mut i: usize = 0;
        while i < n
            invariant
                i <= n,
                n == self.entries@.len(),
                self.inv(),
                forall|j: int| 0 <= j < i ==> self.entries@[j]@.user_id != user_id@,
            decreases n - i,
        {
            if *self.entries[i].user_id() == *user_id {
                proof {
                    lemma_value(self.seq_view(), i as int);
                }
                return Some(i);
            }
            i = i + 1;
        }
        proof {
            lemma_contains(self.seq_view(), user_id@);
        }
        None
    }

    /// Whether a user has a session now.
    pub fn contains(&self, user_id: &String) -> (r: bool)
        requires
            self.inv(),
        ensures
            r == self@.contains_key(user_id@),
    {
        match self.find_index(user_id) {
            Some(_) => true,
            None => false,
        }
    }

    /// How many users have a session now.
    pub fn user_count(&self) -> (r: usize)
        requires
            self.inv(),
        ensures
            r as nat == self@.dom().len(),
    {
        proof {
            lemma_dom(self.seq_view());
        }
        self.entries.len()
    }

    /// Returns the user's session, creating it first if the user has none:
    /// the one point where sessions come into being. Exactly one creation
    /// can happen per user; a later call finds the session and leaves the
    /// registry as it is, reporting `false` for "created". A failed creation
    /// (capacity zero) inserts nothing.
    pub fn get_or_create(&mut self, user_id: &String, preamble: &String, capacity: usize) -> (r:
        Result<bool, CoreError>)
        requires
            old(self).inv(),
        ensures
            final(self).inv(),
            r is Err <==> (capacity == 0 && !old(self)@.contains_key(user_id@)),
            r is Err ==> r == Result::<bool, CoreError>::Err(CoreError::Configuration)
                && final(self)@ =~= old(self)@,
            r matches Ok(created) ==> created == !old(self)@.contains_key(user_id@)
                && final(self)@ =~= spec_get_or_create(
                old(self)@,
                user_id@,
                SessionView::fresh(user_id@, preamble@, capacity as nat),
            ),
    {
        match self.find_index(user_id) {
            Some(_) => Ok(false),
            None => {
                match Session::new(user_id.clone(), preamble.clone(), capacity) {
                    Err(e) => Err(e),
                    Ok(sess) => {
                        let ghost s0 = self.seq_view();
                        let ghost sv = sess@;
                        proof {
                            lemma_contains(s0, user_id@);
                            lemma_push(s0, sv);
                        }
                        self.entries.push(sess);
                        proof {
                            assert(self.seq_view() =~= s0.push(sv));
                            assert forall|a: int, b: int|
                                0 <= a < b < self.seq_view().len() implies self.seq_view()[a].user_id
                                != self.seq_view()[b].user_id by {
                                if b == s0.len() {
                                    assert(self.seq_view()[a] == s0[a]);
                                }
                            }
                        }
                        Ok(true)
                    },
                }
            },
        }
    }

    /// Deletes the user's session if there is one; says whether one existed.
    pub fn remove(&mut self, user_id: &String) -> (r: bool)
        requires
            old(self).inv(),
        ensures
            final(self).inv(),
            r == old(self)@.contains_key(user_id@),
            final(self)@ =~= old(self)@.remove(user_id@),
    {
        match self.find_index(user_id) {
            None => {
                proof {
                    assert(self@ =~= self@.remove(user_id@));
                }
                false
            },
            Some(i) => {
                let ghost s0 = self.seq_view();
                proof {
                    lemma_view_remove(self.entries@, i as int);
                    lemma_remove(s0, i as int);
                    lemma_remove_keeps(s0, i as int);
                }
                let _removed = self.entries.remove(i);
                true
            },
        }
    }

    /// Records a user turn into the user's session window.
    pub fn record_user(&mut self, user_id: &String, text: String) -> (r: Result<(), CoreError>)
        requires
            old(self).inv(),
        ensures
            final(self).inv(),
            r is Ok <==> (old(self)@.contains_key(user_id@) && !is_blank(text@)),
            r is Err ==> r == Result::<(), CoreError>::Err(CoreError::Validation)
                && final(self)@ =~= old(self)@,
            r is Ok ==> final(self)@ =~= old(self)@.insert(
                user_id@,
                old(self)@[user_id@].with_turn(Role::User, text@),
            ),
    {
        self.record_turn(user_id, Role::User, text)
    }

    /// Records an assistant turn into the user's session window.
    pub fn record_assistant(&mut self, user_id: &String, text: String) -> (r: Result<
        (),
        CoreError,
    >)
        requires
            old(self).inv(),
        ensures
            final(self).inv(),
            r is Ok <==> (old(self)@.contains_key(user_id@) && !is_blank(text@)),
            r is Err ==> r == Result::<(), CoreError>::Err(CoreError::Validation)
                && final(self)@ =~= old(self)@,
            r is Ok ==> final(self)@ =~= old(self)@.insert(
                user_id@,
                old(self)@[user_id@].with_turn(Role::Assistant, text@),
            ),
    {
        self.record_turn(user_id, Role::Assistant, text)
    }

    fn record_turn(&mut self, user_id: &String, role: Role, text: String) -> (r: Result<
        (),
        CoreError,
    >)
        requires
            old(self).inv(),
        ensures
            final(self).inv(),
            r is Ok <==> (old(self)@.contains_key(user_id@) && !is_blank(text@)),
            r is Err ==> r == Result::<(), CoreError>::Err(CoreError::Validation)
                && final(self)@ =~= old(self)@,
            r is Ok ==> final(self)@ =~= old(self)@.insert(
                user_id@,
                old(self)@[user_id@].with_turn(role, text@),
            ),
    {
        let idx = match self.find_index(user_id) {
            None => {
                return Err(CoreError::Validation);
            },
            Some(i) => i,
        };
        let ghost s0 = self.seq_view();
        let ghost u = user_id@;
        proof {
            lemma_value(s0, idx as int);
            lemma_view_remove(self.entries@, idx as int);
            lemma_remove(s0, idx as int);
            lemma_remove_keeps(s0, idx as int);
        }
        let mut sess = self.entries.remove(idx);
        let res = match role {
            Role::User => sess.record_user(text),
            Role::Assistant => sess.record_assistant(text),
        };
        let ghost sv = sess@;
        proof {
            lemma_push(self.seq_view(), sv);
        }
        self.entries.push(sess);
        proof {
            assert(self.seq_view() =~= s0.remove(idx as int).push(sv));
            assert forall|a: int, b: int|
                0 <= a < b < self.seq_view().len() implies self.seq_view()[a].user_id
                != self.seq_view()[b].user_id by {
                if b == self.seq_view().len() - 1 {
                    assert(self.seq_view()[a] == s0.remove(idx as int)[a]);
                }
            }
            assert(self@ =~= entries_map(s0).insert(u, sv));
            if res is Err {
                assert(sv == s0[idx as int]);
                assert(self@ =~= entries_map(s0));
            }
        }
        res
    }

    /// Assembles what the completion collaborator is given for this user:
    /// the session's preamble, then its history, oldest turn first. Fails
    /// with a validation error when the user has no session: callers must
    /// obtain one through [`SessionRegistry::get_or_create`] first.
    pub fn build_context(&self, user_id: &String) -> (r: Result<(String, Vec<Turn>), CoreError>)
        requires
            self.inv(),
        ensures
            r is Ok <==> self@.contains_key(user_id@),
            r is Err ==> r == Result::<(String, Vec<Turn>), CoreError>::Err(CoreError::Validation),
            r matches Ok(ctx) ==> ctx.0@ == self@[user_id@].preamble && ctx.1@.map_values(
                |t: Turn| t@,
            ) =~= self@[user_id@].history,
    {
        match self.find_index(user_id) {
            None => Err(CoreError::Validation),
            Some(i) => {
                proof {
                    lemma_value(self.seq_view(), i as int);
                }
                Ok(self.entries[i].build_context())
            },
        }
    }

    /// A point-in-time copy of the user's history, oldest first. Fails with
    /// a validation error when the user has no session.
    pub fn snapshot(&self, user_id: &String) -> (r: Result<Vec<Turn>, CoreError>)
        requires
            self.inv(),
        ensures
            r is Ok <==> self@.contains_key(user_id@),
            r is Err ==> r == Result::<Vec<Turn>, CoreError>::Err(CoreError::Validation),
            r matches Ok(ts) ==> ts@.map_values(|t: Turn| t@) =~= self@[user_id@].history,
    {
        match self.find_index(user_id) {
            None => Err(CoreError::Validation),
            Some(i) => {
                proof {
                    lemma_value(self.seq_view(), i as int);
                }
                Ok(self.entries[i].snapshot())
            },
        }
    }
}

} // verus!

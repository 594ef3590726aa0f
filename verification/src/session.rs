//! One user's conversational state: a stable identity, a fixed system
//! preamble, and a bounded history of recent turns.

use vstd::prelude::*;
use crate::errors::CoreError;
use crate::history::{BoundedHistory, push_bounded};
use crate::turn::{Role, Turn, TurnView, is_blank};

verus! {

/// The mathematical value of a [`Session`].
#[verifier::ext_equal]
pub ghost struct SessionView {
    pub user_id: Seq<char>,
    pub preamble: Seq<char>,
    pub capacity: nat,
    pub history: Seq<TurnView>,
}

impl SessionView {
    /// A well-formed session: positive capacity bounding the history, and
    /// every retained turn well formed.
    pub open spec fn wf(self) -> bool {
        &&& 1 <= self.capacity
        &&& self.history.len() <= self.capacity
        &&& forall|i: int| 0 <= i < self.history.len() ==> self.history[i].wf()
    }

    /// The session as it is right after creation: an empty history.
    pub open spec fn fresh(user_id: Seq<char>, preamble: Seq<char>, capacity: nat) -> SessionView {
        SessionView { user_id, preamble, capacity, history: Seq::empty() }
    }

    /// The session after one turn was recorded into its window.
    pub open spec fn with_turn(self, role: Role, text: Seq<char>) -> SessionView {
        SessionView {
            history: push_bounded(self.history, TurnView { role, text }, self.capacity),
            ..self
        }
    }
}

/// Per-user conversational state. Created on a user's first message; mutated
/// only by the conversation service on behalf of that user.
#[derive(Debug)]
pub struct Session {
    user_id: String,
    preamble: String,
    history: BoundedHistory,
}

impl View for Session {
    type V = SessionView;

    closed spec fn view(&self) -> SessionView {
        SessionView {
            user_id: self.user_id@,
            preamble: self.preamble@,
            capacity: self.history.cap(),
            history: self.history@,
        }
    }
}

impl Session {
    /// The invariant, stated on the view.
    pub open spec fn wf(&self) -> bool {
        self@.wf()
    }

    /// Pure constructor: a session with an empty history. A capacity of
    /// zero is invalid and rejected; nothing else can fail.
    pub fn new(user_id: String, preamble: String, capacity: usize) -> (r: Result<Session, CoreError>)
        ensures
            capacity == 0 <==> r is Err,
            r is Err ==> r == Result::<Session, CoreError>::Err(CoreError::Configuration),
            r matches Ok(s) ==> s.wf() && s@ =~= SessionView::fresh(
                user_id@,
                preamble@,
                capacity as nat,
            ),
    {
        match BoundedHistory::new(capacity) {
            Err(e) => Err(e),
            Ok(history) => Ok(Session { user_id, preamble, history }),
        }
    }

    /// Records a turn spoken by the user. Blank text is rejected and changes
    /// nothing; otherwise the turn enters the window, evicting the oldest
    /// turn if the window was full.
    pub fn record_user(&mut self, text: String) -> (r: Result<(), CoreError>)
        requires
            old(self).wf(),
        ensures
            final(self).wf(),
            is_blank(text@) <==> r is Err,
            r is Err ==> r == Result::<(), CoreError>::Err(CoreError::Validation)
                && final(self)@ =~= old(self)@,
            r is Ok ==> final(self)@ =~= old(self)@.with_turn(Role::User, text@),
    {
        self.record(Role::User, text)
    }

    /// Records a turn spoken by the assistant, under the same rules as
    /// [`Session::record_user`].
    pub fn record_assistant(&mut self, text: String) -> (r: Result<(), CoreError>)
        requires
            old(self).wf(),
        ensures
            final(self).wf(),
            is_blank(text@) <==> r is Err,
            r is Err ==> r == Result::<(), CoreError>::Err(CoreError::Validation)
                && final(self)@ =~= old(self)@,
            r is Ok ==> final(self)@ =~= old(self)@.with_turn(Role::Assistant, text@),
    {
        self.record(Role::Assistant, text)
    }

    fn record(&mut self, role: Role, text: String) -> (r: Result<(), CoreError>)
        requires
            old(self).wf(),
        ensures
            final(self).wf(),
            is_blank(text@) <==> r is Err,
            r is Err ==> r == Result::<(), CoreError>::Err(CoreError::Validation)
                && final(self)@ =~= old(self)@,
            r is Ok ==> final(self)@ =~= old(self)@.with_turn(role, text@),
    {
        let turn = match Turn::new(role, text) {
            Err(e) => {
                return Err(e);
            },
            Ok(turn) => turn,
        };
        match self.history.append(turn) {
            Err(e) => Err(e),
            Ok(()) => Ok(()),
        }
    }

    /// Assembles what the completion collaborator is given: the preamble,
    /// then a point-in-time copy of the history, oldest turn first. The
    /// chronological order is load-bearing: the collaborator must not take
    /// later turns for earlier ones.
    pub fn build_context(&self) -> (r: (String, Vec<Turn>))
        ensures
            r.0@ == self@.preamble,
            r.1@.map_values(|t: Turn| t@) =~= self@.history,
    {
        (self.preamble.clone(), self.history.snapshot())
    }

    /// A point-in-time copy of the history, oldest first.
    pub fn snapshot(&self) -> (r: Vec<Turn>)
        ensures
            r@.map_values(|t: Turn| t@) =~= self@.history,
    {
        self.history.snapshot()
    }

    /// The identity this session belongs to.
    pub fn user_id(&self) -> (r: &String)
        ensures
            r@ == self@.user_id,
    {
        &self.user_id
    }

    /// How many turns the window retains now.
    pub fn history_len(&self) -> (r: usize)
        ensures
            r == self@.history.len(),
    {
        self.history.len()
    }
}

} // verus!

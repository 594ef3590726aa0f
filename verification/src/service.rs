//! The conversation service: the single entry point transports call. A turn
//! runs in two halves around the completion collaborator, which lives
//! outside the library:
//!
//! 1. [`ConversationService::begin_turn`] validates the inbound text,
//!    obtains or creates the user's session, records the user turn, and
//!    hands back the request for the collaborator — the preamble and the
//!    history, oldest turn first.
//! 2. The caller invokes the collaborator with that request and feeds its
//!    outcome to [`ConversationService::finish_turn`], which on success
//!    records the assistant turn and returns the reply, and on failure
//!    reports a conversation error while keeping the user turn: history
//!    reflects only real exchanges, and the session stays usable.
//!
//! The caller must hold the user's turn exclusively between the two halves
//! (one in-flight turn per user at a time); turns of distinct users are
//! independent, which [`lemma_per_user_isolation`] states. When two messages
//! of one user race, whichever acquires the turn first is recorded first:
//! arrival order is not promised.

use vstd::prelude::*;
use crate::errors::{CompletionFailure, CoreError};
use crate::registry::{spec_get_or_create, SessionRegistry};
use crate::session::SessionView;
use crate::turn::{is_blank, text_is_blank, Role, Turn};

verus! {

/// Two registry states agree everywhere but possibly at `u`.
pub open spec fn same_off_key(
    m0: Map<Seq<char>, SessionView>,
    m1: Map<Seq<char>, SessionView>,
    u: Seq<char>,
) -> bool {
    forall|k: Seq<char>|
        #![trigger m0.contains_key(k)]
        #![trigger m1.contains_key(k)]
        k != u ==> ((m0.contains_key(k) <==> m1.contains_key(k)) && (m0.contains_key(k)
            ==> m0[k] == m1[k]))
}

/// Per-user isolation law: a turn touches only its own user's entry, so two
/// turns for distinct users cannot disturb each other. If a turn for `u1`
/// takes the registry from `m0` to `m1` and a turn for `u2` then takes it to
/// `m2`, then `u1`'s session comes out of `u2`'s turn exactly as `u1`'s own
/// turn left it, `u2`'s turn saw `u2`'s state untouched by `u1`'s turn, and
/// every other user's state passes through both turns unchanged.
pub proof fn lemma_per_user_isolation(
    m0: Map<Seq<char>, SessionView>,
    m1: Map<Seq<char>, SessionView>,
    m2: Map<Seq<char>, SessionView>,
    u1: Seq<char>,
    u2: Seq<char>,
)
    requires
        u1 != u2,
        same_off_key(m0, m1, u1),
        same_off_key(m1, m2, u2),
    ensures
        m1.contains_key(u1) ==> m2.contains_key(u1) && m2[u1] == m1[u1],
        m0.contains_key(u2) <==> m1.contains_key(u2),
        m0.contains_key(u2) ==> m1[u2] == m0[u2],
        forall|k: Seq<char>|
            k != u1 && k != u2 ==> ((m0.contains_key(k) <==> m2.contains_key(k)) && (
            m0.contains_key(k) ==> m0[k] == m2[k])),
{
}

/// What the completion collaborator is handed for one turn: the session's
/// preamble and the dialogue so far, oldest turn first and ending with the
/// user turn just recorded.
#[derive(Debug)]
pub struct TurnRequest {
    pub preamble: String,
    pub context: Vec<Turn>,
}

/// Orchestrates turns against one shared [`SessionRegistry`], with a fixed
/// default preamble and history capacity for the sessions it creates.
#[derive(Debug)]
pub struct ConversationService {
    registry: SessionRegistry,
    preamble: String,
    capacity: usize,
}

impl ConversationService {
    /// The sessions held right now, keyed by user identity.
    pub closed spec fn sessions(&self) -> Map<Seq<char>, SessionView> {
        self.registry@
    }

    /// The preamble every created session carries.
    pub closed spec fn spec_preamble(&self) -> Seq<char> {
        self.preamble@
    }

    /// The history capacity every created session gets.
    pub closed spec fn spec_capacity(&self) -> nat {
        self.capacity as nat
    }

    /// The service invariant.
    pub closed spec fn wf(&self) -> bool {
        &&& self.registry.inv()
        &&& 1 <= self.capacity
        &&& self.preamble@.len() > 0
    }

    /// The session a fresh creation by this service would store for `u`.
    pub open spec fn fresh_session(&self, u: Seq<char>) -> SessionView {
        SessionView::fresh(u, self.spec_preamble(), self.spec_capacity())
    }

    /// Bounded-memory invariant, at the service: every live session is well
    /// formed — stored under its own user identity, with a history that
    /// never exceeds its positive capacity and holds only non-blank turns.
    pub proof fn lemma_live_sessions_wf(&self, u: Seq<char>)
        requires
            self.wf(),
            self.sessions().contains_key(u),
        ensures
            self.sessions()[u].wf(),
            self.sessions()[u].user_id == u,
    {
        self.registry.lemma_sessions_wf(u);
    }

    /// Builds the service. Configuration is validated here, once: the
    /// history capacity must be positive and the preamble non-empty;
    /// otherwise construction fails and nothing is built.
    pub fn new(preamble: String, capacity: usize) -> (r: Result<ConversationService, CoreError>)
        ensures
            (capacity == 0 || preamble@.len() == 0) <==> r is Err,
            r is Err ==> r == Result::<ConversationService, CoreError>::Err(
                CoreError::Configuration,
            ),
            r matches Ok(svc) ==> svc.wf() && svc.sessions() =~= Map::<
                Seq<char>,
                SessionView,
            >::empty() && svc.spec_preamble() == preamble@ && svc.spec_capacity() == capacity,
    {
        if capacity == 0 || preamble.as_str().is_empty() {
            Err(CoreError::Configuration)
        } else {
            Ok(ConversationService { registry: SessionRegistry::new(), preamble, capacity })
        }
    }

    /// First half of a turn. Rejects blank text without touching anything;
    /// otherwise ensures the user has a session (created now if this was the
    /// user's first message), records the user turn in its window, and
    /// returns the completion request: the session's preamble and the
    /// history ending with this turn, oldest first.
    pub fn begin_turn(&mut self, user_id: &String, raw_text: String) -> (r: Result<
        TurnRequest,
        CoreError,
    >)
        requires
            old(self).wf(),
        ensures
            final(self).wf(),
            final(self).spec_preamble() == old(self).spec_preamble(),
            final(self).spec_capacity() == old(self).spec_capacity(),
            same_off_key(old(self).sessions(), final(self).sessions(), user_id@),
            is_blank(raw_text@) <==> r is Err,
            r is Err ==> r == Result::<TurnRequest, CoreError>::Err(CoreError::Validation)
                && final(self).sessions() =~= old(self).sessions(),
            r matches Ok(req) ==> ({
                let base = spec_get_or_create(
                    old(self).sessions(),
                    user_id@,
                    old(self).fresh_session(user_id@),
                );
                &&& final(self).sessions() =~= base.insert(
                    user_id@,
                    base[user_id@].with_turn(Role::User, raw_text@),
                )
                &&& req.preamble@ == base[user_id@].preamble
                &&& req.context@.map_values(|t: Turn| t@) =~= final(self).sessions()[user_id@].history
            }),
    {
        if text_is_blank(raw_text.as_str()) {
            return Err(CoreError::Validation);
        }
        match self.registry.get_or_create(user_id, &self.preamble, self.capacity) {
            Err(_) => {
                assert(false);
                Err(CoreError::Validation)
            },
            Ok(_) => {
                match self.registry.record_user(user_id, raw_text) {
                    Err(_) => {
                        assert(false);
                        Err(CoreError::Validation)
                    },
                    Ok(()) => {
                        match self.registry.build_context(user_id) {
                            Err(_) => {
                                assert(false);
                                Err(CoreError::Validation)
                            },
                            Ok((preamble, context)) => Ok(TurnRequest { preamble, context }),
                        }
                    },
                }
            },
        }
    }

    /// Second half of a turn: hands the completion collaborator's outcome
    /// back to the session. On a reply, the assistant turn is recorded and
    /// the reply returned; a blank reply is unusable and counts as an
    /// invalid response. On a collaborator failure nothing is recorded and a
    /// conversation error carries the cause: the user turn recorded by
    /// [`ConversationService::begin_turn`] stays — the user's message was
    /// real, only the reply failed — and the session stays usable. Calling
    /// this for a user with no session is a caller error.
    pub fn finish_turn(&mut self, user_id: &String, outcome: Result<String, CompletionFailure>)
        -> (r: Result<String, CoreError>)
        requires
            old(self).wf(),
        ensures
            final(self).wf(),
            final(self).spec_preamble() == old(self).spec_preamble(),
            final(self).spec_capacity() == old(self).spec_capacity(),
            same_off_key(old(self).sessions(), final(self).sessions(), user_id@),
            !old(self).sessions().contains_key(user_id@) ==> r == Result::<
                String,
                CoreError,
            >::Err(CoreError::Validation) && final(self).sessions() =~= old(self).sessions(),
            old(self).sessions().contains_key(user_id@) ==> match outcome {
                Err(f) => r == Result::<String, CoreError>::Err(CoreError::Conversation(f))
                    && final(self).sessions() =~= old(self).sessions(),
                Ok(reply) => if is_blank(reply@) {
                    r == Result::<String, CoreError>::Err(
                        CoreError::Conversation(CompletionFailure::InvalidResponse),
                    ) && final(self).sessions() =~= old(self).sessions()
                } else {
                    r matches Ok(t) && t@ == reply@ && final(self).sessions() =~= old(
                        self,
                    ).sessions().insert(
                        user_id@,
                        old(self).sessions()[user_id@].with_turn(Role::Assistant, reply@),
                    )
                },
            },
    {
        if !self.registry.contains(user_id) {
            return Err(CoreError::Validation);
        }
        match outcome {
            Err(f) => Err(CoreError::Conversation(f)),
            Ok(reply) => {
                if text_is_blank(reply.as_str()) {
                    Err(CoreError::Conversation(CompletionFailure::InvalidResponse))
                } else {
                    let echoed = reply.clone();
                    match self.registry.record_assistant(user_id, reply) {
                        Err(_) => {
                            assert(false);
                            Err(CoreError::Validation)
                        },
                        Ok(()) => Ok(echoed),
                    }
                }
            },
        }
    }

    /// Deletes the user's session if there is one; says whether one existed.
    /// On a user with no session this changes nothing and reports `false`,
    /// so clearing twice in a row reports `true` then `false`.
    pub fn clear_session(&mut self, user_id: &String) -> (r: bool)
        requires
            old(self).wf(),
        ensures
            final(self).wf(),
            final(self).spec_preamble() == old(self).spec_preamble(),
            final(self).spec_capacity() == old(self).spec_capacity(),
            same_off_key(old(self).sessions(), final(self).sessions(), user_id@),
            r == old(self).sessions().contains_key(user_id@),
            final(self).sessions() =~= old(self).sessions().remove(user_id@),
    {
        self.registry.remove(user_id)
    }

    /// Whether the user has a session now.
    pub fn has_session(&self, user_id: &String) -> (r: bool)
        requires
            self.wf(),
        ensures
            r == self.sessions().contains_key(user_id@),
    {
        self.registry.contains(user_id)
    }

    /// How many users have a session now.
    pub fn user_count(&self) -> (r: usize)
        requires
            self.wf(),
        ensures
            r as nat == self.sessions().dom().len(),
    {
        self.registry.user_count()
    }

    /// A point-in-time copy of the user's history, oldest first; a
    /// validation error when the user has no session.
    pub fn snapshot(&self, user_id: &String) -> (r: Result<Vec<Turn>, CoreError>)
        requires
            self.wf(),
        ensures
            r is Ok <==> self.sessions().contains_key(user_id@),
            r is Err ==> r == Result::<Vec<Turn>, CoreError>::Err(CoreError::Validation),
            r matches Ok(ts) ==> ts@.map_values(|t: Turn| t@) =~= self.sessions()[user_id@].history,
    {
        self.registry.snapshot(user_id)
    }

    /// The history capacity sessions are created with.
    pub fn capacity(&self) -> (r: usize)
        ensures
            r == self.spec_capacity(),
    {
        self.capacity
    }

    /// The preamble sessions are created with.
    pub fn preamble(&self) -> (r: &String)
        ensures
            r@ == self.spec_preamble(),
    {
        &self.preamble
    }
}

} // verus!

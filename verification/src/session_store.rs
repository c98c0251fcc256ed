use std::collections::HashMap;

use vstd::prelude::*;

use crate::codec::{hex_encode, hex_text, uuid_text, uuid_text_spec};
use crate::error::{VcpError, VcpErrorView};
use crate::handshake::{CapabilityGrant, CapabilityGrantView, ChallengeRequest, ChallengeRequestView};
use crate::receipt::{VcpReceipt, VcpReceiptView};

verus! {

broadcast use vstd::std_specs::hash::group_hash_axioms;

/// Where a session stands in the handshake.
#[derive(Debug)]
pub enum SessionState {
    Challenged { challenge: ChallengeRequest },
    Active { grant: CapabilityGrant },
    Completed { receipt: VcpReceipt },
    Revoked { reason: String },
}

/// The value of a `SessionState`.
pub enum SessionStateView {
    Challenged { challenge: ChallengeRequestView },
    Active { grant: CapabilityGrantView },
    Completed { receipt: VcpReceiptView },
    Revoked { reason: Seq<char> },
}

impl View for SessionState {
    type V = SessionStateView;

    open spec fn view(&self) -> SessionStateView {
        match self {
            SessionState::Challenged { challenge } => SessionStateView::Challenged {
                challenge: challenge@,
            },
            SessionState::Active { grant } => SessionStateView::Active { grant: grant@ },
            SessionState::Completed { receipt } => SessionStateView::Completed { receipt: receipt@ },
            SessionState::Revoked { reason } => SessionStateView::Revoked { reason: reason@ },
        }
    }
}

/// The sessions of a store, by session id.
pub type SessionsView = Map<u128, SessionStateView>;

// ── the store as a state machine ─────────────────────────────────────────────

/// The challenge of a session that is waiting for its auth step.
pub open spec fn challenge_of(m: SessionsView, id: u128) -> Option<ChallengeRequestView> {
    if m.contains_key(id) && m[id] is Challenged {
        Some(m[id]->Challenged_challenge)
    } else {
        None
    }
}

/// The grant of an active session.
pub open spec fn grant_of(m: SessionsView, id: u128) -> Option<CapabilityGrantView> {
    if m.contains_key(id) && m[id] is Active {
        Some(m[id]->Active_grant)
    } else {
        None
    }
}

/// The receipt of a completed session.
pub open spec fn receipt_of(m: SessionsView, id: u128) -> Option<VcpReceiptView> {
    if m.contains_key(id) && m[id] is Completed {
        Some(m[id]->Completed_receipt)
    } else {
        None
    }
}

/// The error for a session that is missing or not in the state an operation needs.
pub open spec fn session_not_found(id: u128) -> VcpErrorView {
    VcpErrorView::SessionNotFound { session_id: uuid_text_spec(id) }
}

/// Activating a session: allowed only from `Challenged`.
pub open spec fn activate_spec(m: SessionsView, id: u128, grant: CapabilityGrantView) -> (
    SessionsView,
    Result<(), VcpErrorView>,
) {
    if challenge_of(m, id) is Some {
        (m.insert(id, SessionStateView::Active { grant }), Ok(()))
    } else {
        (m, Err(session_not_found(id)))
    }
}

/// A receipt with its GIX1 canonical id filled in from `gix1_id` when it has none.
pub open spec fn stamped(receipt: VcpReceiptView, gix1_id: Seq<u8>) -> VcpReceiptView {
    if receipt.gix1_canonical_id is Some {
        receipt
    } else {
        VcpReceiptView { gix1_canonical_id: Some(hex_text(gix1_id)), ..receipt }
    }
}

/// Completing a session: allowed only from `Active`; the stored receipt is stamped.
pub open spec fn complete_spec(
    m: SessionsView,
    id: u128,
    receipt: VcpReceiptView,
    gix1_id: Seq<u8>,
) -> (SessionsView, Result<(), VcpErrorView>) {
    if grant_of(m, id) is Some {
        (m.insert(id, SessionStateView::Completed { receipt: stamped(receipt, gix1_id) }), Ok(()))
    } else {
        (m, Err(session_not_found(id)))
    }
}

/// Revoking a session: from any state, including an unknown session.
pub open spec fn revoke_spec(m: SessionsView, id: u128, reason: Seq<char>) -> SessionsView {
    m.insert(id, SessionStateView::Revoked { reason })
}

/// Opening a session with a challenge: replaces whatever the id held.
pub open spec fn challenge_spec(m: SessionsView, id: u128, challenge: ChallengeRequestView) -> SessionsView {
    m.insert(id, SessionStateView::Challenged { challenge })
}

// ── laws ─────────────────────────────────────────────────────────────────────

/// Reading a session back after opening it with a challenge gives that
/// challenge, and the session has no grant or receipt.
pub proof fn law_challenge_read_back(m: SessionsView, id: u128, c: ChallengeRequestView)
    ensures
        challenge_of(challenge_spec(m, id, c), id) == Some(c),
        grant_of(challenge_spec(m, id, c), id) is None,
        receipt_of(challenge_spec(m, id, c), id) is None,
{
}

/// Activation succeeds exactly for a session that holds a challenge; after it
/// the grant reads back and the challenge is gone; a refused activation
/// changes nothing.
pub proof fn law_activate(m: SessionsView, id: u128, g: CapabilityGrantView)
    ensures
        activate_spec(m, id, g).1 is Ok <==> challenge_of(m, id) is Some,
        activate_spec(m, id, g).1 is Ok ==> grant_of(activate_spec(m, id, g).0, id) == Some(g)
            && challenge_of(activate_spec(m, id, g).0, id) is None,
        activate_spec(m, id, g).1 is Err ==> activate_spec(m, id, g).0 == m
            && activate_spec(m, id, g).1 == Err::<(), VcpErrorView>(session_not_found(id)),
{
}

/// Completion succeeds exactly for an active session; after it the receipt
/// reads back with a GIX1 canonical id — its own when it had one, else the
/// hex of the given id — and the grant is gone; a refused completion changes
/// nothing.
pub proof fn law_complete(m: SessionsView, id: u128, r: VcpReceiptView, gix1_id: Seq<u8>)
    ensures
        complete_spec(m, id, r, gix1_id).1 is Ok <==> grant_of(m, id) is Some,
        complete_spec(m, id, r, gix1_id).1 is Ok ==> {
            let after = complete_spec(m, id, r, gix1_id).0;
            &&& receipt_of(after, id) == Some(stamped(r, gix1_id))
            &&& grant_of(after, id) is None
            &&& receipt_of(after, id)->0.gix1_canonical_id is Some
        },
        complete_spec(m, id, r, gix1_id).1 is Err ==> complete_spec(m, id, r, gix1_id).0 == m,
        r.gix1_canonical_id is Some ==> stamped(r, gix1_id) == r,
        r.gix1_canonical_id is None ==> stamped(r, gix1_id).gix1_canonical_id == Some(
            hex_text(gix1_id),
        ),
        stamped(r, gix1_id) == (VcpReceiptView {
            gix1_canonical_id: stamped(r, gix1_id).gix1_canonical_id,
            ..r
        }),
{
}

/// A revoked session yields no challenge, grant or receipt, and can be neither
/// activated nor completed until it is opened again.
pub proof fn law_revoke(
    m: SessionsView,
    id: u128,
    reason: Seq<char>,
    g: CapabilityGrantView,
    r: VcpReceiptView,
    gix1_id: Seq<u8>,
)
    ensures
        challenge_of(revoke_spec(m, id, reason), id) is None,
        grant_of(revoke_spec(m, id, reason), id) is None,
        receipt_of(revoke_spec(m, id, reason), id) is None,
        activate_spec(revoke_spec(m, id, reason), id, g).1 is Err,
        complete_spec(revoke_spec(m, id, reason), id, r, gix1_id).1 is Err,
{
}

/// The store keeps the order challenge, grant, receipt: a session that only
/// holds a challenge cannot be completed, and an active or completed session
/// cannot be activated again.
pub proof fn law_handshake_order(
    m: SessionsView,
    id: u128,
    c: ChallengeRequestView,
    g: CapabilityGrantView,
    r: VcpReceiptView,
    gix1_id: Seq<u8>,
)
    ensures
        complete_spec(challenge_spec(m, id, c), id, r, gix1_id).1 is Err,
        activate_spec(activate_spec(challenge_spec(m, id, c), id, g).0, id, g).1 is Err,
        activate_spec(
            complete_spec(activate_spec(challenge_spec(m, id, c), id, g).0, id, r, gix1_id).0,
            id,
            g,
        ).1 is Err,
{
}

/// Every operation on one session leaves every other session as it was.
pub proof fn law_other_sessions_unchanged(
    m: SessionsView,
    id: u128,
    other: u128,
    c: ChallengeRequestView,
    g: CapabilityGrantView,
    r: VcpReceiptView,
    gix1_id: Seq<u8>,
    reason: Seq<char>,
)
    requires
        id != other,
    ensures
        challenge_spec(m, id, c).contains_key(other) == m.contains_key(other),
        challenge_spec(m, id, c)[other] == m[other],
        activate_spec(m, id, g).0.contains_key(other) == m.contains_key(other),
        activate_spec(m, id, g).0[other] == m[other],
        complete_spec(m, id, r, gix1_id).0.contains_key(other) == m.contains_key(other),
        complete_spec(m, id, r, gix1_id).0[other] == m[other],
        revoke_spec(m, id, reason).contains_key(other) == m.contains_key(other),
        revoke_spec(m, id, reason)[other] == m[other],
{
}

/// Sessions by id, each in its handshake state.
pub struct SessionStore {
    sessions: HashMap<u128, SessionState>,
}

impl View for SessionStore {
    type V = SessionsView;

    closed spec fn view(&self) -> SessionsView {
        self.sessions@.map_values(|s: SessionState| s@)
    }
}

impl SessionStore {
    /// A store with no sessions.
    pub fn new() -> (r: Self)
        ensures
            r@ == Map::<u128, SessionStateView>::empty(),
    {
        let r = SessionStore { sessions: HashMap::new() };
        assert(r@ =~= Map::<u128, SessionStateView>::empty());
        r
    }

    /// Opens session `session_id` in the `Challenged` state.
    pub fn insert_challenged(&mut self, session_id: u128, challenge: ChallengeRequest)
        ensures
            final(self)@ == challenge_spec(old(self)@, session_id, challenge@),
    {
        let ghost c = challenge@;
        self.sessions.insert(session_id, SessionState::Challenged { challenge });
        assert(self@ =~= challenge_spec(old(self)@, session_id, c));
    }

    /// The challenge of a session that is waiting for its auth step.
    pub fn get_challenge(&self, session_id: u128) -> (r: Option<ChallengeRequest>)
        ensures
            match r {
                Some(c) => challenge_of(self@, session_id) == Some(c@),
                None => challenge_of(self@, session_id) is None,
            },
    {
        match self.sessions.get(&session_id) {
            Some(SessionState::Challenged { challenge }) => Some(challenge.clone()),
            _ => None,
        }
    }

    /// Moves a challenged session to `Active` with `grant`; any other session is refused.
    pub fn activate(&mut self, session_id: u128, grant: CapabilityGrant) -> (r: Result<(), VcpError>)
        ensures
            (final(self)@, crate::error::unit_result_view(r)) == activate_spec(
                old(self)@,
                session_id,
                grant@,
            ),
    {
        let ghost g = grant@;
        let challenged = match self.sessions.get(&session_id) {
            Some(SessionState::Challenged { .. }) => true,
            _ => false,
        };
        if challenged {
            self.sessions.insert(session_id, SessionState::Active { grant });
            assert(self@ =~= old(self)@.insert(session_id, SessionStateView::Active { grant: g }));
            Ok(())
        } else {
            Err(VcpError::SessionNotFound { session_id: uuid_text(session_id) })
        }
    }

    /// Moves an active session to `Completed` with `receipt`; any other session is
    /// refused. A receipt without a GIX1 canonical id is stored with the hex of
    /// `receipt_gix1_id`, the canonical id of its (Receipt, MeshDevice, receipt id)
    /// envelope; a receipt that has one keeps it.
    pub fn complete(
        &mut self,
        session_id: u128,
        receipt: VcpReceipt,
        receipt_gix1_id: &[u8],
    ) -> (r: Result<(), VcpError>)
        ensures
            (final(self)@, crate::error::unit_result_view(r)) == complete_spec(
                old(self)@,
                session_id,
                receipt@,
                receipt_gix1_id@,
            ),
            r is Ok ==> receipt_of(final(self)@, session_id) == Some(
                VcpReceiptView {
                    gix1_canonical_id: if receipt@.gix1_canonical_id is Some {
                        receipt@.gix1_canonical_id
                    } else {
                        Some(hex_text(receipt_gix1_id@))
                    },
                    ..receipt@
                },
            ),
            r is Err ==> final(self)@ == old(self)@,
    {
        let mut receipt = receipt;
        if receipt.gix1_canonical_id.is_none() {
            receipt.gix1_canonical_id = Some(hex_encode(receipt_gix1_id));
        }
        let ghost rv = receipt@;
        let active = match self.sessions.get(&session_id) {
            Some(SessionState::Active { .. }) => true,
            _ => false,
        };
        if active {
            self.sessions.insert(session_id, SessionState::Completed { receipt });
            assert(self@ =~= old(self)@.insert(
                session_id,
                SessionStateView::Completed { receipt: rv },
            ));
            Ok(())
        } else {
            Err(VcpError::SessionNotFound { session_id: uuid_text(session_id) })
        }
    }

    /// Marks a session revoked, whatever state it was in.
    pub fn revoke(&mut self, session_id: u128, reason: String)
        ensures
            final(self)@ == revoke_spec(old(self)@, session_id, reason@),
    {
        let ghost rs = reason@;
        self.sessions.insert(session_id, SessionState::Revoked { reason });
        assert(self@ =~= revoke_spec(old(self)@, session_id, rs));
    }

    /// The grant of an active session.
    pub fn get_grant(&self, session_id: u128) -> (r: Option<CapabilityGrant>)
        ensures
            match r {
                Some(g) => grant_of(self@, session_id) == Some(g@),
                None => grant_of(self@, session_id) is None,
            },
    {
        match self.sessions.get(&session_id) {
            Some(SessionState::Active { grant }) => Some(grant.clone()),
            _ => None,
        }
    }

    /// The receipt of a completed session.
    pub fn get_receipt(&self, session_id: u128) -> (r: Option<VcpReceipt>)
        ensures
            match r {
                Some(rc) => receipt_of(self@, session_id) == Some(rc@),
                None => receipt_of(self@, session_id) is None,
            },
    {
        match self.sessions.get(&session_id) {
            Some(SessionState::Completed { receipt }) => Some(receipt.clone()),
            _ => None,
        }
    }
}

impl Default for SessionStore {
    fn default() -> (r: Self)
        ensures
            r@ == Map::<u128, SessionStateView>::empty(),
    {
        Self::new()
    }
}

} // verus!

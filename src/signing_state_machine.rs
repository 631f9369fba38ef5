//! The two-round MuSig2 signing session as a state machine: it is handed each
//! incoming message and answers with what to broadcast and, at the end, the
//! signature. The transport that carries the messages lies outside.
use vstd::prelude::*;

use crate::crypto::{
    agg_key_of, aggregate_key, aggregate_signature, bip340_ok, first_round_nonce, fresh_nonce_seed,
    key_agg_ok, nonce_bytes_valid, nonce_valid, nonces_valid, owns_key, partial_bytes_valid,
    partial_of, partial_ok, partial_valid, partials_valid, point_bytes_valid, point_valid,
    public_nonce_of, roster_valid, scalar_bytes_valid, scalar_valid, sig_agg_of, sig_agg_ok,
    sign_partial, verify_partial, verify_signature, views,
};
use crate::rounds::{
    accept, accepts, all_present, distinct_senders, empty_slots, lemma_arrival_order_irrelevant, replay,
    RoundStore,
};
use crate::signing::SigningError;

verus! {

/// The first-round broadcast: the sender's public nonce (66 bytes).
pub struct Msg1 {
    pub sender: u16,
    pub receiver: Option<u16>,
    pub nonce: Vec<u8>,
}

/// The second-round broadcast: the sender's partial signature (32 bytes).
pub struct Msg2 {
    pub sender: u16,
    pub receiver: Option<u16>,
    pub partial_sig: Vec<u8>,
}

/// A protocol message, tagged with its round.
pub enum Msg {
    Round1Broadcast(Msg1),
    Round2Broadcast(Msg2),
}

/// What a finished session yields.
pub struct SchnorrkelMuSigState {
    /// The 64-byte BIP-340 signature.
    pub signature: Option<Vec<u8>>,
    /// The 33-byte compressed aggregate public key.
    pub public_key: Option<Vec<u8>>,
}

/// Where a session stands.
#[derive(Debug, Clone, Copy, PartialEq, Eq, Structural)]
pub enum Phase {
    AwaitingNonces,
    AwaitingPartials,
    Finished,
    Failed,
}

/// What the caller does after handing a message to the session.
pub struct Step {
    /// A message to broadcast to every peer.
    pub outgoing: Option<Msg>,
    /// The result, once the session is finished.
    pub output: Option<SchnorrkelMuSigState>,
}

/// The roster size or the local index cannot describe a session.
pub open spec fn context_invalid(roster_len: nat, i: u16) -> bool {
    roster_len > u16::MAX || i >= roster_len
}

/// The key material cannot be used: a bad secret key, a roster entry that is
/// not a public key, or keys that do not aggregate.
pub open spec fn keys_invalid(roster: Seq<Seq<u8>>, secret: Seq<u8>) -> bool {
    !scalar_bytes_valid(secret) || !roster_valid(roster) || !key_agg_ok(roster)
}

/// The inputs on which a session starts.
pub open spec fn start_ok(roster: Seq<Seq<u8>>, secret: Seq<u8>, i: u16) -> bool {
    &&& roster.len() >= 2
    &&& !context_invalid(roster.len(), i)
    &&& !keys_invalid(roster, secret)
    &&& owns_key(secret, roster[i as int])
}

/// A round's messages in party order, with `own` at the local index.
pub open spec fn filled(slots: Seq<Option<Vec<u8>>>, me: nat, own: Seq<u8>) -> Seq<Seq<u8>> {
    Seq::new(slots.len(), |k: int| if k == me { own } else { slots[k]->Some_0@ })
}

/// Every peer's partial signature verifies.
pub open spec fn partials_verify(
    roster: Seq<Seq<u8>>,
    me: nat,
    message: Seq<u8>,
    nonces: Seq<Seq<u8>>,
    partials: Seq<Seq<u8>>,
) -> bool {
    forall|k: int|
        0 <= k < partials.len() && k != me ==> partial_ok(roster, k as nat, message, nonces, #[trigger] partials[k])
}

/// The second round succeeds: every peer's partial signature verifies and
/// their sum is a signature valid under the aggregate key.
pub open spec fn signing_succeeds(
    roster: Seq<Seq<u8>>,
    me: nat,
    message: Seq<u8>,
    nonces: Seq<Seq<u8>>,
    partials: Seq<Seq<u8>>,
    key: Seq<u8>,
) -> bool {
    &&& partials_verify(roster, me, message, nonces, partials)
    &&& sig_agg_ok(roster, message, nonces, partials)
    &&& bip340_ok(key, message, sig_agg_of(roster, message, nonces, partials))
}

/// A finished session's result: the signature `sig` and the aggregate key.
pub open spec fn signed(out: SchnorrkelMuSigState, key: Seq<u8>, sig: Seq<u8>) -> bool {
    &&& out.signature matches Some(s) && s@ == sig
    &&& out.public_key matches Some(pk) && pk@ == key
}

/// A step that neither sends nor finishes.
pub open spec fn idle(step: Step) -> bool {
    step.outgoing is None && step.output is None
}

/// The session is still exchanging messages.
pub open spec fn running(p: Phase) -> bool {
    p == Phase::AwaitingNonces || p == Phase::AwaitingPartials
}

/// `m` is party `me`'s partial-signature broadcast carrying `partial`.
pub open spec fn partial_broadcast(m: Option<Msg>, me: nat, partial: Seq<u8>) -> bool {
    m matches Some(Msg::Round2Broadcast(m2)) && m2.sender == me && m2.receiver is None && m2.partial_sig@
        == partial
}

/// Key aggregation is deterministic: two sessions over the same ordered roster
/// hold the same aggregate key, whatever their messages, secrets or seeds.
pub proof fn lemma_aggregate_key_from_roster(a: SigningSession, b: SigningSession)
    requires
        a.wf(),
        b.wf(),
        a.roster() == b.roster(),
    ensures
        a.aggregate_key() == b.aggregate_key(),
        a.aggregate_key() == agg_key_of(a.roster()),
{
}

/// What a round hands on, all `n` contributions in party order with the local
/// one at `me`, does not depend on the order in which the peers' messages
/// arrived. The nonces, the local partial signature and the final signature
/// that `receive` produces are functions of these sequences, so they do not
/// depend on arrival order either.
pub proof fn lemma_round_contents_independent_of_order(
    n: nat,
    me: nat,
    own: Seq<u8>,
    arrivals: Seq<(nat, Vec<u8>)>,
    reordered: Seq<(nat, Vec<u8>)>,
)
    requires
        distinct_senders(arrivals),
        reordered.to_multiset() == arrivals.to_multiset(),
    ensures
        filled(replay(empty_slots::<Vec<u8>>(n), me, reordered), me, own) == filled(
            replay(empty_slots::<Vec<u8>>(n), me, arrivals),
            me,
            own,
        ),
{
    lemma_arrival_order_irrelevant(n, me, arrivals, reordered);
}

/// A copy of a list of byte strings.
fn copy_all(v: &Vec<Vec<u8>>) -> (r: Vec<Vec<u8>>)
    ensures
        views(r@) == views(v@),
{
    let mut r: Vec<Vec<u8>> = Vec::new();
    let mut k: usize = 0;
    while k < v.len()
        invariant
            k <= v@.len(),
            r@.len() == k,
            forall|j: int| 0 <= j < k ==> (#[trigger] r@[j])@ == v@[j]@,
        decreases v@.len() - k,
    {
        let c = v[k].clone();
        assert(c@ =~= v@[k as int]@);
        r.push(c);
        k = k + 1;
    }
    assert(views(r@) =~= views(v@));
    r
}

/// The nonces and partial signatures of one signing session.
pub struct SigningSession {
    me: u16,
    n: u16,
    roster: Vec<Vec<u8>>,
    secret: Vec<u8>,
    seed: [u8; 32],
    message: Vec<u8>,
    aggregate_key: Vec<u8>,
    own_nonce: Vec<u8>,
    nonces: Vec<Vec<u8>>,
    own_partial: Vec<u8>,
    round1: RoundStore<Vec<u8>>,
    round2: RoundStore<Vec<u8>>,
    phase: Phase,
}

impl SigningSession {
    /// The local party index.
    pub closed spec fn me(&self) -> nat {
        self.me as nat
    }

    /// The number of parties.
    pub closed spec fn parties(&self) -> nat {
        self.n as nat
    }

    /// Where the session stands.
    pub closed spec fn phase(&self) -> Phase {
        self.phase
    }

    /// The ordered public keys.
    pub closed spec fn roster(&self) -> Seq<Seq<u8>> {
        views(self.roster@)
    }

    /// The local secret key.
    pub closed spec fn secret(&self) -> Seq<u8> {
        self.secret@
    }

    /// The seed of the local nonce pair.
    pub closed spec fn seed(&self) -> Seq<u8> {
        self.seed@
    }

    /// The message being signed.
    pub closed spec fn message(&self) -> Seq<u8> {
        self.message@
    }

    /// The serialised aggregate public key of the roster.
    pub closed spec fn aggregate_key(&self) -> Seq<u8> {
        self.aggregate_key@
    }

    /// The local public nonce.
    pub closed spec fn own_nonce(&self) -> Seq<u8> {
        self.own_nonce@
    }

    /// All public nonces in party order, once the first round has closed.
    pub closed spec fn nonces(&self) -> Seq<Seq<u8>> {
        views(self.nonces@)
    }

    /// The local partial signature, once the first round has closed.
    pub closed spec fn own_partial(&self) -> Seq<u8> {
        self.own_partial@
    }

    /// The public nonces received so far, by sender, while the first round is open.
    pub closed spec fn nonce_slots(&self) -> Seq<Option<Vec<u8>>> {
        self.round1.slots()
    }

    /// The partial signatures received so far, by sender.
    pub closed spec fn partial_slots(&self) -> Seq<Option<Vec<u8>>> {
        self.round2.slots()
    }

    pub closed spec fn inv(&self) -> bool {
        &&& 2 <= self.n
        &&& self.me < self.n
        &&& self.roster@.len() == self.n
        &&& roster_valid(self.roster())
        &&& key_agg_ok(self.roster())
        &&& self.aggregate_key@ == agg_key_of(self.roster())
        &&& point_valid(self.aggregate_key@)
        &&& scalar_bytes_valid(self.secret@)
        &&& owns_key(self.secret@, self.roster@[self.me as int]@)
        &&& self.own_nonce@ == public_nonce_of(self.roster(), self.secret@, self.seed@, self.me as nat, self.message@)
        &&& nonce_valid(self.own_nonce@)
        &&& self.round1.wf()
        &&& self.round2.wf()
        &&& self.round1.me() == self.me
        &&& self.round2.me() == self.me
        &&& self.round1.parties() == self.n
        &&& self.round2.parties() == self.n
        &&& forall|k: int| 0 <= k < self.n && (#[trigger] self.round1.slots()[k]) is Some
            ==> nonce_valid(self.round1.slots()[k]->Some_0@)
        &&& forall|k: int| 0 <= k < self.n && (#[trigger] self.round2.slots()[k]) is Some
            ==> partial_bytes_valid(self.round2.slots()[k]->Some_0@)
        &&& self.phase == Phase::AwaitingPartials ==> {
            &&& self.nonces@.len() == self.n
            &&& nonces_valid(views(self.nonces@))
            &&& self.own_partial@ == partial_of(self.roster(), self.secret@, self.seed@, self.me as nat, self.message@, views(self.nonces@))
            &&& partial_bytes_valid(self.own_partial@)
        }
    }

    /// The session's invariant; the round slots cover the `n` parties.
    pub open spec fn wf(&self) -> bool {
        &&& self.inv()
        &&& self.me() < self.parties()
        &&& self.parties() == self.roster().len()
        &&& self.aggregate_key() == agg_key_of(self.roster())
        &&& self.nonce_slots().len() == self.parties()
        &&& self.partial_slots().len() == self.parties()
    }

    proof fn lemma_wf(&self)
        requires
            self.inv(),
        ensures
            self.wf(),
    {
    }

    /// What a successful start establishes.
    pub open spec fn started(&self, m: Msg, roster: Seq<Seq<u8>>, secret: Seq<u8>, i: u16, message: Seq<u8>) -> bool {
        &&& self.wf()
        &&& self.me() == i
        &&& self.parties() == roster.len()
        &&& self.roster() == roster
        &&& self.secret() == secret
        &&& self.message() == message
        &&& self.aggregate_key() == agg_key_of(roster)
        &&& self.phase() == Phase::AwaitingNonces
        &&& self.nonce_slots() == empty_slots::<Vec<u8>>(roster.len())
        &&& self.partial_slots() == empty_slots::<Vec<u8>>(roster.len())
        &&& self.own_nonce() == public_nonce_of(roster, secret, self.seed(), i as nat, message)
        &&& m matches Msg::Round1Broadcast(m1)
        &&& m1.sender == i
        &&& m1.receiver is None
        &&& m1.nonce@ == self.own_nonce()
    }

    /// Starts party `i`'s session over `message` with the ordered `roster` of
    /// public keys: checks the inputs, aggregates the keys, draws the nonce
    /// pair from `nonce_seed` and returns the first-round broadcast. Nothing is
    /// to be sent when it fails.
    pub fn start(
        roster: &Vec<Vec<u8>>,
        secret_key: &Vec<u8>,
        i: u16,
        message: &Vec<u8>,
        nonce_seed: [u8; 32],
    ) -> (r: Result<(SigningSession, Msg), SigningError>)
        ensures
            roster@.len() < 2 ==> (r matches Err(SigningError::KeySetupError(_))),
            (r matches Err(SigningError::ContextError(_))) <==> roster@.len() >= 2 && context_invalid(roster@.len(), i),
            roster@.len() >= 2 && !context_invalid(roster@.len(), i) && keys_invalid(views(roster@), secret_key@)
                ==> (r matches Err(SigningError::KeySetupError(_))),
            r is Ok <==> start_ok(views(roster@), secret_key@, i),
            r matches Ok((s, m)) ==> s.started(m, views(roster@), secret_key@, i, message@) && s.seed() == nonce_seed@,
    {
        if roster.len() < 2 {
            return Err(SigningError::KeySetupError(String::from_str("a session needs two parties or more")));
        }
        if roster.len() > 65535 || i as usize >= roster.len() {
            return Err(SigningError::ContextError(String::from_str("party index outside the roster")));
        }
        let n = roster.len() as u16;
        if !scalar_valid(secret_key.as_slice()) {
            return Err(SigningError::KeySetupError(String::from_str("invalid secret key")));
        }
        let mut k: usize = 0;
        while k < roster.len()
            invariant
                k <= roster@.len(),
                roster@.len() >= 2,
                !context_invalid(roster@.len(), i),
                forall|j: int| 0 <= j < k ==> point_valid(#[trigger] roster@[j]@),
            decreases roster@.len() - k,
        {
            if !point_bytes_valid(roster[k].as_slice()) {
                proof {
                    assert(views(roster@)[k as int] == roster@[k as int]@);
                }
                return Err(SigningError::KeySetupError(String::from_str("invalid public key")));
            }
            k = k + 1;
        }
        assert(roster_valid(views(roster@))) by {
            assert forall|j: int| 0 <= j < views(roster@).len() implies point_valid(#[trigger] views(roster@)[j]) by {
                assert(point_valid(roster@[j]@));
            }
        }
        let aggregate = match aggregate_key(roster) {
            Ok(key) => key,
            Err(e) => {
                return Err(SigningError::KeySetupError(e));
            },
        };
        let own_nonce = match first_round_nonce(roster, secret_key.as_slice(), nonce_seed, i as usize, message.as_slice()) {
            Ok(nonce) => nonce,
            Err(e) => {
                return Err(SigningError::MpcError(e));
            },
        };
        let session = SigningSession {
            me: i,
            n,
            roster: copy_all(roster),
            secret: secret_key.clone(),
            seed: nonce_seed,
            message: message.clone(),
            aggregate_key: aggregate,
            own_nonce: own_nonce.clone(),
            nonces: Vec::new(),
            own_partial: Vec::new(),
            round1: RoundStore::new(i as usize, n as usize),
            round2: RoundStore::new(i as usize, n as usize),
            phase: Phase::AwaitingNonces,
        };
        proof {
            let rv = views(roster@);
            assert(session.roster() == rv);
            assert(session.roster@[i as int]@ == session.roster()[i as int]);
            assert(rv[i as int] == roster@[i as int]@);
            assert(session.secret@ == secret_key@);
            assert(session.message@ == message@);
            assert(session.own_nonce@ == own_nonce@);
            session.lemma_wf();
        }
        Ok((session, Msg::Round1Broadcast(Msg1 { sender: i, receiver: None, nonce: own_nonce })))
    }

    /// As `start`, with a nonce seed freshly drawn from the system's secure
    /// random source, so that no two sessions share a nonce.
    pub fn start_fresh(roster: &Vec<Vec<u8>>, secret_key: &Vec<u8>, i: u16, message: &Vec<u8>) -> (r:
        Result<(SigningSession, Msg), SigningError>)
        ensures
            roster@.len() < 2 ==> (r matches Err(SigningError::KeySetupError(_))),
            (r matches Err(SigningError::ContextError(_))) <==> roster@.len() >= 2 && context_invalid(roster@.len(), i),
            roster@.len() >= 2 && !context_invalid(roster@.len(), i) && keys_invalid(views(roster@), secret_key@)
                ==> (r matches Err(SigningError::KeySetupError(_))),
            r is Ok <==> start_ok(views(roster@), secret_key@, i),
            r matches Ok((s, m)) ==> s.started(m, views(roster@), secret_key@, i, message@),
    {
        let seed = fresh_nonce_seed();
        SigningSession::start(roster, secret_key, i, message, seed)
    }

    /// Ends the first round: all public nonces in party order, and the local
    /// partial signature over them, to be broadcast.
    fn close_nonce_round(&mut self) -> (r: Msg)
        requires
            old(self).inv(),
            old(self).phase == Phase::AwaitingNonces,
            old(self).round1.complete(),
        ensures
            final(self).inv(),
            final(self).me == old(self).me,
            final(self).n == old(self).n,
            final(self).roster == old(self).roster,
            final(self).secret == old(self).secret,
            final(self).seed == old(self).seed,
            final(self).message == old(self).message,
            final(self).aggregate_key == old(self).aggregate_key,
            final(self).own_nonce == old(self).own_nonce,
            final(self).round2 == old(self).round2,
            final(self).phase == Phase::AwaitingPartials,
            final(self).nonces() == filled(old(self).round1.slots(), old(self).me as nat, old(self).own_nonce@),
            final(self).own_partial@ == partial_of(old(self).roster(), old(self).secret@, old(self).seed@,
                old(self).me as nat, old(self).message@, final(self).nonces()),
            partial_broadcast(Some(r), old(self).me as nat, final(self).own_partial@),
    {
        let ghost slots = self.round1.slots();
        let mut store: RoundStore<Vec<u8>> = RoundStore::new(self.me as usize, self.n as usize);
        std::mem::swap(&mut store, &mut self.round1);
        let nonces = store.into_vec_including_me(self.own_nonce.clone());
        assert(views(nonces@) =~= filled(slots, self.me as nat, self.own_nonce@));
        assert(nonces_valid(views(nonces@))) by {
            assert forall|k: int| 0 <= k < views(nonces@).len() implies nonce_valid(#[trigger] views(nonces@)[k]) by {
                if k != self.me {
                    assert(slots[k] is Some);
                }
            }
        }
        let partial = sign_partial(
            &self.roster,
            self.secret.as_slice(),
            self.seed,
            self.me as usize,
            self.message.as_slice(),
            &nonces,
        );
        self.nonces = nonces;
        self.own_partial = partial.clone();
        self.phase = Phase::AwaitingPartials;
        Msg::Round2Broadcast(Msg2 { sender: self.me, receiver: None, partial_sig: partial })
    }

    /// Ends the second round: checks every peer's partial signature against its
    /// key and nonce, sums them and checks the sum under the aggregate key.
    fn close_signature_round(&mut self) -> (r: Result<SchnorrkelMuSigState, SigningError>)
        requires
            old(self).inv(),
            old(self).phase == Phase::AwaitingPartials,
            old(self).round2.complete(),
        ensures
            final(self).inv(),
            final(self).me == old(self).me,
            final(self).n == old(self).n,
            final(self).roster == old(self).roster,
            final(self).message == old(self).message,
            final(self).aggregate_key == old(self).aggregate_key,
            final(self).nonces == old(self).nonces,
            final(self).own_partial == old(self).own_partial,
            final(self).round1 == old(self).round1,
            ({
                let partials = filled(old(self).round2.slots(), old(self).me as nat, old(self).own_partial@);
                &&& r is Ok <==> signing_succeeds(old(self).roster(), old(self).me as nat, old(self).message@,
                    old(self).nonces(), partials, old(self).aggregate_key@)
                &&& r matches Ok(out) ==> final(self).phase == Phase::Finished && signed(out,
                    old(self).aggregate_key@, sig_agg_of(old(self).roster(), old(self).message@, old(self).nonces(), partials))
                &&& r is Err ==> final(self).phase == Phase::Failed && (r matches Err(SigningError::MpcError(_)))
            }),
    {
        let ghost slots = self.round2.slots();
        let mut store: RoundStore<Vec<u8>> = RoundStore::new(self.me as usize, self.n as usize);
        std::mem::swap(&mut store, &mut self.round2);
        let partials = store.into_vec_including_me(self.own_partial.clone());
        let ghost pv = filled(slots, self.me as nat, self.own_partial@);
        assert(views(partials@) =~= pv);
        assert(partials_valid(pv)) by {
            assert forall|k: int| 0 <= k < pv.len() implies partial_bytes_valid(#[trigger] pv[k]) by {
                if k != self.me {
                    assert(slots[k] is Some);
                }
            }
        }
        self.phase = Phase::Failed;
        let mut k: usize = 0;
        while k < partials.len()
            invariant
                self.inv(),
                self.phase == Phase::Failed,
                self.nonces@.len() == self.n,
                nonces_valid(views(self.nonces@)),
                self.me == old(self).me,
                self.n == old(self).n,
                self.roster == old(self).roster,
                self.message == old(self).message,
                self.aggregate_key == old(self).aggregate_key,
                self.nonces == old(self).nonces,
                self.own_partial == old(self).own_partial,
                self.round1 == old(self).round1,
                views(partials@) == pv,
                pv == filled(old(self).round2.slots(), old(self).me as nat, old(self).own_partial@),
                partials_valid(pv),
                pv.len() == self.n,
                k <= partials@.len(),
                forall|j: int| 0 <= j < k && j != self.me ==> partial_ok(self.roster(), j as nat, self.message@, views(self.nonces@), #[trigger] pv[j]),
            decreases partials@.len() - k,
        {
            if k != self.me as usize {
                assert(pv[k as int] == partials@[k as int]@);
                let ok = verify_partial(&self.roster, k, self.message.as_slice(), &self.nonces, partials[k].as_slice());
                if !ok {
                    assert(!partials_verify(self.roster(), self.me as nat, self.message@, views(self.nonces@), pv));
                    return Err(SigningError::MpcError(String::from_str("invalid partial signature")));
                }
            }
            k = k + 1;
        }
        let sig = match aggregate_signature(&self.roster, self.message.as_slice(), &self.nonces, &partials) {
            Ok(sig) => sig,
            Err(e) => {
                return Err(SigningError::MpcError(e));
            },
        };
        if !verify_signature(self.aggregate_key.as_slice(), self.message.as_slice(), sig.as_slice()) {
            return Err(SigningError::MpcError(String::from_str("aggregate signature does not verify")));
        }
        self.phase = Phase::Finished;
        Ok(SchnorrkelMuSigState { signature: Some(sig), public_key: Some(self.aggregate_key.clone()) })
    }

    /// Hands one incoming message to the session. Each round takes one
    /// well-formed message per peer: a malformed message, one from outside the
    /// roster, from the local party or from a peer already heard in that round
    /// is refused, and the session fails. A round closes once every peer is
    /// heard; closing the first yields the partial-signature broadcast, closing
    /// the second the signature. Second-round messages that arrive early are kept.
    pub fn receive(&mut self, msg: Msg) -> (r: Result<Step, SigningError>)
        requires
            old(self).wf(),
        ensures
            final(self).wf(),
            final(self).me() == old(self).me(),
            final(self).parties() == old(self).parties(),
            final(self).roster() == old(self).roster(),
            final(self).aggregate_key() == old(self).aggregate_key(),
            r is Err ==> (r matches Err(SigningError::MpcError(_))),
            !running(old(self).phase()) ==> r is Err && final(self).phase() == old(self).phase(),
            running(old(self).phase()) && r is Err ==> final(self).phase() == Phase::Failed,
            msg matches Msg::Round1Broadcast(m) ==> {
                &&& old(self).phase() == Phase::AwaitingPartials ==> r is Err
                &&& old(self).phase() == Phase::AwaitingNonces ==> {
                    let me = old(self).me();
                    let after = accept(old(self).nonce_slots(), me, m.sender as nat, m.nonce);
                    let nonces = filled(after, me, old(self).own_nonce());
                    let own = partial_of(old(self).roster(), old(self).secret(), old(self).seed(), me,
                        old(self).message(), nonces);
                    let partials = filled(old(self).partial_slots(), me, own);
                    let sig = sig_agg_of(old(self).roster(), old(self).message(), nonces, partials);
                    let admitted = nonce_valid(m.nonce@) && accepts(old(self).nonce_slots(), me, m.sender as nat);
                    &&& !admitted ==> r is Err
                    &&& admitted && !all_present(after, me) ==> (r matches Ok(step) && idle(step))
                        && final(self).phase() == Phase::AwaitingNonces && final(self).nonce_slots() == after
                        && final(self).partial_slots() == old(self).partial_slots()
                    &&& admitted && all_present(after, me) ==> final(self).nonces() == nonces
                        && final(self).own_partial() == own
                    &&& admitted && all_present(after, me) && !all_present(old(self).partial_slots(), me) ==> (
                        r matches Ok(step) && partial_broadcast(step.outgoing, me, own) && step.output is None)
                        && final(self).phase() == Phase::AwaitingPartials
                        && final(self).partial_slots() == old(self).partial_slots()
                    &&& admitted && all_present(after, me) && all_present(old(self).partial_slots(), me) ==> {
                        &&& r is Ok <==> signing_succeeds(old(self).roster(), me, old(self).message(), nonces,
                            partials, old(self).aggregate_key())
                        &&& r matches Ok(step) ==> partial_broadcast(step.outgoing, me, own)
                            && (step.output matches Some(out) && signed(out, old(self).aggregate_key(), sig))
                            && final(self).phase() == Phase::Finished
                    }
                }
            },
            msg matches Msg::Round2Broadcast(m) ==> running(old(self).phase()) ==> {
                let me = old(self).me();
                let after = accept(old(self).partial_slots(), me, m.sender as nat, m.partial_sig);
                let partials = filled(after, me, old(self).own_partial());
                let sig = sig_agg_of(old(self).roster(), old(self).message(), old(self).nonces(), partials);
                let admitted = partial_bytes_valid(m.partial_sig@) && accepts(old(self).partial_slots(), me,
                    m.sender as nat);
                &&& !admitted ==> r is Err
                &&& admitted && (old(self).phase() == Phase::AwaitingNonces || !all_present(after, me)) ==> (
                    r matches Ok(step) && idle(step)) && final(self).phase() == old(self).phase()
                    && final(self).partial_slots() == after && final(self).nonce_slots() == old(self).nonce_slots()
                &&& admitted && old(self).phase() == Phase::AwaitingPartials && all_present(after, me) ==> {
                    &&& r is Ok <==> signing_succeeds(old(self).roster(), me, old(self).message(),
                        old(self).nonces(), partials, old(self).aggregate_key())
                    &&& r matches Ok(step) ==> step.outgoing is None && (step.output matches Some(out) && signed(
                        out, old(self).aggregate_key(), sig)) && final(self).phase() == Phase::Finished
                }
            },
    {
        match msg {
            Msg::Round1Broadcast(m) => {
                if self.phase != Phase::AwaitingNonces {
                    if self.phase == Phase::AwaitingPartials {
                        self.phase = Phase::Failed;
                    }
                    return Err(SigningError::MpcError(String::from_str("first-round message after the round closed")));
                }
                if !nonce_bytes_valid(m.nonce.as_slice()) {
                    self.phase = Phase::Failed;
                    return Err(SigningError::MpcError(String::from_str("malformed public nonce")));
                }
                let ghost nv = m.nonce@;
                if let Err(_) = self.round1.add(m.sender as usize, m.nonce) {
                    self.phase = Phase::Failed;
                    return Err(SigningError::MpcError(String::from_str("refused first-round message")));
                }
                if !self.round1.is_complete() {
                    return Ok(Step { outgoing: None, output: None });
                }
                let out_msg = self.close_nonce_round();
                if !self.round2.is_complete() {
                    return Ok(Step { outgoing: Some(out_msg), output: None });
                }
                match self.close_signature_round() {
                    Ok(out) => Ok(Step { outgoing: Some(out_msg), output: Some(out) }),
                    Err(e) => Err(e),
                }
            },
            Msg::Round2Broadcast(m) => {
                if self.phase != Phase::AwaitingNonces && self.phase != Phase::AwaitingPartials {
                    return Err(SigningError::MpcError(String::from_str("second-round message after the session ended")));
                }
                if !partial_valid(m.partial_sig.as_slice()) {
                    self.phase = Phase::Failed;
                    return Err(SigningError::MpcError(String::from_str("malformed partial signature")));
                }
                if let Err(_) = self.round2.add(m.sender as usize, m.partial_sig) {
                    self.phase = Phase::Failed;
                    return Err(SigningError::MpcError(String::from_str("refused second-round message")));
                }
                if self.phase == Phase::AwaitingNonces || !self.round2.is_complete() {
                    return Ok(Step { outgoing: None, output: None });
                }
                match self.close_signature_round() {
                    Ok(out) => Ok(Step { outgoing: None, output: Some(out) }),
                    Err(e) => Err(e),
                }
            },
        }
    }

    /// The local party index.
    pub fn local_index(&self) -> (r: u16)
        ensures
            r == self.me(),
    {
        self.me
    }

    /// The number of parties.
    pub fn party_count(&self) -> (r: u16)
        ensures
            r == self.parties(),
    {
        self.n
    }

    /// Where the session stands.
    pub fn current_phase(&self) -> (r: Phase)
        ensures
            r == self.phase(),
    {
        self.phase
    }

    /// The serialised aggregate public key of the roster.
    pub fn aggregate_public_key(&self) -> (r: Vec<u8>)
        ensures
            r@ == self.aggregate_key(),
    {
        self.aggregate_key.clone()
    }
}

} // verus!

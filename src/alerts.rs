use std::collections::{HashMap, HashSet};
use vstd::prelude::*;

use crate::digest::{digest_of, enc_u64, hash_bytes, push_u64};
use crate::keychain::{Keychain, Signature};
use crate::nodes::{
    lemma_pair_key_injective, pair_key, pair_key_of, Digest, NodeCount, NodeIndex, Round, SessionId,
};
use crate::units::{
    clone_units, enc_signed_unit, push_signed_unit, unit_signed, unit_views, SignedUnitView,
    UncheckedSignedUnit,
};

verus! {

broadcast use vstd::std_specs::hash::group_hash_axioms;

/// Two units by the same creator at the same round, offered as evidence of a fork.
pub type ForkProof = (UncheckedSignedUnit, UncheckedSignedUnit);

/// What a fork proof holds.
pub type ForkProofView = (SignedUnitView, SignedUnitView);

/// A copy of a fork proof.
pub fn clone_proof(p: &ForkProof) -> (r: ForkProof)
    ensures
        r@ == p@,
{
    (p.0.clone(), p.1.clone())
}

/// What an alert holds.
pub struct AlertView {
    pub sender: NodeIndex,
    pub proof: ForkProofView,
    pub legit_units: Seq<SignedUnitView>,
}

/// The node an alert accuses: the creator of the first unit of its proof.
pub open spec fn forker_of(a: AlertView) -> NodeIndex {
    a.proof.0.unit.pre_unit.creator
}

/// The units one after another, without a length.
pub open spec fn enc_units(s: Seq<SignedUnitView>) -> Seq<u8>
    decreases s.len(),
{
    if s.len() == 0 {
        Seq::empty()
    } else {
        enc_units(s.drop_last()) + enc_signed_unit(s.last())
    }
}

/// The bytes an alert's hash is taken over.
pub open spec fn enc_alert(a: AlertView) -> Seq<u8> {
    enc_u64(a.sender.0 as u64) + enc_signed_unit(a.proof.0) + enc_signed_unit(a.proof.1) + enc_u64(
        a.legit_units.len() as u64,
    ) + enc_units(a.legit_units)
}

/// The hash of an alert.
pub open spec fn alert_digest(a: AlertView) -> Digest {
    digest_of(enc_alert(a))
}

/// An accusation of a fork: the accuser, the proof, and the accused's units that the
/// accuser commits to.
#[derive(Debug, PartialEq, Eq)]
pub struct Alert {
    pub sender: NodeIndex,
    pub proof: ForkProof,
    pub legit_units: Vec<UncheckedSignedUnit>,
}

impl View for Alert {
    type V = AlertView;

    open spec fn view(&self) -> AlertView {
        AlertView { sender: self.sender, proof: self.proof@, legit_units: unit_views(self.legit_units@) }
    }
}

impl Clone for Alert {
    fn clone(&self) -> (r: Self)
        ensures
            r@ == self@,
    {
        Alert {
            sender: self.sender,
            proof: clone_proof(&self.proof),
            legit_units: clone_units(&self.legit_units),
        }
    }
}

impl Alert {
    pub fn new(sender: NodeIndex, proof: ForkProof, legit_units: Vec<UncheckedSignedUnit>) -> (r:
        Alert)
        ensures
            r@ == (AlertView { sender, proof: proof@, legit_units: unit_views(legit_units@) }),
    {
        Alert { sender, proof, legit_units }
    }

    /// The accused node.
    pub fn forker(&self) -> (r: NodeIndex)
        ensures
            r == forker_of(self@),
    {
        self.proof.0.unit.creator()
    }

    /// The hash of this alert.
    pub fn hash(&self) -> (r: Digest)
        ensures
            r == alert_digest(self@),
    {
        let mut bytes: Vec<u8> = Vec::new();
        push_u64(&mut bytes, self.sender.0 as u64);
        push_signed_unit(&mut bytes, &self.proof.0);
        push_signed_unit(&mut bytes, &self.proof.1);
        push_u64(&mut bytes, self.legit_units.len() as u64);
        let ghost start = bytes@;
        let mut i: usize = 0;
        while i < self.legit_units.len()
            invariant
                i <= self.legit_units.len(),
                bytes@ == start + enc_units(unit_views(self.legit_units@.subrange(0, i as int))),
            decreases self.legit_units.len() - i,
        {
            assert(unit_views(self.legit_units@.subrange(0, i as int + 1)).drop_last()
                =~= unit_views(self.legit_units@.subrange(0, i as int)));
            push_signed_unit(&mut bytes, &self.legit_units[i]);
            i += 1;
            assert(bytes@ =~= start + enc_units(unit_views(self.legit_units@.subrange(0, i as int))));
        }
        assert(self.legit_units@.subrange(0, i as int) =~= self.legit_units@);
        assert(bytes@ =~= enc_alert(self@));
        hash_bytes(&bytes)
    }
}

/// What a signed alert holds.
pub struct SignedAlertView {
    pub alert: AlertView,
    pub signature: Seq<u8>,
}

/// Whether the signature is the accuser's signature of the alert's hash, under the
/// signature scheme of `K`.
pub open spec fn alert_signed<K: Keychain>(a: SignedAlertView) -> bool {
    K::signed_by(alert_digest(a.alert), a.signature, a.alert.sender)
}

/// An alert with a signature that has not been checked yet.
#[derive(Debug, PartialEq, Eq)]
pub struct UncheckedSignedAlert {
    pub alert: Alert,
    pub signature: Signature,
}

impl View for UncheckedSignedAlert {
    type V = SignedAlertView;

    open spec fn view(&self) -> SignedAlertView {
        SignedAlertView { alert: self.alert@, signature: self.signature@ }
    }
}

impl Clone for UncheckedSignedAlert {
    fn clone(&self) -> (r: Self)
        ensures
            r@ == self@,
    {
        UncheckedSignedAlert { alert: self.alert.clone(), signature: self.signature.clone() }
    }
}

impl UncheckedSignedAlert {
    /// Signs an alert's hash with `keychain`.
    pub fn sign<K: Keychain>(alert: Alert, keychain: &K) -> (r: UncheckedSignedAlert)
        ensures
            r@.alert == alert@,
            K::signed_by(alert_digest(alert@), r@.signature, keychain.spec_index()),
    {
        let h = alert.hash();
        let signature = keychain.sign(h);
        UncheckedSignedAlert { alert, signature }
    }

    pub fn as_signable(&self) -> (r: &Alert)
        ensures
            r == &self.alert,
    {
        &self.alert
    }
}

/// Where a message goes.
#[derive(Clone, Copy, Debug, PartialEq, Eq, Structural)]
pub enum Recipient {
    Everyone,
    Node(NodeIndex),
}

/// One member's signature of a hash.
#[derive(Clone, Debug, PartialEq, Eq)]
pub struct SignedHash {
    pub hash: Digest,
    pub signer: NodeIndex,
    pub signature: Signature,
}

impl SignedHash {
    /// Signs `hash` with `keychain`.
    pub fn sign<K: Keychain>(hash: Digest, keychain: &K) -> (r: SignedHash)
        ensures
            r.hash == hash,
            r.signer == keychain.spec_index(),
            K::signed_by(hash, r.signature@, keychain.spec_index()),
    {
        SignedHash { hash, signer: keychain.index(), signature: keychain.sign(hash) }
    }
}

/// A hash with the signatures of many members.
#[derive(Clone, Debug, PartialEq, Eq)]
pub struct Multisigned {
    pub hash: Digest,
    pub signatures: Vec<Signature>,
}

impl Multisigned {
    pub fn as_signable(&self) -> (r: Digest)
        ensures
            r == self.hash,
    {
        self.hash
    }
}

/// A message of the reliable multicast of alert hashes.
#[derive(Clone, Debug, PartialEq, Eq)]
pub enum RmcMessage {
    SignedHash(SignedHash),
    MultisignedHash(Multisigned),
}

/// The hash a multicast message is about.
pub open spec fn rmc_hash(m: RmcMessage) -> Digest {
    match m {
        RmcMessage::SignedHash(s) => s.hash,
        RmcMessage::MultisignedHash(s) => s.hash,
    }
}

impl RmcMessage {
    pub fn hash(&self) -> (r: Digest)
        ensures
            r == rmc_hash(*self),
    {
        match self {
            RmcMessage::SignedHash(s) => s.hash,
            RmcMessage::MultisignedHash(s) => s.hash,
        }
    }

    /// Whether the message carries the completed multisignature.
    pub fn is_complete(&self) -> (r: bool)
        ensures
            r == (*self is MultisignedHash),
    {
        match self {
            RmcMessage::SignedHash(_) => false,
            RmcMessage::MultisignedHash(_) => true,
        }
    }
}

/// A message of the alert protocol.
#[derive(Clone, Debug, PartialEq, Eq)]
pub enum AlertMessage {
    ForkAlert(UncheckedSignedAlert),
    RmcMessage(NodeIndex, RmcMessage),
    AlertRequest(NodeIndex, Digest),
}

/// What the alert handler tells the rest of the node.
#[derive(Debug, PartialEq, Eq)]
pub enum ForkingNotification {
    /// A new forker, with the proof.
    Forker(ForkProof),
    /// Units of a forker that an alert committed to, once the alert is confirmed.
    Units(Vec<UncheckedSignedUnit>),
}

/// What the alert handler asks to be sent or passed on.
#[derive(Debug, PartialEq, Eq)]
pub enum AlerterResponse {
    ForkAlert(UncheckedSignedAlert, Recipient),
    AlertRequest(Digest, Recipient),
    RmcMessage(RmcMessage),
    ForkResponse(Option<ForkingNotification>, Digest),
}

/// The settings of the alert handler.
#[derive(Clone, Copy, Debug, PartialEq, Eq, Structural)]
pub struct AlertConfig {
    pub n_members: NodeCount,
    pub session_id: SessionId,
}

/// Why an alert, or the commitment in it, was refused.
#[derive(Clone, Copy, Debug, PartialEq, Eq, Structural)]
pub enum Error {
    IncorrectlySignedUnit(NodeIndex),
    SameRound(Round, NodeIndex),
    WrongCreator(NodeIndex),
    DifferentRounds(NodeIndex),
    SingleUnit(NodeIndex),
    WrongSession(NodeIndex),
    IncorrectlySignedAlert,
    RepeatedAlert(NodeIndex, NodeIndex),
    UnknownAlertRequest,
    UnknownAlertRMC,
}

/// The outcome of checking the fork proof of alert `a` in session `session`: the forker,
/// or the first rule broken.
pub open spec fn fork_result<K: Keychain>(session: SessionId, a: AlertView) -> Result<NodeIndex, Error> {
    let u1 = a.proof.0;
    let u2 = a.proof.1;
    if !unit_signed::<K>(u1) || !unit_signed::<K>(u2) {
        Err(Error::IncorrectlySignedUnit(a.sender))
    } else if u1.unit.session_id != session || u2.unit.session_id != session {
        Err(Error::WrongSession(a.sender))
    } else if u1.unit == u2.unit {
        Err(Error::SingleUnit(a.sender))
    } else if u1.unit.pre_unit.creator != u2.unit.pre_unit.creator {
        Err(Error::WrongCreator(a.sender))
    } else if u1.unit.pre_unit.round != u2.unit.pre_unit.round {
        Err(Error::DifferentRounds(a.sender))
    } else {
        Ok(u1.unit.pre_unit.creator)
    }
}

/// The outcome of checking the committed units `us` of `sender` against `forker`, the rounds
/// in `seen` taken already: each unit correctly signed, by the forker, at a round of its own.
pub open spec fn units_result<K: Keychain>(
    us: Seq<SignedUnitView>,
    forker: NodeIndex,
    sender: NodeIndex,
    seen: Set<Round>,
) -> Result<(), Error>
    decreases us.len(),
{
    if us.len() == 0 {
        Ok(())
    } else {
        let u = us[0];
        if !unit_signed::<K>(u) {
            Err(Error::IncorrectlySignedUnit(sender))
        } else if u.unit.pre_unit.creator != forker {
            Err(Error::WrongCreator(sender))
        } else if seen.contains(u.unit.pre_unit.round) {
            Err(Error::SameRound(u.unit.pre_unit.round, sender))
        } else {
            units_result::<K>(us.drop_first(), forker, sender, seen.insert(u.unit.pre_unit.round))
        }
    }
}

/// The outcome of checking the commitment of alert `a`.
pub open spec fn commitment_result<K: Keychain>(a: AlertView) -> Result<(), Error> {
    units_result::<K>(a.legit_units, forker_of(a), a.sender, Set::empty())
}

/// The key under which the multicast of `sender`'s alert about `forker` is kept.
pub open spec fn rmc_key(sender: NodeIndex, forker: NodeIndex) -> u128 {
    pair_key(sender.0, forker.0)
}

proof fn lemma_rmc_key_injective(s1: NodeIndex, f1: NodeIndex, s2: NodeIndex, f2: NodeIndex)
    ensures
        rmc_key(s1, f1) == rmc_key(s2, f2) ==> s1 == s2 && f1 == f2,
{
    lemma_pair_key_injective(s1.0, f1.0, s2.0, f2.0);
}

fn rmc_key_of(sender: NodeIndex, forker: NodeIndex) -> (r: u128)
    ensures
        r == rmc_key(sender, forker),
{
    pair_key_of(sender.0, forker.0)
}

/// Validates fork alerts and keeps the book of the multicasts that make a fork known to all.
pub struct Handler<K> {
    session_id: SessionId,
    keychain: K,
    known_forkers: HashMap<usize, ForkProof>,
    known_alerts: HashMap<Digest, UncheckedSignedAlert>,
    known_rmcs: HashMap<u128, Digest>,
    pub exiting: bool,
}

impl<K: Keychain> Handler<K> {
    pub closed spec fn session(&self) -> SessionId {
        self.session_id
    }

    pub closed spec fn spec_exiting(&self) -> bool {
        self.exiting
    }

    pub closed spec fn spec_keychain(&self) -> K {
        self.keychain
    }

    /// The proof kept for each known forker.
    pub closed spec fn forkers(&self) -> Map<usize, ForkProof> {
        self.known_forkers@
    }

    /// The alerts kept, by hash.
    pub closed spec fn alerts(&self) -> Map<Digest, UncheckedSignedAlert> {
        self.known_alerts@
    }

    /// The hash of the alert whose multicast is current for `sender` accusing `forker`.
    pub closed spec fn rmc(&self, sender: NodeIndex, forker: NodeIndex) -> Option<Digest> {
        if self.known_rmcs@.contains_key(rmc_key(sender, forker)) {
            Some(self.known_rmcs@[rmc_key(sender, forker)])
        } else {
            None
        }
    }

    /// Each alert is kept under its own hash.
    pub closed spec fn wf(&self) -> bool {
        forall|h: Digest| #[trigger]
            self.known_alerts@.contains_key(h) ==> alert_digest(self.known_alerts@[h]@.alert) == h
    }

    pub fn new(keychain: K, config: AlertConfig) -> (r: Self)
        ensures
            r.wf(),
            r.session() == config.session_id,
            r.spec_keychain() == keychain,
            r.forkers() == Map::<usize, ForkProof>::empty(),
            r.alerts() == Map::<Digest, UncheckedSignedAlert>::empty(),
            forall|s: NodeIndex, f: NodeIndex| #[trigger] r.rmc(s, f) is None,
            !r.spec_exiting(),
    {
        Handler {
            session_id: config.session_id,
            keychain,
            known_forkers: HashMap::new(),
            known_alerts: HashMap::new(),
            known_rmcs: HashMap::new(),
            exiting: false,
        }
    }

    pub fn index(&self) -> (r: NodeIndex)
        ensures
            r == self.spec_keychain().spec_index(),
    {
        self.keychain.index()
    }

    pub fn is_forker(&self, forker: NodeIndex) -> (r: bool)
        ensures
            r == self.forkers().contains_key(forker.0),
    {
        self.known_forkers.contains_key(&forker.0)
    }

    /// Records `proof` for `forker`.
    pub fn on_new_forker_detected(&mut self, forker: NodeIndex, proof: ForkProof)
        requires
            old(self).wf(),
        ensures
            final(self).wf(),
            final(self).forkers() == old(self).forkers().insert(forker.0, proof),
            final(self).alerts() == old(self).alerts(),
            forall|s: NodeIndex, f: NodeIndex| #[trigger] final(self).rmc(s, f) == old(self).rmc(s, f),
            final(self).session() == old(self).session(),
            final(self).spec_keychain() == old(self).spec_keychain(),
            final(self).spec_exiting() == old(self).spec_exiting(),
    {
        self.known_forkers.insert(forker.0, proof);
    }

    /// Checks the commitment of an alert: each committed unit correctly signed, made by the
    /// forker, and at a round of its own.
    pub fn verify_commitment(&self, alert: &Alert) -> (r: Result<(), Error>)
        ensures
            r == commitment_result::<K>(alert@),
    {
        let mut rounds: HashSet<Round> = HashSet::new();
        let forker = alert.forker();
        let mut i: usize = 0;
        assert(unit_views(alert.legit_units@).subrange(0, alert.legit_units@.len() as int)
            =~= unit_views(alert.legit_units@));
        assert(rounds@ =~= Set::<Round>::empty());
        while i < alert.legit_units.len()
            invariant
                i <= alert.legit_units.len(),
                forker == forker_of(alert@),
                commitment_result::<K>(alert@) == units_result::<K>(
                    unit_views(alert.legit_units@).subrange(i as int, alert.legit_units@.len() as int),
                    forker,
                    alert.sender,
                    rounds@,
                ),
            decreases alert.legit_units.len() - i,
        {
            let ghost rest = unit_views(alert.legit_units@).subrange(
                i as int,
                alert.legit_units@.len() as int,
            );
            assert(rest[0] == alert.legit_units@[i as int]@);
            assert(rest.drop_first() =~= unit_views(alert.legit_units@).subrange(
                i as int + 1,
                alert.legit_units@.len() as int,
            ));
            let u = &alert.legit_units[i];
            let h = u.unit.hash();
            if !self.keychain.verify(h, &u.signature, u.unit.creator()) {
                return Err(Error::IncorrectlySignedUnit(alert.sender));
            }
            if u.unit.creator() != forker {
                return Err(Error::WrongCreator(alert.sender));
            }
            let round = u.unit.round();
            if rounds.contains(&round) {
                return Err(Error::SameRound(round, alert.sender));
            }
            rounds.insert(round);
            i += 1;
        }
        assert(unit_views(alert.legit_units@).subrange(
            i as int,
            alert.legit_units@.len() as int,
        ).len() == 0);
        Ok(())
    }

    /// Checks the fork proof of an alert and returns the forker.
    pub fn verify_fork(&self, alert: &Alert) -> (r: Result<NodeIndex, Error>)
        ensures
            r == fork_result::<K>(self.session(), alert@),
    {
        let u1 = &alert.proof.0;
        let u2 = &alert.proof.1;
        let ok1 = self.keychain.verify(u1.unit.hash(), &u1.signature, u1.unit.creator());
        let ok2 = self.keychain.verify(u2.unit.hash(), &u2.signature, u2.unit.creator());
        if !ok1 || !ok2 {
            return Err(Error::IncorrectlySignedUnit(alert.sender));
        }
        let full_unit1 = &u1.unit;
        let full_unit2 = &u2.unit;
        if full_unit1.session_id() != self.session_id || full_unit2.session_id()
            != self.session_id {
            return Err(Error::WrongSession(alert.sender));
        }
        if full_unit1.same_as(full_unit2) {
            return Err(Error::SingleUnit(alert.sender));
        }
        if full_unit1.creator() != full_unit2.creator() {
            return Err(Error::WrongCreator(alert.sender));
        }
        if full_unit1.round() != full_unit2.round() {
            return Err(Error::DifferentRounds(alert.sender));
        }
        Ok(full_unit1.creator())
    }

    /// Registers the multicast of `alert` for its sender and `forker` and keeps the alert
    /// under its hash; the hash is returned. Nothing is sent.
    pub fn rmc_alert(&mut self, forker: NodeIndex, alert: UncheckedSignedAlert) -> (r: Digest)
        requires
            old(self).wf(),
        ensures
            final(self).wf(),
            r == alert_digest(alert@.alert),
            final(self).alerts() == old(self).alerts().insert(r, alert),
            final(self).rmc(alert@.alert.sender, forker) == Some(r),
            forall|s: NodeIndex, f: NodeIndex|
                (s, f) != (alert@.alert.sender, forker) ==> #[trigger] final(self).rmc(s, f) == old(
                    self,
                ).rmc(s, f),
            final(self).forkers() == old(self).forkers(),
            final(self).session() == old(self).session(),
            final(self).spec_keychain() == old(self).spec_keychain(),
            final(self).spec_exiting() == old(self).spec_exiting(),
    {
        let hash = alert.alert.hash();
        let key = rmc_key_of(alert.alert.sender, forker);
        self.known_rmcs.insert(key, hash);
        self.known_alerts.insert(hash, alert);
        proof {
            assert forall|s: NodeIndex, f: NodeIndex|
                (s, f) != (alert@.alert.sender, forker) implies #[trigger] self.rmc(s, f) == old(
                self,
            ).rmc(s, f) by {
                lemma_rmc_key_injective(s, f, alert@.alert.sender, forker);
            }
        }
        hash
    }
}


/// Every multicast registered before is still registered: its hash may change, but it is
/// never cleared.
pub open spec fn rmcs_kept<K: Keychain>(old: Handler<K>, new: Handler<K>) -> bool {
    forall|s: NodeIndex, f: NodeIndex| #[trigger] old.rmc(s, f) is Some ==> new.rmc(s, f) is Some
}

/// Only the alert kept under `h` may differ between the two books, and under `h` now
/// stands `alert`.
pub open spec fn alerts_after(
    old_alerts: Map<Digest, UncheckedSignedAlert>,
    new_alerts: Map<Digest, UncheckedSignedAlert>,
    h: Digest,
    alert: SignedAlertView,
) -> bool {
    &&& new_alerts.contains_key(h)
    &&& new_alerts[h]@ == alert
    &&& new_alerts == old_alerts.insert(h, new_alerts[h])
}

/// What receiving the signed alert `alert` from the network does: `old` is the handler
/// before, `new` after, `r` the result.
pub open spec fn network_alert_step<K: Keychain>(
    old: Handler<K>,
    new: Handler<K>,
    alert: SignedAlertView,
    r: Result<(Option<ForkingNotification>, Digest), Error>,
) -> bool {
    let a = alert.alert;
    let h = alert_digest(a);
    if !alert_signed::<K>(alert) {
        r == Err::<(Option<ForkingNotification>, Digest), Error>(Error::IncorrectlySignedAlert)
            && new == old
    } else {
        match fork_result::<K>(old.session(), a) {
            Err(e) => r == Err::<(Option<ForkingNotification>, Digest), Error>(e) && new == old,
            Ok(forker) => {
                &&& new.session() == old.session()
                &&& new.spec_keychain() == old.spec_keychain()
                &&& new.spec_exiting() == old.spec_exiting()
                &&& alerts_after(old.alerts(), new.alerts(), h, alert)
                &&& if old.rmc(a.sender, forker) is Some {
                    &&& r == Err::<(Option<ForkingNotification>, Digest), Error>(
                        Error::RepeatedAlert(a.sender, forker),
                    )
                    &&& new.forkers() == old.forkers()
                    &&& forall|s: NodeIndex, f: NodeIndex| #[trigger] new.rmc(s, f) == old.rmc(s, f)
                } else {
                    &&& new.rmc(a.sender, forker) == Some(h)
                    &&& forall|s: NodeIndex, f: NodeIndex|
                        (s, f) != (a.sender, forker) ==> #[trigger] new.rmc(s, f) == old.rmc(s, f)
                    &&& r matches Ok((n, rh)) && rh == h
                    &&& if old.forkers().contains_key(forker.0) {
                        &&& r matches Ok((None, _))
                        &&& new.forkers() == old.forkers()
                    } else {
                        &&& r matches Ok((Some(ForkingNotification::Forker(p)), _)) && p@ == a.proof
                        &&& new.forkers().contains_key(forker.0)
                        &&& new.forkers()[forker.0]@ == a.proof
                        &&& new.forkers() == old.forkers().insert(
                            forker.0,
                            new.forkers()[forker.0],
                        )
                    }
                }
            },
        }
    }
}

impl<K: Keychain> Handler<K> {
    /// Takes this node's own alert: marks the forker, signs the alert and registers its
    /// multicast. The message for everyone and the alert's hash are returned, not sent.
    pub fn on_own_alert(&mut self, alert: Alert) -> (r: (AlertMessage, Recipient, Digest))
        requires
            old(self).wf(),
        ensures
            final(self).wf(),
            rmcs_kept(*old(self), *final(self)),
            r.2 == alert_digest(alert@),
            r.0 matches AlertMessage::ForkAlert(s) && s@.alert == alert@ && K::signed_by(
                r.2,
                s@.signature,
                old(self).spec_keychain().spec_index(),
            ) && alerts_after(old(self).alerts(), final(self).alerts(), r.2, s@),
            r.1 == Recipient::Everyone,
            final(self).forkers().contains_key(forker_of(alert@).0),
            final(self).forkers()[forker_of(alert@).0]@ == alert@.proof,
            final(self).forkers() == old(self).forkers().insert(
                forker_of(alert@).0,
                final(self).forkers()[forker_of(alert@).0],
            ),
            final(self).rmc(alert@.sender, forker_of(alert@)) == Some(r.2),
            forall|s: NodeIndex, f: NodeIndex|
                (s, f) != (alert@.sender, forker_of(alert@)) ==> #[trigger] final(self).rmc(s, f)
                    == old(self).rmc(s, f),
            final(self).session() == old(self).session(),
            final(self).spec_keychain() == old(self).spec_keychain(),
            final(self).spec_exiting() == old(self).spec_exiting(),
    {
        let forker = alert.forker();
        self.on_new_forker_detected(forker, clone_proof(&alert.proof));
        let signed = UncheckedSignedAlert::sign(alert, &self.keychain);
        let hash = self.rmc_alert(forker, signed.clone());
        (AlertMessage::ForkAlert(signed), Recipient::Everyone, hash)
    }

    /// Takes a signed alert from the network. A new forker is announced by
    /// `Some(ForkingNotification::Forker(proof))`; a second alert by the same sender about
    /// the same forker is kept but refused as repeated.
    pub fn on_network_alert(&mut self, alert: UncheckedSignedAlert) -> (r: Result<
        (Option<ForkingNotification>, Digest),
        Error,
    >)
        requires
            old(self).wf(),
        ensures
            final(self).wf(),
            rmcs_kept(*old(self), *final(self)),
            network_alert_step(*old(self), *final(self), alert@, r),
    {
        let h = alert.alert.hash();
        if !self.keychain.verify(h, &alert.signature, alert.alert.sender) {
            return Err(Error::IncorrectlySignedAlert);
        }
        let forker = match self.verify_fork(&alert.alert) {
            Ok(f) => f,
            Err(e) => {
                return Err(e);
            },
        };
        let sender = alert.alert.sender;
        let key = rmc_key_of(sender, forker);
        if self.known_rmcs.contains_key(&key) {
            self.known_alerts.insert(h, alert);
            return Err(Error::RepeatedAlert(sender, forker));
        }
        let propagate_alert = if self.is_forker(forker) {
            None
        } else {
            self.on_new_forker_detected(forker, clone_proof(&alert.alert.proof));
            Some(ForkingNotification::Forker(clone_proof(&alert.alert.proof)))
        };
        let hash_for_rmc = self.rmc_alert(forker, alert);
        Ok((propagate_alert, hash_for_rmc))
    }

    /// Handles a message of the alert protocol.
    pub fn on_message(&mut self, message: AlertMessage) -> (r: Result<
        Option<AlerterResponse>,
        Error,
    >)
        requires
            old(self).wf(),
        ensures
            final(self).wf(),
            rmcs_kept(*old(self), *final(self)),
            message matches AlertMessage::ForkAlert(a) ==> match r {
                Ok(Some(AlerterResponse::ForkResponse(n, h))) => network_alert_step(
                    *old(self),
                    *final(self),
                    a@,
                    Ok((n, h)),
                ),
                Err(e) => network_alert_step(*old(self), *final(self), a@, Err(e)),
                _ => false,
            },
            message matches AlertMessage::RmcMessage(sender, m) ==> {
                let h = rmc_hash(m);
                &&& *final(self) == *old(self)
                &&& if !old(self).alerts().contains_key(h) {
                    r == Ok::<Option<AlerterResponse>, Error>(
                        Some(AlerterResponse::AlertRequest(h, Recipient::Node(sender))),
                    )
                } else {
                    let a = old(self).alerts()[h]@.alert;
                    if old(self).rmc(a.sender, forker_of(a)) == Some(h) || m is MultisignedHash {
                        r == Ok::<Option<AlerterResponse>, Error>(
                            Some(AlerterResponse::RmcMessage(m)),
                        )
                    } else {
                        r == Ok::<Option<AlerterResponse>, Error>(None)
                    }
                }
            },
            message matches AlertMessage::AlertRequest(node, h) ==> {
                &&& *final(self) == *old(self)
                &&& if old(self).alerts().contains_key(h) {
                    r matches Ok(Some(AlerterResponse::ForkAlert(a, rc))) && a@ == old(
                        self,
                    ).alerts()[h]@ && rc == Recipient::Node(node)
                } else {
                    r == Err::<Option<AlerterResponse>, Error>(Error::UnknownAlertRequest)
                }
            },
    {
        match message {
            AlertMessage::ForkAlert(alert) => match self.on_network_alert(alert) {
                Ok((n, h)) => Ok(Some(AlerterResponse::ForkResponse(n, h))),
                Err(e) => Err(e),
            },
            AlertMessage::RmcMessage(sender, message) => {
                let hash = message.hash();
                match self.known_alerts.get(&hash) {
                    Some(alert) => {
                        let key = rmc_key_of(alert.alert.sender, alert.alert.forker());
                        let current = match self.known_rmcs.get(&key) {
                            Some(h) => *h == hash,
                            None => false,
                        };
                        if current || message.is_complete() {
                            Ok(Some(AlerterResponse::RmcMessage(message)))
                        } else {
                            Ok(None)
                        }
                    },
                    None => Ok(Some(AlerterResponse::AlertRequest(hash, Recipient::Node(sender)))),
                }
            },
            AlertMessage::AlertRequest(node, hash) => match self.known_alerts.get(&hash) {
                Some(alert) => Ok(
                    Some(AlerterResponse::ForkAlert(alert.clone(), Recipient::Node(node))),
                ),
                None => Err(Error::UnknownAlertRequest),
            },
        }
    }

    /// Takes the completed multicast of an alert's hash: the multicast becomes current for
    /// the alert's sender and forker, and the units the alert committed to come back when the
    /// commitment checks out.
    pub fn alert_confirmed(&mut self, multisigned: Multisigned) -> (r: Result<
        ForkingNotification,
        Error,
    >)
        requires
            old(self).wf(),
        ensures
            final(self).wf(),
            rmcs_kept(*old(self), *final(self)),
            !old(self).alerts().contains_key(multisigned.hash) ==> r == Err::<
                ForkingNotification,
                Error,
            >(Error::UnknownAlertRMC) && *final(self) == *old(self),
            old(self).alerts().contains_key(multisigned.hash) ==> {
                let a = old(self).alerts()[multisigned.hash]@.alert;
                &&& final(self).rmc(a.sender, forker_of(a)) == Some(multisigned.hash)
                &&& forall|s: NodeIndex, f: NodeIndex|
                    (s, f) != (a.sender, forker_of(a)) ==> #[trigger] final(self).rmc(s, f) == old(
                        self,
                    ).rmc(s, f)
                &&& final(self).alerts() == old(self).alerts()
                &&& final(self).forkers() == old(self).forkers()
                &&& final(self).session() == old(self).session()
                &&& final(self).spec_keychain() == old(self).spec_keychain()
                &&& final(self).spec_exiting() == old(self).spec_exiting()
                &&& match commitment_result::<K>(a) {
                    Err(e) => r == Err::<ForkingNotification, Error>(e),
                    Ok(_) => r matches Ok(ForkingNotification::Units(v)) && unit_views(v@)
                        == a.legit_units,
                }
            },
    {
        let h = multisigned.as_signable();
        let (sender, forker) = match self.known_alerts.get(&h) {
            Some(alert) => (alert.alert.sender, alert.alert.forker()),
            None => {
                return Err(Error::UnknownAlertRMC);
            },
        };
        let key = rmc_key_of(sender, forker);
        self.known_rmcs.insert(key, h);
        proof {
            assert forall|s: NodeIndex, f: NodeIndex|
                (s, f) != (sender, forker) implies #[trigger] self.rmc(s, f) == old(self).rmc(
                s,
                f,
            ) by {
                lemma_rmc_key_injective(s, f, sender, forker);
            }
        }
        match self.known_alerts.get(&h) {
            Some(alert) => {
                match self.verify_commitment(&alert.alert) {
                    Ok(()) => Ok(ForkingNotification::Units(clone_units(&alert.alert.legit_units))),
                    Err(e) => Err(e),
                }
            },
            None => Err(Error::UnknownAlertRMC),
        }
    }
}

} // verus!

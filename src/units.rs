use vstd::prelude::*;

use crate::digest::{
    digest_of, enc_bits, enc_opt, enc_opts, enc_u64, hash_bytes, push_bits, push_opt, push_opts,
    push_bytes, push_u64,
};
use crate::keychain::{Keychain, Signature};
use crate::nodes::{presence, Digest, NodeCount, NodeIndex, NodeMap, Round, SessionId};

verus! {

/// The payload a unit carries, chosen by the data provider.
pub type Data = u64;

/// What a control hash stands for: which parent slots are present, and the digest of the
/// parent map.
pub struct ControlHashView {
    pub parents_mask: Seq<bool>,
    pub combined_hash: Digest,
}

/// The digest over a map of parent hashes: its slot count, then each slot.
pub open spec fn combined_digest(parents: Seq<Option<Digest>>) -> Digest {
    digest_of(enc_u64(parents.len() as u64) + enc_opts(parents))
}

/// The control hash of a map of parent hashes.
pub open spec fn control_hash_of(parents: Seq<Option<Digest>>) -> ControlHashView {
    ControlHashView { parents_mask: presence(parents), combined_hash: combined_digest(parents) }
}

/// The indices whose bit is set, in increasing order.
pub open spec fn set_indices(mask: Seq<bool>) -> Seq<NodeIndex>
    decreases mask.len(),
{
    if mask.len() == 0 {
        Seq::empty()
    } else {
        set_indices(mask.drop_last()) + if mask.last() {
            seq![NodeIndex((mask.len() - 1) as usize)]
        } else {
            Seq::empty()
        }
    }
}

/// A commitment to the parents of a unit: the set of parent slots and a digest of their
/// hashes.
#[derive(Debug, PartialEq, Eq)]
pub struct ControlHash {
    pub parents_mask: Vec<bool>,
    pub combined_hash: Digest,
}

impl View for ControlHash {
    type V = ControlHashView;

    open spec fn view(&self) -> ControlHashView {
        ControlHashView { parents_mask: self.parents_mask@, combined_hash: self.combined_hash }
    }
}

impl Clone for ControlHash {
    fn clone(&self) -> (r: Self)
        ensures
            r@ == self@,
    {
        ControlHash { parents_mask: self.parents_mask.clone(), combined_hash: self.combined_hash }
    }
}

impl ControlHash {
    /// The control hash of a parent map.
    pub fn new(parents: &NodeMap<Digest>) -> (r: ControlHash)
        ensures
            r@ == control_hash_of(parents@),
    {
        let mut mask: Vec<bool> = Vec::new();
        let mut i: usize = 0;
        while i < parents.slots.len()
            invariant
                i <= parents.slots.len(),
                mask@ == presence(parents@.subrange(0, i as int)),
            decreases parents.slots.len() - i,
        {
            mask.push(parents.slots[i].is_some());
            i += 1;
            assert(mask@ =~= presence(parents@.subrange(0, i as int)));
        }
        assert(parents@.subrange(0, i as int) =~= parents@);
        let combined_hash = Self::combine_hashes(parents);
        ControlHash { parents_mask: mask, combined_hash }
    }

    /// The digest of a parent map.
    pub fn combine_hashes(parents: &NodeMap<Digest>) -> (r: Digest)
        ensures
            r == combined_digest(parents@),
    {
        let mut bytes: Vec<u8> = Vec::new();
        push_opts(&mut bytes, &parents.slots);
        assert(bytes@ =~= enc_u64(parents@.len() as u64) + enc_opts(parents@));
        hash_bytes(&bytes)
    }

    /// The indices of the parent slots that are present, in increasing order.
    pub fn parents(&self) -> (r: Vec<NodeIndex>)
        ensures
            r@ == set_indices(self.parents_mask@),
    {
        let mut out: Vec<NodeIndex> = Vec::new();
        let mut i: usize = 0;
        while i < self.parents_mask.len()
            invariant
                i <= self.parents_mask.len(),
                out@ == set_indices(self.parents_mask@.subrange(0, i as int)),
            decreases self.parents_mask.len() - i,
        {
            assert(self.parents_mask@.subrange(0, i as int + 1).drop_last()
                =~= self.parents_mask@.subrange(0, i as int));
            if self.parents_mask[i] {
                out.push(NodeIndex(i));
            }
            i += 1;
            assert(out@ =~= set_indices(self.parents_mask@.subrange(0, i as int)));
        }
        assert(self.parents_mask@.subrange(0, i as int) =~= self.parents_mask@);
        out
    }

    /// The committee size the control hash was made for.
    pub fn n_members(&self) -> (r: NodeCount)
        ensures
            r.0 == self.parents_mask@.len(),
    {
        NodeCount(self.parents_mask.len())
    }
}

/// What a pre-unit holds.
pub struct PreUnitView {
    pub creator: NodeIndex,
    pub round: Round,
    pub control_hash: ControlHashView,
}

/// A declaration of intent to join the DAG at a round.
#[derive(Debug, PartialEq, Eq)]
pub struct PreUnit {
    pub creator: NodeIndex,
    pub round: Round,
    pub control_hash: ControlHash,
}

impl View for PreUnit {
    type V = PreUnitView;

    open spec fn view(&self) -> PreUnitView {
        PreUnitView { creator: self.creator, round: self.round, control_hash: self.control_hash@ }
    }
}

impl Clone for PreUnit {
    fn clone(&self) -> (r: Self)
        ensures
            r@ == self@,
    {
        PreUnit { creator: self.creator, round: self.round, control_hash: self.control_hash.clone() }
    }
}

impl PreUnit {
    pub fn new(creator: NodeIndex, round: Round, control_hash: ControlHash) -> (r: PreUnit)
        ensures
            r@ == (PreUnitView { creator, round, control_hash: control_hash@ }),
    {
        PreUnit { creator, round, control_hash }
    }

    pub fn creator(&self) -> (r: NodeIndex)
        ensures
            r == self.creator,
    {
        self.creator
    }

    pub fn round(&self) -> (r: Round)
        ensures
            r == self.round,
    {
        self.round
    }

    pub fn control_hash(&self) -> (r: &ControlHash)
        ensures
            r == &self.control_hash,
    {
        &self.control_hash
    }
}

/// What a full unit holds.
pub struct FullUnitView {
    pub pre_unit: PreUnitView,
    pub data: Option<Data>,
    pub session_id: SessionId,
}

/// The bytes a unit's hash is taken over.
pub open spec fn enc_full_unit(u: FullUnitView) -> Seq<u8> {
    enc_u64(u.pre_unit.creator.0 as u64) + enc_u64(u.pre_unit.round as u64) + enc_u64(
        u.pre_unit.control_hash.parents_mask.len() as u64,
    ) + enc_bits(u.pre_unit.control_hash.parents_mask) + enc_u64(
        u.pre_unit.control_hash.combined_hash,
    ) + enc_opt(u.data) + enc_u64(u.session_id)
}

/// The hash of a unit.
pub open spec fn unit_digest(u: FullUnitView) -> Digest {
    digest_of(enc_full_unit(u))
}

/// The coordinate of a unit.
pub open spec fn unit_coord(u: FullUnitView) -> UnitCoord {
    UnitCoord { creator: u.pre_unit.creator, round: u.pre_unit.round }
}

/// The logical address of a unit.
#[derive(Clone, Copy, Debug, PartialEq, Eq, Structural, Hash)]
pub struct UnitCoord {
    pub creator: NodeIndex,
    pub round: Round,
}

impl UnitCoord {
    pub fn new(round: Round, creator: NodeIndex) -> (r: UnitCoord)
        ensures
            r == (UnitCoord { creator, round }),
    {
        UnitCoord { creator, round }
    }

    pub fn creator(&self) -> (r: NodeIndex)
        ensures
            r == self.creator,
    {
        self.creator
    }

    pub fn round(&self) -> (r: Round)
        ensures
            r == self.round,
    {
        self.round
    }
}

/// Appends the bytes a unit's hash is taken over.
pub fn push_full_unit(out: &mut Vec<u8>, u: &FullUnit)
    ensures
        final(out)@ == old(out)@ + enc_full_unit(u@),
{
    let ghost start = out@;
    push_u64(out, u.pre_unit.creator.0 as u64);
    push_u64(out, u.pre_unit.round as u64);
    push_bits(out, &u.pre_unit.control_hash.parents_mask);
    push_u64(out, u.pre_unit.control_hash.combined_hash);
    push_opt(out, u.data);
    push_u64(out, u.session_id);
    assert(out@ =~= start + enc_full_unit(u@));
}

/// A pre-unit with its payload, bound to a session.
#[derive(Debug, PartialEq, Eq)]
pub struct FullUnit {
    pub pre_unit: PreUnit,
    pub data: Option<Data>,
    pub session_id: SessionId,
}

impl View for FullUnit {
    type V = FullUnitView;

    open spec fn view(&self) -> FullUnitView {
        FullUnitView { pre_unit: self.pre_unit@, data: self.data, session_id: self.session_id }
    }
}

impl Clone for FullUnit {
    fn clone(&self) -> (r: Self)
        ensures
            r@ == self@,
    {
        FullUnit {
            pre_unit: self.pre_unit.clone(),
            data: self.data,
            session_id: self.session_id,
        }
    }
}

impl FullUnit {
    pub fn new(pre_unit: PreUnit, data: Option<Data>, session_id: SessionId) -> (r: FullUnit)
        ensures
            r@ == (FullUnitView { pre_unit: pre_unit@, data, session_id }),
    {
        FullUnit { pre_unit, data, session_id }
    }

    pub fn creator(&self) -> (r: NodeIndex)
        ensures
            r == self@.pre_unit.creator,
    {
        self.pre_unit.creator
    }

    pub fn round(&self) -> (r: Round)
        ensures
            r == self@.pre_unit.round,
    {
        self.pre_unit.round
    }

    pub fn session_id(&self) -> (r: SessionId)
        ensures
            r == self@.session_id,
    {
        self.session_id
    }

    pub fn data(&self) -> (r: Option<Data>)
        ensures
            r == self@.data,
    {
        self.data
    }

    pub fn as_pre_unit(&self) -> (r: &PreUnit)
        ensures
            r == &self.pre_unit,
    {
        &self.pre_unit
    }

    pub fn control_hash(&self) -> (r: &ControlHash)
        ensures
            r == &self.pre_unit.control_hash,
    {
        &self.pre_unit.control_hash
    }

    pub fn coord(&self) -> (r: UnitCoord)
        ensures
            r == unit_coord(self@),
    {
        UnitCoord { creator: self.pre_unit.creator, round: self.pre_unit.round }
    }

    /// The hash of this unit.
    pub fn hash(&self) -> (r: Digest)
        ensures
            r == unit_digest(self@),
    {
        let mut bytes: Vec<u8> = Vec::new();
        push_full_unit(&mut bytes, self);
        assert(bytes@ =~= enc_full_unit(self@));
        hash_bytes(&bytes)
    }

    /// Whether the two units are the same value.
    pub fn same_as(&self, other: &FullUnit) -> (r: bool)
        ensures
            r == (self@ == other@),
    {
        let a = &self.pre_unit.control_hash.parents_mask;
        let b = &other.pre_unit.control_hash.parents_mask;
        if a.len() != b.len() {
            return false;
        }
        let mut i: usize = 0;
        while i < a.len()
            invariant
                a@ == self@.pre_unit.control_hash.parents_mask,
                b@ == other@.pre_unit.control_hash.parents_mask,
                a.len() == b.len(),
                i <= a.len(),
                forall|j: int| 0 <= j < i ==> a@[j] == b@[j],
            decreases a.len() - i,
        {
            if a[i] != b[i] {
                assert(self@.pre_unit.control_hash.parents_mask[i as int]
                    != other@.pre_unit.control_hash.parents_mask[i as int]);
                return false;
            }
            i += 1;
        }
        assert(a@ =~= b@);
        self.pre_unit.creator == other.pre_unit.creator && self.pre_unit.round
            == other.pre_unit.round && self.pre_unit.control_hash.combined_hash
            == other.pre_unit.control_hash.combined_hash && self.data == other.data
            && self.session_id == other.session_id
    }

    /// The structural projection of this unit.
    pub fn unit(&self) -> (r: Unit)
        ensures
            r.hash == unit_digest(self@),
            r.creator == self@.pre_unit.creator,
            r.round == self@.pre_unit.round,
            r.control_hash@ == self@.pre_unit.control_hash,
    {
        Unit {
            hash: self.hash(),
            creator: self.pre_unit.creator,
            round: self.pre_unit.round,
            control_hash: self.pre_unit.control_hash.clone(),
        }
    }
}

/// The structural projection of a unit that the ordering layer works on.
#[derive(Debug, PartialEq, Eq)]
pub struct Unit {
    pub hash: Digest,
    pub creator: NodeIndex,
    pub round: Round,
    pub control_hash: ControlHash,
}

impl Clone for Unit {
    fn clone(&self) -> (r: Self)
        ensures
            r.hash == self.hash,
            r.creator == self.creator,
            r.round == self.round,
            r.control_hash@ == self.control_hash@,
    {
        Unit {
            hash: self.hash,
            creator: self.creator,
            round: self.round,
            control_hash: self.control_hash.clone(),
        }
    }
}

impl Unit {
    pub fn hash(&self) -> (r: Digest)
        ensures
            r == self.hash,
    {
        self.hash
    }

    pub fn creator(&self) -> (r: NodeIndex)
        ensures
            r == self.creator,
    {
        self.creator
    }

    pub fn round(&self) -> (r: Round)
        ensures
            r == self.round,
    {
        self.round
    }
}

} // verus!

verus! {

/// What a signed unit holds.
pub struct SignedUnitView {
    pub unit: FullUnitView,
    pub signature: Seq<u8>,
}

/// Whether the signature is the unit creator's signature of the unit's hash, under the
/// signature scheme of `K`.
pub open spec fn unit_signed<K: Keychain>(u: SignedUnitView) -> bool {
    K::signed_by(unit_digest(u.unit), u.signature, u.unit.pre_unit.creator)
}

/// A unit with a signature that has not been checked yet.
#[derive(Debug, PartialEq, Eq)]
pub struct UncheckedSignedUnit {
    pub unit: FullUnit,
    pub signature: Signature,
}

impl View for UncheckedSignedUnit {
    type V = SignedUnitView;

    open spec fn view(&self) -> SignedUnitView {
        SignedUnitView { unit: self.unit@, signature: self.signature@ }
    }
}

impl Clone for UncheckedSignedUnit {
    fn clone(&self) -> (r: Self)
        ensures
            r@ == self@,
    {
        UncheckedSignedUnit { unit: self.unit.clone(), signature: self.signature.clone() }
    }
}

impl UncheckedSignedUnit {
    pub fn as_signable(&self) -> (r: &FullUnit)
        ensures
            r == &self.unit,
    {
        &self.unit
    }

    /// Checks the signature: the unit comes back as a signed unit when it is its creator's
    /// signature of its hash, and unchanged otherwise.
    pub fn check<K: Keychain>(self, keychain: &K) -> (r: Result<SignedUnit, UncheckedSignedUnit>)
        ensures
            r is Ok <==> unit_signed::<K>(self@),
            r matches Ok(su) ==> su@ == self@,
            r matches Err(u) ==> u@ == self@,
    {
        let h = self.unit.hash();
        if keychain.verify(h, &self.signature, self.unit.pre_unit.creator) {
            Ok(SignedUnit { unit: self.unit, signature: self.signature })
        } else {
            Err(self)
        }
    }
}

/// A unit whose signature was checked, or made by its creator's keychain.
#[derive(Debug, PartialEq, Eq)]
pub struct SignedUnit {
    unit: FullUnit,
    signature: Signature,
}

impl View for SignedUnit {
    type V = SignedUnitView;

    closed spec fn view(&self) -> SignedUnitView {
        SignedUnitView { unit: self.unit@, signature: self.signature@ }
    }
}

impl Clone for SignedUnit {
    fn clone(&self) -> (r: Self)
        ensures
            r@ == self@,
    {
        SignedUnit { unit: self.unit.clone(), signature: self.signature.clone() }
    }
}

impl SignedUnit {
    /// Signs `unit` with the keychain of its creator.
    pub fn sign<K: Keychain>(unit: FullUnit, keychain: &K) -> (r: SignedUnit)
        requires
            unit@.pre_unit.creator == keychain.spec_index(),
        ensures
            r@.unit == unit@,
            unit_signed::<K>(r@),
    {
        let h = unit.hash();
        let signature = keychain.sign(h);
        SignedUnit { unit, signature }
    }

    pub fn as_signable(&self) -> (r: &FullUnit)
        ensures
            r@ == self@.unit,
    {
        &self.unit
    }

    pub fn into_unchecked(self) -> (r: UncheckedSignedUnit)
        ensures
            r@ == self@,
    {
        UncheckedSignedUnit { unit: self.unit, signature: self.signature }
    }
}

} // verus!

verus! {

/// The bytes of a unit with its signature.
pub open spec fn enc_signed_unit(u: SignedUnitView) -> Seq<u8> {
    enc_full_unit(u.unit) + enc_u64(u.signature.len() as u64) + u.signature
}

/// Appends the bytes of a unit with its signature.
pub fn push_signed_unit(out: &mut Vec<u8>, u: &UncheckedSignedUnit)
    ensures
        final(out)@ == old(out)@ + enc_signed_unit(u@),
{
    let ghost start = out@;
    push_full_unit(out, &u.unit);
    push_bytes(out, &u.signature.bytes);
    assert(out@ =~= start + enc_signed_unit(u@));
}

/// The views of a sequence of units.
pub open spec fn unit_views(s: Seq<UncheckedSignedUnit>) -> Seq<SignedUnitView> {
    s.map_values(|u: UncheckedSignedUnit| u@)
}

/// A copy of each unit.
pub fn clone_units(v: &Vec<UncheckedSignedUnit>) -> (r: Vec<UncheckedSignedUnit>)
    ensures
        unit_views(r@) == unit_views(v@),
{
    let mut out: Vec<UncheckedSignedUnit> = Vec::new();
    let mut i: usize = 0;
    while i < v.len()
        invariant
            i <= v.len(),
            out@.len() == i,
            forall|j: int| 0 <= j < i ==> #[trigger] out@[j]@ == v@[j]@,
        decreases v.len() - i,
    {
        out.push(v[i].clone());
        i += 1;
    }
    assert(unit_views(out@) =~= unit_views(v@));
    out
}

/// A unit signed with its creator's keychain, as `SignedUnit::sign` signs it, passes the
/// signature check of `UncheckedSignedUnit::check`, which then hands the same unit back.
pub proof fn lemma_sign_then_check<K: Keychain>(keychain: K, u: FullUnitView, signature: Seq<u8>)
    requires
        u.pre_unit.creator == keychain.spec_index(),
        K::signed_by(unit_digest(u), signature, keychain.spec_index()),
    ensures
        unit_signed::<K>(SignedUnitView { unit: u, signature }),
{
}

/// The control hash is a function of the parent map: the same parents give the same
/// control hash, and combining the hashes again gives the digest it holds.
pub proof fn lemma_control_hash_deterministic(p1: Seq<Option<Digest>>, p2: Seq<Option<Digest>>)
    requires
        p1 == p2,
    ensures
        control_hash_of(p1) == control_hash_of(p2),
        control_hash_of(p1).combined_hash == combined_digest(p2),
        control_hash_of(p1).parents_mask == presence(p2),
{
}

} // verus!

use std::collections::HashSet;
use vstd::prelude::*;

use crate::alerts::{Alert, AlertView, ForkProof, ForkingNotification, Recipient};
use crate::digest::{digest_of, enc_bool, enc_u64, hash_bytes, push_bool, push_u64};
use crate::keychain::{Keychain, Signature};
use crate::nodes::{some_values, Digest, NodeCount, NodeIndex, NodeMap, Round, SessionId};
use crate::store::{
    coord_key, coord_key_of, coord_of, parents_recorded, signed_views, unit_added, UnitStore,
};
use crate::units::{
    enc_signed_unit, push_signed_unit, unit_coord, unit_digest, unit_signed, unit_views, Data, FullUnit,
    combined_digest, set_indices, ControlHash, FullUnitView, PreUnitView,
    PreUnit, SignedUnit, SignedUnitView, UncheckedSignedUnit, Unit, UnitCoord,
};
use crate::validator::Validator;

verus! {

broadcast use vstd::std_specs::hash::group_hash_axioms;

/// A nonce that ties a newest-unit response to its request.
pub type Salt = u64;

/// Possible requests for information from other nodes.
#[derive(Clone, Copy, Debug, PartialEq, Eq, Structural)]
pub enum Request {
    Coord(UnitCoord),
    Parents(Digest),
    NewestUnit(Salt),
}

/// A node's answer to a newest-unit request: its newest unit by the requester, if any.
#[derive(Debug, PartialEq, Eq)]
pub struct NewestUnitResponse {
    pub requester: NodeIndex,
    pub responder: NodeIndex,
    pub unit: Option<UncheckedSignedUnit>,
    pub salt: Salt,
}

/// The bytes of an optional unit.
pub open spec fn enc_opt_unit(u: Option<UncheckedSignedUnit>) -> Seq<u8> {
    match u {
        Some(v) => enc_bool(true) + enc_signed_unit(v@),
        None => enc_bool(false),
    }
}

/// The hash of a newest-unit response.
pub open spec fn response_digest(r: NewestUnitResponse) -> Digest {
    digest_of(
        enc_u64(r.requester.0 as u64) + enc_u64(r.responder.0 as u64) + enc_opt_unit(r.unit)
            + enc_u64(r.salt),
    )
}

impl NewestUnitResponse {
    pub fn new(
        requester: NodeIndex,
        responder: NodeIndex,
        unit: Option<UncheckedSignedUnit>,
        salt: Salt,
    ) -> (r: NewestUnitResponse)
        ensures
            r == (NewestUnitResponse { requester, responder, unit, salt }),
    {
        NewestUnitResponse { requester, responder, unit, salt }
    }

    /// The hash of this response.
    pub fn hash(&self) -> (r: Digest)
        ensures
            r == response_digest(*self),
    {
        let mut bytes: Vec<u8> = Vec::new();
        push_u64(&mut bytes, self.requester.0 as u64);
        push_u64(&mut bytes, self.responder.0 as u64);
        let ghost mid = bytes@;
        match &self.unit {
            Some(u) => {
                push_bool(&mut bytes, true);
                push_signed_unit(&mut bytes, u);
            },
            None => {
                push_bool(&mut bytes, false);
            },
        }
        assert(bytes@ =~= mid + enc_opt_unit(self.unit));
        push_u64(&mut bytes, self.salt);
        assert(bytes@ =~= enc_u64(self.requester.0 as u64) + enc_u64(self.responder.0 as u64)
            + enc_opt_unit(self.unit) + enc_u64(self.salt));
        hash_bytes(&bytes)
    }
}

/// A newest-unit response with the responder's signature.
#[derive(Debug, PartialEq, Eq)]
pub struct UncheckedSignedNewestUnitResponse {
    pub response: NewestUnitResponse,
    pub signature: Signature,
}

/// Answers to requests.
#[derive(Debug, PartialEq, Eq)]
pub enum Response {
    Coord(UncheckedSignedUnit),
    Parents(Digest, Vec<UncheckedSignedUnit>),
    NewestUnit(UncheckedSignedNewestUnitResponse),
}

/// What goes to the network.
#[derive(Debug, PartialEq, Eq)]
pub enum RunwayNotificationOut {
    NewUnit(UncheckedSignedUnit),
    Request(Request, Recipient),
    Response(Response, NodeIndex),
}

/// What comes from the network.
#[derive(Debug, PartialEq, Eq)]
pub enum RunwayNotificationIn {
    NewUnit(UncheckedSignedUnit),
    Request(Request, NodeIndex),
    Response(Response),
}

/// The unit traffic between nodes, as it travels.
#[derive(Debug, PartialEq, Eq)]
pub enum UnitMessage {
    NewUnit(UncheckedSignedUnit),
    RequestCoord(NodeIndex, UnitCoord),
    ResponseCoord(UncheckedSignedUnit),
    RequestParents(NodeIndex, Digest),
    ResponseParents(Digest, Vec<UncheckedSignedUnit>),
    RequestNewest(NodeIndex, Salt),
    ResponseNewest(UncheckedSignedNewestUnitResponse),
}

impl RunwayNotificationIn {
    /// Sorts a unit message into a new unit, a request or a response.
    pub fn try_from(message: UnitMessage) -> (r: Result<RunwayNotificationIn, ()>)
        ensures
            r is Ok,
            r matches Ok(n) ==> match message {
                UnitMessage::NewUnit(u) => n == RunwayNotificationIn::NewUnit(u),
                UnitMessage::RequestCoord(node, c) => n == RunwayNotificationIn::Request(
                    Request::Coord(c),
                    node,
                ),
                UnitMessage::RequestParents(node, h) => n == RunwayNotificationIn::Request(
                    Request::Parents(h),
                    node,
                ),
                UnitMessage::ResponseCoord(u) => n == RunwayNotificationIn::Response(
                    Response::Coord(u),
                ),
                UnitMessage::ResponseParents(h, ps) => n == RunwayNotificationIn::Response(
                    Response::Parents(h, ps),
                ),
                UnitMessage::RequestNewest(node, salt) => n == RunwayNotificationIn::Request(
                    Request::NewestUnit(salt),
                    node,
                ),
                UnitMessage::ResponseNewest(resp) => n == RunwayNotificationIn::Response(
                    Response::NewestUnit(resp),
                ),
            },
    {
        let result = match message {
            UnitMessage::NewUnit(u) => RunwayNotificationIn::NewUnit(u),
            UnitMessage::RequestCoord(node_id, coord) => RunwayNotificationIn::Request(
                Request::Coord(coord),
                node_id,
            ),
            UnitMessage::RequestParents(node_id, u_hash) => RunwayNotificationIn::Request(
                Request::Parents(u_hash),
                node_id,
            ),
            UnitMessage::ResponseCoord(u) => RunwayNotificationIn::Response(Response::Coord(u)),
            UnitMessage::ResponseParents(u_hash, parents) => RunwayNotificationIn::Response(
                Response::Parents(u_hash, parents),
            ),
            UnitMessage::RequestNewest(node_id, salt) => RunwayNotificationIn::Request(
                Request::NewestUnit(salt),
                node_id,
            ),
            UnitMessage::ResponseNewest(response) => RunwayNotificationIn::Response(
                Response::NewestUnit(response),
            ),
        };
        Ok(result)
    }
}

/// Notifications for consensus.
#[derive(Debug, PartialEq, Eq)]
pub enum NotificationIn {
    /// Units to add to the DAG.
    NewUnits(Vec<Unit>),
    /// The decoded parents of a unit whose control hash did not match.
    UnitParents(Digest, Vec<Digest>),
}

/// Notifications from consensus.
#[derive(Debug, PartialEq, Eq)]
pub enum NotificationOut {
    /// A pre-unit this node should sign and spread.
    CreatedPreUnit(PreUnit, Vec<Digest>),
    /// Units that are needed but missing.
    MissingUnits(Vec<UnitCoord>),
    /// Consensus has parents incompatible with the unit's control hash.
    WrongControlHash(Digest),
    /// A unit joined the DAG, with its decoded parents.
    AddedToDag(Digest, Vec<Digest>),
}

/// What the runway asks its surroundings to do, in order.
#[derive(Debug, PartialEq, Eq)]
pub enum RunwayAction {
    /// Send to the network.
    ForNetwork(RunwayNotificationOut),
    /// Hand to consensus.
    ForConsensus(NotificationIn),
    /// Hand to the alert handler.
    ForAlerter(Alert),
    /// A request that needs no more answers.
    Resolved(Request),
    /// Pass on to the newest-unit collection.
    ForCollection(UncheckedSignedNewestUnitResponse),
    /// Write a unit this node created to the backup, before anything else sees it.
    Backup(UncheckedSignedUnit),
}

/// The request for the unit at `c`, sent to its creator.
pub open spec fn coord_request(c: UnitCoord) -> RunwayAction {
    RunwayAction::ForNetwork(
        RunwayNotificationOut::Request(Request::Coord(c), Recipient::Node(c.creator)),
    )
}

/// The coordinates that still need a request, given the store and the coordinates requested
/// already, when `coords` are reported missing in this order; and the requested coordinates
/// afterwards.
pub open spec fn coords_to_request(store: UnitStore, missing: Set<u128>, coords: Seq<UnitCoord>) -> (
    Set<u128>,
    Seq<UnitCoord>,
)
    decreases coords.len(),
{
    if coords.len() == 0 {
        (missing, Seq::empty())
    } else {
        let (m, s) = coords_to_request(store, missing, coords.drop_last());
        let c = coords.last();
        if store.at_coord(c) is Some || m.contains(coord_key(c)) {
            (m, s)
        } else {
            (m.insert(coord_key(c)), s.push(c))
        }
    }
}

/// What a request for the unit at `coord` from `node_id` does: the unit goes back when
/// the store has it; nothing happens otherwise.
pub open spec fn request_coord_step<K: Keychain>(
    old: Runway<K>,
    new: Runway<K>,
    node_id: NodeIndex,
    coord: UnitCoord,
    old_out: Seq<RunwayAction>,
    new_out: Seq<RunwayAction>,
) -> bool {
    &&& new == old
    &&& match old.spec_store().at_coord(coord) {
        None => new_out == old_out,
        Some(h) => {
            &&& new_out.len() == old_out.len() + 1
            &&& new_out.drop_last() == old_out
            &&& new_out.last() matches RunwayAction::ForNetwork(
                RunwayNotificationOut::Response(Response::Coord(u), n),
            ) && n == node_id && u@ == old.spec_store().units()[h]
        },
    }
}

/// What a request for the parents of `u_hash` from `node_id` does: the parent units go
/// back, in the recorded order, when the parents are recorded and all of them are in the
/// store; nothing happens otherwise.
pub open spec fn request_parents_step<K: Keychain>(
    old: Runway<K>,
    new: Runway<K>,
    node_id: NodeIndex,
    u_hash: Digest,
    old_out: Seq<RunwayAction>,
    new_out: Seq<RunwayAction>,
) -> bool {
    let s = old.spec_store();
    &&& new == old
    &&& if s.parents_map().contains_key(u_hash) && forall|i: int|
        0 <= i < s.parents_map()[u_hash].len() ==> s.units().contains_key(
            #[trigger] s.parents_map()[u_hash][i],
        ) {
        &&& new_out.len() == old_out.len() + 1
        &&& new_out.drop_last() == old_out
        &&& new_out.last() matches RunwayAction::ForNetwork(
            RunwayNotificationOut::Response(Response::Parents(h, us), n),
        ) && n == node_id && h == u_hash && unit_views(us@) == s.parents_map()[u_hash].map_values(
            |p: Digest| s.units()[p],
        )
    } else {
        new_out == old_out
    }
}

/// What a report of the missing coordinates `coords` does: each one neither in the store
/// nor requested already is requested from its creator, in order, and counts as requested.
pub open spec fn missing_coords_step<K: Keychain>(
    old: Runway<K>,
    new: Runway<K>,
    coords: Seq<UnitCoord>,
    old_out: Seq<RunwayAction>,
    new_out: Seq<RunwayAction>,
) -> bool {
    let (m, s) = coords_to_request(old.spec_store(), old.missing_coords(), coords);
    &&& new.missing_coords() == m
    &&& new_out == old_out + s.map_values(|c: UnitCoord| coord_request(c))
    &&& new.missing_parents() == old.missing_parents()
    &&& new.spec_store() == old.spec_store()
    &&& new.spec_keychain() == old.spec_keychain()
    &&& new.spec_validator() == old.spec_validator()
    &&& new.session() == old.session()
}

/// What a report that the parents of `u_hash` are at odds with its control hash does: the
/// recorded parents go to consensus; without them, the parents are requested, from the
/// unit's creator when the unit is known and from everyone otherwise, unless they are
/// requested already.
pub open spec fn wrong_control_hash_step<K: Keychain>(
    old: Runway<K>,
    new: Runway<K>,
    u_hash: Digest,
    old_out: Seq<RunwayAction>,
    new_out: Seq<RunwayAction>,
) -> bool {
    let s = old.spec_store();
    &&& new.spec_store() == old.spec_store()
    &&& new.missing_coords() == old.missing_coords()
    &&& new.spec_keychain() == old.spec_keychain()
    &&& new.spec_validator() == old.spec_validator()
    &&& new.session() == old.session()
    &&& if s.parents_map().contains_key(u_hash) {
        &&& new.missing_parents() == old.missing_parents()
        &&& new_out.len() == old_out.len() + 1
        &&& new_out.drop_last() == old_out
        &&& new_out.last() matches RunwayAction::ForConsensus(NotificationIn::UnitParents(h, p))
            && h == u_hash && p@ == s.parents_map()[u_hash]
    } else if old.missing_parents().contains(u_hash) {
        &&& new.missing_parents() == old.missing_parents()
        &&& new_out == old_out
    } else {
        let recipient = if s.units().contains_key(u_hash) {
            Recipient::Node(s.units()[u_hash].unit.pre_unit.creator)
        } else {
            Recipient::Everyone
        };
        &&& new.missing_parents() == old.missing_parents().insert(u_hash)
        &&& new_out == old_out.push(
            RunwayAction::ForNetwork(
                RunwayNotificationOut::Request(Request::Parents(u_hash), recipient),
            ),
        )
    }
}

/// What offering the admitted unit `u` to the store outside alerts does, for a node with
/// index `index`: nothing for a forker's unit; a unit that contradicts the one at its
/// coordinate marks its creator as a forker and sends an alert with the two units and the
/// creator's units kept so far; any other unit is added.
pub open spec fn offer_step(
    s_old: UnitStore,
    s_new: UnitStore,
    index: NodeIndex,
    u: SignedUnitView,
    old_out: Seq<RunwayAction>,
    new_out: Seq<RunwayAction>,
) -> bool {
    let c = coord_of(u);
    let creator = c.creator;
    if s_old.forker(creator) {
        s_new == s_old && new_out == old_out
    } else if s_old.at_coord(c) is Some && s_old.at_coord(c).unwrap() != unit_digest(u.unit) {
        let h = s_old.at_coord(c).unwrap();
        &&& s_new.forker(creator)
        &&& forall|n: NodeIndex| n != creator ==> #[trigger] s_new.forker(n) == s_old.forker(n)
        &&& s_new.units() == s_old.units()
        &&& forall|d: UnitCoord| #[trigger] s_new.at_coord(d) == s_old.at_coord(d)
        &&& s_new.parents_map() == s_old.parents_map()
        &&& s_new.buffer() == s_old.buffer()
        &&& s_new.history() == s_old.history()
        &&& s_new.yielded() == s_old.yielded()
        &&& s_new.n_members() == s_old.n_members()
        &&& s_new.max_round() == s_old.max_round()
        &&& new_out.len() == old_out.len() + 1
        &&& new_out.drop_last() == old_out
        &&& new_out.last() matches RunwayAction::ForAlerter(a) && a@ == (AlertView {
            sender: index,
            proof: (u, s_old.units()[h]),
            legit_units: s_old.units_of(creator, s_old.max_round() as nat + 1),
        })
    } else {
        unit_added(s_old, s_new, u) && new_out == old_out
    }
}

/// Whether only the store and the requested coordinates may differ between the runways.
pub open spec fn same_settings<K: Keychain>(old: Runway<K>, new: Runway<K>) -> bool {
    &&& new.missing_parents() == old.missing_parents()
    &&& new.spec_keychain() == old.spec_keychain()
    &&& new.spec_validator() == old.spec_validator()
    &&& new.session() == old.session()
}

/// What receiving the unit `u` does; `alert` tells that it comes from a confirmed alert.
/// A unit that fails validation is dropped. Otherwise a request for its coordinate is
/// resolved, and the unit goes to the store: as it is when it comes from an alert about a
/// creator marked as a forker, and through fork detection outside alerts.
pub open spec fn unit_received_step<K: Keychain>(
    old: Runway<K>,
    new: Runway<K>,
    u: SignedUnitView,
    alert: bool,
    old_out: Seq<RunwayAction>,
    new_out: Seq<RunwayAction>,
) -> bool {
    &&& same_settings(old, new)
    &&& match old.spec_validator().result(u) {
        Err(_) => new == old && new_out == old_out,
        Ok(_) => {
            let c = coord_of(u);
            let mid_out = if old.missing_coords().contains(coord_key(c)) {
                old_out.push(RunwayAction::Resolved(Request::Coord(c)))
            } else {
                old_out
            };
            &&& new.missing_coords() == old.missing_coords().remove(coord_key(c))
            &&& if alert {
                new_out == mid_out && if old.spec_store().forker(c.creator) {
                    unit_added(old.spec_store(), new.spec_store(), u)
                } else {
                    new.spec_store() == old.spec_store()
                }
            } else {
                offer_step(
                    old.spec_store(),
                    new.spec_store(),
                    old.spec_keychain().spec_index(),
                    u,
                    mid_out,
                    new_out,
                )
            }
        },
    }
}

/// What answering a newest-unit request does: a response signed by this node, holding its
/// newest unit by the requester, goes back to the requester.
pub open spec fn request_newest_step<K: Keychain>(
    old: Runway<K>,
    new: Runway<K>,
    requester: NodeIndex,
    salt: Salt,
    old_out: Seq<RunwayAction>,
    new_out: Seq<RunwayAction>,
) -> bool {
    &&& new == old
    &&& new_out.len() == old_out.len() + 1
    &&& new_out.drop_last() == old_out
    &&& new_out.last() matches RunwayAction::ForNetwork(
        RunwayNotificationOut::Response(Response::NewestUnit(sr), n),
    ) && n == requester && sr.response.requester == requester && sr.response.responder
        == old.spec_keychain().spec_index() && sr.response.salt == salt && old.spec_store().is_newest(
        requester,
        sr.response.unit,
    ) && K::signed_by(response_digest(sr.response), sr.signature@, old.spec_keychain().spec_index())
}

/// The full unit this node makes of its pre-unit `pu` with payload `data`.
pub open spec fn created_unit<K: Keychain>(r: Runway<K>, pu: PreUnitView, data: Option<Data>) -> FullUnitView {
    FullUnitView { pre_unit: pu, data, session_id: r.session() }
}

/// What a pre-unit created by consensus does. One of another creator is dropped. This
/// node's own becomes a full unit with the payload, is signed, goes to the backup, and
/// then to the store, unless this node is marked as a forker or the unit contradicts the
/// one at its coordinate.
pub open spec fn create_step<K: Keychain>(
    old: Runway<K>,
    new: Runway<K>,
    pu: PreUnitView,
    data: Option<Data>,
    old_out: Seq<RunwayAction>,
    new_out: Seq<RunwayAction>,
) -> bool {
    let fu = created_unit(old, pu, data);
    let s = old.spec_store();
    let c = unit_coord(fu);
    &&& same_settings(old, new)
    &&& new.missing_coords() == old.missing_coords()
    &&& if pu.creator != old.spec_keychain().spec_index() {
        new == old && new_out == old_out
    } else {
        &&& new_out.len() == old_out.len() + 1
        &&& new_out.drop_last() == old_out
        &&& new_out.last() matches RunwayAction::Backup(b) && b@.unit == fu && unit_signed::<K>(b@)
            && if !s.forker(pu.creator) && (s.at_coord(c) is None || s.at_coord(c) == Some(
            unit_digest(fu),
        )) {
            unit_added(s, new.spec_store(), b@)
        } else {
            new.spec_store() == s
        }
    }
}

/// What consensus adding a unit to its DAG does: the parents are recorded, a request for
/// them is resolved, and this node's own unit goes to the network.
pub open spec fn added_to_dag_step<K: Keychain>(
    old: Runway<K>,
    new: Runway<K>,
    h: Digest,
    p: Seq<Digest>,
    old_out: Seq<RunwayAction>,
    new_out: Seq<RunwayAction>,
) -> bool {
    let s = old.spec_store();
    let mid_out = if old.missing_parents().contains(h) {
        old_out.push(RunwayAction::Resolved(Request::Parents(h)))
    } else {
        old_out
    };
    &&& parents_recorded(s, new.spec_store(), h, p)
    &&& new.missing_parents() == old.missing_parents().remove(h)
    &&& new.missing_coords() == old.missing_coords()
    &&& new.spec_keychain() == old.spec_keychain()
    &&& new.spec_validator() == old.spec_validator()
    &&& new.session() == old.session()
    &&& if s.units().contains_key(h) && s.units()[h].unit.pre_unit.creator
        == old.spec_keychain().spec_index() {
        &&& new_out.len() == mid_out.len() + 1
        &&& new_out.drop_last() == mid_out
        &&& new_out.last() matches RunwayAction::ForNetwork(RunwayNotificationOut::NewUnit(u))
            && u@ == s.units()[h]
    } else {
        new_out == mid_out
    }
}

/// The parent map that the units `ps` fill, each in its creator's slot, in a map of `n`
/// slots.
pub open spec fn parent_slots(n: nat, ps: Seq<SignedUnitView>) -> Seq<Option<Digest>>
    decreases ps.len(),
{
    if ps.len() == 0 {
        Seq::new(n, |i: int| None::<Digest>)
    } else {
        let prev = parent_slots(n, ps.drop_last());
        let c = ps.last().unit.pre_unit.creator.0 as int;
        if c < n {
            prev.update(c, Some(unit_digest(ps.last().unit)))
        } else {
            prev
        }
    }
}

proof fn lemma_parent_slots_len(n: nat, ps: Seq<SignedUnitView>)
    ensures
        parent_slots(n, ps).len() == n,
    decreases ps.len(),
{
    if ps.len() > 0 {
        lemma_parent_slots_len(n, ps.drop_last());
    }
}

/// Whether `p`, offered as the parent at position `i` of the unit `u` whose control hash
/// names the parents `ids`, passes validation, sits one round below `u`, and is by the
/// creator named at that position.
pub open spec fn parent_fits<K: Keychain>(r: Runway<K>, u: FullUnitView, ids: Seq<NodeIndex>, p: SignedUnitView, i: int) -> bool {
    &&& r.spec_validator().result(p) is Ok
    &&& p.unit.pre_unit.round + 1 == u.pre_unit.round
    &&& p.unit.pre_unit.creator == ids[i]
}

/// Whether `ps` are the parents of the unit `u_hash`, whose parents are not known yet:
/// as many as its control hash names, each fitting its position, and with the digest the
/// control hash commits to.
pub open spec fn parents_fit<K: Keychain>(r: Runway<K>, u_hash: Digest, ps: Seq<SignedUnitView>) -> bool {
    let s = r.spec_store();
    let u = s.units()[u_hash].unit;
    let ids = set_indices(u.pre_unit.control_hash.parents_mask);
    &&& !s.parents_map().contains_key(u_hash)
    &&& s.units().contains_key(u_hash)
    &&& ids.len() == ps.len()
    &&& forall|i: int| 0 <= i < ps.len() ==> parent_fits(r, u, ids, #[trigger] ps[i], i)
    &&& combined_digest(parent_slots(r.spec_keychain().spec_node_count().0 as nat, ps))
        == u.pre_unit.control_hash.combined_hash
}

/// Whether `new` is `old` with actions appended, none of them for consensus.
pub open spec fn appended_without_consensus(old: Seq<RunwayAction>, new: Seq<RunwayAction>) -> bool {
    &&& new.len() >= old.len()
    &&& new.subrange(0, old.len() as int) == old
    &&& forall|k: int| old.len() <= k < new.len() ==> !(#[trigger] new[k] is ForConsensus)
}

/// What a response with the parents `ps` of `u_hash` does. The units offered are taken
/// as received units on the way. When they are the unit's parents, their hashes are
/// recorded as its parents, in index order, and go to consensus; otherwise the parents stay
/// unknown and nothing goes to consensus.
pub open spec fn parents_response_step<K: Keychain>(
    old: Runway<K>,
    new: Runway<K>,
    u_hash: Digest,
    ps: Seq<SignedUnitView>,
    old_out: Seq<RunwayAction>,
    new_out: Seq<RunwayAction>,
) -> bool {
    &&& same_settings(old, new)
    &&& forall|h: Digest|
        old.spec_store().units().contains_key(h) ==> #[trigger] new.spec_store().units().contains_key(h)
    &&& if parents_fit(old, u_hash, ps) {
        let p = some_values(parent_slots(old.spec_keychain().spec_node_count().0 as nat, ps));
        &&& new.spec_store().parents_map() == old.spec_store().parents_map().insert(u_hash, p)
        &&& new_out.len() > old_out.len()
        &&& appended_without_consensus(old_out, new_out.drop_last())
        &&& new_out.last() matches RunwayAction::ForConsensus(NotificationIn::UnitParents(h, v))
            && h == u_hash && v@ == p
    } else {
        &&& new.spec_store().parents_map() == old.spec_store().parents_map()
        &&& appended_without_consensus(old_out, new_out)
    }
}

/// What a notification of the alert handler does. A new forker with a proof is marked and
/// alerted about, once, when it is a committee member. Units confirmed by an alert are
/// taken as received from an alert: each that passes validation and whose creator is marked
/// as a forker is in the store afterwards.
pub open spec fn alert_notification_step<K: Keychain>(
    old: Runway<K>,
    new: Runway<K>,
    notification: ForkingNotification,
    old_out: Seq<RunwayAction>,
    new_out: Seq<RunwayAction>,
) -> bool {
    match notification {
        ForkingNotification::Forker(proof) => {
            let forker = proof.0@.unit.pre_unit.creator;
            let s = old.spec_store();
            if forker.0 >= s.n_members() || s.forker(forker) {
                new == old && new_out == old_out
            } else {
                &&& same_settings(old, new)
                &&& new.spec_store().forker(forker)
                &&& new.spec_store().units() == s.units()
                &&& new_out.len() == old_out.len() + 1
                &&& new_out.drop_last() == old_out
                &&& new_out.last() matches RunwayAction::ForAlerter(a) && a@ == (AlertView {
                    sender: old.spec_keychain().spec_index(),
                    proof: proof@,
                    legit_units: s.units_of(forker, s.max_round() as nat + 1),
                })
            }
        },
        ForkingNotification::Units(units) => {
            &&& same_settings(old, new)
            &&& forall|h: Digest|
                old.spec_store().units().contains_key(h) ==> #[trigger] new.spec_store().units().contains_key(h)
            &&& forall|i: int|
                0 <= i < units@.len() && old.spec_validator().result(#[trigger] units@[i]@) is Ok
                    && old.spec_store().forker(units@[i]@.unit.pre_unit.creator)
                    ==> new.spec_store().units().contains_key(unit_digest(units@[i]@.unit))
            &&& appended_without_consensus(old_out, new_out)
        },
    }
}

/// The mediator between the network, the unit store and consensus.
pub struct Runway<K> {
    missing_coords: HashSet<u128>,
    missing_parents: HashSet<Digest>,
    session_id: SessionId,
    store: UnitStore,
    validator: Validator<K>,
}

impl<K: Keychain> Runway<K> {
    pub closed spec fn spec_store(&self) -> UnitStore {
        self.store
    }

    /// The keys of the coordinates requested and not yet received.
    pub closed spec fn missing_coords(&self) -> Set<u128> {
        self.missing_coords@
    }

    /// The units whose parents were requested and not yet received.
    pub closed spec fn missing_parents(&self) -> Set<Digest> {
        self.missing_parents@
    }

    pub closed spec fn spec_keychain(&self) -> K {
        self.validator.keychain
    }

    pub closed spec fn spec_validator(&self) -> Validator<K> {
        self.validator
    }

    pub closed spec fn session(&self) -> SessionId {
        self.session_id
    }

    pub closed spec fn wf(&self) -> bool {
        &&& self.store.wf()
        &&& self.store.n_members() == self.validator.keychain.spec_node_count().0
        &&& self.validator.keychain.spec_index().0 < self.validator.keychain.spec_node_count().0
        &&& self.store.max_round() == self.validator.max_round
        &&& self.validator.session_id == self.session_id
    }

    pub fn new(keychain: K, session_id: SessionId, max_round: Round) -> (r: Runway<K>)
        requires
            keychain.spec_index().0 < keychain.spec_node_count().0,
        ensures
            r.wf(),
            r.spec_keychain() == keychain,
            r.session() == session_id,
            r.spec_validator() == (Validator { session_id, keychain, max_round }),
            r.missing_coords() == Set::<u128>::empty(),
            r.missing_parents() == Set::<Digest>::empty(),
            r.spec_store().units() == Map::<Digest, SignedUnitView>::empty(),
    {
        let store = UnitStore::new(keychain.node_count(), max_round);
        Runway {
            store,
            validator: Validator::new(session_id, keychain, max_round),
            missing_coords: HashSet::new(),
            missing_parents: HashSet::new(),
            session_id,
        }
    }

    pub fn index(&self) -> (r: NodeIndex)
        ensures
            r == self.spec_keychain().spec_index(),
    {
        self.validator.keychain.index()
    }

    pub fn node_count(&self) -> (r: NodeCount)
        ensures
            r == self.spec_keychain().spec_node_count(),
    {
        self.validator.keychain.node_count()
    }

    /// How many coordinates and how many parent sets are requested and not yet received.
    pub fn missing_counts(&self) -> (r: (usize, usize))
        ensures
            r.0 == self.missing_coords().len(),
            r.1 == self.missing_parents().len(),
    {
        (self.missing_coords.len(), self.missing_parents.len())
    }

    /// The unit store, to read.
    pub fn store(&self) -> (r: &UnitStore)
        ensures
            *r == self.spec_store(),
    {
        &self.store
    }

    /// The coordinate is no longer missing; if it was, the request is resolved.
    pub fn resolve_missing_coord(&mut self, coord: &UnitCoord, out: &mut Vec<RunwayAction>)
        requires
            old(self).wf(),
        ensures
            final(self).wf(),
            final(self).missing_coords() == old(self).missing_coords().remove(coord_key(*coord)),
            final(out)@ == if old(self).missing_coords().contains(coord_key(*coord)) {
                old(out)@.push(RunwayAction::Resolved(Request::Coord(*coord)))
            } else {
                old(out)@
            },
            final(self).missing_parents() == old(self).missing_parents(),
            final(self).spec_store() == old(self).spec_store(),
            final(self).spec_keychain() == old(self).spec_keychain(),
            final(self).spec_validator() == old(self).spec_validator(),
            final(self).session() == old(self).session(),
    {
        let key = coord_key_of(*coord);
        if self.missing_coords.remove(&key) {
            out.push(RunwayAction::Resolved(Request::Coord(*coord)));
        }
    }

    /// The unit's parents are no longer missing; if they were, the request is resolved.
    pub fn resolve_missing_parents(&mut self, u_hash: &Digest, out: &mut Vec<RunwayAction>)
        requires
            old(self).wf(),
        ensures
            final(self).wf(),
            final(self).missing_parents() == old(self).missing_parents().remove(*u_hash),
            final(out)@ == if old(self).missing_parents().contains(*u_hash) {
                old(out)@.push(RunwayAction::Resolved(Request::Parents(*u_hash)))
            } else {
                old(out)@
            },
            final(self).missing_coords() == old(self).missing_coords(),
            final(self).spec_store() == old(self).spec_store(),
            final(self).spec_keychain() == old(self).spec_keychain(),
            final(self).spec_validator() == old(self).spec_validator(),
            final(self).session() == old(self).session(),
    {
        if self.missing_parents.remove(u_hash) {
            out.push(RunwayAction::Resolved(Request::Parents(*u_hash)));
        }
    }

    /// Answers a request for the unit at `coord` when the unit is in the store.
    pub fn on_request_coord(&mut self, node_id: NodeIndex, coord: UnitCoord, out: &mut Vec<
        RunwayAction,
    >)
        requires
            old(self).wf(),
        ensures
            final(self).wf(),
            request_coord_step(*old(self), *final(self), node_id, coord, old(out)@, final(out)@),
    {
        match self.store.unit_by_coord(coord) {
            Some(su) => {
                let ghost before = out@;
                let u = su.clone().into_unchecked();
                out.push(
                    RunwayAction::ForNetwork(
                        RunwayNotificationOut::Response(Response::Coord(u), node_id),
                    ),
                );
                assert(out@.drop_last() =~= before);
            },
            None => {},
        }
    }

    /// Answers a request for the parents of `u_hash` when the parents are known and all of
    /// them are in the store; otherwise nothing is sent.
    pub fn on_request_parents(&mut self, node_id: NodeIndex, u_hash: Digest, out: &mut Vec<
        RunwayAction,
    >)
        requires
            old(self).wf(),
        ensures
            final(self).wf(),
            request_parents_step(*old(self), *final(self), node_id, u_hash, old(out)@, final(out)@),
    {
        let ghost s = self.store;
        match self.store.get_parents(u_hash) {
            Some(p_hashes) => {
                let mut full_units: Vec<UncheckedSignedUnit> = Vec::new();
                let mut i: usize = 0;
                while i < p_hashes.len()
                    invariant
                        self.wf(),
                        *self == *old(self),
                        s == self.store,
                        p_hashes@ == s.parents_map()[u_hash],
                        i <= p_hashes.len(),
                        forall|j: int| 0 <= j < i ==> s.units().contains_key(#[trigger] p_hashes@[j]),
                        full_units@.len() == i,
                        forall|j: int|
                            0 <= j < i ==> #[trigger] full_units@[j]@ == s.units()[p_hashes@[j]],
                    decreases p_hashes.len() - i,
                {
                    match self.store.unit_by_hash(&p_hashes[i]) {
                        Some(fu) => {
                            full_units.push(fu.clone().into_unchecked());
                        },
                        None => {
                            return;
                        },
                    }
                    i += 1;
                }
                assert(unit_views(full_units@) =~= p_hashes@.map_values(|p: Digest| s.units()[p]));
                let ghost before = out@;
                out.push(
                    RunwayAction::ForNetwork(
                        RunwayNotificationOut::Response(
                            Response::Parents(u_hash, full_units),
                            node_id,
                        ),
                    ),
                );
                assert(out@.drop_last() =~= before);
            },
            None => {},
        }
    }

    /// Requests each reported coordinate that is neither in the store nor requested already,
    /// from the coordinate's creator.
    pub fn on_missing_coords(&mut self, coords: Vec<UnitCoord>, out: &mut Vec<RunwayAction>)
        requires
            old(self).wf(),
        ensures
            final(self).wf(),
            missing_coords_step(*old(self), *final(self), coords@, old(out)@, final(out)@),
    {
        let ghost start = out@;
        let mut i: usize = 0;
        while i < coords.len()
            invariant
                self.wf(),
                i <= coords.len(),
                self.spec_store() == old(self).spec_store(),
                self.missing_parents() == old(self).missing_parents(),
                self.spec_keychain() == old(self).spec_keychain(),
                self.spec_validator() == old(self).spec_validator(),
                self.session() == old(self).session(),
                ({
                    let (m, s) = coords_to_request(
                        old(self).spec_store(),
                        old(self).missing_coords(),
                        coords@.subrange(0, i as int),
                    );
                    &&& self.missing_coords() == m
                    &&& out@ == start + s.map_values(|c: UnitCoord| coord_request(c))
                }),
            decreases coords.len() - i,
        {
            let coord = coords[i];
            assert(coords@.subrange(0, i as int + 1).drop_last() =~= coords@.subrange(0, i as int));
            let ghost prev = coords_to_request(
                old(self).spec_store(),
                old(self).missing_coords(),
                coords@.subrange(0, i as int),
            );
            if !self.store.contains_coord(coord) {
                let key = coord_key_of(coord);
                if self.missing_coords.insert(key) {
                    out.push(
                        RunwayAction::ForNetwork(
                            RunwayNotificationOut::Request(
                                Request::Coord(coord),
                                Recipient::Node(coord.creator()),
                            ),
                        ),
                    );
                    assert(prev.1.push(coord).map_values(|c: UnitCoord| coord_request(c))
                        =~= prev.1.map_values(|c: UnitCoord| coord_request(c)).push(
                        coord_request(coord),
                    ));
                }
            }
            i += 1;
        }
        assert(coords@.subrange(0, i as int) =~= coords@);
    }

    /// Consensus found the parents of `u_hash` at odds with its control hash: the parents
    /// known here go to consensus, or else they are requested, from the unit's creator when
    /// the unit is known and from everyone otherwise, unless requested already.
    pub fn on_wrong_control_hash(&mut self, u_hash: Digest, out: &mut Vec<RunwayAction>)
        requires
            old(self).wf(),
        ensures
            final(self).wf(),
            wrong_control_hash_step(*old(self), *final(self), u_hash, old(out)@, final(out)@),
    {
        match self.store.get_parents(u_hash) {
            Some(p_hashes) => {
                let p_hashes = p_hashes.clone();
                let ghost before = out@;
                out.push(
                    RunwayAction::ForConsensus(NotificationIn::UnitParents(u_hash, p_hashes)),
                );
                assert(out@.drop_last() =~= before);
            },
            None => {
                let recipient = match self.store.unit_by_hash(&u_hash) {
                    Some(u) => Recipient::Node(u.as_signable().creator()),
                    None => Recipient::Everyone,
                };
                if self.missing_parents.insert(u_hash) {
                    out.push(
                        RunwayAction::ForNetwork(
                            RunwayNotificationOut::Request(Request::Parents(u_hash), recipient),
                        ),
                    );
                } else {
                    assert(self.missing_parents@ =~= old(self).missing_parents@);
                }
            },
        }
    }

    /// Hands the units admitted since the last call to consensus.
    pub fn move_units_to_consensus(&mut self, out: &mut Vec<RunwayAction>)
        requires
            old(self).wf(),
        ensures
            final(self).wf(),
            final(self).spec_store().buffer() == Seq::<SignedUnitView>::empty(),
            final(self).spec_store().yielded() == old(self).spec_store().yielded() + old(
                self,
            ).spec_store().buffer(),
            final(self).spec_store().units() == old(self).spec_store().units(),
            final(out)@.len() == old(out)@.len() + 1,
            final(out)@.drop_last() == old(out)@,
            final(out)@.last() matches RunwayAction::ForConsensus(NotificationIn::NewUnits(us)) && us@.len()
                == old(self).spec_store().buffer().len() && forall|i: int|
                0 <= i < us@.len() ==> #[trigger] us@[i].hash == unit_digest(
                    old(self).spec_store().buffer()[i].unit,
                ),
            final(self).missing_coords() == old(self).missing_coords(),
            final(self).missing_parents() == old(self).missing_parents(),
            final(self).spec_keychain() == old(self).spec_keychain(),
            final(self).spec_validator() == old(self).spec_validator(),
            final(self).session() == old(self).session(),
    {
        let units = self.store.yield_buffer_units();
        let mut units_to_move: Vec<Unit> = Vec::new();
        let mut i: usize = 0;
        while i < units.len()
            invariant
                i <= units.len(),
                units_to_move@.len() == i,
                forall|j: int|
                    0 <= j < i ==> #[trigger] units_to_move@[j].hash == unit_digest(
                        units@[j]@.unit,
                    ),
            decreases units.len() - i,
        {
            units_to_move.push(units[i].as_signable().unit());
            i += 1;
        }
        assert forall|j: int| 0 <= j < units@.len() implies units@[j]@ == #[trigger] signed_views(
            units@,
        )[j] by {}
        let ghost before = out@;
        out.push(RunwayAction::ForConsensus(NotificationIn::NewUnits(units_to_move)));
        assert(out@.drop_last() =~= before);
    }
}


impl<K: Keychain> Runway<K> {
    /// The alert of this node with `proof` and the committed `units`.
    fn form_alert(&self, proof: ForkProof, units: Vec<SignedUnit>) -> (r: Alert)
        ensures
            r@ == (AlertView {
                sender: self.spec_keychain().spec_index(),
                proof: proof@,
                legit_units: signed_views(units@),
            }),
    {
        let mut legit_units: Vec<UncheckedSignedUnit> = Vec::new();
        let mut i: usize = 0;
        while i < units.len()
            invariant
                i <= units.len(),
                legit_units@.len() == i,
                forall|j: int| 0 <= j < i ==> #[trigger] legit_units@[j]@ == units@[j]@,
            decreases units.len() - i,
        {
            legit_units.push(units[i].clone().into_unchecked());
            i += 1;
        }
        assert(unit_views(legit_units@) =~= signed_views(units@));
        Alert::new(self.validator.keychain.index(), proof, legit_units)
    }
}


impl<K: Keychain> Runway<K> {
    /// Marks `forker` in the store and sends the alert with `proof` and the forker's units
    /// kept so far.
    pub fn on_new_forker_detected(
        &mut self,
        forker: NodeIndex,
        proof: ForkProof,
        out: &mut Vec<RunwayAction>,
    )
        requires
            old(self).wf(),
            forker.0 < old(self).spec_store().n_members(),
        ensures
            final(self).wf(),
            same_settings(*old(self), *final(self)),
            final(self).missing_coords() == old(self).missing_coords(),
            final(self).spec_store().forker(forker),
            forall|n: NodeIndex|
                n != forker ==> #[trigger] final(self).spec_store().forker(n) == old(
                    self,
                ).spec_store().forker(n),
            final(self).spec_store().units() == old(self).spec_store().units(),
            forall|d: UnitCoord| #[trigger]
                final(self).spec_store().at_coord(d) == old(self).spec_store().at_coord(d),
            final(self).spec_store().parents_map() == old(self).spec_store().parents_map(),
            final(self).spec_store().buffer() == old(self).spec_store().buffer(),
            final(self).spec_store().history() == old(self).spec_store().history(),
            final(self).spec_store().yielded() == old(self).spec_store().yielded(),
            final(self).spec_store().n_members() == old(self).spec_store().n_members(),
            final(self).spec_store().max_round() == old(self).spec_store().max_round(),
            final(out)@.len() == old(out)@.len() + 1,
            final(out)@.drop_last() == old(out)@,
            final(out)@.last() matches RunwayAction::ForAlerter(a) && a@ == (AlertView {
                sender: old(self).spec_keychain().spec_index(),
                proof: proof@,
                legit_units: old(self).spec_store().units_of(
                    forker,
                    old(self).spec_store().max_round() as nat + 1,
                ),
            }),
    {
        let alerted_units = self.store.mark_forker(forker);
        let alert = self.form_alert(proof, alerted_units);
        let ghost before = out@;
        out.push(RunwayAction::ForAlerter(alert));
        assert(out@.drop_last() =~= before);
    }

    /// Puts a valid unit into the store unless its creator is a forker or it makes a new
    /// fork, which is then reported.
    pub fn add_unit_to_store_unless_fork(&mut self, su: SignedUnit, out: &mut Vec<RunwayAction>)
        requires
            old(self).wf(),
            su@.unit.pre_unit.creator.0 < old(self).spec_store().n_members(),
        ensures
            final(self).wf(),
            same_settings(*old(self), *final(self)),
            final(self).missing_coords() == old(self).missing_coords(),
            offer_step(
                old(self).spec_store(),
                final(self).spec_store(),
                old(self).spec_keychain().spec_index(),
                su@,
                old(out)@,
                final(out)@,
            ),
    {
        let creator = su.as_signable().creator();
        if self.store.is_forker(creator) {
            return;
        }
        match self.store.is_new_fork(su.as_signable()) {
            Some(sv) => {
                let proof = (su.into_unchecked(), sv.into_unchecked());
                self.on_new_forker_detected(creator, proof, out);
            },
            None => {
                self.store.add_unit(su, false);
            },
        }
    }

    /// Takes a unit received from the network, from the backup or from a confirmed alert
    /// (`alert`).
    pub fn on_unit_received(
        &mut self,
        uu: UncheckedSignedUnit,
        alert: bool,
        out: &mut Vec<RunwayAction>,
    )
        requires
            old(self).wf(),
        ensures
            final(self).wf(),
            unit_received_step(*old(self), *final(self), uu@, alert, old(out)@, final(out)@),
    {
        match self.validator.validate_unit(uu) {
            Ok(su) => {
                let coord = su.as_signable().coord();
                self.resolve_missing_coord(&coord, out);
                if alert {
                    if self.store.is_forker(coord.creator()) {
                        self.store.add_unit(su, true);
                    }
                } else {
                    self.add_unit_to_store_unless_fork(su, out);
                }
            },
            Err(_) => {},
        }
    }

    /// Answers a newest-unit request with a signed response.
    pub fn on_request_newest(
        &mut self,
        requester: NodeIndex,
        salt: Salt,
        out: &mut Vec<RunwayAction>,
    )
        requires
            old(self).wf(),
        ensures
            final(self).wf(),
            request_newest_step(*old(self), *final(self), requester, salt, old(out)@, final(out)@),
    {
        let unit = self.store.newest_unit(requester);
        let response = NewestUnitResponse::new(requester, self.index(), unit, salt);
        let signature = self.validator.keychain.sign(response.hash());
        let signed_response = UncheckedSignedNewestUnitResponse { response, signature };
        let ghost before = out@;
        out.push(
            RunwayAction::ForNetwork(
                RunwayNotificationOut::Response(Response::NewestUnit(signed_response), requester),
            ),
        );
        assert(out@.drop_last() =~= before);
    }

    /// Makes this node's unit of the pre-unit `u` and the payload `data`.
    pub fn on_create(&mut self, u: PreUnit, data: Option<Data>, out: &mut Vec<RunwayAction>)
        requires
            old(self).wf(),
        ensures
            final(self).wf(),
            create_step(*old(self), *final(self), u@, data, old(out)@, final(out)@),
    {
        if u.creator() != self.index() {
            return;
        }
        let full_unit = FullUnit::new(u, data, self.session_id);
        let signed_unit = SignedUnit::sign(full_unit, &self.validator.keychain);
        let ghost before = out@;
        out.push(RunwayAction::Backup(signed_unit.clone().into_unchecked()));
        assert(out@.drop_last() =~= before);
        let creator = signed_unit.as_signable().creator();
        if !self.store.is_forker(creator) && self.store.is_new_fork(signed_unit.as_signable()).is_none() {
            self.store.add_unit(signed_unit, false);
        }
    }

    /// Consensus added the unit `u_hash` to its DAG with the parents `p_hashes`.
    pub fn on_added_to_dag(
        &mut self,
        u_hash: Digest,
        p_hashes: Vec<Digest>,
        out: &mut Vec<RunwayAction>,
    )
        requires
            old(self).wf(),
        ensures
            final(self).wf(),
            added_to_dag_step(*old(self), *final(self), u_hash, p_hashes@, old(out)@, final(out)@),
    {
        self.store.add_parents(u_hash, p_hashes);
        self.resolve_missing_parents(&u_hash, out);
        match self.store.unit_by_hash(&u_hash) {
            Some(su) => {
                if su.as_signable().creator() == self.index() {
                    let u = su.clone().into_unchecked();
                    let ghost before = out@;
                    out.push(RunwayAction::ForNetwork(RunwayNotificationOut::NewUnit(u)));
                    assert(out@.drop_last() =~= before);
                }
            },
            None => {},
        }
    }

    /// Handles a notification from consensus. A created pre-unit takes the payload `data`.
    pub fn on_consensus_notification(
        &mut self,
        notification: NotificationOut,
        data: Option<Data>,
        out: &mut Vec<RunwayAction>,
    )
        requires
            old(self).wf(),
        ensures
            final(self).wf(),
            match notification {
                NotificationOut::CreatedPreUnit(pu, _) => create_step(
                    *old(self),
                    *final(self),
                    pu@,
                    data,
                    old(out)@,
                    final(out)@,
                ),
                NotificationOut::MissingUnits(coords) => missing_coords_step(
                    *old(self),
                    *final(self),
                    coords@,
                    old(out)@,
                    final(out)@,
                ),
                NotificationOut::WrongControlHash(h) => wrong_control_hash_step(
                    *old(self),
                    *final(self),
                    h,
                    old(out)@,
                    final(out)@,
                ),
                NotificationOut::AddedToDag(h, p) => added_to_dag_step(
                    *old(self),
                    *final(self),
                    h,
                    p@,
                    old(out)@,
                    final(out)@,
                ),
            },
    {
        match notification {
            NotificationOut::CreatedPreUnit(pu, _) => {
                self.on_create(pu, data, out);
            },
            NotificationOut::MissingUnits(coords) => {
                self.on_missing_coords(coords, out);
            },
            NotificationOut::WrongControlHash(h) => {
                self.on_wrong_control_hash(h, out);
            },
            NotificationOut::AddedToDag(h, p_hashes) => {
                self.on_added_to_dag(h, p_hashes, out);
            },
        }
    }

    /// The payloads of the units of an ordered batch, in order; `None` when a unit of the
    /// batch is not in the store.
    pub fn batch_data(&self, batch: &Vec<Digest>) -> (r: Option<Vec<Option<Data>>>)
        requires
            self.wf(),
        ensures
            r is Some <==> forall|i: int|
                0 <= i < batch@.len() ==> self.spec_store().units().contains_key(#[trigger] batch@[i]),
            r matches Some(v) ==> v@.len() == batch@.len() && forall|i: int|
                0 <= i < batch@.len() ==> #[trigger] v@[i] == self.spec_store().units()[batch@[i]].unit.data,
    {
        let mut v: Vec<Option<Data>> = Vec::new();
        let mut i: usize = 0;
        while i < batch.len()
            invariant
                i <= batch.len(),
                v@.len() == i,
                forall|j: int| 0 <= j < i ==> self.spec_store().units().contains_key(#[trigger] batch@[j]),
                forall|j: int|
                    0 <= j < i ==> #[trigger] v@[j] == self.spec_store().units()[batch@[j]].unit.data,
            decreases batch.len() - i,
        {
            match self.store.unit_by_hash(&batch[i]) {
                Some(su) => {
                    v.push(su.as_signable().data());
                },
                None => {
                    return None;
                },
            }
            i += 1;
        }
        Some(v)
    }
}


impl<K: Keychain> Runway<K> {
    /// Takes a response with the parents of `u_hash`: checks them one by one against the
    /// unit's control hash and records them when they all fit.
    pub fn on_parents_response(
        &mut self,
        u_hash: Digest,
        parents: Vec<UncheckedSignedUnit>,
        out: &mut Vec<RunwayAction>,
    )
        requires
            old(self).wf(),
        ensures
            final(self).wf(),
            parents_response_step(
                *old(self),
                *final(self),
                u_hash,
                unit_views(parents@),
                old(out)@,
                final(out)@,
            ),
    {
        let ghost ps = unit_views(parents@);
        let ghost start = *self;
        assert(out@.subrange(0, out@.len() as int) =~= out@);
        if self.store.get_parents(u_hash).is_some() {
            return;
        }
        let (u_round, u_control_hash, parent_ids) = match self.store.unit_by_hash(&u_hash) {
            Some(su) => {
                let full_unit = su.as_signable();
                (
                    full_unit.round(),
                    full_unit.control_hash().combined_hash,
                    full_unit.control_hash().parents(),
                )
            },
            None => {
                return;
            },
        };
        let ghost u = start.spec_store().units()[u_hash].unit;
        let ghost ids = set_indices(u.pre_unit.control_hash.parents_mask);
        if parent_ids.len() != parents.len() {
            return;
        }
        let n = self.node_count();
        let mut p_map: NodeMap<Digest> = NodeMap::with_size(n);
        assert(ps.subrange(0, 0) =~= Seq::<SignedUnitView>::empty());
        let mut i: usize = 0;
        while i < parents.len()
            invariant
                self.wf(),
                same_settings(start, *self),
                self.spec_store().parents_map() == start.spec_store().parents_map(),
                forall|h: Digest|
                    start.spec_store().units().contains_key(h)
                        ==> #[trigger] self.spec_store().units().contains_key(h),
                appended_without_consensus(old(out)@, out@),
                start == *old(self),
                ps == unit_views(parents@),
                !start.spec_store().parents_map().contains_key(u_hash),
                start.spec_store().units().contains_key(u_hash),
                u == start.spec_store().units()[u_hash].unit,
                ids == set_indices(u.pre_unit.control_hash.parents_mask),
                parent_ids@ == ids,
                u_round == u.pre_unit.round,
                u_control_hash == u.pre_unit.control_hash.combined_hash,
                parents.len() == parent_ids.len(),
                n == start.spec_keychain().spec_node_count(),
                i <= parents.len(),
                p_map@ == parent_slots(n.0 as nat, ps.subrange(0, i as int)),
                forall|j: int| 0 <= j < i ==> parent_fits(start, u, ids, #[trigger] ps[j], j),
            decreases parents.len() - i,
        {
            let ghost before = *self;
            let ghost out_before = out@;
            assert(ps[i as int] == parents@[i as int]@);
            let uu = parents[i].clone();
            let su = match self.validator.validate_unit(uu) {
                Ok(su) => su,
                Err(_) => {
                    assert(!parent_fits(start, u, ids, ps[i as int], i as int));
                    return;
                },
            };
            let full_unit = su.as_signable();
            if full_unit.round() as u32 + 1 != u_round as u32 {
                assert(!parent_fits(start, u, ids, ps[i as int], i as int));
                return;
            }
            if full_unit.creator() != parent_ids[i] {
                assert(!parent_fits(start, u, ids, ps[i as int], i as int));
                return;
            }
            let p_hash = full_unit.hash();
            let ix = full_unit.creator();
            proof {
                lemma_parent_slots_len(n.0 as nat, ps.subrange(0, i as int));
            }
            p_map.insert(ix, p_hash);
            assert(ps.subrange(0, i as int + 1).drop_last() =~= ps.subrange(0, i as int));
            let coord = full_unit.coord();
            self.resolve_missing_coord(&coord, out);
            let ghost mid_out = out@;
            self.add_unit_to_store_unless_fork(su, out);
            proof {
                assert forall|k: int| old(out)@.len() <= k < out@.len() implies !(
                #[trigger] out@[k] is ForConsensus) by {
                    if k >= mid_out.len() {
                    } else if k >= out_before.len() {
                        assert(mid_out[k] is Resolved);
                    } else {
                        assert(out_before[k] == out@[k]);
                    }
                }
                assert(out@.subrange(0, old(out)@.len() as int) =~= old(out)@) by {
                    assert(out@.subrange(0, out_before.len() as int) =~= out_before);
                }
            }
            i += 1;
        }
        assert(ps.subrange(0, i as int) =~= ps);
        if ControlHash::combine_hashes(&p_map) != u_control_hash {
            return;
        }
        let p_hashes = p_map.into_values();
        self.store.add_parents(u_hash, p_hashes.clone());
        let ghost before = out@;
        out.push(RunwayAction::ForConsensus(NotificationIn::UnitParents(u_hash, p_hashes)));
        assert(out@.drop_last() =~= before);
    }

    /// Handles a notification of the alert handler.
    pub fn on_alert_notification(
        &mut self,
        notification: ForkingNotification,
        out: &mut Vec<RunwayAction>,
    )
        requires
            old(self).wf(),
        ensures
            final(self).wf(),
            alert_notification_step(*old(self), *final(self), notification, old(out)@, final(out)@),
    {
        assert(out@.subrange(0, out@.len() as int) =~= out@);
        match notification {
            ForkingNotification::Forker(proof) => {
                let forker = proof.0.unit.creator();
                if forker.0 < self.node_count().0 && !self.store.is_forker(forker) {
                    self.on_new_forker_detected(forker, proof, out);
                }
            },
            ForkingNotification::Units(units) => {
                let ghost start = *self;
                let mut i: usize = 0;
                while i < units.len()
                    invariant
                        self.wf(),
                        same_settings(start, *self),
                        start == *old(self),
                        i <= units.len(),
                        forall|h: Digest|
                            start.spec_store().units().contains_key(h)
                                ==> #[trigger] self.spec_store().units().contains_key(h),
                        forall|j: int|
                            0 <= j < i && start.spec_validator().result(#[trigger] units@[j]@) is Ok
                                && start.spec_store().forker(units@[j]@.unit.pre_unit.creator)
                                ==> self.spec_store().units().contains_key(
                                unit_digest(units@[j]@.unit),
                            ),
                        appended_without_consensus(old(out)@, out@),
                        forall|n: NodeIndex| #[trigger]
                            start.spec_store().forker(n) ==> self.spec_store().forker(n),
                    decreases units.len() - i,
                {
                    let ghost out_before = out@;
                    let ghost before = *self;
                    self.on_unit_received(units[i].clone(), true, out);
                    proof {
                        assert forall|k: int| old(out)@.len() <= k < out@.len() implies !(
                        #[trigger] out@[k] is ForConsensus) by {
                            if k < out_before.len() {
                                assert(out_before[k] == out@[k]);
                            }
                        }
                        assert(out@.subrange(0, old(out)@.len() as int) =~= old(out)@) by {
                            assert(out@.subrange(0, out_before.len() as int) =~= out_before);
                        }
                    }
                    i += 1;
                }
            },
        }
    }

    /// Handles a unit message from the network.
    pub fn on_unit_message(&mut self, message: RunwayNotificationIn, out: &mut Vec<RunwayAction>)
        requires
            old(self).wf(),
        ensures
            final(self).wf(),
            match message {
                RunwayNotificationIn::NewUnit(u) => unit_received_step(
                    *old(self),
                    *final(self),
                    u@,
                    false,
                    old(out)@,
                    final(out)@,
                ),
                RunwayNotificationIn::Request(Request::Coord(c), node) => request_coord_step(
                    *old(self),
                    *final(self),
                    node,
                    c,
                    old(out)@,
                    final(out)@,
                ),
                RunwayNotificationIn::Request(Request::Parents(h), node) => request_parents_step(
                    *old(self),
                    *final(self),
                    node,
                    h,
                    old(out)@,
                    final(out)@,
                ),
                RunwayNotificationIn::Request(Request::NewestUnit(salt), node) => request_newest_step(
                    *old(self),
                    *final(self),
                    node,
                    salt,
                    old(out)@,
                    final(out)@,
                ),
                RunwayNotificationIn::Response(Response::Coord(u)) => unit_received_step(
                    *old(self),
                    *final(self),
                    u@,
                    false,
                    old(out)@,
                    final(out)@,
                ),
                RunwayNotificationIn::Response(Response::Parents(h, ps)) => parents_response_step(
                    *old(self),
                    *final(self),
                    h,
                    unit_views(ps@),
                    old(out)@,
                    final(out)@,
                ),
                RunwayNotificationIn::Response(Response::NewestUnit(r)) => *final(self) == *old(
                    self,
                ) && final(out)@ == old(out)@.push(RunwayAction::ForCollection(r)),
            },
    {
        match message {
            RunwayNotificationIn::NewUnit(u) => self.on_unit_received(u, false, out),
            RunwayNotificationIn::Request(request, node_id) => match request {
                Request::Coord(coord) => self.on_request_coord(node_id, coord, out),
                Request::Parents(u_hash) => self.on_request_parents(node_id, u_hash, out),
                Request::NewestUnit(salt) => self.on_request_newest(node_id, salt, out),
            },
            RunwayNotificationIn::Response(res) => match res {
                Response::Coord(u) => self.on_unit_received(u, false, out),
                Response::Parents(u_hash, parents) => self.on_parents_response(u_hash, parents, out),
                Response::NewestUnit(response) => out.push(RunwayAction::ForCollection(response)),
            },
        }
    }
}

/// The services a runway works with: where payloads come from and finalized payloads go,
/// and where its own units are saved to and loaded from.
pub struct RunwayIO<DP, FH, US, UL> {
    pub data_provider: DP,
    pub finalization_handler: FH,
    pub unit_saver: US,
    pub unit_loader: UL,
}

impl<DP, FH, US, UL> RunwayIO<DP, FH, US, UL> {
    pub fn new(data_provider: DP, finalization_handler: FH, unit_saver: US, unit_loader: UL) -> (r:
        Self)
        ensures
            r == (RunwayIO { data_provider, finalization_handler, unit_saver, unit_loader }),
    {
        RunwayIO { data_provider, finalization_handler, unit_saver, unit_loader }
    }
}

} // verus!

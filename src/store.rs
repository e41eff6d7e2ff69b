use std::collections::HashMap;
use vstd::prelude::*;

use crate::nodes::{
    lemma_pair_key_injective, pair_key, pair_key_of, Digest, NodeCount, NodeIndex, Round,
};
use crate::units::{
    unit_coord, unit_digest, FullUnit, SignedUnit, SignedUnitView, UncheckedSignedUnit, UnitCoord,
};

verus! {

broadcast use vstd::std_specs::hash::group_hash_axioms;

/// The key under which the unit at `c` is indexed.
pub open spec fn coord_key(c: UnitCoord) -> u128 {
    pair_key(c.creator.0, c.round as usize)
}

pub fn coord_key_of(c: UnitCoord) -> (r: u128)
    ensures
        r == coord_key(c),
{
    pair_key_of(c.creator.0, c.round as usize)
}

proof fn lemma_coord_key_injective(c: UnitCoord, d: UnitCoord)
    ensures
        coord_key(c) == coord_key(d) ==> c == d,
{
    lemma_pair_key_injective(c.creator.0, c.round as usize, d.creator.0, d.round as usize);
}

/// The coordinate of a unit.
pub open spec fn coord_of(u: SignedUnitView) -> UnitCoord {
    unit_coord(u.unit)
}

/// The hashes of a sequence of units.
pub open spec fn digests(s: Seq<SignedUnitView>) -> Seq<Digest> {
    s.map_values(|u: SignedUnitView| unit_digest(u.unit))
}

/// The views of a sequence of signed units.
pub open spec fn signed_views(s: Seq<SignedUnit>) -> Seq<SignedUnitView> {
    s.map_values(|u: SignedUnit| u@)
}

/// The parents map after adding `p` as the parents of `h`: the first parents given stay.
pub open spec fn parents_added(m: Map<Digest, Seq<Digest>>, h: Digest, p: Seq<Digest>) -> Map<
    Digest,
    Seq<Digest>,
> {
    if m.contains_key(h) {
        m
    } else {
        m.insert(h, p)
    }
}

/// What adding the unit `u` does to the store: nothing when it is known by hash; otherwise
/// it joins the units and the buffer, and takes its coordinate when that was free.
pub open spec fn unit_added(old: UnitStore, new: UnitStore, u: SignedUnitView) -> bool {
    let h = unit_digest(u.unit);
    let c = coord_of(u);
    &&& old.units().contains_key(h) ==> new == old
    &&& !old.units().contains_key(h) ==> {
        &&& new.units() == old.units().insert(h, u)
        &&& new.buffer() == old.buffer().push(u)
        &&& new.history() == old.history().push(u)
        &&& new.at_coord(c) == if old.at_coord(c) is Some {
            old.at_coord(c)
        } else {
            Some(h)
        }
        &&& forall|d: UnitCoord| d != c ==> #[trigger] new.at_coord(d) == old.at_coord(d)
    }
    &&& forall|n: NodeIndex| #[trigger] new.forker(n) == old.forker(n)
    &&& new.parents_map() == old.parents_map()
    &&& new.yielded() == old.yielded()
    &&& new.n_members() == old.n_members()
    &&& new.max_round() == old.max_round()
}

/// What recording `p` as the parents of `h` does: the first parents given stay, and
/// nothing else changes.
pub open spec fn parents_recorded(old: UnitStore, new: UnitStore, h: Digest, p: Seq<Digest>) -> bool {
    &&& new.parents_map() == parents_added(old.parents_map(), h, p)
    &&& new.units() == old.units()
    &&& forall|c: UnitCoord| #[trigger] new.at_coord(c) == old.at_coord(c)
    &&& forall|n: NodeIndex| #[trigger] new.forker(n) == old.forker(n)
    &&& new.buffer() == old.buffer()
    &&& new.history() == old.history()
    &&& new.yielded() == old.yielded()
    &&& new.n_members() == old.n_members()
    &&& new.max_round() == old.max_round()
}

/// The units known locally: indexed by hash and by coordinate, with the forkers, the decoded
/// parents, and the units not yet handed to consensus.
pub struct UnitStore {
    by_coord: HashMap<u128, Digest>,
    by_hash: HashMap<Digest, SignedUnit>,
    parents: HashMap<Digest, Vec<Digest>>,
    is_forker: Vec<bool>,
    legit_buffer: Vec<SignedUnit>,
    n_members: NodeCount,
    max_round: Round,
    history: Ghost<Seq<SignedUnitView>>,
    yielded: Ghost<Seq<SignedUnitView>>,
}

impl UnitStore {
    pub closed spec fn n_members(&self) -> nat {
        self.n_members.0 as nat
    }

    pub closed spec fn max_round(&self) -> Round {
        self.max_round
    }

    /// The units, by hash.
    pub closed spec fn units(&self) -> Map<Digest, SignedUnitView> {
        self.by_hash@.map_values(|u: SignedUnit| u@)
    }

    /// The hash of the unit kept for coordinate `c`, if any.
    pub closed spec fn at_coord(&self, c: UnitCoord) -> Option<Digest> {
        if self.by_coord@.contains_key(coord_key(c)) {
            Some(self.by_coord@[coord_key(c)])
        } else {
            None
        }
    }

    pub closed spec fn forker(&self, node: NodeIndex) -> bool {
        0 <= node.0 < self.is_forker@.len() && self.is_forker@[node.0 as int]
    }

    /// The parents recorded for each unit hash.
    pub closed spec fn parents_map(&self) -> Map<Digest, Seq<Digest>> {
        self.parents@.map_values(|v: Vec<Digest>| v@)
    }

    /// The units admitted and not yet handed out, in order of admission.
    pub closed spec fn buffer(&self) -> Seq<SignedUnitView> {
        signed_views(self.legit_buffer@)
    }

    /// Every unit admitted so far, in order of admission.
    pub closed spec fn history(&self) -> Seq<SignedUnitView> {
        self.history@
    }

    /// Every unit handed out so far, in order.
    pub closed spec fn yielded(&self) -> Seq<SignedUnitView> {
        self.yielded@
    }

    pub closed spec fn wf(&self) -> bool {
        &&& self.is_forker@.len() == self.n_members.0
        &&& forall|k: u128| #[trigger]
            self.by_coord@.contains_key(k) ==> {
                &&& self.by_hash@.contains_key(self.by_coord@[k])
                &&& coord_key(coord_of(self.by_hash@[self.by_coord@[k]]@)) == k
            }
        &&& forall|h: Digest| #[trigger]
            self.by_hash@.contains_key(h) ==> unit_digest(self.by_hash@[h]@.unit) == h
        &&& self.history@ == self.yielded@ + signed_views(self.legit_buffer@)
        &&& digests(self.history@).no_duplicates()
        &&& forall|h: Digest|
            self.by_hash@.contains_key(h) <==> #[trigger] digests(self.history@).contains(h)
        &&& forall|h: Digest| #[trigger]
            self.by_hash@.contains_key(h) ==> self.by_coord@.contains_key(
                coord_key(coord_of(self.by_hash@[h]@)),
            )
        &&& forall|h1: Digest, h2: Digest|
            #![trigger self.by_hash@[h1], self.by_hash@[h2]]
            self.by_hash@.contains_key(h1) && self.by_hash@.contains_key(h2) && h1 != h2
                && coord_of(self.by_hash@[h1]@) == coord_of(self.by_hash@[h2]@) ==> self.forker(
                coord_of(self.by_hash@[h1]@).creator,
            )
    }

    /// An empty store for `n_members` members and rounds up to `max_round`.
    pub fn new(n_members: NodeCount, max_round: Round) -> (r: Self)
        ensures
            r.wf(),
            r.n_members() == n_members.0,
            r.max_round() == max_round,
            r.units() == Map::<Digest, SignedUnitView>::empty(),
            forall|c: UnitCoord| #[trigger] r.at_coord(c) is None,
            forall|n: NodeIndex| !#[trigger] r.forker(n),
            r.parents_map() == Map::<Digest, Seq<Digest>>::empty(),
            r.history() == Seq::<SignedUnitView>::empty(),
            r.yielded() == Seq::<SignedUnitView>::empty(),
    {
        let mut is_forker: Vec<bool> = Vec::new();
        let mut i: usize = 0;
        while i < n_members.0
            invariant
                i <= n_members.0,
                is_forker@.len() == i,
                forall|j: int| 0 <= j < i ==> !#[trigger] is_forker@[j],
            decreases n_members.0 - i,
        {
            is_forker.push(false);
            i += 1;
        }
        let r = UnitStore {
            by_coord: HashMap::new(),
            by_hash: HashMap::new(),
            parents: HashMap::new(),
            is_forker,
            legit_buffer: Vec::new(),
            n_members,
            max_round,
            history: Ghost(Seq::empty()),
            yielded: Ghost(Seq::empty()),
        };
        assert(r.units() =~= Map::<Digest, SignedUnitView>::empty());
        assert(r.parents_map() =~= Map::<Digest, Seq<Digest>>::empty());
        assert(signed_views(r.legit_buffer@) =~= Seq::<SignedUnitView>::empty());
        assert(digests(r.history@) =~= Seq::<Digest>::empty());
        r
    }

    pub fn is_forker(&self, node: NodeIndex) -> (r: bool)
        ensures
            r == self.forker(node),
    {
        node.0 < self.is_forker.len() && self.is_forker[node.0]
    }

    pub fn unit_by_hash(&self, h: &Digest) -> (r: Option<&SignedUnit>)
        ensures
            r matches Some(u) ==> self.units().contains_key(*h) && u@ == self.units()[*h],
            r is None ==> !self.units().contains_key(*h),
    {
        self.by_hash.get(h)
    }

    pub fn unit_by_coord(&self, coord: UnitCoord) -> (r: Option<&SignedUnit>)
        requires
            self.wf(),
        ensures
            r matches Some(u) ==> self.at_coord(coord) matches Some(h) && self.units().contains_key(
                h,
            ) && u@ == self.units()[h],
            r is None ==> self.at_coord(coord) is None,
    {
        let key = coord_key_of(coord);
        match self.by_coord.get(&key) {
            Some(h) => self.by_hash.get(h),
            None => None,
        }
    }

    pub fn contains_coord(&self, coord: UnitCoord) -> (r: bool)
        ensures
            r == self.at_coord(coord) is Some,
    {
        let key = coord_key_of(coord);
        self.by_coord.contains_key(&key)
    }

    /// The unit kept at the coordinate of `fu`, when it is a different unit.
    pub fn is_new_fork(&self, fu: &FullUnit) -> (r: Option<SignedUnit>)
        requires
            self.wf(),
        ensures
            r is Some <==> (self.at_coord(unit_coord(fu@)) matches Some(h) && h != unit_digest(fu@)),
            r matches Some(u) ==> self.at_coord(unit_coord(fu@)) matches Some(h) && u@
                == self.units()[h],
    {
        match self.unit_by_coord(fu.coord()) {
            Some(u) => {
                if u.as_signable().hash() != fu.hash() {
                    Some(u.clone())
                } else {
                    None
                }
            },
            None => None,
        }
    }

    pub fn get_parents(&self, h: Digest) -> (r: Option<&Vec<Digest>>)
        ensures
            r matches Some(p) ==> self.parents_map().contains_key(h) && p@ == self.parents_map()[h],
            r is None ==> !self.parents_map().contains_key(h),
    {
        self.parents.get(&h)
    }

    /// Records the parents of `h`, unless they are recorded already.
    pub fn add_parents(&mut self, h: Digest, parents: Vec<Digest>)
        requires
            old(self).wf(),
        ensures
            final(self).wf(),
            parents_recorded(*old(self), *final(self), h, parents@),
    {
        if !self.parents.contains_key(&h) {
            let ghost p = parents@;
            self.parents.insert(h, parents);
            assert(self.parents_map() =~= old(self).parents_map().insert(h, p));
        }
    }

    /// Adds a unit. A unit already known by hash changes nothing; the first unit at a
    /// coordinate is the one indexed there. Units of forkers come only through alerts, and
    /// outside alerts no unit may contradict the one at its coordinate.
    pub fn add_unit(&mut self, su: SignedUnit, alert: bool)
        requires
            old(self).wf(),
            su@.unit.pre_unit.creator.0 < old(self).n_members(),
            alert == old(self).forker(su@.unit.pre_unit.creator),
            !alert ==> (old(self).at_coord(coord_of(su@)) matches Some(h) ==> h == unit_digest(
                su@.unit,
            )),
        ensures
            final(self).wf(),
            unit_added(*old(self), *final(self), su@),
    {
        let h = su.as_signable().hash();
        if self.by_hash.contains_key(&h) {
            return;
        }
        let coord = su.as_signable().coord();
        let key = coord_key_of(coord);
        proof {
            if !alert {
                assert forall|g: Digest| #[trigger]
                    old(self).by_hash@.contains_key(g) implies coord_of(old(self).by_hash@[g]@)
                    != coord_of(su@) by {
                    if coord_of(old(self).by_hash@[g]@) == coord_of(su@) {
                        assert(old(self).by_coord@.contains_key(coord_key(coord_of(su@))));
                        assert(old(self).at_coord(coord_of(su@)) == Some(h));
                    }
                }
            }
        }
        if !self.by_coord.contains_key(&key) {
            self.by_coord.insert(key, h);
        }
        let ghost old_history = self.history@;
        let ghost sv = su@;
        let copy = su.clone();
        self.by_hash.insert(h, copy);
        self.legit_buffer.push(su);
        self.history = Ghost(self.history@.push(sv));
        proof {
            assert(signed_views(self.legit_buffer@) =~= signed_views(old(self).legit_buffer@).push(
                sv,
            ));
            assert(digests(self.history@) =~= digests(old_history).push(h));
            assert(!digests(old_history).contains(h));
            assert forall|i: int, j: int|
                0 <= i < digests(self.history@).len() && 0 <= j < digests(self.history@).len() && i
                    != j implies digests(self.history@)[i] != digests(self.history@)[j] by {
                if i < old_history.len() && j < old_history.len() {
                    assert(digests(old_history)[i] != digests(old_history)[j]);
                } else if i < old_history.len() {
                    assert(digests(old_history).contains(digests(old_history)[i]));
                } else {
                    assert(digests(old_history).contains(digests(old_history)[j]));
                }
            }
            assert forall|g: Digest|
                self.by_hash@.contains_key(g) <==> #[trigger] digests(self.history@).contains(g) by {
                if digests(old_history).contains(g) {
                    let i = choose|i: int|
                        0 <= i < digests(old_history).len() && digests(old_history)[i] == g;
                    assert(digests(self.history@)[i] == g);
                }
                if digests(self.history@).contains(g) && g != h {
                    let i = choose|i: int|
                        0 <= i < digests(self.history@).len() && digests(self.history@)[i] == g;
                    assert(i < old_history.len());
                    assert(digests(old_history)[i] == g);
                }
                if g == h {
                    assert(digests(self.history@)[old_history.len() as int] == h);
                }
            }
            assert(self.units() =~= old(self).units().insert(h, sv));
            assert forall|c: UnitCoord|
                c != coord_of(sv) implies #[trigger] self.at_coord(c) == old(self).at_coord(c) by {
                lemma_coord_key_injective(c, coord_of(sv));
            }
            assert forall|k: u128| #[trigger]
                self.by_coord@.contains_key(k) implies {
                &&& self.by_hash@.contains_key(self.by_coord@[k])
                &&& coord_key(coord_of(self.by_hash@[self.by_coord@[k]]@)) == k
            } by {
                if k != key {
                    assert(old(self).by_coord@.contains_key(k));
                }
            }
            assert forall|g: Digest| #[trigger]
                self.by_hash@.contains_key(g) implies self.by_coord@.contains_key(
                coord_key(coord_of(self.by_hash@[g]@)),
            ) by {
                if g != h {
                    assert(old(self).by_hash@.contains_key(g));
                }
            }
            assert forall|h1: Digest, h2: Digest|
                #![trigger self.by_hash@[h1], self.by_hash@[h2]]
                self.by_hash@.contains_key(h1) && self.by_hash@.contains_key(h2) && h1 != h2
                    && coord_of(self.by_hash@[h1]@) == coord_of(self.by_hash@[h2]@) implies self.forker(
                coord_of(self.by_hash@[h1]@).creator,
            ) by {
                if h1 != h && h2 != h {
                    assert(old(self).by_hash@[h1] == self.by_hash@[h1]);
                    assert(old(self).by_hash@[h2] == self.by_hash@[h2]);
                } else if h1 == h {
                    assert(old(self).by_hash@.contains_key(h2));
                } else {
                    assert(old(self).by_hash@.contains_key(h1));
                }
            }
        }
    }

    /// Marks `forker` as a forker for good and returns its units kept by coordinate, in
    /// increasing round order up to the highest admitted round.
    pub fn mark_forker(&mut self, forker: NodeIndex) -> (r: Vec<SignedUnit>)
        requires
            old(self).wf(),
            forker.0 < old(self).n_members(),
        ensures
            final(self).wf(),
            final(self).forker(forker),
            forall|n: NodeIndex| n != forker ==> #[trigger] final(self).forker(n) == old(self).forker(n),
            signed_views(r@) == old(self).units_of(forker, old(self).max_round() as nat + 1),
            final(self).units() == old(self).units(),
            forall|c: UnitCoord| #[trigger] final(self).at_coord(c) == old(self).at_coord(c),
            final(self).parents_map() == old(self).parents_map(),
            final(self).buffer() == old(self).buffer(),
            final(self).history() == old(self).history(),
            final(self).yielded() == old(self).yielded(),
            final(self).n_members() == old(self).n_members(),
            final(self).max_round() == old(self).max_round(),
    {
        self.is_forker.set(forker.0, true);
        assert(self.units() == old(self).units());
        let mut out: Vec<SignedUnit> = Vec::new();
        let mut r: u32 = 0;
        while r <= self.max_round as u32
            invariant
                self.wf(),
                r <= self.max_round as u32 + 1,
                self.units() == old(self).units(),
                forall|c: UnitCoord| #[trigger] self.at_coord(c) == old(self).at_coord(c),
                signed_views(out@) == old(self).units_of(forker, r as nat),
            decreases self.max_round as u32 + 1 - r,
        {
            let coord = UnitCoord { creator: forker, round: r as Round };
            let ghost before = out@;
            match self.unit_by_coord(coord) {
                Some(u) => {
                    out.push(u.clone());
                    assert(signed_views(out@) =~= signed_views(before).push(u@));
                },
                None => {},
            }
            r += 1;
        }
        out
    }

    /// The units of `node` kept by coordinate at the rounds below `n`, in round order.
    pub closed spec fn units_of(&self, node: NodeIndex, n: nat) -> Seq<SignedUnitView>
        decreases n,
    {
        if n == 0 {
            Seq::empty()
        } else {
            let c = UnitCoord { creator: node, round: (n - 1) as Round };
            self.units_of(node, (n - 1) as nat) + match self.at_coord(c) {
                Some(h) => seq![self.units()[h]],
                None => Seq::empty(),
            }
        }
    }

    /// Whether `r` is the unit of `node` at the highest round up to the highest admitted
    /// round, or nothing when there is no such unit.
    pub open spec fn is_newest(&self, node: NodeIndex, r: Option<UncheckedSignedUnit>) -> bool {
        &&& r is None <==> forall|rd: Round|
            rd <= self.max_round() ==> #[trigger] self.at_coord(
                UnitCoord { creator: node, round: rd },
            ) is None
        &&& r matches Some(u) ==> exists|rd: Round|
            {
                &&& rd <= self.max_round()
                &&& #[trigger] self.at_coord(UnitCoord { creator: node, round: rd }) matches Some(
                    h,
                ) && self.units()[h] == u@
                &&& forall|rd2: Round|
                    rd < rd2 <= self.max_round() ==> #[trigger] self.at_coord(
                        UnitCoord { creator: node, round: rd2 },
                    ) is None
            }
    }

    /// The unit of `requester` at the highest round up to the highest admitted round, if any.
    pub fn newest_unit(&self, requester: NodeIndex) -> (r: Option<UncheckedSignedUnit>)
        requires
            self.wf(),
        ensures
            self.is_newest(requester, r),
    {
        let mut r: u32 = self.max_round as u32 + 1;
        while r > 0
            invariant
                self.wf(),
                r <= self.max_round as u32 + 1,
                forall|rd: Round|
                    r <= rd <= self.max_round ==> #[trigger] self.at_coord(
                        UnitCoord { creator: requester, round: rd },
                    ) is None,
            decreases r,
        {
            r -= 1;
            let coord = UnitCoord { creator: requester, round: r as Round };
            match self.unit_by_coord(coord) {
                Some(u) => {
                    let res = u.clone().into_unchecked();
                    assert(self.at_coord(UnitCoord { creator: requester, round: r as Round }) is Some);
                    return Some(res);
                },
                None => {},
            }
        }
        None
    }

    /// Hands out the units admitted since the last call, in order of admission.
    pub fn yield_buffer_units(&mut self) -> (r: Vec<SignedUnit>)
        requires
            old(self).wf(),
        ensures
            final(self).wf(),
            signed_views(r@) == old(self).buffer(),
            final(self).buffer() == Seq::<SignedUnitView>::empty(),
            final(self).yielded() == old(self).yielded() + old(self).buffer(),
            final(self).history() == old(self).history(),
            final(self).units() == old(self).units(),
            forall|c: UnitCoord| #[trigger] final(self).at_coord(c) == old(self).at_coord(c),
            forall|n: NodeIndex| #[trigger] final(self).forker(n) == old(self).forker(n),
            final(self).parents_map() == old(self).parents_map(),
            final(self).n_members() == old(self).n_members(),
            final(self).max_round() == old(self).max_round(),
    {
        let mut out: Vec<SignedUnit> = Vec::new();
        std::mem::swap(&mut out, &mut self.legit_buffer);
        self.yielded = Ghost(self.yielded@ + signed_views(out@));
        assert(signed_views(self.legit_buffer@) =~= Seq::<SignedUnitView>::empty());
        assert(self.history@ =~= self.yielded@ + signed_views(self.legit_buffer@));
        out
    }
}

/// How many of the creators below `n` have a unit kept at `round`.
pub open spec fn filled(s: UnitStore, round: Round, n: nat) -> nat
    decreases n,
{
    if n == 0 {
        0
    } else {
        filled(s, round, (n - 1) as nat) + if s.at_coord(
            UnitCoord { creator: NodeIndex((n - 1) as usize), round },
        ) is Some {
            1nat
        } else {
            0nat
        }
    }
}

/// A summary of a store: how many units it holds, and for each round up to the highest
/// admitted one how many creators have a unit there.
#[derive(Debug, PartialEq, Eq)]
pub struct UnitStoreStatus {
    pub size: usize,
    pub units_per_round: Vec<usize>,
}

impl UnitStore {
    /// A summary of the store.
    pub fn get_status(&self) -> (r: UnitStoreStatus)
        requires
            self.wf(),
        ensures
            r.size == self.units().len(),
            r.units_per_round@.len() == self.max_round() as nat + 1,
            forall|rd: int|
                0 <= rd < r.units_per_round@.len() ==> #[trigger] r.units_per_round@[rd] == filled(
                    *self,
                    rd as Round,
                    self.n_members(),
                ),
    {
        let mut units_per_round: Vec<usize> = Vec::new();
        let mut rd: u32 = 0;
        while rd <= self.max_round as u32
            invariant
                rd <= self.max_round as u32 + 1,
                units_per_round@.len() == rd,
                forall|j: int|
                    0 <= j < rd ==> #[trigger] units_per_round@[j] == filled(
                        *self,
                        j as Round,
                        self.n_members(),
                    ),
            decreases self.max_round as u32 + 1 - rd,
        {
            let mut count: usize = 0;
            let mut c: usize = 0;
            while c < self.n_members.0
                invariant
                    c <= self.n_members.0,
                    count == filled(*self, rd as Round, c as nat),
                    count <= c,
                decreases self.n_members.0 - c,
            {
                if self.contains_coord(UnitCoord { creator: NodeIndex(c), round: rd as Round }) {
                    count += 1;
                }
                c += 1;
            }
            units_per_round.push(count);
            rd += 1;
        }
        assert(self.units().dom() =~= self.by_hash@.dom());
        UnitStoreStatus { size: self.by_hash.len(), units_per_round }
    }
}

/// A store holds at most one unit per coordinate by a creator that is not marked as a
/// forker.
pub proof fn lemma_one_unit_per_coord(s: UnitStore, h1: Digest, h2: Digest)
    requires
        s.wf(),
        s.units().contains_key(h1),
        s.units().contains_key(h2),
        coord_of(s.units()[h1]) == coord_of(s.units()[h2]),
        !s.forker(coord_of(s.units()[h1]).creator),
    ensures
        h1 == h2,
{
    assert(s.by_hash@.contains_key(h1) && s.by_hash@.contains_key(h2));
    assert(s.units()[h1] == s.by_hash@[h1]@);
    assert(s.units()[h2] == s.by_hash@[h2]@);
}

/// Recording the same parents of the same unit twice leaves the store as recording them
/// once did.
pub proof fn lemma_add_parents_idempotent(
    s1: UnitStore,
    s2: UnitStore,
    s3: UnitStore,
    h: Digest,
    p: Seq<Digest>,
)
    requires
        parents_recorded(s1, s2, h, p),
        parents_recorded(s2, s3, h, p),
    ensures
        s3.parents_map() == s2.parents_map(),
        s3.units() == s2.units(),
        forall|c: UnitCoord| #[trigger] s3.at_coord(c) == s2.at_coord(c),
        forall|n: NodeIndex| #[trigger] s3.forker(n) == s2.forker(n),
        s3.buffer() == s2.buffer(),
        s3.history() == s2.history(),
        s3.yielded() == s2.yielded(),
{
}

/// The units handed out so far and those waiting make up every unit admitted, in order of
/// admission, each once: so each admitted unit comes out of exactly one call of
/// `yield_buffer_units`, the first after it was admitted.
pub proof fn lemma_yields_partition_history(s: UnitStore)
    requires
        s.wf(),
    ensures
        s.history() == s.yielded() + s.buffer(),
        digests(s.history()).no_duplicates(),
        forall|h: Digest| s.units().contains_key(h) <==> #[trigger] digests(s.history()).contains(h),
{
}

} // verus!

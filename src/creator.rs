use vstd::prelude::*;

use crate::nodes::{
    count_some, lemma_count_some_fill, lemma_count_some_le, quorum, some_values, Digest,
    NodeCount, NodeIndex, NodeMap, Round,
};
use crate::units::{control_hash_of, ControlHash, PreUnit, PreUnitView, Unit};

verus! {

/// Why a unit cannot be created yet.
#[derive(Clone, Copy, Debug, PartialEq, Eq, Structural)]
pub enum ConstraintError {
    NotEnoughParents,
    MissingOwnParent,
}

/// The units of one round that may serve as parents: at most one per creator, the first
/// one seen.
pub struct UnitsCollector {
    candidates: NodeMap<Digest>,
    n_candidates: NodeCount,
}

impl UnitsCollector {
    /// The candidate hash of each creator.
    pub closed spec fn candidates(&self) -> Seq<Option<Digest>> {
        self.candidates@
    }

    pub closed spec fn wf(&self) -> bool {
        self.n_candidates.0 == count_some(self.candidates@)
    }

    pub fn new(n_members: NodeCount) -> (r: Self)
        ensures
            r.wf(),
            r.candidates() == Seq::new(n_members.0 as nat, |i: int| None::<Digest>),
    {
        let candidates = NodeMap::with_size(n_members);
        proof {
            lemma_count_some_none(n_members.0 as nat);
        }
        UnitsCollector { candidates, n_candidates: NodeCount(0) }
    }

    /// Records the unit's hash for its creator, unless that creator already has one.
    pub fn add_unit(&mut self, unit: &Unit)
        requires
            old(self).wf(),
            unit.creator.0 < old(self).candidates().len(),
        ensures
            final(self).wf(),
            final(self).candidates() == first_seen(old(self).candidates(), unit.creator, unit.hash),
    {
        let node_id = unit.creator();
        let hash = unit.hash();
        let size = self.candidates.size();
        if self.candidates.get(node_id).is_none() {
            proof {
                lemma_count_some_fill(self.candidates@, node_id.0 as int, hash);
                lemma_count_some_le(self.candidates@.update(node_id.0 as int, Some(hash)));
            }
            self.candidates.insert(node_id, hash);
            self.n_candidates = NodeCount(self.n_candidates.0 + 1);
        }
    }

    /// The candidates, when there are enough of them and `node_id` is among them.
    pub fn prospective_parents(&self, node_id: NodeIndex) -> (r: Result<
        &NodeMap<Digest>,
        ConstraintError,
    >)
        requires
            self.wf(),
            node_id.0 < self.candidates().len(),
        ensures
            r is Ok <==> parents_or_error(self.candidates(), node_id) is Ok,
            r matches Err(e) ==> parents_or_error(self.candidates(), node_id) == Err::<
                (),
                ConstraintError,
            >(e),
            r matches Ok(p) ==> p@ == self.candidates(),
    {
        let threshold = self.candidates.size().threshold();
        if self.n_candidates.0 < threshold.0 {
            return Err(ConstraintError::NotEnoughParents);
        }
        if self.candidates.get(node_id).is_none() {
            return Err(ConstraintError::MissingOwnParent);
        }
        Ok(&self.candidates)
    }
}

/// A map of `n` empty slots has none occupied.
proof fn lemma_count_some_none(n: nat)
    ensures
        count_some(Seq::new(n, |i: int| None::<Digest>)) == 0,
    decreases n,
{
    if n > 0 {
        assert(Seq::new(n, |i: int| None::<Digest>).drop_last() =~= Seq::new(
            (n - 1) as nat,
            |i: int| None::<Digest>,
        ));
        lemma_count_some_none((n - 1) as nat);
    }
}

/// The candidates after a unit of `creator` with hash `hash` arrives: the first one seen
/// stays.
pub open spec fn first_seen(c: Seq<Option<Digest>>, creator: NodeIndex, hash: Digest) -> Seq<
    Option<Digest>,
> {
    if c[creator.0 as int] is None {
        c.update(creator.0 as int, Some(hash))
    } else {
        c
    }
}

/// Whether the candidates `c` let `node_id` create a unit on them: a quorum of them, its
/// own among them.
pub open spec fn parents_or_error(c: Seq<Option<Digest>>, node_id: NodeIndex) -> Result<
    (),
    ConstraintError,
> {
    if count_some(c) < quorum(c.len()) {
        Err(ConstraintError::NotEnoughParents)
    } else if c[node_id.0 as int] is None {
        Err(ConstraintError::MissingOwnParent)
    } else {
        Ok(())
    }
}

/// The pre-unit of `node_id` at `round` on the parents `parents`, and the parent hashes in
/// index order.
fn create_unit(node_id: NodeIndex, parents: &NodeMap<Digest>, round: Round) -> (r: (
    PreUnit,
    Vec<Digest>,
))
    ensures
        r.0@ == (PreUnitView { creator: node_id, round, control_hash: control_hash_of(parents@) }),
        r.1@ == some_values(parents@),
{
    let control_hash = ControlHash::new(parents);
    let parent_hashes = parents.values();
    let new_preunit = PreUnit::new(node_id, round, control_hash);
    (new_preunit, parent_hashes)
}

/// Decides when, and on which parents, this node creates its next unit.
pub struct Creator {
    round_collectors: Vec<UnitsCollector>,
    node_id: NodeIndex,
    n_members: NodeCount,
}

impl Creator {
    pub closed spec fn node_id(&self) -> NodeIndex {
        self.node_id
    }

    pub closed spec fn n_members(&self) -> nat {
        self.n_members.0 as nat
    }

    /// The number of rounds with a collector.
    pub closed spec fn n_rounds(&self) -> nat {
        self.round_collectors@.len()
    }

    /// The candidate parents collected at round `r`; all slots empty for a round not seen
    /// yet.
    pub closed spec fn collected(&self, r: int) -> Seq<Option<Digest>> {
        if 0 <= r < self.round_collectors@.len() {
            self.round_collectors@[r].candidates()
        } else {
            Seq::new(self.n_members.0 as nat, |i: int| None::<Digest>)
        }
    }

    pub closed spec fn wf(&self) -> bool {
        &&& 1 <= self.round_collectors@.len() <= Round::MAX as nat + 1
        &&& self.node_id.0 < self.n_members.0
        &&& forall|r: int|
            0 <= r < self.round_collectors@.len() ==> {
                &&& (#[trigger] self.round_collectors@[r]).wf()
                &&& self.round_collectors@[r].candidates().len() == self.n_members.0
            }
    }

    pub fn new(node_id: NodeIndex, n_members: NodeCount) -> (r: Self)
        requires
            node_id.0 < n_members.0,
        ensures
            r.wf(),
            r.node_id() == node_id,
            r.n_members() == n_members.0,
            r.n_rounds() == 1,
            forall|k: int| #[trigger]
                r.collected(k) == Seq::new(n_members.0 as nat, |i: int| None::<Digest>),
    {
        let mut round_collectors: Vec<UnitsCollector> = Vec::new();
        round_collectors.push(UnitsCollector::new(n_members));
        Creator { node_id, n_members, round_collectors }
    }

    /// The highest round with a collector.
    pub fn current_round(&self) -> (r: Round)
        requires
            self.wf(),
        ensures
            r == self.n_rounds() - 1,
    {
        (self.round_collectors.len() - 1) as Round
    }

    /// Makes sure a collector exists for `round` and every round below it.
    fn get_or_initialize_collector_for_round(&mut self, round: Round)
        requires
            old(self).wf(),
        ensures
            final(self).wf(),
            final(self).node_id() == old(self).node_id(),
            final(self).n_members() == old(self).n_members(),
            final(self).n_rounds() == if round as nat >= old(self).n_rounds() {
                round as nat + 1
            } else {
                old(self).n_rounds()
            },
            forall|k: int| #[trigger] final(self).collected(k) == old(self).collected(k),
    {
        let ghost before = *self;
        while self.round_collectors.len() <= round as usize
            invariant
                self.wf(),
                self.node_id == before.node_id,
                self.n_members == before.n_members,
                before.n_rounds() <= self.n_rounds() <= if round as nat >= before.n_rounds() {
                    round as nat + 1
                } else {
                    before.n_rounds()
                },
                forall|k: int| #[trigger] self.collected(k) == before.collected(k),
            decreases round as usize + 1 - self.round_collectors.len(),
        {
            let c = UnitsCollector::new(self.n_members);
            let ghost prev = *self;
            self.round_collectors.push(c);
            assert forall|k: int| #[trigger] self.collected(k) == before.collected(k) by {
                assert(self.collected(k) == prev.collected(k));
            }
        }
    }

    /// The pre-unit for `round` and its parent hashes, in index order. Round 0 has no
    /// parents. A later round needs a quorum of units of the round below, this node's own
    /// among them.
    pub fn create_unit(&self, round: Round) -> (r: Result<(PreUnit, Vec<Digest>), ConstraintError>)
        requires
            self.wf(),
        ensures
            round == 0 ==> r is Ok,
            round > 0 ==> (r is Ok <==> parents_or_error(
                self.collected(round - 1),
                self.node_id(),
            ) is Ok),
            round > 0 ==> (r matches Err(e) ==> parents_or_error(
                self.collected(round - 1),
                self.node_id(),
            ) == Err::<(), ConstraintError>(e)),
            r matches Ok((pu, parents)) ==> {
                let c = if round == 0 {
                    Seq::new(self.n_members(), |i: int| None::<Digest>)
                } else {
                    self.collected(round - 1)
                };
                &&& pu@ == (PreUnitView {
                    creator: self.node_id(),
                    round,
                    control_hash: control_hash_of(c),
                })
                &&& parents@ == some_values(c)
            },
    {
        if round == 0 {
            let parents = NodeMap::with_size(self.n_members);
            assert(parents@ =~= Seq::new(self.n_members(), |i: int| None::<Digest>));
            return Ok(create_unit(self.node_id, &parents, round));
        }
        let prev_round = (round - 1) as usize;
        if prev_round >= self.round_collectors.len() {
            proof {
                lemma_count_some_none(self.n_members());
            }
            return Err(ConstraintError::NotEnoughParents);
        }
        let parents = self.round_collectors[prev_round].prospective_parents(self.node_id)?;
        Ok(create_unit(self.node_id, parents, round))
    }

    /// Takes a unit into account as a candidate parent for the round above it.
    pub fn add_unit(&mut self, unit: &Unit)
        requires
            old(self).wf(),
            unit.creator.0 < old(self).n_members(),
        ensures
            final(self).wf(),
            final(self).node_id() == old(self).node_id(),
            final(self).n_members() == old(self).n_members(),
            final(self).n_rounds() == if unit.round as nat >= old(self).n_rounds() {
                unit.round as nat + 1
            } else {
                old(self).n_rounds()
            },
            final(self).collected(unit.round as int) == first_seen(
                old(self).collected(unit.round as int),
                unit.creator,
                unit.hash,
            ),
            forall|k: int|
                k != unit.round ==> #[trigger] final(self).collected(k) == old(self).collected(k),
    {
        let round = unit.round();
        self.get_or_initialize_collector_for_round(round);
        let ghost mid = *self;
        let r = round as usize;
        assert(mid.collected(round as int) == mid.round_collectors@[r as int].candidates());
        self.round_collectors[r].add_unit(unit);
        assert(self.round_collectors@[r as int].candidates() == first_seen(
            mid.collected(round as int),
            unit.creator,
            unit.hash,
        ));
        assert forall|k: int| k != unit.round implies #[trigger] self.collected(k) == mid.collected(
            k,
        ) by {
            if 0 <= k < self.round_collectors@.len() {
                assert(self.round_collectors@[k] == mid.round_collectors@[k]);
            }
        }
    }
}

} // verus!

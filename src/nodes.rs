use vstd::prelude::*;

verus! {

/// Index of a committee member, in `[0, N)`.
#[derive(Clone, Copy, Debug, PartialEq, Eq, Structural, Hash, PartialOrd, Ord)]
pub struct NodeIndex(pub usize);

/// Number of committee members, or a count of them.
#[derive(Clone, Copy, Debug, PartialEq, Eq, Structural, Hash, PartialOrd, Ord)]
pub struct NodeCount(pub usize);

/// A round of the DAG.
pub type Round = u16;

/// Scope of a protocol epoch, carried by every unit.
pub type SessionId = u64;

/// A fixed-size digest.
pub type Digest = u64;

/// The quorum size for `n` members: `floor(2n/3) + 1`.
pub open spec fn quorum(n: nat) -> nat {
    2 * n / 3 + 1
}

impl NodeCount {
    /// The quorum threshold of a committee of this size.
    pub fn threshold(&self) -> (r: NodeCount)
        ensures
            r.0 == quorum(self.0 as nat),
    {
        let n = self.0;
        let t = (n / 3) * 2 + ((n % 3) * 2) / 3;
        assert(t == 2 * n / 3) by (nonlinear_arith)
            requires
                t == (n / 3) * 2 + ((n % 3) * 2) / 3,
        ;
        NodeCount(t + 1)
    }
}

} // verus!

verus! {

/// The number of occupied slots.
pub open spec fn count_some<V>(s: Seq<Option<V>>) -> nat
    decreases s.len(),
{
    if s.len() == 0 {
        0
    } else {
        count_some(s.drop_last()) + if s.last() is Some {
            1nat
        } else {
            0nat
        }
    }
}

/// The values of the occupied slots, in index order.
pub open spec fn some_values<V>(s: Seq<Option<V>>) -> Seq<V>
    decreases s.len(),
{
    if s.len() == 0 {
        Seq::empty()
    } else {
        some_values(s.drop_last()) + match s.last() {
            Some(v) => seq![v],
            None => Seq::empty(),
        }
    }
}

/// Which slots are occupied.
pub open spec fn presence<V>(s: Seq<Option<V>>) -> Seq<bool> {
    Seq::new(s.len(), |i: int| s[i] is Some)
}

/// A map from the node indices `[0, size)` to values, any slot possibly empty.
#[derive(Debug, PartialEq, Eq)]
pub struct NodeMap<V> {
    pub slots: Vec<Option<V>>,
}

impl<V> View for NodeMap<V> {
    type V = Seq<Option<V>>;

    open spec fn view(&self) -> Seq<Option<V>> {
        self.slots@
    }
}

impl<V: Copy> Clone for NodeMap<V> {
    fn clone(&self) -> (r: Self)
        ensures
            r@ == self@,
    {
        let mut slots: Vec<Option<V>> = Vec::new();
        let mut i: usize = 0;
        while i < self.slots.len()
            invariant
                i <= self.slots.len(),
                slots@ == self.slots@.subrange(0, i as int),
            decreases self.slots.len() - i,
        {
            slots.push(self.slots[i]);
            i += 1;
            assert(slots@ =~= self.slots@.subrange(0, i as int));
        }
        assert(slots@ =~= self.slots@);
        NodeMap { slots }
    }
}

impl<V: Copy> NodeMap<V> {
    /// A map with `n` empty slots.
    pub fn with_size(n: NodeCount) -> (r: Self)
        ensures
            r@ == Seq::new(n.0 as nat, |i: int| None::<V>),
    {
        let mut slots: Vec<Option<V>> = Vec::new();
        let mut i: usize = 0;
        while i < n.0
            invariant
                i <= n.0,
                slots@ == Seq::new(i as nat, |j: int| None::<V>),
            decreases n.0 - i,
        {
            slots.push(None);
            i += 1;
            assert(slots@ =~= Seq::new(i as nat, |j: int| None::<V>));
        }
        NodeMap { slots }
    }

    /// The number of slots.
    pub fn size(&self) -> (r: NodeCount)
        ensures
            r.0 == self@.len(),
    {
        NodeCount(self.slots.len())
    }

    /// The value in slot `i`, if any.
    pub fn get(&self, i: NodeIndex) -> (r: Option<V>)
        requires
            i.0 < self@.len(),
        ensures
            r == self@[i.0 as int],
    {
        self.slots[i.0]
    }

    /// Puts `v` into slot `i`.
    pub fn insert(&mut self, i: NodeIndex, v: V)
        requires
            i.0 < old(self)@.len(),
        ensures
            final(self)@ == old(self)@.update(i.0 as int, Some(v)),
    {
        self.slots.set(i.0, Some(v));
    }

    /// The number of occupied slots.
    pub fn item_count(&self) -> (r: usize)
        ensures
            r == count_some(self@),
    {
        let mut n: usize = 0;
        let mut i: usize = 0;
        while i < self.slots.len()
            invariant
                i <= self.slots.len(),
                n == count_some(self@.subrange(0, i as int)),
                n <= i,
            decreases self.slots.len() - i,
        {
            assert(self@.subrange(0, i as int + 1).drop_last() =~= self@.subrange(0, i as int));
            if self.slots[i].is_some() {
                n += 1;
            }
            i += 1;
        }
        assert(self@.subrange(0, i as int) =~= self@);
        n
    }

    /// The values of the occupied slots, in index order.
    pub fn values(&self) -> (r: Vec<V>)
        ensures
            r@ == some_values(self@),
    {
        let mut out: Vec<V> = Vec::new();
        let mut i: usize = 0;
        while i < self.slots.len()
            invariant
                i <= self.slots.len(),
                out@ == some_values(self@.subrange(0, i as int)),
            decreases self.slots.len() - i,
        {
            assert(self@.subrange(0, i as int + 1).drop_last() =~= self@.subrange(0, i as int));
            match self.slots[i] {
                Some(v) => {
                    out.push(v);
                },
                None => {},
            }
            i += 1;
            assert(out@ =~= some_values(self@.subrange(0, i as int)));
        }
        assert(self@.subrange(0, i as int) =~= self@);
        out
    }

    /// The values of the occupied slots, in index order, consuming the map.
    pub fn into_values(self) -> (r: Vec<V>)
        ensures
            r@ == some_values(self@),
    {
        self.values()
    }
}

} // verus!

verus! {

/// Filling an empty slot adds one to the count of occupied slots.
pub proof fn lemma_count_some_fill<V>(s: Seq<Option<V>>, i: int, v: V)
    requires
        0 <= i < s.len(),
        s[i] is None,
    ensures
        count_some(s.update(i, Some(v))) == count_some(s) + 1,
    decreases s.len(),
{
    let t = s.update(i, Some(v));
    if i == s.len() - 1 {
        assert(t.drop_last() =~= s.drop_last());
    } else {
        assert(t.drop_last() =~= s.drop_last().update(i, Some(v)));
        lemma_count_some_fill(s.drop_last(), i, v);
    }
}

/// No more slots are occupied than there are slots.
pub proof fn lemma_count_some_le<V>(s: Seq<Option<V>>)
    ensures
        count_some(s) <= s.len(),
    decreases s.len(),
{
    if s.len() > 0 {
        lemma_count_some_le(s.drop_last());
    }
}

} // verus!

verus! {

/// One key for a pair of indices.
pub open spec fn pair_key(a: usize, b: usize) -> u128 {
    (a as u128 * 0x1_0000_0000_0000_0000 + b as u128) as u128
}

/// Distinct pairs have distinct keys.
pub proof fn lemma_pair_key_injective(a: usize, b: usize, c: usize, d: usize)
    ensures
        pair_key(a, b) == pair_key(c, d) ==> a == c && b == d,
{
    let x = a as int;
    let y = b as int;
    let z = c as int;
    let w = d as int;
    let m = 0x1_0000_0000_0000_0000int;
    assert(0 <= y < m && 0 <= w < m && 0 <= x < m && 0 <= z < m);
    assert(x * m + y < 0x1_0000_0000_0000_0000_0000_0000_0000_0000) by (nonlinear_arith)
        requires
            0 <= y < m,
            0 <= x < m,
            m == 0x1_0000_0000_0000_0000int,
    ;
    assert(z * m + w < 0x1_0000_0000_0000_0000_0000_0000_0000_0000) by (nonlinear_arith)
        requires
            0 <= w < m,
            0 <= z < m,
            m == 0x1_0000_0000_0000_0000int,
    ;
    assert(x * m + y == z * m + w ==> x == z && y == w) by (nonlinear_arith)
        requires
            0 <= y < m,
            0 <= w < m,
            0 <= x,
            0 <= z,
    ;
}

/// The key of a pair of indices.
pub fn pair_key_of(a: usize, b: usize) -> (r: u128)
    ensures
        r == pair_key(a, b),
{
    assert(a as u128 * 0x1_0000_0000_0000_0000 + b as u128 <= u128::MAX) by (nonlinear_arith)
        requires
            a < 0x1_0000_0000_0000_0000int,
            b < 0x1_0000_0000_0000_0000int,
    ;
    a as u128 * 0x1_0000_0000_0000_0000 + b as u128
}

} // verus!

use consensus::keychain::{Keychain, PlainKeychain};
use consensus::nodes::{NodeCount, NodeIndex, NodeMap};
use consensus::store::UnitStore;
use consensus::units::{ControlHash, FullUnit, PreUnit, SignedUnit, UncheckedSignedUnit, UnitCoord};
use consensus::validator::{ValidationError, Validator};

fn unit(n: usize, creator: usize, round: u16, data: u64, session: u64) -> FullUnit {
    FullUnit::new(
        PreUnit::new(NodeIndex(creator), round, ControlHash::new(&NodeMap::with_size(NodeCount(n)))),
        Some(data),
        session,
    )
}

fn signed(n: usize, creator: usize, round: u16, data: u64) -> SignedUnit {
    let kc = PlainKeychain::new(NodeCount(n), NodeIndex(creator));
    SignedUnit::sign(unit(n, creator, round, data, 0), &kc)
}

#[test]
fn quorum_of_four_is_three() {
    assert_eq!(NodeCount(4).threshold(), NodeCount(3));
    assert_eq!(NodeCount(7).threshold(), NodeCount(5));
    assert_eq!(NodeCount(1).threshold(), NodeCount(1));
    assert_eq!(NodeCount(0).threshold(), NodeCount(1));
}

#[test]
fn control_hash_is_deterministic() {
    let mut parents = NodeMap::with_size(NodeCount(4));
    parents.insert(NodeIndex(0), 11u64);
    parents.insert(NodeIndex(2), 13u64);
    let a = ControlHash::new(&parents);
    let b = ControlHash::new(&parents.clone());
    assert_eq!(a, b);
    assert_eq!(ControlHash::combine_hashes(&parents), a.combined_hash);
    assert_eq!(a.parents_mask, vec![true, false, true, false]);
    assert_eq!(a.parents(), vec![NodeIndex(0), NodeIndex(2)]);
    assert_eq!(a.n_members(), NodeCount(4));
    let mut other = NodeMap::with_size(NodeCount(4));
    other.insert(NodeIndex(0), 11u64);
    other.insert(NodeIndex(2), 14u64);
    assert_ne!(ControlHash::combine_hashes(&other), a.combined_hash);
}

#[test]
fn node_map_counts_and_values() {
    let mut m = NodeMap::with_size(NodeCount(5));
    assert_eq!(m.item_count(), 0);
    m.insert(NodeIndex(3), 7u64);
    m.insert(NodeIndex(1), 9u64);
    assert_eq!(m.item_count(), 2);
    assert_eq!(m.get(NodeIndex(1)), Some(9));
    assert_eq!(m.get(NodeIndex(0)), None);
    assert_eq!(m.values(), vec![9, 7]);
    assert_eq!(m.size(), NodeCount(5));
}

#[test]
fn unit_hash_depends_on_contents() {
    let a = unit(4, 1, 2, 0, 0);
    let b = unit(4, 1, 2, 1, 0);
    assert_eq!(a.hash(), unit(4, 1, 2, 0, 0).hash());
    assert_ne!(a.hash(), b.hash());
    assert!(a.same_as(&unit(4, 1, 2, 0, 0)));
    assert!(!a.same_as(&b));
}

#[test]
fn signing_then_checking_gives_the_same_unit() {
    let kc = PlainKeychain::new(NodeCount(4), NodeIndex(2));
    let fu = unit(4, 2, 5, 3, 9);
    let su = SignedUnit::sign(fu.clone(), &kc);
    let checked = su.into_unchecked().check(&PlainKeychain::new(NodeCount(4), NodeIndex(0)));
    let checked = checked.expect("the signature is correct");
    assert_eq!(checked.as_signable(), &fu);
}

#[test]
fn tampered_unit_fails_the_check() {
    let kc = PlainKeychain::new(NodeCount(4), NodeIndex(2));
    let mut uu = SignedUnit::sign(unit(4, 2, 5, 3, 9), &kc).into_unchecked();
    uu.unit.data = Some(4);
    assert!(uu.clone().check(&kc).is_err());
    let mut uu2 = SignedUnit::sign(unit(4, 2, 5, 3, 9), &kc).into_unchecked();
    uu2.signature = PlainKeychain::new(NodeCount(4), NodeIndex(1)).sign(uu2.unit.hash());
    assert!(uu2.check(&kc).is_err());
}

#[test]
fn validator_reports_each_rule() {
    let kc = PlainKeychain::new(NodeCount(4), NodeIndex(0));
    let validator = Validator::new(0, kc, 10);
    let ok = SignedUnit::sign(unit(4, 1, 3, 0, 0), &PlainKeychain::new(NodeCount(4), NodeIndex(1)));
    let ok = ok.into_unchecked();
    assert!(validator.validate_unit(ok.clone()).is_ok());
    let mut bad_sig: UncheckedSignedUnit = ok.clone();
    bad_sig.signature = PlainKeychain::new(NodeCount(4), NodeIndex(2)).sign(bad_sig.unit.hash());
    assert_eq!(validator.validate_unit(bad_sig).err(), Some(ValidationError::WrongSignature));
    let other_session = SignedUnit::sign(unit(4, 1, 3, 0, 5), &PlainKeychain::new(NodeCount(4), NodeIndex(1)));
    assert_eq!(
        validator.validate_unit(other_session.into_unchecked()).err(),
        Some(ValidationError::WrongSession(5))
    );
    let too_high = SignedUnit::sign(unit(4, 1, 11, 0, 0), &PlainKeychain::new(NodeCount(4), NodeIndex(1)));
    assert_eq!(
        validator.validate_unit(too_high.into_unchecked()).err(),
        Some(ValidationError::RoundTooHigh(11))
    );
    let outsider = SignedUnit::sign(unit(4, 4, 1, 0, 0), &PlainKeychain::new(NodeCount(4), NodeIndex(4)));
    assert_eq!(
        validator.validate_unit(outsider.into_unchecked()).err(),
        Some(ValidationError::WrongCreator(NodeIndex(4)))
    );
}

#[test]
fn store_adds_parents_once() {
    let mut store = UnitStore::new(NodeCount(4), 10);
    store.add_parents(5, vec![1, 2]);
    store.add_parents(5, vec![1, 2]);
    assert_eq!(store.get_parents(5), Some(&vec![1, 2]));
    store.add_parents(5, vec![3]);
    assert_eq!(store.get_parents(5), Some(&vec![1, 2]));
    assert_eq!(store.get_parents(6), None);
}

#[test]
fn store_yields_each_unit_once() {
    let mut store = UnitStore::new(NodeCount(4), 10);
    let a = signed(4, 0, 0, 0);
    let b = signed(4, 1, 0, 0);
    let ha = a.as_signable().hash();
    let hb = b.as_signable().hash();
    store.add_unit(a.clone(), false);
    store.add_unit(b, false);
    store.add_unit(a, false);
    let first: Vec<u64> = store.yield_buffer_units().iter().map(|u| u.as_signable().hash()).collect();
    assert_eq!(first, vec![ha, hb]);
    assert!(store.yield_buffer_units().is_empty());
    store.add_unit(signed(4, 0, 0, 0), false);
    assert!(store.yield_buffer_units().is_empty());
    let c = signed(4, 2, 1, 0);
    let hc = c.as_signable().hash();
    store.add_unit(c, false);
    let second: Vec<u64> = store.yield_buffer_units().iter().map(|u| u.as_signable().hash()).collect();
    assert_eq!(second, vec![hc]);
}

#[test]
fn store_detects_forks_and_marks_forkers() {
    let mut store = UnitStore::new(NodeCount(4), 10);
    let a = signed(4, 3, 0, 0);
    let a2 = signed(4, 3, 0, 1);
    let b = signed(4, 3, 2, 0);
    store.add_unit(a.clone(), false);
    store.add_unit(b.clone(), false);
    assert!(store.is_new_fork(a.as_signable()).is_none());
    let sibling = store.is_new_fork(a2.as_signable()).expect("a different unit at the same coordinate");
    assert_eq!(sibling, a);
    assert!(!store.is_forker(NodeIndex(3)));
    let units = store.mark_forker(NodeIndex(3));
    assert!(store.is_forker(NodeIndex(3)));
    assert_eq!(units, vec![a.clone(), b.clone()]);
    store.add_unit(a2.clone(), true);
    assert!(store.unit_by_hash(&a2.as_signable().hash()).is_some());
    assert_eq!(store.unit_by_coord(UnitCoord::new(0, NodeIndex(3))), Some(&a));
    assert!(store.contains_coord(UnitCoord::new(2, NodeIndex(3))));
    assert!(!store.contains_coord(UnitCoord::new(1, NodeIndex(3))));
}

#[test]
fn store_finds_newest_unit() {
    let mut store = UnitStore::new(NodeCount(4), 10);
    assert_eq!(store.newest_unit(NodeIndex(1)), None);
    store.add_unit(signed(4, 1, 0, 0), false);
    let top = signed(4, 1, 4, 0);
    store.add_unit(top.clone(), false);
    store.add_unit(signed(4, 1, 2, 0), false);
    store.add_unit(signed(4, 2, 7, 0), false);
    assert_eq!(store.newest_unit(NodeIndex(1)), Some(top.into_unchecked()));
}

#[test]
fn store_status_counts_units_per_round() {
    let mut store = UnitStore::new(NodeCount(4), 3);
    store.add_unit(signed(4, 0, 0, 0), false);
    store.add_unit(signed(4, 1, 0, 0), false);
    store.add_unit(signed(4, 1, 2, 0), false);
    let status = store.get_status();
    assert_eq!(status.size, 3);
    assert_eq!(status.units_per_round, vec![2, 0, 1, 0]);
}

use consensus::creator::{ConstraintError, Creator, UnitsCollector};
use consensus::nodes::{Digest, NodeCount, NodeIndex};
use consensus::units::{FullUnit, PreUnit, Unit};
use std::collections::HashSet;

fn creator_set(n_members: NodeCount) -> Vec<Creator> {
    (0..n_members.0)
        .map(|i| Creator::new(NodeIndex(i), n_members))
        .collect()
}

fn create_units<'a, I: Iterator<Item = &'a Creator>>(
    creators: I,
    round: u16,
) -> Vec<(PreUnit, Vec<Digest>)> {
    creators
        .map(|c| c.create_unit(round).expect("Creation should succeed."))
        .collect()
}

fn preunit_to_unit(preunit: PreUnit, session_id: u64) -> Unit {
    FullUnit::new(preunit, Some(0), session_id).unit()
}

fn add_units(creator: &mut Creator, units: &[Unit]) {
    for u in units {
        creator.add_unit(u);
    }
}

#[test]
fn creates_initial_unit() {
    let n_members = NodeCount(7);
    let round = 0;
    let creator = Creator::new(NodeIndex(0), n_members);
    assert_eq!(creator.current_round(), round);
    let (preunit, parent_hashes) = creator
        .create_unit(round)
        .expect("Creation should succeed.");
    assert_eq!(preunit.round(), round);
    assert_eq!(parent_hashes.len(), 0);
}

#[test]
fn creates_unit_with_all_parents() {
    let n_members = NodeCount(7);
    let mut creators = creator_set(n_members);
    let new_units = create_units(creators.iter(), 0);
    let new_units: Vec<_> = new_units
        .into_iter()
        .map(|(pu, _)| preunit_to_unit(pu, 0))
        .collect();
    let expected_hashes: Vec<_> = new_units.iter().map(|u| u.hash()).collect();
    let creator = &mut creators[0];
    add_units(creator, &new_units);
    let round = 1;
    assert_eq!(creator.current_round(), 0);
    let (preunit, parent_hashes) = creator
        .create_unit(round)
        .expect("Creation should succeed.");
    assert_eq!(preunit.round(), round);
    assert_eq!(parent_hashes, expected_hashes);
}

fn create_unit_with_minimal_parents(n_members: NodeCount) {
    let n_parents = (n_members.0 * 2) / 3 + 1;
    let mut creators = creator_set(n_members);
    let new_units = create_units(creators.iter().take(n_parents), 0);
    let new_units: Vec<_> = new_units
        .into_iter()
        .map(|(pu, _)| preunit_to_unit(pu, 0))
        .collect();
    let expected_hashes: Vec<_> = new_units.iter().map(|u| u.hash()).collect();
    let creator = &mut creators[0];
    add_units(creator, &new_units);
    let round = 1;
    assert_eq!(creator.current_round(), 0);
    let (preunit, parent_hashes) = creator
        .create_unit(round)
        .expect("Creation should succeed.");
    assert_eq!(preunit.round(), round);
    assert_eq!(parent_hashes, expected_hashes);
}

#[test]
fn creates_unit_with_minimal_parents_4() {
    create_unit_with_minimal_parents(NodeCount(4));
}

#[test]
fn creates_unit_with_minimal_parents_5() {
    create_unit_with_minimal_parents(NodeCount(5));
}

#[test]
fn creates_unit_with_minimal_parents_6() {
    create_unit_with_minimal_parents(NodeCount(6));
}

#[test]
fn creates_unit_with_minimal_parents_7() {
    create_unit_with_minimal_parents(NodeCount(7));
}

fn dont_create_unit_below_parents_threshold(n_members: NodeCount) {
    let n_parents = (n_members.0 * 2) / 3;
    let mut creators = creator_set(n_members);
    let new_units = create_units(creators.iter().take(n_parents), 0);
    let new_units: Vec<_> = new_units
        .into_iter()
        .map(|(pu, _)| preunit_to_unit(pu, 0))
        .collect();
    let creator = &mut creators[0];
    add_units(creator, &new_units);
    let round = 1;
    assert_eq!(creator.current_round(), 0);
    assert!(creator.create_unit(round).is_err())
}

#[test]
fn cannot_create_unit_below_parents_threshold_4() {
    dont_create_unit_below_parents_threshold(NodeCount(4));
}

#[test]
fn cannot_create_unit_below_parents_threshold_5() {
    dont_create_unit_below_parents_threshold(NodeCount(5));
}

#[test]
fn cannot_create_unit_below_parents_threshold_6() {
    dont_create_unit_below_parents_threshold(NodeCount(6));
}

#[test]
fn cannot_create_unit_below_parents_threshold_7() {
    dont_create_unit_below_parents_threshold(NodeCount(7));
}

#[test]
fn creates_two_units_when_possible() {
    let n_members = NodeCount(7);
    let mut creators = creator_set(n_members);
    let mut expected_hashes_per_round = Vec::new();
    for round in 0..2 {
        let new_units = create_units(creators.iter().skip(1), round);
        let new_units: Vec<_> = new_units
            .into_iter()
            .map(|(pu, _)| preunit_to_unit(pu, 0))
            .collect();
        let expected_hashes: HashSet<_> = new_units.iter().map(|u| u.hash()).collect();
        for creator in creators.iter_mut() {
            add_units(creator, &new_units);
        }
        expected_hashes_per_round.push(expected_hashes);
    }
    let creator = &mut creators[0];
    assert_eq!(creator.current_round(), 1);
    for round in 0..3 {
        let (preunit, parent_hashes) = creator
            .create_unit(round)
            .expect("Creation should succeed.");
        assert_eq!(preunit.round(), round);
        let parent_hashes: HashSet<_> = parent_hashes.into_iter().collect();
        if round != 0 {
            assert_eq!(
                parent_hashes,
                expected_hashes_per_round[(round - 1) as usize]
            );
        }
        let unit = preunit_to_unit(preunit, 0);
        creator.add_unit(&unit);
        if round < 2 {
            expected_hashes_per_round[round as usize].insert(unit.hash());
        }
    }
}

#[test]
fn cannot_create_unit_without_predecessor() {
    let n_members = NodeCount(7);
    let mut creators = creator_set(n_members);
    let new_units = create_units(creators.iter().skip(1), 0);
    let new_units: Vec<_> = new_units
        .into_iter()
        .map(|(pu, _)| preunit_to_unit(pu, 0))
        .collect();
    let creator = &mut creators[0];
    add_units(creator, &new_units);
    let round = 1;
    assert!(creator.create_unit(round).is_err());
}

#[test]
fn units_collector_successfully_computes_parents() {
    let n_members = NodeCount(4);
    let creators = creator_set(n_members);
    let new_units = create_units(creators.iter(), 0);
    let new_units: Vec<_> = new_units
        .into_iter()
        .map(|(pu, _)| preunit_to_unit(pu, 0))
        .collect();

    let mut units_collector = UnitsCollector::new(n_members);
    new_units
        .iter()
        .for_each(|unit| units_collector.add_unit(unit));

    let parents = units_collector
        .prospective_parents(NodeIndex(0))
        .expect("we should be able to retrieve parents");
    assert_eq!(parents.item_count(), 4);

    let new_units: HashSet<_> = new_units.iter().map(|unit| unit.hash()).collect();
    let selected_parents = parents.values().into_iter().collect();
    assert_eq!(new_units, selected_parents);
}

#[test]
fn units_collector_returns_err_when_not_enough_parents() {
    let n_members = NodeCount(4);
    let creators = creator_set(n_members);
    let new_units = create_units(creators.iter().take(2), 0);
    let new_units: Vec<_> = new_units
        .into_iter()
        .map(|(pu, _)| preunit_to_unit(pu, 0))
        .collect();

    let mut units_collector = UnitsCollector::new(n_members);
    new_units
        .iter()
        .for_each(|unit| units_collector.add_unit(unit));

    let parents = units_collector.prospective_parents(NodeIndex(0));
    assert_eq!(
        parents.expect_err("should be an error"),
        ConstraintError::NotEnoughParents
    );
}

#[test]
fn units_collector_returns_err_when_missing_own_parent() {
    let n_members = NodeCount(4);
    let creators = creator_set(n_members);
    let new_units = create_units(creators.iter().take(3), 0);
    let new_units: Vec<_> = new_units
        .into_iter()
        .map(|(pu, _)| preunit_to_unit(pu, 0))
        .collect();

    let mut units_collector = UnitsCollector::new(n_members);
    new_units
        .iter()
        .for_each(|unit| units_collector.add_unit(unit));

    let parents = units_collector.prospective_parents(NodeIndex(3));
    assert_eq!(
        parents.expect_err("should be an error"),
        ConstraintError::MissingOwnParent
    );
}

#[test]
fn threshold_edge_with_seven_members() {
    let n_members = NodeCount(7);
    let creators = creator_set(n_members);
    let units: Vec<Unit> = create_units(creators.iter(), 0)
        .into_iter()
        .map(|(pu, _)| preunit_to_unit(pu, 0))
        .collect();
    let mut creator = Creator::new(NodeIndex(0), n_members);
    add_units(&mut creator, &units[..4]);
    assert_eq!(creator.create_unit(1).err(), Some(ConstraintError::NotEnoughParents));
    creator.add_unit(&units[4]);
    let (preunit, parents) = creator.create_unit(1).expect("Creation should succeed.");
    assert_eq!(preunit.round(), 1);
    assert_eq!(parents, units[..5].iter().map(|u| u.hash()).collect::<Vec<_>>());
}

#[test]
fn quorum_without_own_unit_is_missing_own_parent() {
    let n_members = NodeCount(4);
    let creators = creator_set(n_members);
    let units: Vec<Unit> = create_units(creators.iter().skip(1), 0)
        .into_iter()
        .map(|(pu, _)| preunit_to_unit(pu, 0))
        .collect();
    let mut creator = Creator::new(NodeIndex(0), n_members);
    add_units(&mut creator, &units[..2]);
    assert_eq!(creator.create_unit(1).err(), Some(ConstraintError::NotEnoughParents));
    add_units(&mut creator, &units[2..]);
    assert_eq!(creator.create_unit(1).err(), Some(ConstraintError::MissingOwnParent));
    assert_eq!(creator.create_unit(5).err(), Some(ConstraintError::NotEnoughParents));
}

#[test]
fn first_unit_seen_per_creator_wins() {
    let n_members = NodeCount(4);
    let creators = creator_set(n_members);
    let units: Vec<Unit> = create_units(creators.iter(), 0)
        .into_iter()
        .map(|(pu, _)| preunit_to_unit(pu, 0))
        .collect();
    let other = FullUnit::new(creators[1].create_unit(0).unwrap().0, Some(1), 0).unit();
    let mut creator = Creator::new(NodeIndex(0), n_members);
    add_units(&mut creator, &units);
    creator.add_unit(&other);
    let (_, parents) = creator.create_unit(1).expect("Creation should succeed.");
    assert_eq!(parents, units.iter().map(|u| u.hash()).collect::<Vec<_>>());
    assert_ne!(other.hash(), units[1].hash());
}

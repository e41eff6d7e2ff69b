use consensus::alerts::{
    Alert, AlertConfig, AlertMessage, AlerterResponse, Error, ForkProof, ForkingNotification,
    Handler, Multisigned, Recipient, RmcMessage, SignedHash, UncheckedSignedAlert,
};
use consensus::keychain::{Keychain, PlainKeychain};
use consensus::nodes::{NodeCount, NodeIndex, NodeMap};
use consensus::units::{ControlHash, FullUnit, PreUnit, SignedUnit, UncheckedSignedUnit};

fn full_unit(n_members: NodeCount, node_id: NodeIndex, round: u16, variant: Option<u64>) -> FullUnit {
    FullUnit::new(
        PreUnit::new(node_id, round, ControlHash::new(&NodeMap::with_size(n_members))),
        variant,
        0,
    )
}

fn sign_unit(unit: FullUnit, keychain: &PlainKeychain) -> UncheckedSignedUnit {
    SignedUnit::sign(unit, keychain).into_unchecked()
}

/// Fabricates proof of a fork by a particular node, given its private key.
fn make_fork_proof(node_id: NodeIndex, keychain: &PlainKeychain, round: u16, n_members: NodeCount) -> ForkProof {
    let unit_0 = full_unit(n_members, node_id, round, Some(0));
    let unit_1 = full_unit(n_members, node_id, round, Some(1));
    (sign_unit(unit_0, keychain), sign_unit(unit_1, keychain))
}

fn keychains(n_members: NodeCount) -> Vec<PlainKeychain> {
    (0..n_members.0).map(|i| PlainKeychain::new(n_members, NodeIndex(i))).collect()
}

fn multisigned(hash: u64, keychains: &[PlainKeychain], signers: &[usize]) -> Multisigned {
    Multisigned {
        hash,
        signatures: signers.iter().map(|i| keychains[*i].sign(hash)).collect(),
    }
}

#[test]
fn distributes_alert_from_units() {
    let n_members = NodeCount(7);
    let own_index = NodeIndex(0);
    let forker_index = NodeIndex(6);
    let own_keychain = PlainKeychain::new(n_members, own_index);
    let forker_keychain = PlainKeychain::new(n_members, forker_index);
    let mut this = Handler::new(own_keychain, AlertConfig { n_members, session_id: 0 });
    let fork_proof = make_fork_proof(forker_index, &forker_keychain, 0, n_members);
    let alert = Alert::new(own_index, fork_proof, vec![]);
    let signed_alert = UncheckedSignedAlert::sign(alert.clone(), &own_keychain);
    let alert_hash = alert.hash();
    assert_eq!(
        this.on_own_alert(alert),
        (AlertMessage::ForkAlert(signed_alert), Recipient::Everyone, alert_hash),
    );
}

#[test]
fn reacts_to_correctly_incoming_alert() {
    let n_members = NodeCount(7);
    let own_index = NodeIndex(1);
    let forker_index = NodeIndex(6);
    let own_keychain = PlainKeychain::new(n_members, own_index);
    let forker_keychain = PlainKeychain::new(n_members, forker_index);
    let mut this = Handler::new(own_keychain, AlertConfig { n_members, session_id: 0 });
    let fork_proof = make_fork_proof(forker_index, &forker_keychain, 0, n_members);
    let alert = Alert::new(own_index, fork_proof.clone(), vec![]);
    let alert_hash = alert.hash();
    let signed_alert = UncheckedSignedAlert::sign(alert, &own_keychain);
    assert_eq!(
        this.on_network_alert(signed_alert),
        Ok((Some(ForkingNotification::Forker(fork_proof)), alert_hash)),
    );
}

#[test]
fn asks_about_unknown_alert() {
    let n_members = NodeCount(7);
    let own_index = NodeIndex(0);
    let alerter_index = NodeIndex(1);
    let forker_index = NodeIndex(6);
    let own_keychain = PlainKeychain::new(n_members, own_index);
    let alerter_keychain = PlainKeychain::new(n_members, alerter_index);
    let forker_keychain = PlainKeychain::new(n_members, forker_index);
    let mut this = Handler::new(own_keychain, AlertConfig { n_members, session_id: 0 });
    let fork_proof = make_fork_proof(forker_index, &forker_keychain, 0, n_members);
    let alert = Alert::new(alerter_index, fork_proof, vec![]);
    let alert_hash = alert.hash();
    let signed_alert_hash = SignedHash::sign(alert_hash, &alerter_keychain);
    let message = AlertMessage::RmcMessage(alerter_index, RmcMessage::SignedHash(signed_alert_hash));
    let response = this.on_message(message);
    assert_eq!(
        response,
        Ok(Some(AlerterResponse::AlertRequest(alert_hash, Recipient::Node(alerter_index)))),
    );
}

#[test]
fn ignores_wrong_alert() {
    let n_members = NodeCount(7);
    let own_index = NodeIndex(0);
    let forker_index = NodeIndex(6);
    let own_keychain = PlainKeychain::new(n_members, own_index);
    let forker_keychain = PlainKeychain::new(n_members, forker_index);
    let mut this = Handler::new(own_keychain, AlertConfig { n_members, session_id: 0 });
    let valid_unit = sign_unit(full_unit(n_members, forker_index, 0, Some(0)), &forker_keychain);
    let wrong_fork_proof = (valid_unit.clone(), valid_unit);
    let wrong_alert = Alert::new(own_index, wrong_fork_proof, vec![]);
    let signed_wrong_alert = UncheckedSignedAlert::sign(wrong_alert, &own_keychain);
    assert_eq!(
        this.on_message(AlertMessage::ForkAlert(signed_wrong_alert)),
        Err(Error::SingleUnit(own_index)),
    );
}

#[test]
fn responds_to_alert_queries() {
    let n_members = NodeCount(7);
    let own_index = NodeIndex(0);
    let forker_index = NodeIndex(6);
    let own_keychain = PlainKeychain::new(n_members, own_index);
    let forker_keychain = PlainKeychain::new(n_members, forker_index);
    let mut this = Handler::new(own_keychain, AlertConfig { n_members, session_id: 0 });
    let alert = Alert::new(
        own_index,
        make_fork_proof(forker_index, &forker_keychain, 0, n_members),
        vec![],
    );
    let alert_hash = alert.hash();
    let signed_alert = UncheckedSignedAlert::sign(alert, &own_keychain);
    this.on_message(AlertMessage::ForkAlert(signed_alert.clone())).unwrap();
    for i in 1..n_members.0 {
        let node_id = NodeIndex(i);
        assert_eq!(
            this.on_message(AlertMessage::AlertRequest(node_id, alert_hash)),
            Ok(Some(AlerterResponse::ForkAlert(signed_alert.clone(), Recipient::Node(node_id)))),
        );
    }
}

#[test]
fn notifies_only_about_multisigned_alert() {
    let n_members = NodeCount(7);
    let own_index = NodeIndex(0);
    let other_honest_node = NodeIndex(1);
    let double_committer = NodeIndex(5);
    let forker_index = NodeIndex(6);
    let keychains = keychains(n_members);
    let mut this = Handler::new(keychains[own_index.0], AlertConfig { n_members, session_id: 0 });
    let fork_proof = make_fork_proof(forker_index, &keychains[forker_index.0], 0, n_members);
    let empty_alert = Alert::new(double_committer, fork_proof.clone(), vec![]);
    let empty_alert_hash = empty_alert.hash();
    let signed_empty_alert = UncheckedSignedAlert::sign(empty_alert, &keychains[double_committer.0]);
    let multisigned_empty_alert_hash = multisigned(empty_alert_hash, &keychains, &[double_committer.0]);
    assert_eq!(
        this.on_message(AlertMessage::ForkAlert(signed_empty_alert)),
        Ok(Some(AlerterResponse::ForkResponse(
            Some(ForkingNotification::Forker(fork_proof.clone())),
            empty_alert_hash,
        ))),
    );
    let message = RmcMessage::MultisignedHash(multisigned_empty_alert_hash);
    assert_eq!(
        this.on_message(AlertMessage::RmcMessage(other_honest_node, message.clone())),
        Ok(Some(AlerterResponse::RmcMessage(message))),
    );
    let forker_unit = fork_proof.0.clone();
    let nonempty_alert = Alert::new(double_committer, fork_proof, vec![forker_unit]);
    let nonempty_alert_hash = nonempty_alert.hash();
    let signed_nonempty_alert =
        UncheckedSignedAlert::sign(nonempty_alert, &keychains[double_committer.0]);
    let signers: Vec<usize> = std::iter::once(double_committer.0)
        .chain(1..n_members.0 - 2)
        .collect();
    let message = RmcMessage::MultisignedHash(multisigned(nonempty_alert_hash, &keychains, &signers));
    assert_eq!(
        this.on_message(AlertMessage::ForkAlert(signed_nonempty_alert)),
        Err(Error::RepeatedAlert(double_committer, forker_index)),
    );
    assert_eq!(
        this.on_message(AlertMessage::RmcMessage(other_honest_node, message.clone())),
        Ok(Some(AlerterResponse::RmcMessage(message))),
    );
}

#[test]
fn ignores_insufficiently_multisigned_alert() {
    let n_members = NodeCount(7);
    let own_index = NodeIndex(0);
    let other_honest_node = NodeIndex(1);
    let double_committer = NodeIndex(5);
    let forker_index = NodeIndex(6);
    let keychains = keychains(n_members);
    let mut this = Handler::new(keychains[own_index.0], AlertConfig { n_members, session_id: 0 });
    let fork_proof = make_fork_proof(forker_index, &keychains[forker_index.0], 0, n_members);
    let empty_alert = Alert::new(double_committer, fork_proof.clone(), vec![]);
    let empty_alert_hash = empty_alert.hash();
    let signed_empty_alert = UncheckedSignedAlert::sign(empty_alert, &keychains[double_committer.0]);
    assert_eq!(
        this.on_message(AlertMessage::ForkAlert(signed_empty_alert)),
        Ok(Some(AlerterResponse::ForkResponse(
            Some(ForkingNotification::Forker(fork_proof.clone())),
            empty_alert_hash,
        ))),
    );
    let forker_unit = fork_proof.0.clone();
    let nonempty_alert = Alert::new(double_committer, fork_proof, vec![forker_unit]);
    let nonempty_alert_hash = nonempty_alert.hash();
    let signed_nonempty_alert =
        UncheckedSignedAlert::sign(nonempty_alert, &keychains[double_committer.0]);
    let message = RmcMessage::MultisignedHash(multisigned(
        nonempty_alert_hash,
        &keychains,
        &[double_committer.0, 1, 2],
    ));
    assert_eq!(
        this.on_message(AlertMessage::ForkAlert(signed_nonempty_alert)),
        Err(Error::RepeatedAlert(double_committer, forker_index)),
    );
    assert_eq!(
        this.on_message(AlertMessage::RmcMessage(other_honest_node, message.clone())),
        Ok(Some(AlerterResponse::RmcMessage(message))),
    );
}

#[test]
fn verify_fork_ok() {
    let n_members = NodeCount(7);
    let own_index = NodeIndex(0);
    let forker_index = NodeIndex(6);
    let own_keychain = PlainKeychain::new(n_members, own_index);
    let forker_keychain = PlainKeychain::new(n_members, forker_index);
    let this = Handler::new(own_keychain, AlertConfig { n_members, session_id: 0 });
    let fork_proof = make_fork_proof(forker_index, &forker_keychain, 0, n_members);
    let alert = Alert::new(own_index, fork_proof, vec![]);
    assert_eq!(this.verify_fork(&alert), Ok(forker_index));
}

#[test]
fn verify_fork_wrong_session() {
    let n_members = NodeCount(7);
    let own_index = NodeIndex(0);
    let forker_index = NodeIndex(6);
    let own_keychain = PlainKeychain::new(n_members, own_index);
    let forker_keychain = PlainKeychain::new(n_members, forker_index);
    let this = Handler::new(own_keychain, AlertConfig { n_members, session_id: 1 });
    let fork_proof = make_fork_proof(forker_index, &forker_keychain, 0, n_members);
    let alert = Alert::new(own_index, fork_proof, vec![]);
    assert_eq!(this.verify_fork(&alert), Err(Error::WrongSession(own_index)));
}

#[test]
fn verify_fork_different_creators() {
    let n_members = NodeCount(7);
    let keychains = keychains(n_members);
    let this = Handler::new(keychains[0], AlertConfig { n_members, session_id: 0 });
    let fork_proof = {
        let unit_0 = full_unit(n_members, NodeIndex(6), 0, Some(0));
        let unit_1 = full_unit(n_members, NodeIndex(5), 0, Some(0));
        (sign_unit(unit_0, &keychains[6]), sign_unit(unit_1, &keychains[5]))
    };
    let sender = NodeIndex(0);
    let alert = Alert::new(sender, fork_proof, vec![]);
    assert_eq!(this.verify_fork(&alert), Err(Error::WrongCreator(sender)));
}

#[test]
fn verify_fork_different_rounds() {
    let n_members = NodeCount(7);
    let own_index = NodeIndex(0);
    let forker_index = NodeIndex(6);
    let own_keychain = PlainKeychain::new(n_members, own_index);
    let forker_keychain = PlainKeychain::new(n_members, forker_index);
    let this = Handler::new(own_keychain, AlertConfig { n_members, session_id: 0 });
    let fork_proof = {
        let unit_0 = full_unit(n_members, forker_index, 0, Some(0));
        let unit_1 = full_unit(n_members, forker_index, 1, Some(0));
        (sign_unit(unit_0, &forker_keychain), sign_unit(unit_1, &forker_keychain))
    };
    let sender = NodeIndex(0);
    let alert = Alert::new(sender, fork_proof, vec![]);
    assert_eq!(this.verify_fork(&alert), Err(Error::DifferentRounds(sender)));
}

#[test]
fn alert_confirmed_out_of_the_blue() {
    alert_confirmed(false, true);
}

#[test]
fn alert_confirmed_bad_commitment() {
    alert_confirmed(true, false);
}

#[test]
fn alert_confirmed_correct() {
    alert_confirmed(true, true);
}

fn alert_confirmed(make_known: bool, good_commitment: bool) {
    let n_members = NodeCount(7);
    let own_index = NodeIndex(1);
    let forker_index = NodeIndex(6);
    let keychains = keychains(n_members);
    let mut this = Handler::new(keychains[own_index.0], AlertConfig { n_members, session_id: 0 });
    let fork_proof = if good_commitment {
        make_fork_proof(forker_index, &keychains[forker_index.0], 0, n_members)
    } else {
        let unit_0 = full_unit(n_members, forker_index, 0, Some(0));
        let unit_1 = full_unit(n_members, forker_index, 1, Some(1));
        (
            sign_unit(unit_0, &keychains[forker_index.0]),
            sign_unit(unit_1, &keychains[forker_index.0]),
        )
    };
    let alert = Alert::new(own_index, fork_proof, vec![]);
    let alert_hash = alert.hash();
    let signed_alert = UncheckedSignedAlert::sign(alert, &keychains[own_index.0]);
    if make_known {
        let _ = this.on_network_alert(signed_alert);
    }
    let signers: Vec<usize> = std::iter::once(own_index.0)
        .chain(1..n_members.0 - 1)
        .collect();
    let multisigned_alert_hash = multisigned(alert_hash, &keychains, &signers);
    let expected = match (make_known, good_commitment) {
        (true, true) => Ok(ForkingNotification::Units(vec![])),
        (true, false) => Err(Error::UnknownAlertRMC),
        (false, true) => Err(Error::UnknownAlertRMC),
        (false, false) => Err(Error::UnknownAlertRMC),
    };
    assert_eq!(this.alert_confirmed(multisigned_alert_hash), expected);
}

#[test]
fn repeated_accusation_by_same_sender_is_refused() {
    let n_members = NodeCount(7);
    let keychains = keychains(n_members);
    let accuser = NodeIndex(2);
    let forker_index = NodeIndex(6);
    let mut this = Handler::new(keychains[1], AlertConfig { n_members, session_id: 0 });
    let fork_proof = make_fork_proof(forker_index, &keychains[6], 0, n_members);
    let first = Alert::new(accuser, fork_proof.clone(), vec![]);
    let first_hash = first.hash();
    assert_eq!(
        this.on_network_alert(UncheckedSignedAlert::sign(first, &keychains[2])),
        Ok((Some(ForkingNotification::Forker(fork_proof.clone())), first_hash)),
    );
    assert!(this.is_forker(forker_index));
    let second = Alert::new(accuser, fork_proof.clone(), vec![fork_proof.1.clone()]);
    let second_hash = second.hash();
    assert_ne!(first_hash, second_hash);
    assert_eq!(
        this.on_network_alert(UncheckedSignedAlert::sign(second, &keychains[2])),
        Err(Error::RepeatedAlert(accuser, forker_index)),
    );
    // The repeated alert is still kept to answer requests.
    assert!(matches!(
        this.on_message(AlertMessage::AlertRequest(NodeIndex(3), second_hash)),
        Ok(Some(AlerterResponse::ForkAlert(_, Recipient::Node(NodeIndex(3)))))
    ));
    // Another accuser about a known forker: no new forker notification.
    let third = Alert::new(NodeIndex(3), fork_proof, vec![]);
    let third_hash = third.hash();
    assert_eq!(
        this.on_network_alert(UncheckedSignedAlert::sign(third, &keychains[3])),
        Ok((None, third_hash)),
    );
}

#[test]
fn incorrectly_signed_alert_is_refused() {
    let n_members = NodeCount(7);
    let keychains = keychains(n_members);
    let mut this = Handler::new(keychains[0], AlertConfig { n_members, session_id: 0 });
    let fork_proof = make_fork_proof(NodeIndex(6), &keychains[6], 0, n_members);
    let alert = Alert::new(NodeIndex(2), fork_proof, vec![]);
    // Signed by node 3, but claims to come from node 2.
    let signed = UncheckedSignedAlert::sign(alert, &keychains[3]);
    assert_eq!(this.on_network_alert(signed), Err(Error::IncorrectlySignedAlert));
    assert!(!this.is_forker(NodeIndex(6)));
}

#[test]
fn incorrectly_signed_fork_unit_is_refused() {
    let n_members = NodeCount(7);
    let keychains = keychains(n_members);
    let this = Handler::new(keychains[0], AlertConfig { n_members, session_id: 0 });
    let (u0, mut u1) = make_fork_proof(NodeIndex(6), &keychains[6], 0, n_members);
    u1.signature = keychains[5].sign(u1.unit.hash());
    let alert = Alert::new(NodeIndex(0), (u0, u1), vec![]);
    assert_eq!(this.verify_fork(&alert), Err(Error::IncorrectlySignedUnit(NodeIndex(0))));
}

#[test]
fn unknown_alert_request_is_an_error() {
    let n_members = NodeCount(7);
    let mut this = Handler::new(PlainKeychain::new(n_members, NodeIndex(0)), AlertConfig { n_members, session_id: 0 });
    assert_eq!(
        this.on_message(AlertMessage::AlertRequest(NodeIndex(2), 42)),
        Err(Error::UnknownAlertRequest),
    );
}

#[test]
fn confirmation_after_alert_is_known_yields_units() {
    let n_members = NodeCount(7);
    let keychains = keychains(n_members);
    let mut this = Handler::new(keychains[1], AlertConfig { n_members, session_id: 0 });
    let fork_proof = make_fork_proof(NodeIndex(6), &keychains[6], 0, n_members);
    let legit = vec![
        sign_unit(full_unit(n_members, NodeIndex(6), 0, Some(0)), &keychains[6]),
        sign_unit(full_unit(n_members, NodeIndex(6), 1, Some(0)), &keychains[6]),
    ];
    let alert = Alert::new(NodeIndex(2), fork_proof, legit.clone());
    let alert_hash = alert.hash();
    let ms = multisigned(alert_hash, &keychains, &[0, 1, 2, 3, 4]);
    assert_eq!(this.alert_confirmed(ms.clone()), Err(Error::UnknownAlertRMC));
    this.on_network_alert(UncheckedSignedAlert::sign(alert, &keychains[2])).unwrap();
    assert_eq!(this.alert_confirmed(ms), Ok(ForkingNotification::Units(legit)));
}

#[test]
fn commitment_errors_are_reported() {
    let n_members = NodeCount(7);
    let keychains = keychains(n_members);
    let this = Handler::new(keychains[1], AlertConfig { n_members, session_id: 0 });
    let fork_proof = make_fork_proof(NodeIndex(6), &keychains[6], 0, n_members);
    let sender = NodeIndex(2);
    let same_round = vec![
        sign_unit(full_unit(n_members, NodeIndex(6), 3, Some(0)), &keychains[6]),
        sign_unit(full_unit(n_members, NodeIndex(6), 3, Some(1)), &keychains[6]),
    ];
    let alert = Alert::new(sender, fork_proof.clone(), same_round);
    assert_eq!(this.verify_commitment(&alert), Err(Error::SameRound(3, sender)));
    let wrong_creator = vec![sign_unit(full_unit(n_members, NodeIndex(5), 0, Some(0)), &keychains[5])];
    let alert = Alert::new(sender, fork_proof.clone(), wrong_creator);
    assert_eq!(this.verify_commitment(&alert), Err(Error::WrongCreator(sender)));
    let mut bad = sign_unit(full_unit(n_members, NodeIndex(6), 0, Some(0)), &keychains[6]);
    bad.signature = keychains[6].sign(bad.unit.hash().wrapping_add(1));
    let alert = Alert::new(sender, fork_proof, vec![bad]);
    assert_eq!(this.verify_commitment(&alert), Err(Error::IncorrectlySignedUnit(sender)));
}

#[test]
fn rmc_message_for_stale_alert_is_dropped() {
    let n_members = NodeCount(7);
    let keychains = keychains(n_members);
    let mut this = Handler::new(keychains[0], AlertConfig { n_members, session_id: 0 });
    let fork_proof = make_fork_proof(NodeIndex(6), &keychains[6], 0, n_members);
    let first = Alert::new(NodeIndex(5), fork_proof.clone(), vec![]);
    this.on_network_alert(UncheckedSignedAlert::sign(first, &keychains[5])).unwrap();
    let second = Alert::new(NodeIndex(5), fork_proof.clone(), vec![fork_proof.0.clone()]);
    let second_hash = second.hash();
    let _ = this.on_network_alert(UncheckedSignedAlert::sign(second, &keychains[5]));
    // A single signature on the hash of the stored but not current alert is dropped.
    let message = RmcMessage::SignedHash(SignedHash::sign(second_hash, &keychains[4]));
    assert_eq!(this.on_message(AlertMessage::RmcMessage(NodeIndex(4), message)), Ok(None));
}

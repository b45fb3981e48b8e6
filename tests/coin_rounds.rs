use std::sync::Arc;

use common_coin::coin::{CoinStep, CommonCoin};
use common_coin::message::{
    CoinError, CombinedSignature, CommonCoinMessage, CryptoError, FaultKind, SignatureShare,
};
use common_coin::network::NetworkInfo;
use common_coin::parity::signature_parity;

// A stand-in for the threshold scheme: participant `id`'s share over a nonce is the nonce
// followed by `id`, and the group signature of a nonce is fixed per nonce.
fn share_of(id: u64, nonce: &[u8]) -> SignatureShare {
    let mut bytes = nonce.to_vec();
    bytes.push(id as u8);
    SignatureShare { bytes }
}

fn share_verifies(sender: u64, share: &SignatureShare, nonce: &[u8]) -> bool {
    share.bytes == share_of(sender, nonce).bytes
}

fn group_signature(nonce: &[u8]) -> Vec<u8> {
    nonce.iter().map(|b| b.wrapping_mul(31)).collect()
}

const NONCE: &[u8] = b"round-7";

fn committee() -> Vec<u64> {
    vec![0, 1, 2, 3]
}

fn instance(our: u64, validator: bool) -> CommonCoin {
    let netinfo = NetworkInfo::new(our, committee(), validator, 1).unwrap();
    CommonCoin::new(Arc::new(netinfo), NONCE.to_vec())
}

fn give_input(coin: &mut CommonCoin, validator: bool) -> CoinStep {
    if validator {
        let share = share_of(coin.our_id(), NONCE);
        let ok = share_verifies(coin.our_id(), &share, NONCE);
        coin.input(Some(share), ok).unwrap()
    } else {
        coin.input(None, false).unwrap()
    }
}

fn deliver(coin: &mut CommonCoin, sender: u64, msg: &CommonCoinMessage) -> Result<CoinStep, CoinError> {
    let share = SignatureShare { bytes: msg.to_sig().bytes.clone() };
    let ok = share_verifies(sender, &share, NONCE);
    coin.handle_message(sender, CommonCoinMessage::new(share), ok)
}

fn answer(coin: &mut CommonCoin) -> CoinStep {
    let sig = CombinedSignature { bytes: group_signature(NONCE), verifies: true };
    coin.handle_combined(Ok(sig)).unwrap()
}

fn expected_bit() -> bool {
    let bytes = group_signature(NONCE);
    let x = bytes.iter().fold(0u8, |a, b| a ^ b);
    x.count_ones() % 2 == 1
}

#[test]
fn scenario_two_validators_agree() {
    let mut v0 = instance(0, true);
    let mut v1 = instance(1, true);
    let s0 = give_input(&mut v0, true);
    let s1 = give_input(&mut v1, true);
    assert!(s0.combine.is_none() && s1.combine.is_none());
    let m0 = v0.next_message().unwrap();
    let m1 = v1.next_message().unwrap();
    assert!(v0.next_message().is_none());
    let r0 = deliver(&mut v0, 1, &m1).unwrap();
    let r1 = deliver(&mut v1, 0, &m0).unwrap();
    let req0 = r0.combine.unwrap();
    assert_eq!(req0.len(), 2);
    assert_eq!(req0[0].index, 0);
    assert_eq!(req0[0].share.bytes, share_of(0, NONCE).bytes);
    assert_eq!(req0[1].index, 1);
    assert_eq!(req0[1].share.bytes, share_of(1, NONCE).bytes);
    assert_eq!(r1.combine.unwrap().len(), 2);
    let o0 = answer(&mut v0).output.unwrap();
    let o1 = answer(&mut v1).output.unwrap();
    assert_eq!(o0, o1);
    assert_eq!(o0, expected_bit());
    assert!(v0.terminated() && v1.terminated());
}

#[test]
fn scenario_observer_reaches_same_output() {
    let mut v0 = instance(0, true);
    let mut v1 = instance(1, true);
    give_input(&mut v0, true);
    give_input(&mut v1, true);
    let m0 = v0.next_message().unwrap();
    let m1 = v1.next_message().unwrap();
    let mut obs = instance(2, false);
    assert!(deliver(&mut obs, 0, &m0).unwrap().combine.is_none());
    // Without input of its own, combination is not due yet.
    assert!(deliver(&mut obs, 1, &m1).unwrap().combine.is_none());
    let step = give_input(&mut obs, false);
    assert!(obs.next_message().is_none());
    assert_eq!(step.combine.unwrap().len(), 2);
    assert_eq!(answer(&mut obs).output, Some(expected_bit()));
    deliver(&mut v0, 1, &m1).unwrap();
    assert_eq!(answer(&mut v0).output, Some(expected_bit()));
}

#[test]
fn scenario_invalid_share_is_logged_and_discarded() {
    let mallory = 3u64;
    let mut v0 = instance(0, true);
    give_input(&mut v0, true);
    let forged = CommonCoinMessage::new(SignatureShare { bytes: vec![9, 9, 9] });
    let step = deliver(&mut v0, mallory, &forged).unwrap();
    assert_eq!(step.fault_log.len(), 1);
    assert_eq!(step.fault_log[0].node_id, mallory);
    assert_eq!(step.fault_log[0].kind, FaultKind::UnverifiedSignatureShareSender);
    assert!(step.combine.is_none());
    assert!(step.output.is_none());
    assert!(!v0.terminated());
    let good = CommonCoinMessage::new(share_of(2, NONCE));
    let step = deliver(&mut v0, 2, &good).unwrap();
    let req = step.combine.unwrap();
    assert_eq!(req.len(), 2);
    assert_eq!(req[1].index, 2);
}

#[test]
fn unknown_sender_is_refused() {
    let mut v0 = instance(0, true);
    give_input(&mut v0, true);
    let msg = CommonCoinMessage::new(share_of(7, NONCE));
    let r = v0.handle_message(7, msg, true);
    assert!(matches!(r, Err(CoinError::UnknownSender)));
    // The share set is unchanged: one more valid share is still needed.
    let step = deliver(&mut v0, 1, &CommonCoinMessage::new(share_of(1, NONCE))).unwrap();
    assert_eq!(step.combine.unwrap().len(), 2);
}

#[test]
fn input_twice_queues_one_broadcast() {
    let mut v0 = instance(0, true);
    give_input(&mut v0, true);
    let second = give_input(&mut v0, true);
    assert!(second.output.is_none() && second.fault_log.is_empty() && second.combine.is_none());
    assert_eq!(v0.next_message().unwrap().to_sig().bytes, share_of(0, NONCE).bytes);
    assert!(v0.next_message().is_none());
}

#[test]
fn input_after_output_keeps_output() {
    let mut v0 = instance(0, true);
    give_input(&mut v0, true);
    deliver(&mut v0, 1, &CommonCoinMessage::new(share_of(1, NONCE))).unwrap();
    assert_eq!(answer(&mut v0).output, Some(expected_bit()));
    let again = give_input(&mut v0, true);
    assert!(again.output.is_none());
    assert!(v0.terminated());
    assert_eq!(v0.next_message().unwrap().to_sig().bytes, share_of(0, NONCE).bytes);
    assert!(v0.next_message().is_none());
}

#[test]
fn messages_after_termination_are_ignored() {
    let mut v0 = instance(0, true);
    give_input(&mut v0, true);
    deliver(&mut v0, 1, &CommonCoinMessage::new(share_of(1, NONCE))).unwrap();
    answer(&mut v0);
    let late = v0.handle_message(9, CommonCoinMessage::new(share_of(9, NONCE)), false).unwrap();
    assert!(late.output.is_none() && late.fault_log.is_empty() && late.combine.is_none());
    let forged = deliver(&mut v0, 2, &CommonCoinMessage::new(SignatureShare { bytes: vec![] })).unwrap();
    assert!(forged.fault_log.is_empty());
    assert!(v0.terminated());
}

#[test]
fn failed_group_verification_is_fatal() {
    let mut v0 = instance(0, true);
    give_input(&mut v0, true);
    deliver(&mut v0, 1, &CommonCoinMessage::new(share_of(1, NONCE))).unwrap();
    let sig = CombinedSignature { bytes: vec![1, 2, 3], verifies: false };
    let r = v0.handle_combined(Ok(sig));
    assert!(matches!(r, Err(CoinError::VerificationFailed)));
    assert!(!v0.terminated());
}

#[test]
fn crypto_failure_is_fatal() {
    let mut v0 = instance(0, true);
    give_input(&mut v0, true);
    deliver(&mut v0, 1, &CommonCoinMessage::new(share_of(1, NONCE))).unwrap();
    let r = v0.handle_combined(Err(CryptoError { reason: "not enough shares".to_string() }));
    match r {
        Err(CoinError::Crypto(e)) => assert_eq!(e.reason, "not enough shares"),
        _ => panic!("expected a crypto error"),
    }
    assert!(!v0.terminated());
}

#[test]
fn combination_outcome_without_request_is_ignored() {
    let mut v0 = instance(0, true);
    let sig = CombinedSignature { bytes: vec![1], verifies: true };
    let step = v0.handle_combined(Ok(sig)).unwrap();
    assert!(step.output.is_none());
    assert!(!v0.terminated());
}

#[test]
fn own_share_that_fails_verification_is_a_fault() {
    let mut v0 = instance(0, true);
    let step = v0.input(Some(SignatureShare { bytes: vec![5] }), false).unwrap();
    assert_eq!(step.fault_log.len(), 1);
    assert_eq!(step.fault_log[0].node_id, 0);
    assert_eq!(v0.next_message().unwrap().to_sig().bytes, vec![5]);
}

#[test]
fn validator_outside_committee_is_unknown() {
    let netinfo = NetworkInfo::new(8, committee(), true, 1).unwrap();
    let mut coin = CommonCoin::new(Arc::new(netinfo), NONCE.to_vec());
    let r = coin.input(Some(share_of(8, NONCE)), true);
    assert!(matches!(r, Err(CoinError::UnknownSender)));
    assert!(coin.next_message().is_some());
}

#[test]
fn resubmitted_share_overwrites() {
    let netinfo = NetworkInfo::new(0, committee(), true, 2).unwrap();
    let mut coin = CommonCoin::new(Arc::new(netinfo), NONCE.to_vec());
    give_input(&mut coin, true);
    let m1 = CommonCoinMessage::new(share_of(1, NONCE));
    assert!(deliver(&mut coin, 1, &m1).unwrap().combine.is_none());
    // The same sender twice still counts once: with f = 2, three shares are needed.
    assert!(deliver(&mut coin, 1, &m1).unwrap().combine.is_none());
    let req = deliver(&mut coin, 3, &CommonCoinMessage::new(share_of(3, NONCE))).unwrap().combine.unwrap();
    assert_eq!(req.iter().map(|s| s.index).collect::<Vec<_>>(), vec![0, 1, 3]);
}

#[test]
fn parity_exact_values() {
    assert!(!signature_parity(&vec![]));
    assert!(signature_parity(&vec![1]));
    assert!(!signature_parity(&vec![3]));
    assert!(!signature_parity(&vec![1, 1]));
    assert!(signature_parity(&vec![0x0f, 0x01]));
    assert!(signature_parity(&vec![0xff, 0x80]));
}

#[test]
fn network_info_rejects_duplicates() {
    assert!(NetworkInfo::new(0, vec![0, 1, 0], true, 0).is_none());
    let n = NetworkInfo::new(5, vec![4, 5, 6], false, 0).unwrap();
    assert_eq!(n.node_index(6), Some(2));
    assert_eq!(n.node_index(7), None);
    assert_eq!(n.num_nodes(), 3);
    assert!(!n.is_validator());
    assert_eq!(n.our_uid(), 5);
}

#[test]
fn error_descriptions() {
    assert_eq!(CoinError::UnknownSender.description(), "unknown sender");
    assert_eq!(CoinError::VerificationFailed.description(), "signature verification failed");
    let e = CoinError::Crypto(CryptoError { reason: "bad share".to_string() });
    assert_eq!(e.description(), "bad share");
}

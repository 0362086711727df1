use grin_btc_swap::alice::Alice0;
use grin_btc_swap::bitcoin::{Address, OutPoint};
use grin_btc_swap::bob::Bob0;
use grin_btc_swap::commit::commit;
use grin_btc_swap::keypair::{KeyPair, SKs, Scalar};
use grin_btc_swap::messages::{Message0, Message1, Message2, Message4};
use grin_btc_swap::schnorr::{recover_secret, EncryptedSignature};
use grin_btc_swap::setup_parameters::{Bitcoin, Grin, GrinFunderSecret, SetupParameters};
use grin_btc_swap::Error;

fn alpha_params() -> Grin {
    Grin { amount: 1_000_000_000, fee: 8_000_000, expiry: 10_000 }
}

fn outpoint_0() -> OutPoint {
    OutPoint { txid: vec![7u8; 32], vout: 0 }
}

fn address(tag: u8) -> Address {
    Address { script: vec![tag; 20] }
}

fn beta_params() -> Bitcoin {
    Bitcoin::new(
        100_000,
        1_000,
        1_700_000_000,
        vec![(outpoint_0(), 200_000)],
        address(1),
        address(2),
        address(3),
    )
    .unwrap()
}

fn setup() -> SetupParameters {
    SetupParameters { alpha: alpha_params(), beta: beta_params() }
}

#[test]
fn happy_path_grin_bitcoin() {
    let secret = GrinFunderSecret::new_random().unwrap();
    let (alice0, m0) = Alice0::new(setup(), secret, vec![9u8; 16]).unwrap();
    let (bob0, m1) = Bob0::<
        grin_btc_swap::grin::bob::BobRedeemer0,
        grin_btc_swap::bitcoin::bob::BobFunder0,
    >::new(alpha_params(), vec![8u8; 16], vec![6u8; 16], beta_params(), m0)
    .unwrap();
    let bob_beta_pks = m1.pks_beta.clone();
    let (alice1, m2) = alice0.receive(m1).unwrap();
    let alice_y = alice1.y.sk.bytes.clone();
    let alice_beta_pks = m2.opening.pks_beta.clone();
    let (bob1, m3) = bob0.receive(m2).unwrap();
    let bob_beta_encsig = m3.beta_redeem_encsig.s.bytes.clone();
    let (alice2, m4) = alice1.receive(m3).unwrap();
    let bob2 = bob1.receive(m4).unwrap();

    // Both parties terminal; every signed artefact verifies.
    assert!(alice2.alpha_fund_action.kernel.verify().unwrap());
    assert!(alice2.alpha_refund_action.kernel.verify().unwrap());
    assert!(alice2.beta_redeem_action.verify().unwrap());
    assert!(bob2.beta_state.refund_action.verify().unwrap());

    // Refund and redeem spend the same output on each chain.
    assert_eq!(
        bob2.beta_state.refund_action.spends.txid,
        alice2.beta_redeem_action.spends.txid
    );
    assert_eq!(
        bob2.beta_state.refund_action.spends.vout,
        alice2.beta_redeem_action.spends.vout
    );

    // Publishing the decrypted redeem signature reveals the adaptor secret.
    let y_recovered = recover_secret(
        &alice2.beta_redeem_action.s_funder,
        &Scalar { bytes: bob_beta_encsig },
    )
    .unwrap();
    assert_eq!(y_recovered.bytes, alice_y);

    // With the secret, the counterparty completes its own redeem.
    let alpha_redeem = bob2.alpha_state.complete(&y_recovered).unwrap();
    assert!(alpha_redeem.kernel.verify().unwrap());
    assert_eq!(alpha_redeem.spends, alice2.alpha_refund_action.spends);

    // The on-chain watcher derives the same redeem digest as the action.
    let event = grin_btc_swap::bitcoin::event::Redeem::new(
        &beta_params(),
        &alice_beta_pks,
        &bob_beta_pks,
    )
    .unwrap();
    assert_eq!(event.txid.len(), 32);
    assert_eq!(event.message_hash, alice2.beta_redeem_action.digest);
    assert_eq!(event.funder_pk.bytes, bob_beta_pks.x.bytes);
}

#[test]
fn happy_path_mirrored_roles() {
    // The counterparty drives Bob's mirrored states; the funder side is
    // assembled from the same per-chain machinery.
    let y = KeyPair::new_random().unwrap();
    let alice_btc_sks = SKs::keygen().unwrap();
    let alice_grin_sks = SKs::keygen().unwrap();
    let (commitment, opening) = commit(
        alice_btc_sks.public(),
        alice_grin_sks.public(),
        y.pk.clone(),
    );
    let m0 = Message0 { commitment, bulletproof_round_1_alice: vec![1u8; 8] };

    let (bob0, m1) = Bob0::<
        grin_btc_swap::bitcoin::bob::BobRedeemer0,
        grin_btc_swap::grin::bob::BobFunder0,
    >::new(beta_params(), alpha_params(), vec![2u8; 8], m0)
    .unwrap();
    let Message1 { pks_alpha: bob_btc_pks, pks_beta: bob_grin_pks, .. } = m1;

    let alice_grin_state = grin_btc_swap::grin::bob::BobRedeemer0 {
        a: alpha_params(),
        sks: alice_grin_sks,
        bulletproof_round_1_peer: vec![2u8; 8],
        bulletproof_round_1_self: vec![1u8; 8],
        bulletproof_round_2_self: vec![3u8; 8],
    };
    let (alice_grin_state, alice_grin_sigs, round_2) =
        alice_grin_state.transition(bob_grin_pks, &y.pk).unwrap();

    let m2 = Message2 { opening, beta_redeemer_sigs: (alice_grin_sigs, round_2) };
    let (bob1, m3) = bob0.receive(m2).unwrap();

    let alice_btc_state =
        grin_btc_swap::bitcoin::bob::BobFunder0 { b: beta_params(), sks: alice_btc_sks };
    let (alice_btc_state, alice_btc_encsig) = alice_btc_state
        .transition(bob_btc_pks, m3.alpha_redeemer_sigs, &y.pk)
        .unwrap();

    let m4 = Message4 { alpha_redeem_encsig: alice_btc_encsig };
    let bob2 = bob1.receive(m4).unwrap();

    // Symmetric completion: both sides hold verifying artefacts.
    let alice_btc_final = alice_btc_state.transition().unwrap();
    assert!(alice_btc_final.refund_action.verify().unwrap());
    let alice_grin_final = alice_grin_state
        .transition(&y.pk, m3.beta_redeem_encsig)
        .unwrap();
    let grin_redeem = alice_grin_final.complete(&y.sk).unwrap();
    assert!(grin_redeem.kernel.verify().unwrap());
    let btc_redeem = bob2.alpha_state.redeem.decrypt(&y).unwrap();
    assert!(btc_redeem.verify().unwrap());
}

#[test]
fn bad_opening_is_commitment_mismatch() {
    let secret = GrinFunderSecret::new_random().unwrap();
    let (alice0, m0) = Alice0::new(setup(), secret, vec![9u8; 16]).unwrap();
    let (bob0, m1) = Bob0::<
        grin_btc_swap::grin::bob::BobRedeemer0,
        grin_btc_swap::bitcoin::bob::BobFunder0,
    >::new(alpha_params(), vec![8u8; 16], vec![6u8; 16], beta_params(), m0)
    .unwrap();
    let (_alice1, mut m2) = alice0.receive(m1).unwrap();
    m2.opening.y.bytes[1] ^= 1;
    assert!(matches!(bob0.receive(m2), Err(Error::CommitmentMismatch)));
}

#[test]
fn bad_beta_refund_sig_is_beta_sig_invalid() {
    let secret = GrinFunderSecret::new_random().unwrap();
    let (alice0, m0) = Alice0::new(setup(), secret, vec![9u8; 16]).unwrap();
    let (bob0, m1) = Bob0::<
        grin_btc_swap::grin::bob::BobRedeemer0,
        grin_btc_swap::bitcoin::bob::BobFunder0,
    >::new(alpha_params(), vec![8u8; 16], vec![6u8; 16], beta_params(), m0)
    .unwrap();
    let (_alice1, mut m2) = alice0.receive(m1).unwrap();
    m2.beta_redeemer_sigs.s.bytes[31] ^= 1;
    assert!(matches!(bob0.receive(m2), Err(Error::BetaSigInvalid)));
}

#[test]
fn bad_alpha_partial_is_alpha_sig_invalid() {
    let secret = GrinFunderSecret::new_random().unwrap();
    let (alice0, m0) = Alice0::new(setup(), secret, vec![9u8; 16]).unwrap();
    let (bob0, m1) = Bob0::<
        grin_btc_swap::grin::bob::BobRedeemer0,
        grin_btc_swap::bitcoin::bob::BobFunder0,
    >::new(alpha_params(), vec![8u8; 16], vec![6u8; 16], beta_params(), m0)
    .unwrap();
    let (alice1, m2) = alice0.receive(m1).unwrap();
    let (_bob1, mut m3) = bob0.receive(m2).unwrap();
    m3.alpha_redeemer_sigs.0.s_fund.bytes[31] ^= 1;
    assert!(matches!(alice1.receive(m3), Err(Error::AlphaSigInvalid)));
}

#[test]
fn bad_adaptor_is_adaptor_decrypt_mismatch() {
    let secret = GrinFunderSecret::new_random().unwrap();
    let (alice0, m0) = Alice0::new(setup(), secret, vec![9u8; 16]).unwrap();
    let (bob0, m1) = Bob0::<
        grin_btc_swap::grin::bob::BobRedeemer0,
        grin_btc_swap::bitcoin::bob::BobFunder0,
    >::new(alpha_params(), vec![8u8; 16], vec![6u8; 16], beta_params(), m0)
    .unwrap();
    let (alice1, m2) = alice0.receive(m1).unwrap();
    let (_bob1, mut m3) = bob0.receive(m2).unwrap();
    // Shifting the encrypted signature by a known scalar is what an encsig
    // under a different adaptor point looks like to the decrypting party.
    let mut one = vec![0u8; 32];
    one[31] = 1;
    let one = grin_btc_swap::keypair::scalar_from_bytes(&one).unwrap();
    let shifted = grin_btc_swap::keypair::scalar_add(&m3.beta_redeem_encsig.s, &one).unwrap();
    m3.beta_redeem_encsig = EncryptedSignature { s: shifted };
    assert!(matches!(
        alice1.receive(m3),
        Err(Error::AdaptorDecryptMismatch)
    ));
}

#[test]
fn insufficient_inputs_is_invalid_amounts() {
    let r = Bitcoin::new(
        100_000,
        1_000,
        1_700_000_000,
        vec![(outpoint_0(), 101_000)],
        address(1),
        address(2),
        address(3),
    );
    assert!(matches!(r, Err(Error::InvalidAmounts)));
}

#[test]
fn bitcoin_params_amounts_are_exact() {
    let b = beta_params();
    assert_eq!(b.change.1, 98_000);
    assert_eq!(b.fund_output_amount(), 101_000);
    assert_eq!(b.redeem_output_amount(), 100_000);
}

#[test]
fn distinct_commitments_for_distinct_adaptor_points() {
    let sks_alpha = SKs::keygen().unwrap();
    let sks_beta = SKs::keygen().unwrap();
    let y1 = KeyPair::new_random().unwrap();
    let y2 = KeyPair::new_random().unwrap();
    let (c1, _) = commit(sks_alpha.public(), sks_beta.public(), y1.pk);
    let (c2, _) = commit(sks_alpha.public(), sks_beta.public(), y2.pk);
    assert_ne!(c1.bytes, c2.bytes);
}

#[test]
fn opening_opens_its_own_commitment() {
    let sks_alpha = SKs::keygen().unwrap();
    let sks_beta = SKs::keygen().unwrap();
    let y = KeyPair::new_random().unwrap();
    let (c, opening) = commit(sks_alpha.public(), sks_beta.public(), y.pk.clone());
    let (pks_a, _pks_b, opened_y) = opening.open(&c).unwrap();
    assert_eq!(pks_a.x.bytes, sks_alpha.public().x.bytes);
    assert_eq!(opened_y.bytes, y.pk.bytes);
}

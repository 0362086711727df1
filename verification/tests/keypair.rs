use grin_btc_swap::commit::commit;
use grin_btc_swap::keypair::{
    bytes_eq, random_bytes, scalar_add, scalar_from_bytes, scalar_mul, scalar_neg, KeyPair, SKs,
    Scalar,
};
use grin_btc_swap::schnorr::{decrypt_sig, recover_secret};

// The order of the secp256k1 group, big-endian.
const ORDER: [u8; 32] = [
    0xff, 0xff, 0xff, 0xff, 0xff, 0xff, 0xff, 0xff, 0xff, 0xff, 0xff, 0xff, 0xff, 0xff, 0xff,
    0xfe, 0xba, 0xae, 0xdc, 0xe6, 0xaf, 0x48, 0xa0, 0x3b, 0xbf, 0xd2, 0x5e, 0x8c, 0xd0, 0x36,
    0x41, 0x41,
];

fn sc(v: u8) -> Scalar {
    let mut bytes = vec![0u8; 32];
    bytes[31] = v;
    scalar_from_bytes(&bytes).unwrap()
}

#[test]
fn scalar_add_is_addition() {
    let two = scalar_add(&sc(1), &sc(1)).unwrap();
    assert_eq!(two.bytes, sc(2).bytes);
}

#[test]
fn scalar_mul_is_multiplication() {
    let six = scalar_mul(&sc(2), &sc(3)).unwrap();
    assert_eq!(six.bytes, sc(6).bytes);
}

#[test]
fn scalar_neg_is_order_minus_value() {
    let neg_one = scalar_neg(&sc(1)).unwrap();
    let mut expected = ORDER.to_vec();
    expected[31] -= 1;
    assert_eq!(neg_one.bytes, expected);
}

#[test]
fn scalar_from_bytes_rejects_invalid_keys() {
    assert!(scalar_from_bytes(&vec![0u8; 32]).is_none());
    assert!(scalar_from_bytes(&ORDER.to_vec()).is_none());
    assert!(scalar_from_bytes(&vec![1u8; 31]).is_none());
    let mut order_minus_one = ORDER.to_vec();
    order_minus_one[31] -= 1;
    assert!(scalar_from_bytes(&order_minus_one).is_some());
}

#[test]
fn decrypt_then_recover_returns_the_secret() {
    let s_enc = sc(7);
    let y = sc(5);
    let s_final = decrypt_sig(&s_enc, &y).unwrap();
    assert_eq!(s_final.bytes, sc(12).bytes);
    let recovered = recover_secret(&s_final, &s_enc).unwrap();
    assert_eq!(recovered.bytes, y.bytes);
}

#[test]
fn keypair_from_bytes_is_deterministic() {
    let seed = vec![0x42u8; 32];
    let a = KeyPair::from_bytes(&seed).unwrap();
    let b = KeyPair::from_bytes(&seed).unwrap();
    assert_eq!(a.sk.bytes, seed);
    assert_eq!(a.pk.bytes, b.pk.bytes);
    assert_eq!(a.pk.bytes.len(), 33);
}

#[test]
fn commitment_is_the_sha256_of_the_encoded_opening() {
    let sks_alpha = SKs::keygen().unwrap();
    let sks_beta = SKs::keygen().unwrap();
    let y = KeyPair::new_random().unwrap();
    let (c, opening) = commit(sks_alpha.public(), sks_beta.public(), y.pk);
    let expected = <sha2::Sha256 as sha2::Digest>::digest(&opening.encode()).to_vec();
    assert_eq!(c.bytes, expected);
}

#[test]
fn random_bytes_are_32_and_vary() {
    let a = random_bytes();
    let b = random_bytes();
    assert_eq!(a.len(), 32);
    assert_eq!(b.len(), 32);
    assert!(!bytes_eq(&a, &b));
}

use grin_btc_swap::dleq;
use grin_btc_swap::keypair::{
    generator, point_mul, random_scalar, scalar_add, scalar_from_bytes, Point, Scalar,
};
use grin_btc_swap::Error;

fn one() -> Scalar {
    let mut bytes = vec![0u8; 32];
    bytes[31] = 1;
    scalar_from_bytes(&bytes).unwrap()
}

#[test]
fn prove_and_verify() {
    let x = random_scalar().unwrap();
    let g = generator();
    let gx = point_mul(&g, &x).unwrap();
    let h = point_mul(&g, &random_scalar().unwrap()).unwrap();
    let hx = point_mul(&h, &x).unwrap();

    let proof = dleq::prove(&g, &gx, &h, &hx, &x).unwrap();

    assert!(dleq::verify(&g, &gx, &h, &hx, &proof).unwrap())
}

#[test]
fn verify_rejects_unequal_discrete_logs() {
    let x = random_scalar().unwrap();
    let x_other = scalar_add(&x, &one()).unwrap();
    let g = generator();
    let gx = point_mul(&g, &x).unwrap();
    let h = point_mul(&g, &random_scalar().unwrap()).unwrap();
    let hx_other = point_mul(&h, &x_other).unwrap();

    let proof = dleq::prove(&g, &gx, &h, &hx_other, &x).unwrap();

    assert!(!dleq::verify(&g, &gx, &h, &hx_other, &proof).unwrap());
    assert_eq!(
        dleq::check(&g, &gx, &h, &hx_other, &proof),
        Err(Error::DleqInvalid)
    );
}

#[test]
fn verify_reports_backend_on_unparseable_point() {
    let x = random_scalar().unwrap();
    let g = generator();
    let gx = point_mul(&g, &x).unwrap();
    let h = point_mul(&g, &random_scalar().unwrap()).unwrap();
    let hx = point_mul(&h, &x).unwrap();
    let proof = dleq::prove(&g, &gx, &h, &hx, &x).unwrap();

    let garbage = Point { bytes: vec![0u8; 33] };

    assert_eq!(dleq::verify(&garbage, &gx, &h, &hx, &proof), Err(Error::Backend));
}

#[test]
fn verify_rejects_tampered_proof() {
    let x = random_scalar().unwrap();
    let g = generator();
    let gx = point_mul(&g, &x).unwrap();
    let h = point_mul(&g, &random_scalar().unwrap()).unwrap();
    let hx = point_mul(&h, &x).unwrap();

    let mut proof = dleq::prove(&g, &gx, &h, &hx, &x).unwrap();
    proof.s.bytes[31] ^= 1;

    assert!(!dleq::verify(&g, &gx, &h, &hx, &proof).unwrap());
}

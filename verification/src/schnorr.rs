use vstd::prelude::*;
use vstd::arithmetic::div_mod::{lemma_mod_add_multiples_vanish, lemma_small_mod};
use crate::digest::{sha256, sha256_of};
use crate::keypair::{
    add_is_identity, append_bytes, base_mul, be_val, bytes_eq, g_bytes, group_order,
    parses_as_point, point_add, point_add_of, point_mul, point_mul_of, scalar_add,
    scalar_from_bytes, scalar_mul, scalar_neg, scalar_wf, Point, Scalar,
};
use crate::Error;

verus! {

/// The challenge of a signing ceremony: the digest of the aggregate nonce
/// point, the aggregate public key and the message, in fixed order.
pub open spec fn sig_challenge(r_agg: Seq<u8>, x_agg: Seq<u8>, msg: Seq<u8>) -> Seq<u8> {
    sha256_of(r_agg + x_agg + msg)
}

/// One party's contribution to a two-party signature: `c*x + r` modulo the
/// group order.
#[verifier::opaque]
pub open spec fn partial_sig_val(c_val: nat, x_val: nat, r_val: nat) -> nat {
    ((c_val * x_val) % group_order() + r_val) % group_order()
}

/// The verification equation of one contribution: `s*G == R + c*X`, with `R`
/// and `X` the contributing party's nonce point and public key, and `c` the
/// challenge under the aggregate nonce and key. A challenge digest that is
/// not a valid scalar is never accepted.
#[verifier::opaque]
pub open spec fn partial_valid(
    s_val: nat,
    r_pub: Seq<u8>,
    x_pub: Seq<u8>,
    r_agg: Seq<u8>,
    x_agg: Seq<u8>,
    msg: Seq<u8>,
) -> bool {
    let c = sig_challenge(r_agg, x_agg, msg);
    &&& scalar_wf(c)
    &&& point_mul_of(g_bytes(), s_val) == point_add_of(r_pub, point_mul_of(x_pub, be_val(c)))
}

/// When signing a contribution fails: the challenge digest is not a valid
/// scalar, or an intermediate scalar reduces to zero modulo the group order.
pub open spec fn sign_fails(
    x_val: nat,
    r_val: nat,
    r_agg: Seq<u8>,
    x_agg: Seq<u8>,
    msg: Seq<u8>,
) -> bool {
    let c = sig_challenge(r_agg, x_agg, msg);
    ||| !scalar_wf(c)
    ||| (be_val(c) * x_val) % group_order() == 0
    ||| ((be_val(c) * x_val) % group_order() + r_val) % group_order() == 0
}

/// When checking a contribution fails for backend reasons: the challenge is a
/// valid scalar but a party point does not parse, or the right-hand side of
/// the verification equation sums to the identity.
pub open spec fn verify_backend_fails(
    r_pub: Seq<u8>,
    x_pub: Seq<u8>,
    r_agg: Seq<u8>,
    x_agg: Seq<u8>,
    msg: Seq<u8>,
) -> bool {
    let c = sig_challenge(r_agg, x_agg, msg);
    &&& scalar_wf(c)
    &&& (!parses_as_point(x_pub) || !parses_as_point(r_pub) || add_is_identity(
        r_pub,
        point_mul_of(x_pub, be_val(c)),
    ))
}

/// An adaptor-encrypted contribution: it becomes a verifying contribution
/// only once offset by the adaptor secret.
pub struct EncryptedSignature {
    pub s: Scalar,
}

impl Clone for EncryptedSignature {
    fn clone(&self) -> (r: Self)
        ensures
            r.s@ == self.s@,
    {
        EncryptedSignature { s: self.s.clone() }
    }
}

/// Hashes the aggregate nonce point, the aggregate key and the message into
/// the challenge scalar. Rejected digests (not in `[1, n-1]`) are reported
/// exactly.
pub fn challenge_scalar(r_agg: &Point, x_agg: &Point, msg: &Vec<u8>) -> (r: Result<Scalar, Error>)
    ensures
        r matches Ok(c) ==> c.wf() && c@ == sig_challenge(r_agg@, x_agg@, msg@),
        r is Err <==> !scalar_wf(sig_challenge(r_agg@, x_agg@, msg@)),
        r is Err ==> r == Err::<Scalar, Error>(Error::Backend),
{
    let mut data: Vec<u8> = Vec::new();
    append_bytes(&mut data, &r_agg.bytes);
    append_bytes(&mut data, &x_agg.bytes);
    append_bytes(&mut data, msg);
    assert(data@ =~= r_agg@ + x_agg@ + msg@);
    let digest = sha256(&data);
    match scalar_from_bytes(&digest) {
        Some(c) => Ok(c),
        None => Err(Error::Backend),
    }
}

/// This party's contribution to the two-party signature on `msg` under the
/// aggregate nonce `r_agg` and aggregate key `x_agg`: `s = c*x + r`.
pub fn sign_partial(x: &Scalar, r: &Scalar, r_agg: &Point, x_agg: &Point, msg: &Vec<u8>) -> (res:
    Result<Scalar, Error>)
    requires
        x.wf(),
        r.wf(),
        r_agg.wf(),
        x_agg.wf(),
    ensures
        res matches Ok(s) ==> {
            &&& s.wf()
            &&& scalar_wf(sig_challenge(r_agg@, x_agg@, msg@))
            &&& s.val() == partial_sig_val(
                be_val(sig_challenge(r_agg@, x_agg@, msg@)),
                x.val(),
                r.val(),
            )
        },
        res is Err <==> sign_fails(x.val(), r.val(), r_agg@, x_agg@, msg@),
        res is Err ==> res == Err::<Scalar, Error>(Error::Backend),
{
    proof {
        reveal(partial_sig_val);
    }
    let c = challenge_scalar(r_agg, x_agg, msg)?;
    let cx = match scalar_mul(&c, x) {
        Some(s) => s,
        None => {
            return Err(Error::Backend);
        },
    };
    match scalar_add(&cx, r) {
        Some(s) => Ok(s),
        None => Err(Error::Backend),
    }
}

/// Checks one party's contribution `s` against its nonce point `r_pub` and
/// key `x_pub`, under the aggregate nonce and key: `s*G == r_pub + c*x_pub`.
pub fn verify_partial(
    s: &Scalar,
    r_pub: &Point,
    x_pub: &Point,
    r_agg: &Point,
    x_agg: &Point,
    msg: &Vec<u8>,
) -> (res: Result<bool, Error>)
    requires
        s.wf(),
        r_pub.wf(),
        x_pub.wf(),
        r_agg.wf(),
        x_agg.wf(),
    ensures
        res matches Ok(b) ==> b == partial_valid(s.val(), r_pub@, x_pub@, r_agg@, x_agg@, msg@),
        res is Err <==> verify_backend_fails(r_pub@, x_pub@, r_agg@, x_agg@, msg@),
        res is Err ==> res == Err::<bool, Error>(Error::Backend),
{
    proof {
        reveal(partial_valid);
    }
    let c = match challenge_scalar(r_agg, x_agg, msg) {
        Ok(c) => c,
        Err(_) => {
            return Ok(false);
        },
    };
    let sg = base_mul(s);
    let cx = match point_mul(x_pub, &c) {
        Some(p) => p,
        None => {
            return Err(Error::Backend);
        },
    };
    let rhs = match point_add(r_pub, &cx) {
        Some(p) => p,
        None => {
            return Err(Error::Backend);
        },
    };
    Ok(bytes_eq(&sg.bytes, &rhs.bytes))
}

/// Combines two contributions into the aggregate signature scalar
/// `s_a + s_b` modulo the group order.
pub fn combine_sigs(a: &Scalar, b: &Scalar) -> (res: Result<Scalar, Error>)
    requires
        a.wf(),
        b.wf(),
    ensures
        res matches Ok(s) ==> s.wf() && s.val() == (a.val() + b.val()) % group_order(),
        res is Err <==> (a.val() + b.val()) % group_order() == 0,
        res is Err ==> res == Err::<Scalar, Error>(Error::Backend),
{
    match scalar_add(a, b) {
        Some(s) => Ok(s),
        None => Err(Error::Backend),
    }
}

/// Decrypts an adaptor-encrypted contribution by offsetting it with the
/// adaptor secret: `s = s_enc + y` modulo the group order.
pub fn decrypt_sig(s_enc: &Scalar, y: &Scalar) -> (res: Result<Scalar, Error>)
    requires
        s_enc.wf(),
        y.wf(),
    ensures
        res matches Ok(s) ==> s.wf() && s.val() == (s_enc.val() + y.val()) % group_order(),
        res is Err <==> (s_enc.val() + y.val()) % group_order() == 0,
        res is Err ==> res == Err::<Scalar, Error>(Error::Backend),
{
    match scalar_add(s_enc, y) {
        Some(s) => Ok(s),
        None => Err(Error::Backend),
    }
}

/// Recovers the adaptor secret from a published decrypted signature and the
/// encrypted one it came from: `y = s_final - s_enc` modulo the group order.
pub fn recover_secret(s_final: &Scalar, s_enc: &Scalar) -> (res: Result<Scalar, Error>)
    requires
        s_final.wf(),
        s_enc.wf(),
    ensures
        res matches Ok(y) ==> y.wf() && y.val() as int == (s_final.val() + (group_order()
            - s_enc.val())) % (group_order() as int),
        res is Err <==> (s_final.val() + (group_order() - s_enc.val())) % (
        group_order() as int) == 0,
        res is Err ==> res == Err::<Scalar, Error>(Error::Backend),
{
    let neg = match scalar_neg(s_enc) {
        Some(s) => s,
        None => {
            return Err(Error::Backend);
        },
    };
    match scalar_add(s_final, &neg) {
        Some(s) => Ok(s),
        None => Err(Error::Backend),
    }
}

/// Atomic secret revelation: whoever sees both the encrypted contribution and
/// the signature it decrypted to recovers exactly the adaptor secret. If
/// `s_final = s_enc + y` modulo the order, then subtracting `s_enc` from
/// `s_final` modulo the order gives back `y`.
pub proof fn lemma_adaptor_secret_recovery(s_enc_val: nat, y_val: nat, s_final_val: nat)
    requires
        0 < s_enc_val < group_order(),
        0 < y_val < group_order(),
        s_final_val == (s_enc_val + y_val) % group_order(),
    ensures
        (s_final_val + (group_order() - s_enc_val)) % (group_order() as int) == y_val,
{
    let n = group_order() as int;
    let a = s_enc_val as int;
    let b = y_val as int;
    if a + b < n {
        lemma_small_mod((a + b) as nat, n as nat);
        assert(s_final_val == a + b);
        lemma_mod_add_multiples_vanish(b, n);
        lemma_small_mod(y_val, n as nat);
        assert((s_final_val + (group_order() - s_enc_val)) as int == b + n);
    } else {
        lemma_mod_add_multiples_vanish(a + b - n, n);
        lemma_small_mod((a + b - n) as nat, n as nat);
        assert(s_final_val == a + b - n);
        lemma_small_mod(y_val, n as nat);
        assert((s_final_val + (group_order() - s_enc_val)) as int == b);
    }
}

} // verus!

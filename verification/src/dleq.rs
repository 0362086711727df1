use vstd::prelude::*;
use crate::digest::{sha256, sha256_of};
use crate::keypair::{
    add_is_identity, append_bytes, be_val, bytes_eq, group_order, parses_as_point, point_add,
    point_add_of, point_mul, point_mul_of, random_scalar, scalar_add, scalar_from_bytes,
    scalar_mul, scalar_neg, scalar_wf, Point, Scalar,
};
use crate::Error;

verus! {

/// A non-interactive proof that one scalar `x` satisfies `Gx = x*G` and
/// `Hx = x*H` for two generators `G` and `H`: the response `s = r + c*x` and
/// the Fiat-Shamir challenge `c`.
pub struct Proof {
    pub s: Scalar,
    pub c: Scalar,
}

impl Proof {
    pub open spec fn wf(&self) -> bool {
        &&& self.s.wf()
        &&& self.c.wf()
    }
}

/// The Fiat-Shamir challenge: the digest of the two generators, the two
/// claimed multiples and the two nonce points, compressed and concatenated.
pub open spec fn dleq_challenge(
    g: Seq<u8>,
    gx: Seq<u8>,
    h: Seq<u8>,
    hx: Seq<u8>,
    gr: Seq<u8>,
    hr: Seq<u8>,
) -> Seq<u8> {
    sha256_of(g + gx + h + hx + gr + hr)
}

/// The nonce point a verifier recomputes on one side: `s*B - c*Bx`, written
/// as the combination of `Bx * (n - c)` and `B * s`.
pub open spec fn dleq_recomputed(b: Seq<u8>, bx: Seq<u8>, s_val: nat, neg_c_val: nat) -> Seq<u8> {
    point_add_of(point_mul_of(bx, neg_c_val), point_mul_of(b, s_val))
}

/// The verification equation: the challenge recomputed from the two
/// recomputed nonce points equals the challenge carried by the proof.
pub open spec fn dleq_accepts(
    g: Seq<u8>,
    gx: Seq<u8>,
    h: Seq<u8>,
    hx: Seq<u8>,
    proof: Proof,
) -> bool {
    let neg_c = (group_order() - proof.c.val()) as nat;
    proof.c@ == dleq_challenge(
        g,
        gx,
        h,
        hx,
        dleq_recomputed(g, gx, proof.s.val(), neg_c),
        dleq_recomputed(h, hx, proof.s.val(), neg_c),
    )
}

/// When proving with a given nonce fails: a generator does not parse, the
/// challenge digest is not a valid scalar, or an intermediate scalar reduces
/// to zero modulo the group order.
pub open spec fn prove_backend_fails(
    g: Seq<u8>,
    gx: Seq<u8>,
    h: Seq<u8>,
    hx: Seq<u8>,
    x_val: nat,
    r_val: nat,
) -> bool {
    let c = dleq_challenge(g, gx, h, hx, point_mul_of(g, r_val), point_mul_of(h, r_val));
    ||| !parses_as_point(g)
    ||| !parses_as_point(h)
    ||| !scalar_wf(c)
    ||| (be_val(c) * x_val) % group_order() == 0
    ||| ((be_val(c) * x_val) % group_order() + r_val) % group_order() == 0
}

/// When verification fails for backend reasons: a statement point does not
/// parse, or a recomputed nonce sums to the identity.
pub open spec fn verify_backend_fails(
    g: Seq<u8>,
    gx: Seq<u8>,
    h: Seq<u8>,
    hx: Seq<u8>,
    s_val: nat,
    c_val: nat,
) -> bool {
    let nc = (group_order() - c_val) as nat;
    ||| !parses_as_point(gx)
    ||| !parses_as_point(g)
    ||| add_is_identity(point_mul_of(gx, nc), point_mul_of(g, s_val))
    ||| !parses_as_point(hx)
    ||| !parses_as_point(h)
    ||| add_is_identity(point_mul_of(hx, nc), point_mul_of(h, s_val))
}

/// Hashes the six compressed points into a challenge digest.
fn challenge_bytes(
    g: &Point,
    gx: &Point,
    h: &Point,
    hx: &Point,
    gr: &Point,
    hr: &Point,
) -> (r: Vec<u8>)
    ensures
        r@ == dleq_challenge(g@, gx@, h@, hx@, gr@, hr@),
        r@.len() == 32,
{
    let mut msg: Vec<u8> = Vec::new();
    append_bytes(&mut msg, &g.bytes);
    append_bytes(&mut msg, &gx.bytes);
    append_bytes(&mut msg, &h.bytes);
    append_bytes(&mut msg, &hx.bytes);
    append_bytes(&mut msg, &gr.bytes);
    append_bytes(&mut msg, &hr.bytes);
    assert(msg@ =~= g@ + gx@ + h@ + hx@ + gr@ + hr@);
    sha256(&msg)
}

/// Produces a proof from an explicitly supplied nonce `r`: the nonce points
/// are `Gr = r*G` and `Hr = r*H`, the challenge is their digest with the
/// statement, and the response is `s = c*x + r` modulo the group order.
/// Fails only when the backend refuses an intermediate value.
pub fn prove_with_nonce(g: &Point, gx: &Point, h: &Point, hx: &Point, x: &Scalar, r: &Scalar) -> (res:
    Result<Proof, Error>)
    requires
        g.wf(),
        gx.wf(),
        h.wf(),
        hx.wf(),
        x.wf(),
        r.wf(),
    ensures
        res matches Ok(p) ==> {
            &&& p.wf()
            &&& p.c@ == dleq_challenge(
                g@,
                gx@,
                h@,
                hx@,
                point_mul_of(g@, r.val()),
                point_mul_of(h@, r.val()),
            )
            &&& p.s.val() == ((p.c.val() * x.val()) % group_order() + r.val()) % group_order()
        },
        res is Err <==> prove_backend_fails(g@, gx@, h@, hx@, x.val(), r.val()),
        res is Err ==> res == Err::<Proof, Error>(Error::Backend),
{
    let gr = match point_mul(g, r) {
        Some(p) => p,
        None => {
            return Err(Error::Backend);
        },
    };
    let hr = match point_mul(h, r) {
        Some(p) => p,
        None => {
            return Err(Error::Backend);
        },
    };
    let c_bytes = challenge_bytes(g, gx, h, hx, &gr, &hr);
    let c = match scalar_from_bytes(&c_bytes) {
        Some(c) => c,
        None => {
            return Err(Error::Backend);
        },
    };
    let cx = match scalar_mul(&c, x) {
        Some(s) => s,
        None => {
            return Err(Error::Backend);
        },
    };
    let s = match scalar_add(&cx, r) {
        Some(s) => s,
        None => {
            return Err(Error::Backend);
        },
    };
    Ok(Proof { s, c })
}

/// Proves discrete-log equality of `gx = x*G` and `hx = x*H` under a fresh
/// random nonce.
pub fn prove(g: &Point, gx: &Point, h: &Point, hx: &Point, x: &Scalar) -> (res: Result<
    Proof,
    Error,
>)
    requires
        g.wf(),
        gx.wf(),
        h.wf(),
        hx.wf(),
        x.wf(),
    ensures
        res matches Ok(p) ==> p.wf() && exists|r_val: nat|
            {
                &&& 0 < r_val < group_order()
                &&& p.c@ == dleq_challenge(
                    g@,
                    gx@,
                    h@,
                    hx@,
                    #[trigger] point_mul_of(g@, r_val),
                    point_mul_of(h@, r_val),
                )
                &&& p.s.val() == ((p.c.val() * x.val()) % group_order() + r_val) % group_order()
            },
        res is Err ==> res == Err::<Proof, Error>(Error::Backend),
{
    let r = random_scalar()?;
    let res = prove_with_nonce(g, gx, h, hx, x, &r);
    match res {
        Ok(p) => {
            proof {
                assert(0 < r.val() < group_order() && p.c@ == dleq_challenge(
                    g@,
                    gx@,
                    h@,
                    hx@,
                    point_mul_of(g@, r.val()),
                    point_mul_of(h@, r.val()),
                ) && p.s.val() == ((p.c.val() * x.val()) % group_order() + r.val())
                    % group_order());
            }
            Ok(p)
        },
        Err(e) => Err(e),
    }
}

/// Verifies a proof: recomputes both nonce points as `s*B - c*Bx` and accepts
/// exactly when the recomputed challenge equals the one carried by the proof.
/// Fails only when the backend refuses an intermediate value.
pub fn verify(g: &Point, gx: &Point, h: &Point, hx: &Point, proof: &Proof) -> (res: Result<
    bool,
    Error,
>)
    requires
        g.wf(),
        gx.wf(),
        h.wf(),
        hx.wf(),
        proof.wf(),
    ensures
        res matches Ok(b) ==> b == dleq_accepts(g@, gx@, h@, hx@, *proof),
        res is Err <==> verify_backend_fails(g@, gx@, h@, hx@, proof.s.val(), proof.c.val()),
        res is Err ==> res == Err::<bool, Error>(Error::Backend),
{
    let c_neg = match scalar_neg(&proof.c) {
        Some(s) => s,
        None => {
            return Err(Error::Backend);
        },
    };
    let gx_cneg = match point_mul(gx, &c_neg) {
        Some(p) => p,
        None => {
            return Err(Error::Backend);
        },
    };
    let gs = match point_mul(g, &proof.s) {
        Some(p) => p,
        None => {
            return Err(Error::Backend);
        },
    };
    let gr = match point_add(&gx_cneg, &gs) {
        Some(p) => p,
        None => {
            return Err(Error::Backend);
        },
    };
    let hx_cneg = match point_mul(hx, &c_neg) {
        Some(p) => p,
        None => {
            return Err(Error::Backend);
        },
    };
    let hs = match point_mul(h, &proof.s) {
        Some(p) => p,
        None => {
            return Err(Error::Backend);
        },
    };
    let hr = match point_add(&hx_cneg, &hs) {
        Some(p) => p,
        None => {
            return Err(Error::Backend);
        },
    };
    let c_bytes = challenge_bytes(g, gx, h, hx, &gr, &hr);
    Ok(bytes_eq(&proof.c.bytes, &c_bytes))
}

/// Verifies a proof as a protocol step: a rejected proof aborts the swap with
/// `DleqInvalid`.
pub fn check(g: &Point, gx: &Point, h: &Point, hx: &Point, proof: &Proof) -> (res: Result<
    (),
    Error,
>)
    requires
        g.wf(),
        gx.wf(),
        h.wf(),
        hx.wf(),
        proof.wf(),
    ensures
        res is Ok <==> !verify_backend_fails(g@, gx@, h@, hx@, proof.s.val(), proof.c.val())
            && dleq_accepts(g@, gx@, h@, hx@, *proof),
        res == Err::<(), Error>(Error::DleqInvalid) <==> !verify_backend_fails(
            g@,
            gx@,
            h@,
            hx@,
            proof.s.val(),
            proof.c.val(),
        ) && !dleq_accepts(g@, gx@, h@, hx@, *proof),
        res == Err::<(), Error>(Error::Backend) <==> verify_backend_fails(
            g@,
            gx@,
            h@,
            hx@,
            proof.s.val(),
            proof.c.val(),
        ),
{
    match verify(g, gx, h, hx, proof) {
        Ok(true) => Ok(()),
        Ok(false) => Err(Error::DleqInvalid),
        Err(e) => Err(e),
    }
}

} // verus!

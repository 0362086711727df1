use vstd::prelude::*;
use crate::Error;

verus! {

/// The order of the secp256k1 group.
pub open spec fn group_order() -> nat {
    0xfffffffffffffffffffffffffffffffebaaedce6af48a03bbfd25e8cd0364141nat
}

/// Big-endian integer value of a byte string.
pub open spec fn be_val(s: Seq<u8>) -> nat
    decreases s.len(),
{
    if s.len() == 0 {
        0
    } else {
        be_val(s.drop_last()) * 256 + s.last() as nat
    }
}

/// The compressed encoding of the secp256k1 base point G.
pub open spec fn g_bytes() -> Seq<u8> {
    seq![
        0x02u8, 0x79u8, 0xbeu8, 0x66u8, 0x7eu8, 0xf9u8, 0xdcu8, 0xbbu8, 0xacu8, 0x55u8, 0xa0u8,
        0x62u8, 0x95u8, 0xceu8, 0x87u8, 0x0bu8, 0x07u8, 0x02u8, 0x9bu8, 0xfcu8, 0xdbu8, 0x2du8,
        0xceu8, 0x28u8, 0xd9u8, 0x59u8, 0xf2u8, 0x81u8, 0x5bu8, 0x16u8, 0xf8u8, 0x17u8, 0x98u8,
    ]
}

/// What scalar multiplication of a group element returns: the compressed
/// encoding of `k * P`, where `p` is the compressed encoding of `P`.
pub uninterp spec fn point_mul_of(p: Seq<u8>, k: nat) -> Seq<u8>;

/// What addition of two group elements returns: the compressed encoding of
/// `A + B`, where `a` and `b` are the compressed encodings of `A` and `B`.
pub uninterp spec fn point_add_of(a: Seq<u8>, b: Seq<u8>) -> Seq<u8>;

/// Whether a byte string is accepted by the backend's point decoder: the
/// encoding of a point on the curve.
pub uninterp spec fn parses_as_point(p: Seq<u8>) -> bool;

/// Whether the sum of the two encoded group elements is the identity, the one
/// group element without a compressed encoding.
pub uninterp spec fn add_is_identity(a: Seq<u8>, b: Seq<u8>) -> bool;

/// A scalar modulo the group order: 32 big-endian bytes encoding an integer
/// in `[1, n-1]` (a valid secret key).
pub struct Scalar {
    pub bytes: Vec<u8>,
}

impl View for Scalar {
    type V = Seq<u8>;

    open spec fn view(&self) -> Seq<u8> {
        self.bytes@
    }
}

pub open spec fn scalar_wf(s: Seq<u8>) -> bool {
    &&& s.len() == 32
    &&& 0 < be_val(s) < group_order()
}

impl Scalar {
    pub open spec fn wf(&self) -> bool {
        scalar_wf(self@)
    }

    pub open spec fn val(&self) -> nat {
        be_val(self@)
    }
}

/// A group element: a 33-byte compressed encoding of a point on the curve,
/// produced by the curve backend.
pub struct Point {
    pub bytes: Vec<u8>,
}

impl View for Point {
    type V = Seq<u8>;

    open spec fn view(&self) -> Seq<u8> {
        self.bytes@
    }
}

impl Point {
    pub open spec fn wf(&self) -> bool {
        self@.len() == 33
    }
}

/// Relies on secp256k1zkp `SecretKey::from_slice`: it accepts exactly the
/// 32-byte encodings of integers in `[1, n-1]` and keeps the bytes as given.
#[verifier::external_body]
pub fn scalar_from_bytes(b: &Vec<u8>) -> (r: Option<Scalar>)
    ensures
        r matches Some(s) ==> s@ == b@ && s.wf(),
        r is None <==> !scalar_wf(b@),
{
    let secp = secp256k1zkp::Secp256k1::new();
    match secp256k1zkp::key::SecretKey::from_slice(&secp, b) {
        Ok(_) => Some(Scalar { bytes: b.clone() }),
        Err(_) => None,
    }
}

/// Relies on secp256k1zkp `SecretKey::add_assign`: addition modulo the curve
/// order, failing only when the sum is zero (not a valid secret key).
#[verifier::external_body]
pub fn scalar_add(a: &Scalar, b: &Scalar) -> (r: Option<Scalar>)
    requires
        a.wf(),
        b.wf(),
    ensures
        r matches Some(c) ==> c.wf() && c.val() == (a.val() + b.val()) % group_order(),
        r is None ==> (a.val() + b.val()) % group_order() == 0,
{
    let secp = secp256k1zkp::Secp256k1::new();
    let mut s = match secp256k1zkp::key::SecretKey::from_slice(&secp, &a.bytes) {
        Ok(s) => s,
        Err(_) => return None,
    };
    let o = match secp256k1zkp::key::SecretKey::from_slice(&secp, &b.bytes) {
        Ok(o) => o,
        Err(_) => return None,
    };
    match s.add_assign(&secp, &o) {
        Ok(()) => Some(Scalar { bytes: s[..].to_vec() }),
        Err(_) => None,
    }
}

/// Relies on secp256k1zkp `SecretKey::mul_assign`: multiplication modulo the
/// curve order, failing only when the product is zero.
#[verifier::external_body]
pub fn scalar_mul(a: &Scalar, b: &Scalar) -> (r: Option<Scalar>)
    requires
        a.wf(),
        b.wf(),
    ensures
        r matches Some(c) ==> c.wf() && c.val() == (a.val() * b.val()) % group_order(),
        r is None ==> (a.val() * b.val()) % group_order() == 0,
{
    let secp = secp256k1zkp::Secp256k1::new();
    let mut s = match secp256k1zkp::key::SecretKey::from_slice(&secp, &a.bytes) {
        Ok(s) => s,
        Err(_) => return None,
    };
    let o = match secp256k1zkp::key::SecretKey::from_slice(&secp, &b.bytes) {
        Ok(o) => o,
        Err(_) => return None,
    };
    match s.mul_assign(&secp, &o) {
        Ok(()) => Some(Scalar { bytes: s[..].to_vec() }),
        Err(_) => None,
    }
}

/// Relies on secp256k1zkp `SecretKey::neg_assign`: negation modulo the curve
/// order. For an input in `[1, n-1]` it always succeeds, and the result is
/// `n - x`, again in range.
#[verifier::external_body]
pub fn scalar_neg(a: &Scalar) -> (r: Option<Scalar>)
    requires
        a.wf(),
    ensures
        r matches Some(c) ==> c.wf() && c.val() == group_order() - a.val(),
        r is Some,
{
    let secp = secp256k1zkp::Secp256k1::new();
    let mut s = match secp256k1zkp::key::SecretKey::from_slice(&secp, &a.bytes) {
        Ok(s) => s,
        Err(_) => return None,
    };
    match s.neg_assign(&secp) {
        Ok(()) => Some(Scalar { bytes: s[..].to_vec() }),
        Err(_) => None,
    }
}

/// The public point of a scalar: `k * G`. The base point always parses, so
/// this cannot fail.
pub fn base_mul(k: &Scalar) -> (r: Point)
    requires
        k.wf(),
    ensures
        r.wf(),
        r@ == point_mul_of(g_bytes(), k.val()),
        parses_as_point(r@),
{
    let g = generator();
    match point_mul(&g, k) {
        Some(p) => p,
        None => vstd::pervasive::unreached(),
    }
}

/// Relies on secp256k1zkp `PublicKey::mul_assign` and `serialize_vec`: scalar
/// multiplication of a group element, returned in canonical compressed form,
/// which parses back. For a scalar in `[1, n-1]` it fails exactly when the
/// point encoding does not parse.
#[verifier::external_body]
pub fn point_mul(p: &Point, k: &Scalar) -> (r: Option<Point>)
    requires
        p.wf(),
        k.wf(),
    ensures
        r matches Some(q) ==> q.wf() && q@ == point_mul_of(p@, k.val()) && parses_as_point(q@),
        r is None <==> !parses_as_point(p@),
{
    let secp = secp256k1zkp::Secp256k1::new();
    let mut pk = match secp256k1zkp::key::PublicKey::from_slice(&secp, &p.bytes) {
        Ok(p) => p,
        Err(_) => return None,
    };
    let sk = match secp256k1zkp::key::SecretKey::from_slice(&secp, &k.bytes) {
        Ok(s) => s,
        Err(_) => return None,
    };
    match pk.mul_assign(&secp, &sk) {
        Ok(()) => Some(Point { bytes: pk.serialize_vec(&secp, true).to_vec() }),
        Err(_) => None,
    }
}

/// Relies on secp256k1zkp `PublicKey::from_combination` and `serialize_vec`:
/// the sum of two group elements, returned in canonical compressed form,
/// which parses back. It fails exactly when an encoding does not parse or the
/// sum is the identity.
#[verifier::external_body]
pub fn point_add(a: &Point, b: &Point) -> (r: Option<Point>)
    requires
        a.wf(),
        b.wf(),
    ensures
        r matches Some(q) ==> q.wf() && q@ == point_add_of(a@, b@) && parses_as_point(q@),
        r is None <==> !parses_as_point(a@) || !parses_as_point(b@) || add_is_identity(a@, b@),
{
    let secp = secp256k1zkp::Secp256k1::new();
    let pa = match secp256k1zkp::key::PublicKey::from_slice(&secp, &a.bytes) {
        Ok(p) => p,
        Err(_) => return None,
    };
    let pb = match secp256k1zkp::key::PublicKey::from_slice(&secp, &b.bytes) {
        Ok(p) => p,
        Err(_) => return None,
    };
    match secp256k1zkp::key::PublicKey::from_combination(&secp, vec![&pa, &pb]) {
        Ok(q) => Some(Point { bytes: q.serialize_vec(&secp, true).to_vec() }),
        Err(_) => None,
    }
}

/// Relies on secp256k1zkp `PublicKey::from_slice` and `serialize_vec`: the
/// base point G parses as a valid public key and serializes back to its
/// standard compressed encoding.
#[verifier::external_body]
pub fn generator() -> (r: Point)
    ensures
        r.wf(),
        r@ == g_bytes(),
        parses_as_point(r@),
{
    let g: [u8; 33] = [
        0x02, 0x79, 0xbe, 0x66, 0x7e, 0xf9, 0xdc, 0xbb, 0xac, 0x55, 0xa0, 0x62, 0x95, 0xce, 0x87,
        0x0b, 0x07, 0x02, 0x9b, 0xfc, 0xdb, 0x2d, 0xce, 0x28, 0xd9, 0x59, 0xf2, 0x81, 0x5b, 0x16,
        0xf8, 0x17, 0x98,
    ];
    let secp = secp256k1zkp::Secp256k1::new();
    let p = secp256k1zkp::key::PublicKey::from_slice(&secp, &g).unwrap();
    Point { bytes: p.serialize_vec(&secp, true).to_vec() }
}

/// Relies on `rand::random`: 32 bytes from the thread-local CSPRNG. Nothing
/// is promised of their value.
#[verifier::external_body]
pub fn random_bytes() -> (r: Vec<u8>)
    ensures
        r@.len() == 32,
{
    let b: [u8; 32] = rand::random();
    b.to_vec()
}

/// A fresh random scalar, drawn until the backend accepts it as a valid
/// secret key. All but a negligible fraction of 32-byte strings are valid,
/// so the bounded retry never runs out in practice.
pub fn random_scalar() -> (r: Result<Scalar, Error>)
    ensures
        r matches Ok(s) ==> s.wf(),
        r is Err ==> r == Err::<Scalar, Error>(Error::Backend),
{
    let mut tries: usize = 0;
    while tries < 64
        invariant
            tries <= 64,
        decreases 64 - tries,
    {
        let b = random_bytes();
        let s = scalar_from_bytes(&b);
        match s {
            Some(s) => {
                return Ok(s);
            },
            None => {},
        }
        tries = tries + 1;
    }
    Err(Error::Backend)
}

/// A secret scalar together with its public point `pk = sk * G`.
pub struct KeyPair {
    pub sk: Scalar,
    pub pk: Point,
}

impl KeyPair {
    pub open spec fn wf(&self) -> bool {
        &&& self.sk.wf()
        &&& self.pk.wf()
        &&& self.pk@ == point_mul_of(g_bytes(), self.sk.val())
        &&& parses_as_point(self.pk@)
    }

    /// Derives the keypair whose secret key is the given 32 bytes; rejects
    /// exactly the byte strings that are not valid secret keys.
    pub fn from_bytes(b: &Vec<u8>) -> (r: Result<KeyPair, Error>)
        ensures
            r matches Ok(kp) ==> kp.wf() && kp.sk@ == b@,
            r is Ok <==> scalar_wf(b@),
            r is Err ==> r == Err::<KeyPair, Error>(Error::Backend),
    {
        let sk = match scalar_from_bytes(b) {
            Some(s) => s,
            None => {
                return Err(Error::Backend);
            },
        };
        let pk = base_mul(&sk);
        Ok(KeyPair { sk, pk })
    }

    /// A fresh keypair from the CSPRNG; fails only when the CSPRNG never
    /// yields a valid secret key.
    pub fn new_random() -> (r: Result<KeyPair, Error>)
        ensures
            r matches Ok(kp) ==> kp.wf(),
            r is Err ==> r == Err::<KeyPair, Error>(Error::Backend),
    {
        let sk = match random_scalar() {
            Ok(s) => s,
            Err(e) => {
                return Err(e);
            },
        };
        let pk = base_mul(&sk);
        Ok(KeyPair { sk, pk })
    }
}

impl Clone for Scalar {
    fn clone(&self) -> (r: Self)
        ensures
            r@ == self@,
    {
        let bytes = self.bytes.clone();
        assert(bytes@ =~= self.bytes@);
        Scalar { bytes }
    }
}

impl Clone for Point {
    fn clone(&self) -> (r: Self)
        ensures
            r@ == self@,
    {
        let bytes = self.bytes.clone();
        assert(bytes@ =~= self.bytes@);
        Point { bytes }
    }
}

impl Clone for KeyPair {
    fn clone(&self) -> (r: Self)
        ensures
            r.sk@ == self.sk@,
            r.pk@ == self.pk@,
    {
        KeyPair { sk: self.sk.clone(), pk: self.pk.clone() }
    }
}

/// The secret keys a party uses for one chain's signing ceremony: the signing
/// key and one nonce per transaction kind.
pub struct SKs {
    pub x: KeyPair,
    pub r_fund: KeyPair,
    pub r_redeem: KeyPair,
    pub r_refund: KeyPair,
}

/// The public projection of an `SKs` bundle; this is what is exchanged.
pub struct PKs {
    pub x: Point,
    pub r_fund: Point,
    pub r_redeem: Point,
    pub r_refund: Point,
}

/// Two public-key bundles that agree point for point.
pub open spec fn pks_view_eq(a: PKs, b: PKs) -> bool {
    &&& a.x@ == b.x@
    &&& a.r_fund@ == b.r_fund@
    &&& a.r_redeem@ == b.r_redeem@
    &&& a.r_refund@ == b.r_refund@
}

/// The canonical encoding of a public-key bundle: the four compressed points
/// in fixed order.
pub open spec fn pks_enc(p: PKs) -> Seq<u8> {
    p.x@ + p.r_fund@ + p.r_redeem@ + p.r_refund@
}

impl PKs {
    pub open spec fn wf(&self) -> bool {
        &&& self.x.wf()
        &&& self.r_fund.wf()
        &&& self.r_redeem.wf()
        &&& self.r_refund.wf()
    }

    pub fn encode(&self) -> (r: Vec<u8>)
        ensures
            r@ == pks_enc(*self),
    {
        let mut out: Vec<u8> = Vec::new();
        append_bytes(&mut out, &self.x.bytes);
        append_bytes(&mut out, &self.r_fund.bytes);
        append_bytes(&mut out, &self.r_redeem.bytes);
        append_bytes(&mut out, &self.r_refund.bytes);
        assert(out@ =~= pks_enc(*self));
        out
    }
}

impl Clone for PKs {
    fn clone(&self) -> (r: Self)
        ensures
            r.x@ == self.x@,
            r.r_fund@ == self.r_fund@,
            r.r_redeem@ == self.r_redeem@,
            r.r_refund@ == self.r_refund@,
    {
        PKs {
            x: self.x.clone(),
            r_fund: self.r_fund.clone(),
            r_redeem: self.r_redeem.clone(),
            r_refund: self.r_refund.clone(),
        }
    }
}

impl SKs {
    pub open spec fn wf(&self) -> bool {
        &&& self.x.wf()
        &&& self.r_fund.wf()
        &&& self.r_redeem.wf()
        &&& self.r_refund.wf()
    }

    /// The public bundle that `public` returns, as a value.
    pub open spec fn pks(&self) -> PKs {
        PKs {
            x: self.x.pk,
            r_fund: self.r_fund.pk,
            r_redeem: self.r_redeem.pk,
            r_refund: self.r_refund.pk,
        }
    }

    /// Generates a fresh secret bundle from the CSPRNG.
    pub fn keygen() -> (r: Result<SKs, Error>)
        ensures
            r matches Ok(sks) ==> sks.wf(),
            r is Err ==> r == Err::<SKs, Error>(Error::Backend),
    {
        let x = KeyPair::new_random()?;
        let r_fund = KeyPair::new_random()?;
        let r_redeem = KeyPair::new_random()?;
        let r_refund = KeyPair::new_random()?;
        Ok(SKs { x, r_fund, r_redeem, r_refund })
    }

    /// The public projection of the bundle.
    pub fn public(&self) -> (r: PKs)
        requires
            self.wf(),
        ensures
            r.wf(),
            r.x@ == self.x.pk@,
            r.r_fund@ == self.r_fund.pk@,
            r.r_redeem@ == self.r_redeem.pk@,
            r.r_refund@ == self.r_refund.pk@,
    {
        PKs {
            x: self.x.pk.clone(),
            r_fund: self.r_fund.pk.clone(),
            r_redeem: self.r_redeem.pk.clone(),
            r_refund: self.r_refund.pk.clone(),
        }
    }
}

/// Compares two byte strings.
pub fn bytes_eq(a: &Vec<u8>, b: &Vec<u8>) -> (r: bool)
    ensures
        r == (a@ == b@),
{
    if a.len() != b.len() {
        assert(a@ != b@);
        return false;
    }
    let mut i: usize = 0;
    while i < a.len()
        invariant
            0 <= i <= a.len(),
            a@.len() == b@.len(),
            forall|j: int| 0 <= j < i ==> a@[j] == b@[j],
        decreases a.len() - i,
    {
        if a[i] != b[i] {
            assert(a@ != b@);
            return false;
        }
        i = i + 1;
    }
    assert(a@ =~= b@);
    true
}

/// Appends `src` to `dst`.
pub fn append_bytes(dst: &mut Vec<u8>, src: &Vec<u8>)
    ensures
        final(dst)@ == old(dst)@ + src@,
{
    let mut i: usize = 0;
    while i < src.len()
        invariant
            0 <= i <= src.len(),
            dst@ == old(dst)@ + src@.take(i as int),
        decreases src.len() - i,
    {
        dst.push(src[i]);
        assert(dst@ == old(dst)@ + src@.take(i + 1 as int));
        i = i + 1;
    }
    assert(src@.take(src@.len() as int) =~= src@);
}

} // verus!

//! Calls into the hashing and MuSig2 crates, with what each is relied on for.
//! Keys, nonces, partial signatures and signatures cross this boundary in
//! their byte encodings: a roster is the ordered list of SEC1 public keys.
use vstd::prelude::*;

use musig2::secp::{MaybeScalar, Point, Scalar};
use musig2::{AggNonce, CompactSignature, FirstRound, KeyAggContext, PubNonce, SecNonceSpices};
use sha2::Digest;

verus! {

/// The order of the secp256k1 group.
pub open spec fn curve_order() -> nat {
    let b: nat = 0x1_0000_0000_0000_0000;
    ((0xFFFF_FFFF_FFFF_FFFFnat * b + 0xFFFF_FFFF_FFFF_FFFEnat) * b + 0xBAAE_DCE6_AF48_A03Bnat) * b
        + 0xBFD2_5E8C_D036_4141nat
}

/// The unsigned integer that `b` denotes, most significant byte first.
pub open spec fn be_value(b: Seq<u8>) -> nat
    decreases b.len(),
{
    if b.len() == 0 {
        0
    } else {
        be_value(b.drop_last()) * 256 + b.last() as nat
    }
}

/// `b` encodes a secret scalar: 32 big-endian bytes of a value in `[1, order)`.
pub open spec fn scalar_bytes_valid(b: Seq<u8>) -> bool {
    b.len() == 32 && 0 < be_value(b) < curve_order()
}

/// `b` encodes a partial signature: 32 big-endian bytes of a value below the order.
pub open spec fn partial_bytes_valid(b: Seq<u8>) -> bool {
    b.len() == 32 && be_value(b) < curve_order()
}

/// `b` is a SEC1 encoding of a point of secp256k1 other than infinity.
pub uninterp spec fn point_valid(b: Seq<u8>) -> bool;

/// `b` encodes a public nonce: two compressed points.
pub open spec fn nonce_valid(b: Seq<u8>) -> bool {
    b.len() == 66 && point_valid(b.subrange(0, 33)) && point_valid(b.subrange(33, 66))
}

/// Every key of the roster is a point.
pub open spec fn roster_valid(roster: Seq<Seq<u8>>) -> bool {
    forall|k: int| 0 <= k < roster.len() ==> point_valid(#[trigger] roster[k])
}

/// Every entry is a public nonce.
pub open spec fn nonces_valid(nonces: Seq<Seq<u8>>) -> bool {
    forall|k: int| 0 <= k < nonces.len() ==> nonce_valid(#[trigger] nonces[k])
}

/// Every entry is a partial signature.
pub open spec fn partials_valid(partials: Seq<Seq<u8>>) -> bool {
    forall|k: int| 0 <= k < partials.len() ==> partial_bytes_valid(#[trigger] partials[k])
}

/// The SHA-256 digest of a byte string.
pub uninterp spec fn sha256_of(data: Seq<u8>) -> Seq<u8>;

/// Whether key aggregation over the roster succeeds (its sum is not infinity).
pub uninterp spec fn key_agg_ok(roster: Seq<Seq<u8>>) -> bool;

/// The compressed aggregate public key of the roster.
pub uninterp spec fn agg_key_of(roster: Seq<Seq<u8>>) -> Seq<u8>;

/// Whether the secret key's public key is the point that `pubkey` encodes.
pub uninterp spec fn owns_key(secret: Seq<u8>, pubkey: Seq<u8>) -> bool;

/// Signer `i`'s public nonce, drawn from the seed and bound to its secret key
/// and the message.
pub uninterp spec fn public_nonce_of(
    roster: Seq<Seq<u8>>,
    secret: Seq<u8>,
    seed: Seq<u8>,
    i: nat,
    message: Seq<u8>,
) -> Seq<u8>;

/// Signer `i`'s partial signature under the nonces of all signers.
pub uninterp spec fn partial_of(
    roster: Seq<Seq<u8>>,
    secret: Seq<u8>,
    seed: Seq<u8>,
    i: nat,
    message: Seq<u8>,
    nonces: Seq<Seq<u8>>,
) -> Seq<u8>;

/// Whether `sig` is a valid partial signature of signer `i`.
pub uninterp spec fn partial_ok(
    roster: Seq<Seq<u8>>,
    i: nat,
    message: Seq<u8>,
    nonces: Seq<Seq<u8>>,
    sig: Seq<u8>,
) -> bool;

/// Whether the partial signatures sum to a signature valid under the aggregate key.
pub uninterp spec fn sig_agg_ok(
    roster: Seq<Seq<u8>>,
    message: Seq<u8>,
    nonces: Seq<Seq<u8>>,
    partials: Seq<Seq<u8>>,
) -> bool;

/// The 64-byte signature that the partial signatures sum to.
pub uninterp spec fn sig_agg_of(
    roster: Seq<Seq<u8>>,
    message: Seq<u8>,
    nonces: Seq<Seq<u8>>,
    partials: Seq<Seq<u8>>,
) -> Seq<u8>;

/// Whether `sig` is a valid BIP-340 signature of `message` under `pubkey`.
pub uninterp spec fn bip340_ok(pubkey: Seq<u8>, message: Seq<u8>, sig: Seq<u8>) -> bool;

/// The byte views of a list of byte strings.
pub open spec fn views(s: Seq<Vec<u8>>) -> Seq<Seq<u8>> {
    s.map_values(|v: Vec<u8>| v@)
}

/// Relies on sha2::Sha256::digest: the 32-byte SHA-256 digest of `data`.
#[verifier::external_body]
pub(crate) fn sha256(data: &[u8]) -> (r: [u8; 32])
    ensures
        r@ == sha256_of(data@),
{
    sha2::Sha256::digest(data).into()
}

/// Relies on secp::Scalar::from_slice (k256 backend): it accepts exactly 32
/// big-endian bytes of a non-zero value below the group order.
#[verifier::external_body]
pub(crate) fn scalar_valid(b: &[u8]) -> (r: bool)
    ensures
        r == scalar_bytes_valid(b@),
{
    Scalar::from_slice(b).is_ok()
}

/// Relies on secp::Point::from_slice: it accepts the SEC1 encodings of
/// points other than infinity.
#[verifier::external_body]
pub(crate) fn point_bytes_valid(b: &[u8]) -> (r: bool)
    ensures
        r == point_valid(b@),
{
    Point::from_slice(b).is_ok()
}

/// Relies on musig2::PubNonce::from_bytes: 66 bytes, two points parsed by
/// secp::Point::from_slice.
#[verifier::external_body]
pub(crate) fn nonce_bytes_valid(b: &[u8]) -> (r: bool)
    ensures
        r == nonce_valid(b@),
{
    PubNonce::from_bytes(b).is_ok()
}

/// Relies on secp::MaybeScalar::from_slice: 32 big-endian bytes of a value
/// below the group order, zero included.
#[verifier::external_body]
pub(crate) fn partial_valid(b: &[u8]) -> (r: bool)
    ensures
        r == partial_bytes_valid(b@),
{
    MaybeScalar::from_slice(b).is_ok()
}

/// Relies on musig2::KeyAggContext::new (which panics on no keys or more
/// than `u32::MAX`) and KeyAggContext::aggregated_pubkey, serialised by
/// secp::Point::serialize: the aggregate key, a point, in compressed form.
#[verifier::external_body]
pub(crate) fn aggregate_key(roster: &Vec<Vec<u8>>) -> (r: Result<Vec<u8>, String>)
    requires
        1 <= roster@.len() <= u32::MAX,
        roster_valid(views(roster@)),
    ensures
        r is Ok <==> key_agg_ok(views(roster@)),
        r matches Ok(k) ==> k@ == agg_key_of(views(roster@)) && point_valid(k@),
{
    let points = roster.iter().map(|b| Point::from_slice(b).unwrap());
    let ctx = KeyAggContext::new(points).map_err(|e| e.to_string())?;
    Ok(ctx.aggregated_pubkey::<Point>().serialize().to_vec())
}

/// Relies on musig2::FirstRound::new and FirstRound::our_public_nonce: the
/// nonce pair of signer `i` from the seed, bound to the secret key and the
/// message; it fails exactly when the secret key is not signer `i`'s.
#[verifier::external_body]
pub(crate) fn first_round_nonce(
    roster: &Vec<Vec<u8>>,
    secret: &[u8],
    seed: [u8; 32],
    i: usize,
    message: &[u8],
) -> (r: Result<Vec<u8>, String>)
    requires
        1 <= roster@.len() <= u32::MAX,
        roster_valid(views(roster@)),
        key_agg_ok(views(roster@)),
        i < roster@.len(),
        scalar_bytes_valid(secret@),
    ensures
        r is Ok <==> owns_key(secret@, roster@[i as int]@),
        r matches Ok(n) ==> n@ == public_nonce_of(views(roster@), secret@, seed@, i as nat, message@)
            && nonce_valid(n@),
{
    let ctx = KeyAggContext::new(roster.iter().map(|b| Point::from_slice(b).unwrap())).unwrap();
    let spices = SecNonceSpices::new().with_seckey(Scalar::from_slice(secret).unwrap()).with_message(&message);
    let round = FirstRound::new(ctx, seed, i, spices).map_err(|e| e.to_string())?;
    Ok(round.our_public_nonce().serialize().to_vec())
}

/// Relies on musig2::FirstRound::sign_for_aggregator over the nonces summed
/// by musig2::AggNonce::sum: signer `i`'s partial signature. Its failures
/// (a secret key outside the roster or not matching the nonce) are excluded.
#[verifier::external_body]
pub(crate) fn sign_partial(
    roster: &Vec<Vec<u8>>,
    secret: &[u8],
    seed: [u8; 32],
    i: usize,
    message: &[u8],
    nonces: &Vec<Vec<u8>>,
) -> (r: Vec<u8>)
    requires
        1 <= roster@.len() <= u32::MAX,
        roster_valid(views(roster@)),
        key_agg_ok(views(roster@)),
        i < roster@.len(),
        scalar_bytes_valid(secret@),
        owns_key(secret@, roster@[i as int]@),
        nonces_valid(views(nonces@)),
    ensures
        r@ == partial_of(views(roster@), secret@, seed@, i as nat, message@, views(nonces@)),
        partial_bytes_valid(r@),
{
    let ctx = KeyAggContext::new(roster.iter().map(|b| Point::from_slice(b).unwrap())).unwrap();
    let sk = Scalar::from_slice(secret).unwrap();
    let round = FirstRound::new(ctx, seed, i, SecNonceSpices::new().with_seckey(sk).with_message(&message)).unwrap();
    let agg = AggNonce::sum(nonces.iter().map(|b| PubNonce::from_bytes(b).unwrap()));
    round.sign_for_aggregator::<MaybeScalar>(sk, message, &agg).unwrap().serialize().to_vec()
}

/// Relies on musig2::verify_partial: whether signer `i`'s partial signature
/// is valid for its key and nonce under the summed nonces.
#[verifier::external_body]
pub(crate) fn verify_partial(
    roster: &Vec<Vec<u8>>,
    i: usize,
    message: &[u8],
    nonces: &Vec<Vec<u8>>,
    sig: &[u8],
) -> (r: bool)
    requires
        1 <= roster@.len() <= u32::MAX,
        roster_valid(views(roster@)),
        key_agg_ok(views(roster@)),
        i < roster@.len(),
        nonces@.len() == roster@.len(),
        nonces_valid(views(nonces@)),
        partial_bytes_valid(sig@),
    ensures
        r == partial_ok(views(roster@), i as nat, message@, views(nonces@), sig@),
{
    let ctx = KeyAggContext::new(roster.iter().map(|b| Point::from_slice(b).unwrap())).unwrap();
    let agg = AggNonce::sum(nonces.iter().map(|b| PubNonce::from_bytes(b).unwrap()));
    let pk = Point::from_slice(&roster[i]).unwrap();
    let nonce = PubNonce::from_bytes(&nonces[i]).unwrap();
    musig2::verify_partial(&ctx, MaybeScalar::from_slice(sig).unwrap(), &agg, pk, &nonce, message).is_ok()
}

/// Relies on musig2::aggregate_partial_signatures: the sum of the partial
/// signatures as a 64-byte signature; it fails unless the sum verifies.
#[verifier::external_body]
pub(crate) fn aggregate_signature(
    roster: &Vec<Vec<u8>>,
    message: &[u8],
    nonces: &Vec<Vec<u8>>,
    partials: &Vec<Vec<u8>>,
) -> (r: Result<Vec<u8>, String>)
    requires
        1 <= roster@.len() <= u32::MAX,
        roster_valid(views(roster@)),
        key_agg_ok(views(roster@)),
        nonces_valid(views(nonces@)),
        partials_valid(views(partials@)),
    ensures
        r is Ok <==> sig_agg_ok(views(roster@), message@, views(nonces@), views(partials@)),
        r matches Ok(s) ==> s@ == sig_agg_of(views(roster@), message@, views(nonces@), views(partials@))
            && s@.len() == 64,
{
    let ctx = KeyAggContext::new(roster.iter().map(|b| Point::from_slice(b).unwrap())).unwrap();
    let agg = AggNonce::sum(nonces.iter().map(|b| PubNonce::from_bytes(b).unwrap()));
    let sigs = partials.iter().map(|b| MaybeScalar::from_slice(b).unwrap());
    let sig: CompactSignature = musig2::aggregate_partial_signatures(&ctx, &agg, sigs, message).map_err(|e| e.to_string())?;
    Ok(sig.serialize().to_vec())
}

/// Relies on musig2::verify_single: whether `sig` is a valid BIP-340
/// signature of `message` under the point `pubkey`.
#[verifier::external_body]
pub(crate) fn verify_signature(pubkey: &[u8], message: &[u8], sig: &[u8]) -> (r: bool)
    requires
        point_valid(pubkey@),
    ensures
        r == bip340_ok(pubkey@, message@, sig@),
{
    let pk = Point::from_slice(pubkey).unwrap();
    CompactSignature::from_bytes(sig).map_or(false, |s| musig2::verify_single(pk, s, message).is_ok())
}

/// Relies on rand::random: 32 bytes from the thread-local CSPRNG. Nothing is
/// claimed of their value.
#[verifier::external_body]
pub(crate) fn fresh_nonce_seed() -> (r: [u8; 32]) {
    rand::random::<[u8; 32]>()
}

} // verus!

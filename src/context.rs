use vstd::prelude::*;

use crate::crypto::{sha256, sha256_of};
use vstd::string::StringSliceAdditionalSpecFns;

verus! {

/// Domain-separation salt of the first hashing stage.
pub const META_SALT: &'static str = "schnorrkel-musig-protocol";

/// Big-endian encoding of the low `k` bytes of `x`.
pub open spec fn be_bytes(x: nat, k: nat) -> Seq<u8>
    decreases k,
{
    if k == 0 {
        Seq::empty()
    } else {
        be_bytes(x / 256, (k - 1) as nat).push((x % 256) as u8)
    }
}

/// What the first stage hashes: `n`, the protocol and call identifiers,
/// each big-endian, followed by the bytes of the salt.
pub open spec fn meta_preimage(n: u16, blueprint_id: u64, call_id: u64, salt: Seq<u8>) -> Seq<u8> {
    be_bytes(n as nat, 2) + be_bytes(blueprint_id as nat, 8) + be_bytes(call_id as nat, 8) + salt
}

/// Appends the `k` low bytes of `x` to `out`, most significant first.
fn push_be(out: &mut Vec<u8>, x: u64, k: usize)
    requires
        k <= 8,
    ensures
        final(out)@ == old(out)@ + be_bytes(x as nat, k as nat),
    decreases k,
{
    if k > 0 {
        push_be(out, x / 256, k - 1);
        out.push((x % 256) as u8);
        assert(final(out)@ =~= old(out)@ + be_bytes(x as nat, k as nat));
    } else {
        assert(final(out)@ =~= old(out)@ + be_bytes(x as nat, k as nat));
    }
}

/// Derives the session identifiers: `meta = H(n ‖ blueprint_id ‖ call_id ‖ META_SALT)`
/// and `eid = H(meta ‖ salt)`, where the integers are big-endian.
pub fn compute_deterministic_hashes(n: u16, blueprint_id: u64, call_id: u64, salt: &str) -> (r: (
    [u8; 32],
    [u8; 32],
))
    ensures
        r.0@ == sha256_of(meta_preimage(n, blueprint_id, call_id, META_SALT.spec_bytes())),
        r.1@ == sha256_of(r.0@ + salt.spec_bytes()),
{
    let mut pre: Vec<u8> = Vec::new();
    push_be(&mut pre, n as u64, 2);
    push_be(&mut pre, blueprint_id, 8);
    push_be(&mut pre, call_id, 8);
    let meta_salt = META_SALT.as_bytes();
    let mut i: usize = 0;
    let ghost start = pre@;
    while i < meta_salt.len()
        invariant
            i <= meta_salt@.len(),
            pre@ == start + meta_salt@.subrange(0, i as int),
        decreases meta_salt@.len() - i,
    {
        pre.push(meta_salt[i]);
        i = i + 1;
        assert(pre@ =~= start + meta_salt@.subrange(0, i as int));
    }
    assert(meta_salt@.subrange(0, i as int) =~= meta_salt@);
    assert(be_bytes(n as u64 as nat, 2) == be_bytes(n as nat, 2));
    let meta = sha256(pre.as_slice());
    let mut second: Vec<u8> = Vec::new();
    let salt_bytes = salt.as_bytes();
    let mut j: usize = 0;
    while j < 32
        invariant
            j <= 32,
            second@ == meta@.subrange(0, j as int),
        decreases 32 - j,
    {
        second.push(meta[j]);
        j = j + 1;
        assert(second@ =~= meta@.subrange(0, j as int));
    }
    let ghost mid = second@;
    let mut k: usize = 0;
    while k < salt_bytes.len()
        invariant
            k <= salt_bytes@.len(),
            second@ == mid + salt_bytes@.subrange(0, k as int),
        decreases salt_bytes@.len() - k,
    {
        second.push(salt_bytes[k]);
        k = k + 1;
        assert(second@ =~= mid + salt_bytes@.subrange(0, k as int));
    }
    assert(salt_bytes@.subrange(0, k as int) =~= salt_bytes@);
    assert(meta@.subrange(0, 32) =~= meta@);
    let eid = sha256(second.as_slice());
    (meta, eid)
}

} // verus!

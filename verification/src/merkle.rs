//! Merkle-proof verification over SHA-256, as the airdrop and the batch verifier use it.
use vstd::prelude::*;

use crate::addr::{addr_lt_spec, bytes_lt, is_address_strkey, lemma_lt_trichotomy, Addr};

verus! {

/// SHA-256 of a byte string, as the Soroban host computes it.
pub uninterp spec fn sha256_spec(data: Seq<u8>) -> Seq<u8>;

/// Largest input hashed in one call. The host meters hashing against the budget of the
/// environment (100M CPU instructions by default, about 55 per byte), so inputs are kept far
/// below the size that would exhaust it.
pub const MAX_HASH_INPUT: usize = 65_536;

/// Largest leaf or sibling accepted in a proof: two of them fit one hash input.
pub const MAX_NODE_BYTES: usize = 32_768;

/// SHA-256 of `data`, computed by the Soroban host (`soroban_sdk::crypto::Crypto::sha256`).
/// Claimed: the digest depends on the bytes alone (it is named `sha256_spec`) and is 32
/// bytes long, as its `Hash<32>` type shows. Inputs are limited to `MAX_HASH_INPUT` bytes,
/// within the host's budget.
#[verifier::external_body]
pub(crate) fn sha256(data: &Vec<u8>) -> (r: Vec<u8>)
    requires
        data@.len() <= MAX_HASH_INPUT,
    ensures
        r@ == sha256_spec(data@),
        r@.len() == 32,
{
    let env = soroban_sdk::Env::default();
    let bytes = soroban_sdk::Bytes::from_slice(&env, data.as_slice());
    env.crypto().sha256(&bytes).to_array().to_vec()
}

/// 256 to the power `k`.
pub open spec fn pow256(k: nat) -> int
    decreases k,
{
    if k == 0 { 1 } else { 256 * pow256((k - 1) as nat) }
}

/// XDR of an `i128` as a Soroban value: the `SCV_I128` tag (10) as a big-endian 32-bit
/// word, then the 128-bit two's complement value, big-endian (its `hi` then `lo` half).
pub open spec fn i128_xdr_spec(v: i128) -> Seq<u8> {
    let u: int = if v >= 0 { v as int } else { v + pow256(16) };
    seq![0u8, 0u8, 0u8, 10u8] + Seq::new(16, |k: int| ((u / pow256((15 - k) as nat)) % 256) as u8)
}

/// 256 to any power is positive, and one more power multiplies by 256.
proof fn lemma_pow256(k: nat)
    ensures
        pow256(k) > 0,
        pow256(k + 1) == pow256(k) * 256,
    decreases k,
{
    if k > 0 {
        lemma_pow256((k - 1) as nat);
    }
}

/// XDR of an `i128` as a Soroban value, the encoding `soroban_sdk::xdr::ToXdr::to_xdr`
/// produces: the `SCV_I128` tag as a big-endian word, then the two's complement value,
/// big-endian.
pub fn i128_xdr(v: i128) -> (r: Vec<u8>)
    ensures
        r@ == i128_xdr_spec(v),
{
    let ghost ui: int = if v >= 0 { v as int } else { v + pow256(16) };
    assert(pow256(16) == 0x1_0000_0000_0000_0000_0000_0000_0000_0000) by {
        reveal_with_fuel(pow256, 17);
    }
    let u: u128 = if v >= 0 {
        v as u128
    } else {
        let shifted: i128 = v + i128::MAX + 1;
        shifted as u128 + 0x8000_0000_0000_0000_0000_0000_0000_0000u128
    };
    assert(u as int == ui);
    let mut bytes: Vec<u8> = vec![0u8; 16];
    let mut x: u128 = u;
    let mut j: usize = 0;
    while j < 16
        invariant
            j <= 16,
            bytes@.len() == 16,
            ui == u as int,
            ui >= 0,
            x as int == ui / pow256(j as nat),
            forall|i: int| 16 - j <= i < 16 ==> #[trigger] bytes@[i] == ((ui / pow256((15 - i) as nat)) % 256) as u8,
        decreases 16 - j,
    {
        proof {
            lemma_pow256(j as nat);
            vstd::arithmetic::div_mod::lemma_div_denominator(ui, pow256(j as nat), 256);
        }
        bytes.set(15 - j, (x % 256) as u8);
        x = x / 256;
        j += 1;
    }
    let mut out: Vec<u8> = vec![0u8, 0u8, 0u8, 10u8];
    let mut k: usize = 0;
    while k < 16
        invariant
            k <= 16,
            bytes@.len() == 16,
            out@ == seq![0u8, 0u8, 0u8, 10u8] + bytes@.subrange(0, k as int),
        decreases 16 - k,
    {
        out.push(bytes[k]);
        assert(bytes@.subrange(0, k + 1) == bytes@.subrange(0, k as int).push(bytes@[k as int]));
        k += 1;
    }
    assert(bytes@.subrange(0, 16) == bytes@);
    assert(bytes@ =~= Seq::new(16, |k: int| ((ui / pow256((15 - k) as nat)) % 256) as u8));
    out
}

/// XDR of the Soroban value of an address, given the bytes of its strkey.
pub uninterp spec fn address_xdr_spec(strkey: Seq<u8>) -> Seq<u8>;

/// XDR of an address as a Soroban value (`ScVal::Address`), from the bytes of its strkey:
/// parsed by `soroban_sdk::xdr::ScAddress::from_str` and encoded by
/// `soroban_sdk::xdr::WriteXdr::to_xdr`, which does not fail on a parsed address without
/// limits. Claimed: a result comes exactly when the bytes are an address strkey
/// (`is_address_strkey`); its bytes depend on the strkey alone (named `address_xdr_spec`)
/// and are at most 48 long (the value and address tags, 4 bytes each, and at most a 40-byte
/// payload, the muxed account's).
#[verifier::external_body]
pub(crate) fn address_xdr(a: &Addr) -> (r: Option<Vec<u8>>)
    ensures
        r is Some <==> is_address_strkey(a@),
        r matches Some(v) ==> v@ == address_xdr_spec(a@) && v@.len() <= 48,
{
    let text = core::str::from_utf8(&a.bytes).ok()?;
    let sc: soroban_sdk::xdr::ScAddress = text.parse().ok()?;
    let val = soroban_sdk::xdr::ScVal::Address(sc);
    soroban_sdk::xdr::WriteXdr::to_xdr(&val, soroban_sdk::xdr::Limits::none()).ok()
}

/// The pair of two nodes in ascending byte order, concatenated.
pub open spec fn sorted_pair(a: Seq<u8>, b: Seq<u8>) -> Seq<u8> {
    if addr_lt_spec(a, b) { a + b } else { b + a }
}

/// Root reached from `leaf` through the first `n` siblings, pairing in ascending order.
pub open spec fn sorted_root(leaf: Seq<u8>, proof: Seq<Seq<u8>>, n: int) -> Seq<u8>
    decreases n,
{
    if n <= 0 { leaf } else { sha256_spec(sorted_pair(sorted_root(leaf, proof, n - 1), proof[n - 1])) }
}

/// Root reached from `leaf` through the first `n` steps, each a sibling and whether it
/// goes on the left.
pub open spec fn directed_root(leaf: Seq<u8>, proof: Seq<(Seq<u8>, bool)>, n: int) -> Seq<u8>
    decreases n,
{
    if n <= 0 {
        leaf
    } else {
        let (sibling, is_left) = proof[n - 1];
        let cur = directed_root(leaf, proof, n - 1);
        sha256_spec(if is_left { sibling + cur } else { cur + sibling })
    }
}

/// The byte views of a list of byte strings.
pub open spec fn views(v: Seq<Vec<u8>>) -> Seq<Seq<u8>> {
    v.map_values(|x: Vec<u8>| x@)
}

/// The byte views of a list of (sibling, is-left) steps.
pub open spec fn step_views(v: Seq<(Vec<u8>, bool)>) -> Seq<(Seq<u8>, bool)> {
    v.map_values(|x: (Vec<u8>, bool)| (x.0@, x.1))
}

/// Concatenation of two byte strings.
fn concat(a: &Vec<u8>, b: &Vec<u8>) -> (r: Vec<u8>)
    ensures
        r@ == a@ + b@,
{
    let mut out = a.clone();
    assert(out@ == a@);
    let n = b.len();
    let mut i: usize = 0;
    while i < n
        invariant
            i <= n,
            n == b@.len(),
            out@ == a@ + b@.subrange(0, i as int),
        decreases n - i,
    {
        out.push(b[i]);
        assert(b@.subrange(0, i + 1) == b@.subrange(0, i as int).push(b@[i as int]));
        i += 1;
    }
    assert(b@.subrange(0, n as int) == b@);
    out
}

/// Checks a proof whose pairs are hashed in ascending byte order: the leaf, combined with
/// each sibling in turn, must lead to the root.
pub fn verify_sorted_proof(proof: &Vec<Vec<u8>>, root: &Vec<u8>, leaf: Vec<u8>) -> (r: bool)
    requires
        leaf@.len() <= MAX_NODE_BYTES,
        forall|i: int| 0 <= i < proof@.len() ==> (#[trigger] proof@[i])@.len() <= MAX_NODE_BYTES,
    ensures
        r == (sorted_root(leaf@, views(proof@), proof@.len() as int) == root@),
{
    let mut computed = leaf;
    let n = proof.len();
    let mut i: usize = 0;
    while i < n
        invariant
            i <= n,
            n == proof@.len(),
            computed@ == sorted_root(leaf@, views(proof@), i as int),
            computed@.len() <= MAX_NODE_BYTES,
            forall|k: int| 0 <= k < proof@.len() ==> (#[trigger] proof@[k])@.len() <= MAX_NODE_BYTES,
        decreases n - i,
    {
        let p = &proof[i];
        let data = if bytes_lt(&computed, p) { concat(&computed, p) } else { concat(p, &computed) };
        computed = sha256(&data);
        i += 1;
    }
    bytes_eq(&computed, root)
}

/// Checks a proof whose steps say on which side each sibling goes.
pub fn verify_directed_proof(root: &Vec<u8>, leaf: &Vec<u8>, proof: &Vec<(Vec<u8>, bool)>) -> (r: bool)
    requires
        leaf@.len() <= MAX_NODE_BYTES,
        forall|i: int| 0 <= i < proof@.len() ==> (#[trigger] proof@[i]).0@.len() <= MAX_NODE_BYTES,
    ensures
        r == (directed_root(leaf@, step_views(proof@), proof@.len() as int) == root@),
{
    let mut current = leaf.clone();
    assert(current@ == leaf@);
    let n = proof.len();
    let mut i: usize = 0;
    while i < n
        invariant
            i <= n,
            n == proof@.len(),
            current@ == directed_root(leaf@, step_views(proof@), i as int),
            current@.len() <= MAX_NODE_BYTES,
            forall|k: int| 0 <= k < proof@.len() ==> (#[trigger] proof@[k]).0@.len() <= MAX_NODE_BYTES,
        decreases n - i,
    {
        let (sibling, is_left) = (&proof[i].0, proof[i].1);
        let combined = if is_left { concat(sibling, &current) } else { concat(&current, sibling) };
        current = sha256(&combined);
        i += 1;
    }
    bytes_eq(&current, root)
}

/// Whether two byte strings are equal.
pub fn bytes_eq(a: &Vec<u8>, b: &Vec<u8>) -> (r: bool)
    ensures
        r == (a@ == b@),
{
    let n = a.len();
    if n != b.len() {
        return false;
    }
    let mut i: usize = 0;
    while i < n
        invariant
            i <= n,
            n == a@.len(),
            n == b@.len(),
            forall|j: int| 0 <= j < i ==> a@[j] == b@[j],
        decreases n - i,
    {
        if a[i] != b[i] {
            return false;
        }
        i += 1;
    }
    assert(a@ =~= b@);
    true
}

// ── Laws ────────────────────────────────────────────────────────────────────

/// Pairing in ascending order does not depend on which node is the sibling: the combined
/// bytes of (a, b) and (b, a) are the same.
pub proof fn lemma_sorted_pair_symmetric(a: Seq<u8>, b: Seq<u8>)
    ensures
        sorted_pair(a, b) == sorted_pair(b, a),
{
    lemma_lt_trichotomy(a, b);
}

} // verus!

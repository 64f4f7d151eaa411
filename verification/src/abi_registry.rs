//! Registry of contract ABIs with hashing, bounded version history and rollback.
use vstd::prelude::*;

use crate::addr::{addr_views, Addr};
use crate::signer_set::{remove_all, without};
use crate::error::{is_err, ContractError};

verus! {

broadcast use vstd::array::group_array_axioms;

/// Largest accepted ABI, in bytes.
pub const MAX_ABI_SIZE: u32 = 65536;
/// Number of versions kept per contract.
pub const MAX_VERSION_HISTORY: u32 = 100;
/// Offset basis of the ABI hash.
pub const FNV_OFFSET: u64 = 2166136261;
/// Multiplier of the ABI hash.
pub const FNV_PRIME: u64 = 1099511628211;

/// One recorded version of a contract's ABI.
pub struct AbiVersion {
    pub version: u32,
    pub abi_hash: [u8; 32],
    pub created_at: u64,
    pub note: String,
}

/// Everything recorded for a registered contract.
pub struct ContractAbiMetadata {
    pub contract_id: Addr,
    pub name: String,
    pub description: String,
    pub version: u32,
    pub abi_data: Vec<u8>,
    pub abi_hash: [u8; 32],
    pub verified: bool,
    pub added_at: u64,
    pub updated_at: u64,
    pub version_history: Vec<AbiVersion>,
}

/// The registry's notifications.
pub enum AbiRegistryEvent {
    /// A contract was registered: (contract, name, version).
    Registered(Addr, String, u32),
    /// An ABI was updated: (contract, new version, ABI hash).
    Updated(Addr, u32, [u8; 32]),
    /// A contract was rolled back: (contract, version).
    RolledBack(Addr, u32),
    /// A contract was verified.
    Verified(Addr),
    /// A contract was removed.
    Removed(Addr),
}

/// The registry's instance state.
pub struct AbiRegistry {
    pub admin: Addr,
    pub next_contract_id: u64,
    pub verified_contracts: Vec<Addr>,
}

/// Result of `update`.
pub struct AbiUpdated {
    /// The contract's version after the call.
    pub version: u32,
    /// Whether anything changed: false when the ABI hash is unchanged.
    pub changed: bool,
    /// The metadata to store; its history is also the contract's version history.
    pub metadata: ContractAbiMetadata,
}

// ── Mathematical model ──────────────────────────────────────────────────────

/// The hash state after the first `n` bytes.
pub open spec fn fnv_state(data: Seq<u8>, n: nat) -> u64
    decreases n,
{
    if n == 0 {
        FNV_OFFSET
    } else {
        let h = fnv_state(data, (n - 1) as nat);
        (h ^ (data[n - 1] as u64)).wrapping_mul(FNV_PRIME)
    }
}

/// Byte `i` of the ABI hash: the state after byte i, shifted right by (i % 8) * 8 bits and
/// truncated, for the first 32 bytes of the data; 0 beyond the data.
pub open spec fn abi_hash_byte(data: Seq<u8>, i: int) -> u8 {
    if 0 <= i < data.len() {
        (fnv_state(data, (i + 1) as nat) >> (((i % 8) * 8) as u64)) as u8
    } else {
        0
    }
}

/// The size check: the length, truncated to 32 bits, above the limit.
pub open spec fn abi_too_large(data: Seq<u8>) -> bool {
    (data.len() as u32) > MAX_ABI_SIZE
}

/// The history after appending a version: the oldest one dropped when the history is full.
pub open spec fn appended_history(h: Seq<AbiVersion>, v: AbiVersion) -> Seq<AbiVersion> {
    if (h.len() as u32) >= MAX_VERSION_HISTORY { h.drop_first().push(v) } else { h.push(v) }
}

/// Index of the first version with the given number, if any.
pub open spec fn first_version_index(h: Seq<AbiVersion>, target: u32) -> Option<int> {
    if exists|i: int| 0 <= i < h.len() && (#[trigger] h[i]).version == target {
        let i = choose|i: int| 0 <= i < h.len() && (#[trigger] h[i]).version == target
            && forall|j: int| 0 <= j < i ==> (#[trigger] h[j]).version != target;
        Some(i)
    } else {
        None
    }
}

/// The time recorded for an event at ledger time `now`: the ledger time, and 1 at ledger
/// time 0, so that a recorded time is always positive.
pub open spec fn record_time_spec(now: u64) -> u64 {
    if now == 0 { 1 } else { now }
}

// ── Executable functions ────────────────────────────────────────────────────

/// The time to record at ledger time `now`.
pub fn record_time(now: u64) -> (r: u64)
    ensures
        r == record_time_spec(now),
        r > 0,
{
    if now == 0 { 1 } else { now }
}

/// The 32-byte FNV-style hash of an ABI: byte i is the running state after byte i shifted
/// by (i % 8) * 8 bits, for the first 32 bytes; the remaining bytes are 0.
pub fn calculate_hash(data: &Vec<u8>) -> (r: [u8; 32])
    ensures
        forall|i: int| 0 <= i < 32 ==> r@[i] == #[trigger] abi_hash_byte(data@, i),
{
    let mut hash = [0u8; 32];
    let mut hash_val: u64 = FNV_OFFSET;
    let n = data.len();
    for i in 0..n
        invariant
            n == data@.len(),
            hash_val == fnv_state(data@, i as nat),
            forall|k: int| 0 <= k < 32 ==> hash@[k] == (if k < i { abi_hash_byte(data@, k) } else { 0u8 }),
    {
        let byte = data[i];
        hash_val = hash_val ^ (byte as u64);
        hash_val = hash_val.wrapping_mul(FNV_PRIME);
        if i < 32 {
            let shift: u64 = ((i % 8) * 8) as u64;
            hash[i] = (hash_val >> shift) as u8;
        }
    }
    hash
}

/// Whether two hashes are equal.
pub fn hash_eq(a: &[u8; 32], b: &[u8; 32]) -> (r: bool)
    ensures
        r == (a@ == b@),
{
    for i in 0..32
        invariant
            a@.len() == 32,
            b@.len() == 32,
            forall|j: int| 0 <= j < i ==> a@[j] == b@[j],
    {
        if a[i] != b[i] {
            return false;
        }
    }
    assert(a@ =~= b@);
    true
}

fn copy_hash(a: &[u8; 32]) -> (r: [u8; 32])
    ensures
        r@ == a@,
{
    let mut out = [0u8; 32];
    for i in 0..32
        invariant
            a@.len() == 32,
            out@.len() == 32,
            forall|j: int| 0 <= j < i ==> out@[j] == a@[j],
    {
        out[i] = a[i];
    }
    assert(out@ =~= a@);
    out
}

impl AbiRegistry {
    /// A fresh registry with no verified contracts.
    pub fn initialize(admin: Addr) -> (r: AbiRegistry)
        ensures
            r.admin@ == admin@,
            r.next_contract_id == 1,
            r.verified_contracts@.len() == 0,
    {
        AbiRegistry { admin, next_contract_id: 1, verified_contracts: Vec::new() }
    }
}

/// Registers a contract's ABI as version 1. Refused when the contract is registered and
/// when the ABI exceeds the size limit.
pub fn register(
    already_registered: bool,
    contract_id: Addr,
    name: String,
    description: String,
    abi_data: Vec<u8>,
    note: String,
    now: u64,
) -> (r: Result<ContractAbiMetadata, ContractError>)
    ensures
        already_registered ==> is_err(r, ContractError::ContractAlreadyRegistered),
        (!already_registered && abi_too_large(abi_data@)) ==> is_err(r, ContractError::AbiTooLarge),
        (!already_registered && !abi_too_large(abi_data@)) <==> r is Ok,
        r matches Ok(m) ==> {
            &&& m.contract_id@ == contract_id@
            &&& m.name@ == name@
            &&& m.description@ == description@
            &&& m.version == 1
            &&& m.abi_data@ == abi_data@
            &&& forall|i: int| 0 <= i < 32 ==> m.abi_hash@[i] == #[trigger] abi_hash_byte(abi_data@, i)
            &&& !m.verified
            &&& m.added_at == record_time_spec(now)
            &&& m.added_at > 0
            &&& m.updated_at == record_time_spec(now)
            &&& m.version_history@.len() == 1
            &&& m.version_history@[0].version == 1
            &&& m.version_history@[0].abi_hash@ == m.abi_hash@
            &&& m.version_history@[0].created_at == record_time_spec(now)
            &&& m.version_history@[0].note@ == note@
        },
{
    if already_registered {
        return Err(ContractError::ContractAlreadyRegistered);
    }
    if (#[verifier::truncate] (abi_data.len() as u32)) > MAX_ABI_SIZE {
        return Err(ContractError::AbiTooLarge);
    }
    let abi_hash = calculate_hash(&abi_data);
    let mut history: Vec<AbiVersion> = Vec::new();
    history.push(AbiVersion { version: 1, abi_hash: copy_hash(&abi_hash), created_at: record_time(now), note });
    Ok(ContractAbiMetadata {
        contract_id,
        name,
        description,
        version: 1,
        abi_data,
        abi_hash,
        verified: false,
        added_at: record_time(now),
        updated_at: record_time(now),
        version_history: history,
    })
}

/// Updates a contract's ABI. Refused for an unregistered contract and an oversized ABI;
/// an unchanged hash changes nothing; otherwise the version grows by one and the new
/// version joins the history (dropping the oldest when the history is full).
pub fn update(
    metadata: Option<ContractAbiMetadata>,
    version_history: Vec<AbiVersion>,
    abi_data: Vec<u8>,
    note: String,
    now: u64,
) -> (r: Result<AbiUpdated, ContractError>)
    ensures
        metadata is None ==> is_err(r, ContractError::ContractNotRegistered),
        (metadata is Some && abi_too_large(abi_data@)) ==> is_err(r, ContractError::AbiTooLarge),
        r matches Err(e) ==> e == ContractError::ContractNotRegistered || e == ContractError::AbiTooLarge
            || e == ContractError::Overflow,
        (metadata is Some && !abi_too_large(abi_data@) && ((forall|i: int| 0 <= i < 32
            ==> metadata.unwrap().abi_hash@[i] == #[trigger] abi_hash_byte(abi_data@, i))
            || metadata.unwrap().version < u32::MAX)) <==> r is Ok,
        r matches Ok(u) ==> {
            let m = metadata.unwrap();
            let unchanged = forall|i: int| 0 <= i < 32 ==> m.abi_hash@[i] == #[trigger] abi_hash_byte(abi_data@, i);
            &&& metadata is Some
            &&& !abi_too_large(abi_data@)
            &&& (unchanged <==> !u.changed)
            &&& (!u.changed ==> u.version == m.version && u.metadata == m)
            &&& (u.changed ==> {
                &&& u.version == m.version + 1
                &&& u.metadata.version == u.version
                &&& u.metadata.abi_data@ == abi_data@
                &&& (forall|i: int| 0 <= i < 32 ==> u.metadata.abi_hash@[i] == #[trigger] abi_hash_byte(abi_data@, i))
                &&& u.metadata.updated_at == record_time_spec(now)
                &&& u.metadata.added_at == m.added_at
                &&& u.metadata.verified == m.verified
                &&& u.metadata.contract_id@ == m.contract_id@
                &&& u.metadata.name@ == m.name@
                &&& u.metadata.description@ == m.description@
                &&& u.metadata.version_history@ == appended_history(version_history@, u.metadata.version_history@.last())
                &&& u.metadata.version_history@.last().version == u.version
                &&& u.metadata.version_history@.last().abi_hash@ == u.metadata.abi_hash@
                &&& u.metadata.version_history@.last().created_at == record_time_spec(now)
                &&& u.metadata.version_history@.last().note@ == note@
            })
        },
{
    let mut m = match metadata {
        Some(m) => m,
        None => return Err(ContractError::ContractNotRegistered),
    };
    if (#[verifier::truncate] (abi_data.len() as u32)) > MAX_ABI_SIZE {
        return Err(ContractError::AbiTooLarge);
    }
    let new_hash = calculate_hash(&abi_data);
    if hash_eq(&m.abi_hash, &new_hash) {
        let v = m.version;
        return Ok(AbiUpdated { version: v, changed: false, metadata: m });
    }
    proof {
        if forall|i: int| 0 <= i < 32 ==> m.abi_hash@[i] == #[trigger] abi_hash_byte(abi_data@, i) {
            assert forall|i: int| 0 <= i < 32 implies m.abi_hash@[i] == new_hash@[i] by {
                assert(m.abi_hash@[i] == abi_hash_byte(abi_data@, i));
            }
            assert(m.abi_hash@ =~= new_hash@);
        }
    }
    if m.version == u32::MAX {
        return Err(ContractError::Overflow);
    }
    let new_version = m.version + 1;
    let ghost old_hash = m.abi_hash@;
    let entry = AbiVersion { version: new_version, abi_hash: copy_hash(&new_hash), created_at: record_time(now), note };
    let mut history = version_history;
    let ghost h0 = history@;
    if (#[verifier::truncate] (history.len() as u32)) >= MAX_VERSION_HISTORY {
        if history.len() > 0 {
            history.remove(0);
        }
    }
    proof {
        if (#[verifier::truncate] (h0.len() as u32)) >= MAX_VERSION_HISTORY {
            assert(h0.len() > 0);
            assert(history@ =~= h0.drop_first());
        }
    }
    history.push(entry);
    m.version = new_version;
    m.abi_data = abi_data;
    m.abi_hash = new_hash;
    m.updated_at = record_time(now);
    m.version_history = history;
    Ok(AbiUpdated { version: new_version, changed: true, metadata: m })
}

/// Points a contract back at an earlier version recorded in its history. Refused for an
/// unregistered contract, a target not below the current version and a version missing from
/// the history. Version, hash and update time change; the stored ABI data stays as it is.
pub fn rollback(
    metadata: Option<ContractAbiMetadata>,
    version_history: &Vec<AbiVersion>,
    target_version: u32,
    now: u64,
) -> (r: Result<ContractAbiMetadata, ContractError>)
    ensures
        metadata is None ==> is_err(r, ContractError::ContractNotRegistered),
        metadata matches Some(m) ==> {
            &&& target_version >= m.version ==> is_err(r, ContractError::InvalidTargetVersion)
            &&& (target_version < m.version && first_version_index(version_history@, target_version) is None)
                ==> is_err(r, ContractError::VersionNotFound)
            &&& (target_version < m.version && first_version_index(version_history@, target_version) is Some) ==> r is Ok
        },
        r matches Ok(n) ==> {
            let m = metadata.unwrap();
            let i = first_version_index(version_history@, target_version).unwrap();
            &&& n.version == target_version
            &&& n.abi_hash@ == version_history@[i].abi_hash@
            &&& n.updated_at == record_time_spec(now)
            &&& n.abi_data@ == m.abi_data@
            &&& n.verified == m.verified
            &&& n.added_at == m.added_at
            &&& n.contract_id@ == m.contract_id@
            &&& n.name@ == m.name@
            &&& n.description@ == m.description@
            &&& n.version_history == m.version_history
        },
        r matches Err(e) ==> e == ContractError::ContractNotRegistered || e == ContractError::InvalidTargetVersion
            || e == ContractError::VersionNotFound,
{
    let mut m = match metadata {
        Some(m) => m,
        None => return Err(ContractError::ContractNotRegistered),
    };
    if target_version >= m.version {
        return Err(ContractError::InvalidTargetVersion);
    }
    let n = version_history.len();
    let mut found: Option<usize> = None;
    for i in 0..n
        invariant
            n == version_history@.len(),
            found is None ==> forall|j: int| 0 <= j < i ==> (#[trigger] version_history@[j]).version != target_version,
            found matches Some(k) ==> k < n && version_history@[k as int].version == target_version
                && forall|j: int| 0 <= j < k ==> (#[trigger] version_history@[j]).version != target_version,
    {
        if found.is_none() && version_history[i].version == target_version {
            found = Some(i);
        }
    }
    let k = match found {
        Some(k) => k,
        None => {
            proof {
                assert(!(exists|i: int| 0 <= i < version_history@.len() && (#[trigger] version_history@[i]).version == target_version));
            }
            return Err(ContractError::VersionNotFound);
        },
    };
    proof {
        let h = version_history@;
        assert(exists|i: int| 0 <= i < h.len() && (#[trigger] h[i]).version == target_version) by {
            assert(h[k as int].version == target_version);
        }
        let c = choose|i: int| 0 <= i < h.len() && (#[trigger] h[i]).version == target_version
            && forall|j: int| 0 <= j < i ==> (#[trigger] h[j]).version != target_version;
        assert(0 <= k < h.len() && h[k as int].version == target_version
            && forall|j: int| 0 <= j < k ==> (#[trigger] h[j]).version != target_version);
        if c < k {
            assert(h[c].version != target_version);
        } else if c > k {
            assert(h[k as int].version != target_version);
        }
        assert(c == k);
    }
    m.version = target_version;
    m.abi_hash = copy_hash(&version_history[k].abi_hash);
    m.updated_at = record_time(now);
    Ok(m)
}

/// A registered contract's metadata.
pub fn get_metadata(metadata: Option<ContractAbiMetadata>) -> (r: Result<ContractAbiMetadata, ContractError>)
    ensures
        r is Err ==> is_err(r, ContractError::ContractNotRegistered),
        metadata is None <==> is_err(r, ContractError::ContractNotRegistered),
        metadata matches Some(m) ==> r == Ok::<ContractAbiMetadata, ContractError>(m),
{
    match metadata {
        Some(m) => Ok(m),
        None => Err(ContractError::ContractNotRegistered),
    }
}

/// A registered contract's ABI data.
pub fn get_abi(abi: Option<Vec<u8>>) -> (r: Result<Vec<u8>, ContractError>)
    ensures
        r is Err ==> is_err(r, ContractError::ContractNotRegistered),
        abi is None <==> is_err(r, ContractError::ContractNotRegistered),
        abi matches Some(a) ==> (r matches Ok(x) && x@ == a@),
{
    match abi {
        Some(a) => Ok(a),
        None => Err(ContractError::ContractNotRegistered),
    }
}

/// Marks a contract verified and appends it to the verified list; refused for an
/// unregistered contract; a verified contract is left as it is (`changed` false).
pub fn verify(metadata: Option<ContractAbiMetadata>, verified_list: Vec<Addr>) -> (r: Result<(ContractAbiMetadata, Vec<Addr>, bool), ContractError>)
    ensures
        metadata is None <==> is_err(r, ContractError::ContractNotRegistered),
        metadata is Some <==> r is Ok,
        r matches Ok((n, list, changed)) ==> {
            let m = metadata.unwrap();
            &&& changed == !m.verified
            &&& n == (ContractAbiMetadata { verified: true, ..m })
            &&& (changed ==> list@.len() == verified_list@.len() + 1
                && list@.drop_last() == verified_list@ && list@.last()@ == m.contract_id@)
            &&& (!changed ==> list@ == verified_list@)
        },
{
    let mut m = match metadata {
        Some(m) => m,
        None => return Err(ContractError::ContractNotRegistered),
    };
    if m.verified {
        return Ok((m, verified_list, false));
    }
    m.verified = true;
    let mut list = verified_list;
    let ghost l0 = list@;
    list.push(m.contract_id.duplicate());
    proof {
        assert(list@.drop_last() =~= l0);
    }
    Ok((m, list, true))
}

/// Removes a contract: refused for an unregistered contract. Returns its name (to drop from
/// the name index) and, when it was verified, the verified list without it, in its order.
pub fn remove(metadata: Option<ContractAbiMetadata>, verified_list: &Vec<Addr>) -> (r: Result<(String, Option<Vec<Addr>>), ContractError>)
    ensures
        metadata is None <==> is_err(r, ContractError::ContractNotRegistered),
        metadata is Some <==> r is Ok,
        r matches Ok((name, list)) ==> {
            let m = metadata.unwrap();
            &&& name@ == m.name@
            &&& (m.verified <==> list is Some)
            &&& (list matches Some(l) ==> addr_views(l@) == without(addr_views(verified_list@), m.contract_id@))
        },
{
    let m = match metadata {
        Some(m) => m,
        None => return Err(ContractError::ContractNotRegistered),
    };
    if !m.verified {
        return Ok((m.name, None));
    }
    let (kept, _) = remove_all(verified_list, &m.contract_id);
    Ok((m.name, Some(kept)))
}

// ── Laws ────────────────────────────────────────────────────────────────────

/// The version history never grows beyond `MAX_VERSION_HISTORY`: appending to a history
/// within the limit keeps it within the limit.
pub proof fn lemma_history_bounded(h: Seq<AbiVersion>, v: AbiVersion)
    requires
        h.len() <= MAX_VERSION_HISTORY,
    ensures
        appended_history(h, v).len() <= MAX_VERSION_HISTORY,
        appended_history(h, v).last() == v,
{
}

/// The history after each version of `vs` has been appended in turn, as successive updates
/// append them.
pub open spec fn history_after(h: Seq<AbiVersion>, vs: Seq<AbiVersion>) -> Seq<AbiVersion>
    decreases vs.len(),
{
    if vs.len() == 0 { h } else { appended_history(history_after(h, vs.drop_last()), vs.last()) }
}

/// However many updates follow one another, the version history never holds more than
/// `MAX_VERSION_HISTORY` versions, and after any update its newest entry is the version that
/// update appended.
pub proof fn lemma_history_bounded_over_updates(h: Seq<AbiVersion>, vs: Seq<AbiVersion>)
    requires
        h.len() <= MAX_VERSION_HISTORY,
    ensures
        history_after(h, vs).len() <= MAX_VERSION_HISTORY,
        vs.len() > 0 ==> history_after(h, vs).last() == vs.last(),
    decreases vs.len(),
{
    if vs.len() > 0 {
        lemma_history_bounded_over_updates(h, vs.drop_last());
        lemma_history_bounded(history_after(h, vs.drop_last()), vs.last());
    }
}

/// From registration on, whatever updates follow, the version history holds between 1 and
/// `MAX_VERSION_HISTORY` versions, and its newest entry is the last version appended (the
/// registered one while there was no update).
pub proof fn lemma_history_bounded_from_registration(first: AbiVersion, vs: Seq<AbiVersion>)
    ensures
        1 <= history_after(seq![first], vs).len() <= MAX_VERSION_HISTORY,
        history_after(seq![first], vs).last() == (if vs.len() > 0 { vs.last() } else { first }),
    decreases vs.len(),
{
    lemma_history_bounded_over_updates(seq![first], vs);
    if vs.len() > 0 {
        lemma_history_bounded_from_registration(first, vs.drop_last());
    }
}

/// The hash of an ABI depends on its bytes only: equal data give equal hashes, so an
/// update with the same ABI is recognised as unchanged.
pub proof fn lemma_hash_deterministic(a: Seq<u8>, b: Seq<u8>)
    requires
        a == b,
    ensures
        forall|i: int| 0 <= i < 32 ==> #[trigger] abi_hash_byte(a, i) == abi_hash_byte(b, i),
{
}

} // verus!

//! NFT collection: minting (single and batch) with per-token or default royalties,
//! transfers (single and batch), metadata updates and royalty-payment records.
use vstd::prelude::*;

use crate::addr::{addr_eq, opt_view, Addr};

verus! {

/// Why an NFT operation was refused, with the collection's error codes 1–7 (`code`).
#[derive(Clone, Copy, Debug, PartialEq, Eq, Structural, PartialOrd, Ord)]
pub enum Error {
    NotInitialized,
    AlreadyInitialized,
    Unauthorized,
    InvalidRoyaltyBps,
    TokenNotFound,
    NotTokenOwner,
    Overflow,
}

impl Error {
    /// The numeric error code the contract reports.
    pub fn code(&self) -> (r: u32)
        ensures
            1 <= r <= 7,
            r == match *self {
                Error::NotInitialized => 1u32,
                Error::AlreadyInitialized => 2u32,
                Error::Unauthorized => 3u32,
                Error::InvalidRoyaltyBps => 4u32,
                Error::TokenNotFound => 5u32,
                Error::NotTokenOwner => 6u32,
                Error::Overflow => 7u32,
            },
    {
        match *self {
            Error::NotInitialized => 1,
            Error::AlreadyInitialized => 2,
            Error::Unauthorized => 3,
            Error::InvalidRoyaltyBps => 4,
            Error::TokenNotFound => 5,
            Error::NotTokenOwner => 6,
            Error::Overflow => 7,
        }
    }
}

/// Royalty terms: who is paid, in basis points of the sale.
pub struct RoyaltyInfo {
    pub recipient: Addr,
    pub bps: u32,
}

/// Off-chain metadata of a token.
pub struct TokenMetadata {
    pub uri: String,
}

/// Record of a royalty payment.
pub struct RoyaltyPaid {
    pub token_id: u32,
    pub recipient: Addr,
    pub amount: i128,
    pub asset: Addr,
    pub sender: Addr,
}

/// A freshly minted token and the records to store for it.
pub struct MintedToken {
    pub token_id: u32,
    pub owner: Addr,
    pub metadata: TokenMetadata,
    /// The token's own royalty, when one was given.
    pub royalty: Option<RoyaltyInfo>,
}

/// One item of a batch transfer, with the owner stored before the batch.
pub struct TransferItem {
    pub to: Addr,
    pub token_id: u32,
    pub stored_owner: Option<Addr>,
}

/// The collection's instance state.
pub struct NftFactory {
    pub admin: Option<Addr>,
    pub minter: Option<Addr>,
    pub name: String,
    pub symbol: String,
    /// Identifier of the next token, which is also the number minted so far.
    pub next_token_id: u32,
    pub default_royalty: Option<RoyaltyInfo>,
}

// ── Mathematical model ──────────────────────────────────────────────────────

/// View of an optional royalty: recipient bytes and rate.
pub open spec fn royalty_view(r: Option<RoyaltyInfo>) -> Option<(Seq<u8>, u32)> {
    match r {
        Some(i) => Some((i.recipient@, i.bps)),
        None => None,
    }
}

/// The last owner that items before `k` handed token `id` to, if any.
pub open spec fn moved_to(items: Seq<TransferItem>, k: int, id: u32) -> Option<Seq<u8>>
    decreases k,
{
    if k <= 0 {
        None
    } else if items[k - 1].token_id == id {
        Some(items[k - 1].to@)
    } else {
        moved_to(items, k - 1, id)
    }
}

/// Owner of item `k`'s token when item `k` is processed: the last earlier transfer of it
/// within the batch, or the owner stored before the batch.
pub open spec fn owner_at(items: Seq<TransferItem>, k: int) -> Option<Seq<u8>> {
    match moved_to(items, k, items[k].token_id) {
        Some(o) => Some(o),
        None => opt_view(items[k].stored_owner),
    }
}

/// Outcome of the first `n` items of a batch transfer from `from`: the first error, if any.
pub open spec fn batch_transfer_spec(from: Seq<u8>, items: Seq<TransferItem>, n: int) -> Result<(), Error>
    decreases n,
{
    if n <= 0 {
        Ok(())
    } else {
        match batch_transfer_spec(from, items, n - 1) {
            Err(e) => Err(e),
            Ok(_) => match owner_at(items, n - 1) {
                None => Err(Error::TokenNotFound),
                Some(o) => if o != from { Err(Error::NotTokenOwner) } else { Ok(()) },
            },
        }
    }
}

// ── Executable functions ────────────────────────────────────────────────────

impl NftFactory {
    /// A collection that was never initialized.
    pub fn new() -> (r: NftFactory)
        ensures
            r.admin is None,
            r.minter is None,
            r.next_token_id == 0,
            r.default_royalty is None,
    {
        NftFactory { admin: None, minter: None, name: String::new(), symbol: String::new(), next_token_id: 0, default_royalty: None }
    }

    /// Initializes the collection, once; the default royalty goes to the admin.
    pub fn initialize(&mut self, admin: Addr, minter: Addr, name: String, symbol: String, default_royalty_bps: u32) -> (r: Result<(), Error>)
        ensures
            old(self).admin is Some ==> r == Err::<(), Error>(Error::AlreadyInitialized),
            (old(self).admin is None && default_royalty_bps > 10_000) ==> r == Err::<(), Error>(Error::InvalidRoyaltyBps),
            (old(self).admin is None && default_royalty_bps <= 10_000) <==> r is Ok,
            r is Err ==> opt_view(final(self).admin) == opt_view(old(self).admin) && final(self).next_token_id == old(self).next_token_id
                && opt_view(final(self).minter) == opt_view(old(self).minter)
                && royalty_view(final(self).default_royalty) == royalty_view(old(self).default_royalty),
            r is Ok ==> {
                &&& opt_view(final(self).admin) == Some(admin@)
                &&& opt_view(final(self).minter) == Some(minter@)
                &&& final(self).name@ == name@
                &&& final(self).symbol@ == symbol@
                &&& final(self).next_token_id == 0
                &&& royalty_view(final(self).default_royalty) == Some((admin@, default_royalty_bps))
            },
    {
        if self.admin.is_some() {
            return Err(Error::AlreadyInitialized);
        }
        if default_royalty_bps > 10_000 {
            return Err(Error::InvalidRoyaltyBps);
        }
        let recipient = admin.duplicate();
        self.admin = Some(admin);
        self.minter = Some(minter);
        self.name = name;
        self.symbol = symbol;
        self.next_token_id = 0;
        self.default_royalty = Some(RoyaltyInfo { recipient, bps: default_royalty_bps });
        Ok(())
    }

    /// Mints the next token to `to`, with its own royalty to `to` when `royalty_bps` is
    /// given. Refused before initialization, for a rate above 10_000 bps, and when the
    /// identifiers are exhausted.
    pub fn mint(&mut self, to: Addr, uri: String, royalty_bps: Option<u32>) -> (r: Result<MintedToken, Error>)
        ensures
            old(self).minter is None ==> r == Err::<MintedToken, Error>(Error::NotInitialized),
            (old(self).minter is Some && old(self).next_token_id == u32::MAX) ==> r == Err::<MintedToken, Error>(Error::Overflow),
            (old(self).minter is Some && old(self).next_token_id < u32::MAX && (royalty_bps matches Some(b) && b > 10_000))
                ==> r == Err::<MintedToken, Error>(Error::InvalidRoyaltyBps),
            (old(self).minter is Some && old(self).next_token_id < u32::MAX && !(royalty_bps matches Some(b) && b > 10_000))
                ==> r is Ok,
            r is Err ==> final(self).next_token_id == old(self).next_token_id,
            r matches Ok(t) ==> {
                &&& t.token_id == old(self).next_token_id
                &&& final(self).next_token_id == t.token_id + 1
                &&& t.owner@ == to@
                &&& t.metadata.uri@ == uri@
                &&& royalty_view(t.royalty) == match royalty_bps { Some(b) => Some((to@, b)), None => None }
            },
            opt_view(final(self).minter) == opt_view(old(self).minter),
            opt_view(final(self).admin) == opt_view(old(self).admin),
    {
        if self.minter.is_none() {
            return Err(Error::NotInitialized);
        }
        let token_id = self.next_token_id;
        if token_id == u32::MAX {
            return Err(Error::Overflow);
        }
        let royalty = match royalty_bps {
            Some(bps) => {
                if bps > 10_000 {
                    return Err(Error::InvalidRoyaltyBps);
                }
                Some(RoyaltyInfo { recipient: to.duplicate(), bps })
            },
            None => None,
        };
        self.next_token_id = token_id + 1;
        Ok(MintedToken { token_id, owner: to, metadata: TokenMetadata { uri }, royalty })
    }

    /// Mints one token per URI to `to`, with consecutive identifiers. The royalty rate, when
    /// given, is recorded for each without a range check. Refused before initialization and
    /// when the identifiers run out.
    pub fn batch_mint(&mut self, to: &Addr, uris: Vec<String>, royalty_bps: Option<u32>) -> (r: Result<Vec<MintedToken>, Error>)
        ensures
            old(self).minter is None ==> r == Err::<Vec<MintedToken>, Error>(Error::NotInitialized),
            old(self).minter is Some ==> ((old(self).next_token_id + uris@.len() <= u32::MAX) <==> r is Ok),
            r matches Err(e) ==> e == Error::NotInitialized || e == Error::Overflow,
            r is Err ==> final(self).next_token_id == old(self).next_token_id,
            r matches Ok(ts) ==> {
                &&& ts@.len() == uris@.len()
                &&& final(self).next_token_id == old(self).next_token_id + uris@.len()
                &&& forall|k: int| 0 <= k < ts@.len() ==> {
                    let t = #[trigger] ts@[k];
                    &&& t.token_id == old(self).next_token_id + k
                    &&& t.owner@ == to@
                    &&& t.metadata.uri@ == uris@[k]@
                    &&& royalty_view(t.royalty) == match royalty_bps { Some(b) => Some((to@, b)), None => None }
                }
            },
            opt_view(final(self).minter) == opt_view(old(self).minter),
            opt_view(final(self).admin) == opt_view(old(self).admin),
    {
        if self.minter.is_none() {
            return Err(Error::NotInitialized);
        }
        let start = self.next_token_id;
        let mut next_id = start;
        let mut out: Vec<MintedToken> = Vec::new();
        let n = uris.len();
        for k in 0..n
            invariant
                n == uris@.len(),
                next_id == start + k,
                out@.len() == k,
                self.minter is Some,
                start == old(self).next_token_id,
                forall|j: int| 0 <= j < k ==> {
                    let t = #[trigger] out@[j];
                    &&& t.token_id == start + j
                    &&& t.owner@ == to@
                    &&& t.metadata.uri@ == uris@[j]@
                    &&& royalty_view(t.royalty) == match royalty_bps { Some(b) => Some((to@, b)), None => None }
                },
        {
            if next_id == u32::MAX {
                return Err(Error::Overflow);
            }
            let royalty = match royalty_bps {
                Some(bps) => Some(RoyaltyInfo { recipient: to.duplicate(), bps }),
                None => None,
            };
            out.push(MintedToken { token_id: next_id, owner: to.duplicate(), metadata: TokenMetadata { uri: uris[k].clone() }, royalty });
            next_id = next_id + 1;
        }
        self.next_token_id = next_id;
        Ok(out)
    }

    /// Changes the admin; only the admin may.
    pub fn set_admin(&mut self, admin: &Addr, new_admin: Addr) -> (r: Result<(), Error>)
        ensures
            r matches Err(e) ==> e == Error::NotInitialized || e == Error::Unauthorized,
            old(self).admin is None ==> r == Err::<(), Error>(Error::NotInitialized),
            old(self).admin matches Some(a) ==> (a@ != admin@ <==> r == Err::<(), Error>(Error::Unauthorized)),
            r is Ok ==> opt_view(final(self).admin) == Some(new_admin@),
            r is Err ==> opt_view(final(self).admin) == opt_view(old(self).admin),
            opt_view(final(self).minter) == opt_view(old(self).minter),
            final(self).next_token_id == old(self).next_token_id,
    {
        match &self.admin {
            None => return Err(Error::NotInitialized),
            Some(a) => if !addr_eq(a, admin) { return Err(Error::Unauthorized); },
        }
        self.admin = Some(new_admin);
        Ok(())
    }

    /// Changes the minter; only the admin may.
    pub fn set_minter(&mut self, admin: &Addr, new_minter: Addr) -> (r: Result<(), Error>)
        ensures
            r matches Err(e) ==> e == Error::NotInitialized || e == Error::Unauthorized,
            old(self).admin is None ==> r == Err::<(), Error>(Error::NotInitialized),
            old(self).admin matches Some(a) ==> (a@ != admin@ <==> r == Err::<(), Error>(Error::Unauthorized)),
            r is Ok ==> opt_view(final(self).minter) == Some(new_minter@),
            r is Err ==> opt_view(final(self).minter) == opt_view(old(self).minter),
            opt_view(final(self).admin) == opt_view(old(self).admin),
            final(self).next_token_id == old(self).next_token_id,
    {
        match &self.admin {
            None => return Err(Error::NotInitialized),
            Some(a) => if !addr_eq(a, admin) { return Err(Error::Unauthorized); },
        }
        self.minter = Some(new_minter);
        Ok(())
    }

    /// Changes the default royalty; only the admin may, and the rate must be at most
    /// 10_000 bps.
    pub fn set_default_royalty(&mut self, admin: &Addr, recipient: Addr, bps: u32) -> (r: Result<(), Error>)
        ensures
            r matches Err(e) ==> e == Error::NotInitialized || e == Error::Unauthorized || e == Error::InvalidRoyaltyBps,
            old(self).admin is None ==> r == Err::<(), Error>(Error::NotInitialized),
            old(self).admin matches Some(a) ==> (a@ != admin@ <==> r == Err::<(), Error>(Error::Unauthorized)),
            (old(self).admin matches Some(a) && a@ == admin@) ==> (bps > 10_000 <==> r == Err::<(), Error>(Error::InvalidRoyaltyBps)),
            r is Ok ==> royalty_view(final(self).default_royalty) == Some((recipient@, bps)),
            r is Err ==> royalty_view(final(self).default_royalty) == royalty_view(old(self).default_royalty),
            opt_view(final(self).admin) == opt_view(old(self).admin),
            final(self).next_token_id == old(self).next_token_id,
    {
        match &self.admin {
            None => return Err(Error::NotInitialized),
            Some(a) => if !addr_eq(a, admin) { return Err(Error::Unauthorized); },
        }
        if bps > 10_000 {
            return Err(Error::InvalidRoyaltyBps);
        }
        self.default_royalty = Some(RoyaltyInfo { recipient, bps });
        Ok(())
    }

    /// The royalty terms of a token: its own, or else the collection's default.
    pub fn royalty_info(&self, token_royalty: Option<RoyaltyInfo>) -> (r: Result<RoyaltyInfo, Error>)
        ensures
            token_royalty matches Some(t) ==> (r matches Ok(i) && i.recipient@ == t.recipient@ && i.bps == t.bps),
            (token_royalty is None && self.default_royalty is None) ==> r == Err::<RoyaltyInfo, Error>(Error::NotInitialized),
            (token_royalty is None && self.default_royalty is Some) ==> (r matches Ok(i)
                && Some((i.recipient@, i.bps)) == royalty_view(self.default_royalty)),
    {
        match token_royalty {
            Some(t) => Ok(t),
            None => match &self.default_royalty {
                Some(d) => Ok(RoyaltyInfo { recipient: d.recipient.duplicate(), bps: d.bps }),
                None => Err(Error::NotInitialized),
            },
        }
    }

    /// Records a royalty payment of `amount` in `asset` for a token, addressed to the
    /// token's royalty recipient (its own, or the default).
    pub fn pay_royalty(&self, token_royalty: Option<RoyaltyInfo>, sender: Addr, token_id: u32, amount: i128, asset: Addr) -> (r: Result<RoyaltyPaid, Error>)
        ensures
            r is Err ==> r == Err::<RoyaltyPaid, Error>(Error::NotInitialized),
            (token_royalty is None && self.default_royalty is None) <==> r == Err::<RoyaltyPaid, Error>(Error::NotInitialized),
            r matches Ok(p) ==> {
                &&& p.token_id == token_id
                &&& p.amount == amount
                &&& p.asset@ == asset@
                &&& p.sender@ == sender@
                &&& p.recipient@ == match token_royalty { Some(t) => t.recipient@, None => self.default_royalty.unwrap().recipient@ }
            },
    {
        let info = self.royalty_info(token_royalty)?;
        Ok(RoyaltyPaid { token_id, recipient: info.recipient, amount, asset, sender })
    }

    /// Number of tokens minted so far.
    pub fn total_supply(&self) -> (r: u32)
        ensures
            r == self.next_token_id,
    {
        self.next_token_id
    }
}

/// Transfers a token from `from` to `to`; only its owner may.
pub fn transfer(from: &Addr, to: Addr, stored_owner: Option<Addr>) -> (r: Result<Addr, Error>)
    ensures
        r matches Err(e) ==> e == Error::TokenNotFound || e == Error::NotTokenOwner,
        stored_owner is None ==> r == Err::<Addr, Error>(Error::TokenNotFound),
        stored_owner matches Some(o) ==> (o@ != from@ <==> r == Err::<Addr, Error>(Error::NotTokenOwner)),
        (stored_owner matches Some(o) && o@ == from@) <==> r is Ok,
        r matches Ok(n) ==> (n@ == to@ && (stored_owner matches Some(o) && o@ == from@)),
{
    match stored_owner {
        None => Err(Error::TokenNotFound),
        Some(o) => if !addr_eq(&o, from) { Err(Error::NotTokenOwner) } else { Ok(to) },
    }
}

/// The owner of item `k`'s token when item `k` is processed.
fn owner_when(items: &Vec<TransferItem>, k: usize) -> (r: Option<&Addr>)
    requires
        k < items@.len(),
    ensures
        match r { Some(a) => Some(a@), None => None::<Seq<u8>> } == owner_at(items@, k as int),
{
    let id = items[k].token_id;
    let mut j: usize = k;
    while j > 0
        invariant
            j <= k < items@.len(),
            id == items@[k as int].token_id,
            moved_to(items@, k as int, id) == moved_to(items@, j as int, id),
        decreases j,
    {
        if items[j - 1].token_id == id {
            return Some(&items[j - 1].to);
        }
        j = j - 1;
    }
    match &items[k].stored_owner {
        Some(o) => Some(o),
        None => None,
    }
}

/// Checks a batch transfer from `from`, item by item in order: each token must exist and
/// belong to `from` at that point, counting the batch's own earlier transfers. On success
/// every item's transfer is to be applied in order.
pub fn batch_transfer(from: &Addr, items: &Vec<TransferItem>) -> (r: Result<(), Error>)
    ensures
        r == batch_transfer_spec(from@, items@, items@.len() as int),
{
    let n = items.len();
    for k in 0..n
        invariant
            n == items@.len(),
            batch_transfer_spec(from@, items@, k as int) is Ok,
    {
        let owner = owner_when(items, k);
        match owner {
            None => {
                proof { lemma_batch_err_stays(from@, items@, k + 1, n as int); }
                return Err(Error::TokenNotFound);
            },
            Some(o) => if !addr_eq(o, from) {
                proof { lemma_batch_err_stays(from@, items@, k + 1, n as int); }
                return Err(Error::NotTokenOwner);
            },
        }
    }
    Ok(())
}

proof fn lemma_batch_err_stays(from: Seq<u8>, items: Seq<TransferItem>, a: int, b: int)
    requires
        1 <= a <= b,
        batch_transfer_spec(from, items, a) is Err,
    ensures
        batch_transfer_spec(from, items, b) == batch_transfer_spec(from, items, a),
    decreases b - a,
{
    if b > a {
        lemma_batch_err_stays(from, items, a, b - 1);
    }
}

/// Changes a token's metadata; only its owner may.
pub fn update_metadata(owner: &Addr, stored_owner: Option<Addr>, new_uri: String) -> (r: Result<TokenMetadata, Error>)
    ensures
        r matches Err(e) ==> e == Error::TokenNotFound || e == Error::NotTokenOwner,
        stored_owner is None ==> r == Err::<TokenMetadata, Error>(Error::TokenNotFound),
        stored_owner matches Some(o) ==> (o@ != owner@ <==> r == Err::<TokenMetadata, Error>(Error::NotTokenOwner)),
        (stored_owner matches Some(o) && o@ == owner@) <==> r is Ok,
        r matches Ok(m) ==> m.uri@ == new_uri@,
{
    match stored_owner {
        None => Err(Error::TokenNotFound),
        Some(o) => if !addr_eq(&o, owner) { Err(Error::NotTokenOwner) } else { Ok(TokenMetadata { uri: new_uri }) },
    }
}

/// The owner of a token.
pub fn owner_of(stored_owner: Option<Addr>) -> (r: Result<Addr, Error>)
    ensures
        stored_owner is None ==> r == Err::<Addr, Error>(Error::TokenNotFound),
        stored_owner matches Some(o) ==> (r matches Ok(x) && x@ == o@),
{
    match stored_owner {
        None => Err(Error::TokenNotFound),
        Some(o) => Ok(o),
    }
}

/// The metadata of a token.
pub fn token_metadata(stored: Option<TokenMetadata>) -> (r: Result<TokenMetadata, Error>)
    ensures
        stored is None ==> r == Err::<TokenMetadata, Error>(Error::TokenNotFound),
        stored matches Some(m) ==> (r matches Ok(x) && x.uri@ == m.uri@),
{
    match stored {
        None => Err(Error::TokenNotFound),
        Some(m) => Ok(m),
    }
}

// ── Laws ────────────────────────────────────────────────────────────────────

/// Within a batch, a token handed on by an earlier item can only be moved again by its new
/// owner: if item `k` follows a transfer of the same token to someone other than `from`,
/// the batch fails.
pub proof fn lemma_batch_cannot_move_token_twice(from: Seq<u8>, items: Seq<TransferItem>, j: int, k: int)
    requires
        0 <= j < k < items.len(),
        items[j].token_id == items[k].token_id,
        items[j].to@ != from,
        forall|m: int| j < m < k ==> #[trigger] items[m].token_id != items[k].token_id,
    ensures
        batch_transfer_spec(from, items, items.len() as int) is Err,
{
    assert forall|m: int| j < m < k implies #[trigger] items[m].token_id != items[j].token_id by {
        assert(items[m].token_id != items[k].token_id);
    }
    lemma_moved_to_latest(items, j, k);
    lemma_batch_err_persists(from, items, k + 1, items.len() as int);
}

proof fn lemma_moved_to_latest(items: Seq<TransferItem>, j: int, k: int)
    requires
        0 <= j < k <= items.len(),
        forall|m: int| j < m < k ==> #[trigger] items[m].token_id != items[j].token_id,
    ensures
        moved_to(items, k, items[j].token_id) == Some(items[j].to@),
    decreases k - j,
{
    if k - 1 > j {
        assert(items[k - 1].token_id != items[j].token_id);
        lemma_moved_to_latest(items, j, k - 1);
    }
}

proof fn lemma_batch_err_persists(from: Seq<u8>, items: Seq<TransferItem>, a: int, b: int)
    requires
        1 <= a <= b,
        batch_transfer_spec(from, items, a - 1) is Ok ==> (owner_at(items, a - 1) is None
            || owner_at(items, a - 1).unwrap() != from),
    ensures
        batch_transfer_spec(from, items, b) is Err,
    decreases b - a,
{
    if b > a {
        lemma_batch_err_persists(from, items, a, b - 1);
    }
}

} // verus!

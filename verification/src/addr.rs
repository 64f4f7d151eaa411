//! Account and contract identities as the contracts see them: the bytes of an address.
use vstd::prelude::*;

verus! {

/// An account or contract address, held as the bytes of its string form.
#[derive(Clone, Debug)]
pub struct Addr {
    pub bytes: Vec<u8>,
}

impl View for Addr {
    type V = Seq<u8>;

    open spec fn view(&self) -> Seq<u8> {
        self.bytes@
    }
}

impl Addr {
    /// An address made of the given bytes.
    pub fn new(bytes: Vec<u8>) -> (r: Addr)
        ensures
            r@ == bytes@,
    {
        Addr { bytes }
    }

    /// A copy of this address.
    pub fn duplicate(&self) -> (r: Addr)
        ensures
            r@ == self@,
    {
        let mut out: Vec<u8> = Vec::new();
        let n = self.bytes.len();
        for i in 0..n
            invariant
                n == self.bytes@.len(),
                out@ == self.bytes@.subrange(0, i as int),
        {
            out.push(self.bytes[i]);
            assert(out@ == self.bytes@.subrange(0, i + 1));
        }
        assert(out@ == self.bytes@.subrange(0, n as int));
        Addr { bytes: out }
    }
}

/// Whether two addresses are the same.
pub fn addr_eq(a: &Addr, b: &Addr) -> (r: bool)
    ensures
        r == (a@ == b@),
{
    let n = a.bytes.len();
    if n != b.bytes.len() {
        return false;
    }
    for i in 0..n
        invariant
            n == a@.len(),
            n == b@.len(),
            forall|j: int| 0 <= j < i ==> a@[j] == b@[j],
    {
        if a.bytes[i] != b.bytes[i] {
            return false;
        }
    }
    assert(a@ =~= b@);
    true
}

/// Lexicographic byte order: `a` comes strictly before `b`.
pub open spec fn addr_lt_spec(a: Seq<u8>, b: Seq<u8>) -> bool
    decreases a.len(),
{
    if b.len() == 0 {
        false
    } else if a.len() == 0 {
        true
    } else if a[0] != b[0] {
        a[0] < b[0]
    } else {
        addr_lt_spec(a.drop_first(), b.drop_first())
    }
}

proof fn lemma_lt_prefix(a: Seq<u8>, b: Seq<u8>, i: int)
    requires
        0 <= i <= a.len(),
        i <= b.len(),
        forall|j: int| 0 <= j < i ==> a[j] == b[j],
    ensures
        addr_lt_spec(a, b) == addr_lt_spec(a.subrange(i, a.len() as int), b.subrange(i, b.len() as int)),
    decreases i,
{
    if i > 0 {
        assert(a[0] == b[0]);
        lemma_lt_prefix(a.drop_first(), b.drop_first(), i - 1);
        assert(a.drop_first().subrange(i - 1, a.len() - 1) =~= a.subrange(i, a.len() as int));
        assert(b.drop_first().subrange(i - 1, b.len() - 1) =~= b.subrange(i, b.len() as int));
    } else {
        assert(a.subrange(0, a.len() as int) =~= a);
        assert(b.subrange(0, b.len() as int) =~= b);
    }
}

/// Whether the bytes `a` come strictly before `b` in lexicographic order.
pub fn bytes_lt(a: &Vec<u8>, b: &Vec<u8>) -> (r: bool)
    ensures
        r == addr_lt_spec(a@, b@),
{
    let na = a.len();
    let nb = b.len();
    let mut i: usize = 0;
    while i < na && i < nb
        invariant
            na == a@.len(),
            nb == b@.len(),
            i <= na,
            i <= nb,
            forall|j: int| 0 <= j < i ==> a@[j] == b@[j],
        decreases na - i,
    {
        if a[i] != b[i] {
            proof {
                lemma_lt_prefix(a@, b@, i as int);
                let sa = a@.subrange(i as int, na as int);
                let sb = b@.subrange(i as int, nb as int);
                assert(sa[0] == a@[i as int]);
                assert(sb[0] == b@[i as int]);
            }
            return a[i] < b[i];
        }
        i += 1;
    }
    proof {
        lemma_lt_prefix(a@, b@, i as int);
    }
    i < nb
}

/// Lexicographic order is total and antisymmetric: of two different byte strings exactly
/// one comes first.
pub proof fn lemma_lt_trichotomy(a: Seq<u8>, b: Seq<u8>)
    ensures
        a != b ==> (addr_lt_spec(a, b) || addr_lt_spec(b, a)),
        !(addr_lt_spec(a, b) && addr_lt_spec(b, a)),
        !addr_lt_spec(a, a),
    decreases a.len(),
{
    if a.len() > 0 && b.len() > 0 && a[0] == b[0] {
        lemma_lt_trichotomy(a.drop_first(), b.drop_first());
        if a != b {
            assert(a.drop_first() != b.drop_first()) by {
                if a.drop_first() == b.drop_first() {
                    assert(a =~= seq![a[0]] + a.drop_first());
                    assert(b =~= seq![b[0]] + b.drop_first());
                }
            }
        }
    } else if a.len() == 0 && b.len() == 0 {
        assert(a =~= b);
    }
    if a.len() > 0 {
        lemma_lt_trichotomy(a.drop_first(), a.drop_first());
    }
}

/// The view of an optional address.
pub open spec fn opt_view(o: Option<Addr>) -> Option<Seq<u8>> {
    match o {
        Some(a) => Some(a@),
        None => None,
    }
}

/// A copy of an optional address.
pub fn duplicate_opt(o: &Option<Addr>) -> (r: Option<Addr>)
    ensures
        opt_view(r) == opt_view(*o),
{
    match o {
        Some(a) => Some(a.duplicate()),
        None => None,
    }
}

/// `x` is the view of one of the addresses.
pub open spec fn contains_view(s: Seq<Addr>, x: Seq<u8>) -> bool {
    exists|k: int| 0 <= k < s.len() && #[trigger] s[k]@ == x
}

/// Whether `a` occurs in `list`.
pub fn addr_in(list: &Vec<Addr>, a: &Addr) -> (r: bool)
    ensures
        r == exists|i: int| 0 <= i < list@.len() && list@[i]@ == a@,
{
    let n = list.len();
    for i in 0..n
        invariant
            n == list@.len(),
            forall|j: int| 0 <= j < i ==> list@[j]@ != a@,
    {
        if addr_eq(&list[i], a) {
            return true;
        }
    }
    false
}

/// The bytes are the strkey of an address (an account, contract, muxed account, claimable
/// balance or liquidity pool): UTF-8 text that `soroban_sdk::xdr::ScAddress::from_str` parses.
pub uninterp spec fn is_address_strkey(strkey: Seq<u8>) -> bool;

/// Whether address `a` comes before address `b` in the order in which the Soroban host
/// compares addresses, both given by the bytes of their strkeys.
pub uninterp spec fn address_precedes_spec(a: Seq<u8>, b: Seq<u8>) -> bool;

/// Whether address `a` comes before address `b` as the Soroban host orders addresses: both
/// strkeys parsed by `soroban_sdk::xdr::ScAddress::from_str`, then compared by `ScAddress`'s
/// `<` (the host compares address objects by that order). Claimed: the answer is given
/// exactly when both bytes are address strkeys (whether bytes parse depends on them alone,
/// named `is_address_strkey`), and then depends on the two strkeys alone (named
/// `address_precedes_spec`).
#[verifier::external_body]
pub(crate) fn address_precedes(a: &Addr, b: &Addr) -> (r: Option<bool>)
    ensures
        r is Some <==> (is_address_strkey(a@) && is_address_strkey(b@)),
        r matches Some(x) ==> x == address_precedes_spec(a@, b@),
{
    let sa: soroban_sdk::xdr::ScAddress = core::str::from_utf8(&a.bytes).ok()?.parse().ok()?;
    let sb: soroban_sdk::xdr::ScAddress = core::str::from_utf8(&b.bytes).ok()?.parse().ok()?;
    Some(sa < sb)
}

/// The views of a list of addresses.
pub open spec fn addr_views(list: Seq<Addr>) -> Seq<Seq<u8>> {
    list.map_values(|x: Addr| x@)
}

} // verus!

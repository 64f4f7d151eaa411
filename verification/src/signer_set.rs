//! Signer lists of the M-of-N contracts.
use vstd::prelude::*;

use crate::addr::{addr_eq, addr_views, contains_view, Addr};

verus! {

/// The signers without `x`, in their order.
pub open spec fn without(s: Seq<Seq<u8>>, x: Seq<u8>) -> Seq<Seq<u8>>
    decreases s.len(),
{
    if s.len() == 0 {
        s
    } else {
        let rest = without(s.drop_last(), x);
        if s.last() != x { rest.push(s.last()) } else { rest }
    }
}

/// The list without any occurrence of `x`, and whether `x` occurred.
pub fn remove_all(signers: &Vec<Addr>, signer: &Addr) -> (r: (Vec<Addr>, bool))
    ensures
        addr_views(r.0@) == without(addr_views(signers@), signer@),
        r.1 == contains_view(signers@, signer@),
{
    let mut new_signers: Vec<Addr> = Vec::new();
    let mut found = false;
    let n = signers.len();
    for i in 0..n
        invariant
            n == signers@.len(),
            addr_views(new_signers@) == without(addr_views(signers@.take(i as int)), signer@),
            found <==> contains_view(signers@.take(i as int), signer@),
    {
        proof {
            let t = signers@.take(i + 1);
            assert(t.drop_last() =~= signers@.take(i as int));
            assert(addr_views(t).drop_last() =~= addr_views(t.drop_last()));
            assert(addr_views(t).last() == signers@[i as int]@);
            if contains_view(signers@.take(i as int), signer@) {
                let k = choose|k: int| 0 <= k < i && #[trigger] signers@.take(i as int)[k]@ == signer@;
                assert(t[k]@ == signer@);
            }
            if contains_view(t, signer@) && signers@[i as int]@ != signer@ {
                let k = choose|k: int| 0 <= k < i + 1 && #[trigger] t[k]@ == signer@;
                assert(signers@.take(i as int)[k]@ == signer@);
            }
        }
        if addr_eq(&signers[i], signer) {
            found = true;
        } else {
            let ghost before = new_signers@;
            new_signers.push(signers[i].duplicate());
            proof {
                assert(addr_views(new_signers@) =~= addr_views(before).push(signers@[i as int]@));
            }
        }
    }
    proof {
        assert(signers@.take(n as int) =~= signers@);
    }
    (new_signers, found)
}

/// Removing an address never lengthens the list, and shortens it when the address is there.
pub proof fn lemma_without_len(s: Seq<Seq<u8>>, x: Seq<u8>)
    ensures
        without(s, x).len() <= s.len(),
        s.contains(x) ==> without(s, x).len() < s.len(),
        !without(s, x).contains(x),
    decreases s.len(),
{
    if s.len() > 0 {
        lemma_without_len(s.drop_last(), x);
        if s.contains(x) && s.last() != x {
            let k = choose|k: int| 0 <= k < s.len() && s[k] == x;
            assert(s.drop_last()[k] == x);
        }
        let rest = without(s.drop_last(), x);
        if s.last() != x {
            assert forall|k: int| 0 <= k < rest.push(s.last()).len() implies rest.push(s.last())[k] != x by {
                if k < rest.len() {
                    assert(rest[k] != x);
                }
            }
        }
    }
}

} // verus!

//! What the restricted resolver keeps of a lookup: only globally routable
//! addresses, and a failure where none is left.

use vstd::prelude::*;
use crate::ip::{IpAddress, addr_is_global};

verus! {

broadcast use vstd::seq_lib::group_filter_ensures;

/// Why a resolution yields nothing to connect to.
#[derive(Clone, Copy, Debug, PartialEq, Eq)]
pub enum ResolveError {
    /// Every address that the lookup returned is non-routable (or there were none).
    NoRoutableAddress,
}

/// The addresses of a lookup that survive filtering, in the lookup's order.
pub open spec fn routable(addrs: Seq<IpAddress>) -> Seq<IpAddress> {
    addrs.filter(|a: IpAddress| addr_is_global(a))
}

/// The outcome of resolution for the addresses that a lookup returned.
pub open spec fn resolution(addrs: Seq<IpAddress>) -> Result<Seq<IpAddress>, ResolveError> {
    if routable(addrs).len() == 0 {
        Err(ResolveError::NoRoutableAddress)
    } else {
        Ok(routable(addrs))
    }
}

/// Keeps, in order, the globally routable addresses of a lookup; fails when
/// none is left rather than succeeding with no address.
pub fn filter_global(addrs: &Vec<IpAddress>) -> (r: Result<Vec<IpAddress>, ResolveError>)
    ensures
        match r {
            Ok(v) => resolution(addrs@) == Ok::<Seq<IpAddress>, ResolveError>(v@),
            Err(e) => resolution(addrs@) == Err::<Seq<IpAddress>, ResolveError>(e),
        },
{
    let mut out: Vec<IpAddress> = Vec::new();
    let mut i: usize = 0;
    while i < addrs.len()
        invariant
            i <= addrs.len(),
            out@ == routable(addrs@.subrange(0, i as int)),
        decreases addrs.len() - i,
    {
        let a = addrs[i];
        proof {
            let pre = addrs@.subrange(0, i as int);
            let next = addrs@.subrange(0, i + 1);
            assert(next.drop_last() =~= pre);
            assert(next.last() == a);
            reveal(Seq::filter);
        }
        if a.is_global() {
            out.push(a);
        }
        i += 1;
    }
    assert(addrs@.subrange(0, addrs.len() as int) =~= addrs@);
    if out.len() == 0 {
        Err(ResolveError::NoRoutableAddress)
    } else {
        Ok(out)
    }
}

/// Whatever a lookup returns, resolution hands on only globally routable
/// addresses, drops none of those, and fails exactly when the lookup held no
/// globally routable address at all.
pub proof fn lemma_resolution_keeps_only_global(addrs: Seq<IpAddress>)
    ensures
        match resolution(addrs) {
            Ok(kept) => {
                &&& forall|i: int| 0 <= i < kept.len() ==> addr_is_global(#[trigger] kept[i])
                &&& forall|i: int|
                    0 <= i < addrs.len() && addr_is_global(#[trigger] addrs[i]) ==> kept.contains(
                        addrs[i],
                    )
            },
            Err(_) => forall|i: int| 0 <= i < addrs.len() ==> !addr_is_global(#[trigger] addrs[i]),
        },
{
    let pred = |a: IpAddress| addr_is_global(a);
    let kept = routable(addrs);
    assert forall|i: int| 0 <= i < kept.len() implies addr_is_global(#[trigger] kept[i]) by {
        addrs.lemma_filter_pred(pred, i);
    }
    assert forall|i: int| 0 <= i < addrs.len() && addr_is_global(#[trigger] addrs[i]) implies kept.contains(addrs[i]) by {
        addrs.lemma_filter_contains(pred, i);
    }
    if kept.len() == 0 {
        assert forall|i: int| 0 <= i < addrs.len() implies !addr_is_global(#[trigger] addrs[i]) by {
            if addr_is_global(addrs[i]) {
                addrs.lemma_filter_contains(pred, i);
            }
        }
    }
}

} // verus!

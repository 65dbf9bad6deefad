//! Allocation of CIDs, the addresses by which virtual machines are reached.
//!
//! The last CID that was handed out is kept as decimal text under one name of the
//! property store, so that a restarted service goes on where it stopped.

use crate::error::ErrorKind;
use crate::properties::PropertyStore;
use crate::text::{decimal, format_decimal, lemma_parse_decimal, parse_u32, parsed_u32};
use vstd::prelude::*;

verus! {

/// The address of a virtual machine.
pub type Cid = u32;

/// The first CID that a guest gets. The ones below are kept for the host.
pub const FIRST_GUEST_CID: Cid = 10;

/// The name under which the last CID is kept.
pub const SYSPROP_LAST_CID: &'static str = "virtualizationservice.state.last_cid";

/// The CID that follows, given the text that was kept of the last one (`None` where
/// nothing was kept): the first guest CID where there is no usable text, the successor
/// of the number otherwise, and nothing once the numbers have run out.
pub open spec fn next_cid_after(last: Option<Seq<char>>) -> Option<Cid> {
    match last {
        None => Some(FIRST_GUEST_CID),
        Some(text) => match parsed_u32(text) {
            None => Some(FIRST_GUEST_CID),
            Some(n) => if n < u32::MAX {
                Some((n + 1) as u32)
            } else {
                None
            },
        },
    }
}

/// The store after `n` allocations in a row, each of which found a CID.
pub open spec fn store_after(store: Map<Seq<char>, Seq<char>>, n: nat) -> Map<
    Seq<char>,
    Seq<char>,
>
    decreases n,
{
    if n == 0 {
        store
    } else {
        let before = store_after(store, (n - 1) as nat);
        match next_cid_after(before.get(SYSPROP_LAST_CID@)) {
            Some(cid) => before.insert(SYSPROP_LAST_CID@, decimal(cid as nat)),
            None => before,
        }
    }
}

/// What the allocation that comes after `n` earlier ones finds.
pub open spec fn allocation_after(store: Map<Seq<char>, Seq<char>>, n: nat) -> Option<Cid> {
    next_cid_after(store_after(store, n).get(SYSPROP_LAST_CID@))
}

/// The CID that follows the one that was kept last.
pub fn next_cid_from(last: Option<&str>) -> (r: Result<Cid, ErrorKind>)
    ensures
        match next_cid_after(
            match last {
                Some(text) => Some(text@),
                None => None,
            },
        ) {
            Some(cid) => r == Ok::<Cid, ErrorKind>(cid),
            None => r == Err::<Cid, ErrorKind>(ErrorKind::ResourceExhausted),
        },
{
    match last {
        None => Ok(FIRST_GUEST_CID),
        Some(text) => match parse_u32(text) {
            None => Ok(FIRST_GUEST_CID),
            Some(n) => match n.checked_add(1) {
                Some(next) => Ok(next),
                None => Err(ErrorKind::ResourceExhausted),
            },
        },
    }
}

/// Hands out the next CID and keeps it in `props` before it returns.
///
/// Where the numbers have run out, nothing is handed out and `props` stays as it was.
pub fn next_cid(props: &mut PropertyStore) -> (r: Result<Cid, ErrorKind>)
    ensures
        match next_cid_after(old(props)@.get(SYSPROP_LAST_CID@)) {
            Some(cid) => r == Ok::<Cid, ErrorKind>(cid) && final(props)@ == old(props)@.insert(
                SYSPROP_LAST_CID@,
                decimal(cid as nat),
            ),
            None => r == Err::<Cid, ErrorKind>(ErrorKind::ResourceExhausted) && final(props)@
                == old(props)@,
        },
{
    let last: Option<String> = props.get(SYSPROP_LAST_CID);
    let next = match &last {
        Some(text) => next_cid_from(Some(text.as_str())),
        None => next_cid_from(None),
    };
    match next {
        Ok(cid) => {
            let text = format_decimal(cid as u64);
            props.set(SYSPROP_LAST_CID, text.as_str());
            Ok(cid)
        },
        Err(e) => Err(e),
    }
}

/// An allocation that follows one which handed out `cid` hands out `cid + 1`, or
/// nothing where `cid` is the last number: the text that is kept is all that counts,
/// so this holds across a restart as well.
pub proof fn lemma_next_cid_is_successor(cid: Cid)
    ensures
        next_cid_after(Some(decimal(cid as nat))) == (if cid < u32::MAX {
            Some((cid + 1) as u32)
        } else {
            None
        }),
{
    lemma_parse_decimal(cid);
}

/// Allocations in a row from any store hand out consecutive numbers: where the first of
/// them finds `first`, the one after `n` more finds `first + n`, as long as that is a
/// CID, and nothing from then on.
pub proof fn lemma_allocations_are_consecutive(store: Map<Seq<char>, Seq<char>>, n: nat)
    requires
        allocation_after(store, 0) is Some,
    ensures
        allocation_after(store, n) == (if allocation_after(store, 0).unwrap() + n <= u32::MAX {
            Some((allocation_after(store, 0).unwrap() + n) as u32)
        } else {
            None
        }),
    decreases n,
{
    if n > 0 {
        let first = allocation_after(store, 0).unwrap();
        let previous = (n - 1) as nat;
        lemma_allocations_are_consecutive(store, previous);
        let before = store_after(store, previous);
        if first + previous <= u32::MAX {
            let cid = (first + previous) as u32;
            lemma_next_cid_is_successor(cid);
            assert(store_after(store, n) == before.insert(
                SYSPROP_LAST_CID@,
                decimal(cid as nat),
            ));
        } else {
            assert(store_after(store, n) == before);
        }
    }
}

/// No CID is handed out twice: of two allocations in a row from any store, however
/// many lie between them, the later one finds a larger number than the earlier one.
pub proof fn lemma_allocations_increase(store: Map<Seq<char>, Seq<char>>, i: nat, j: nat)
    requires
        i < j,
        allocation_after(store, i) is Some,
        allocation_after(store, j) is Some,
    ensures
        allocation_after(store, i).unwrap() < allocation_after(store, j).unwrap(),
{
    lemma_first_allocation_exists(store, i);
    lemma_allocations_are_consecutive(store, i);
    lemma_allocations_are_consecutive(store, j);
}

/// Where a later allocation finds a CID, the first one found one too.
proof fn lemma_first_allocation_exists(store: Map<Seq<char>, Seq<char>>, n: nat)
    requires
        allocation_after(store, n) is Some,
    ensures
        allocation_after(store, 0) is Some,
    decreases n,
{
    if n > 0 {
        let before = store_after(store, (n - 1) as nat);
        match next_cid_after(before.get(SYSPROP_LAST_CID@)) {
            Some(cid) => {},
            None => {
                assert(store_after(store, n) == before);
            },
        }
        lemma_first_allocation_exists(store, (n - 1) as nat);
    }
}

} // verus!

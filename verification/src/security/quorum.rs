//! Lists of addresses read as sets, and thresholds over them.

use crate::bytes::{bytes_eq, Address};
use crate::security::VerificationError;
use vstd::prelude::*;

verus! {

/// The addresses of a list, each as its sequence of bytes.
pub open spec fn views(addresses: Seq<Address>) -> Seq<Seq<u8>> {
    Seq::new(addresses.len(), |i: int| addresses[i]@)
}

/// The set of addresses that a list names.
pub open spec fn members(addresses: Seq<Address>) -> Set<Seq<u8>> {
    views(addresses).to_set()
}

/// May a quorum over `addresses` ask for `threshold` members?
pub open spec fn threshold_fits(addresses: Seq<Address>, threshold: usize) -> bool {
    threshold <= members(addresses).len()
}

/// Pushing an address onto a list adds it to the set that the list names.
pub proof fn lemma_members_push(addresses: Seq<Address>, address: Address)
    ensures
        views(addresses.push(address)) == views(addresses).push(address@),
        members(addresses.push(address)) == members(addresses).insert(address@),
{
    assert(views(addresses.push(address)) =~= views(addresses).push(address@));
    views(addresses).lemma_push_to_set_commute(address@);
}

/// Is `address` one of `list`?
pub fn contains_address(list: &Vec<Address>, address: &Address) -> (found: bool)
    ensures
        found == views(list@).contains(address@),
{
    let mut i: usize = 0;
    while i < list.len()
        invariant
            i <= list@.len(),
            forall|j: int| 0 <= j < i ==> views(list@)[j] != address@,
        decreases list@.len() - i,
    {
        if bytes_eq(list[i].as_slice(), address.as_slice()) {
            assert(views(list@)[i as int] == address@);
            return true;
        }
        i += 1;
    }
    false
}

/// A fresh list of the same addresses in the same order.
pub fn copy_addresses(list: &Vec<Address>) -> (copy: Vec<Address>)
    ensures
        copy@ == list@,
{
    let mut copy: Vec<Address> = Vec::with_capacity(list.len());
    let mut i: usize = 0;
    while i < list.len()
        invariant
            i <= list@.len(),
            copy@ == list@.subrange(0, i as int),
        decreases list@.len() - i,
    {
        copy.push(list[i]);
        assert(copy@ =~= list@.subrange(0, i + 1));
        i += 1;
    }
    assert(copy@ =~= list@);
    copy
}

/// The addresses that `list` names, each once.
pub fn distinct_addresses(list: &Vec<Address>) -> (unique: Vec<Address>)
    ensures
        views(unique@).no_duplicates(),
        members(unique@) == members(list@),
        unique@.len() == members(list@).len(),
{
    let mut unique: Vec<Address> = Vec::new();
    let mut i: usize = 0;
    assert(views(unique@) =~= Seq::<Seq<u8>>::empty());
    assert(members(list@.subrange(0, 0)) =~= members(unique@));
    while i < list.len()
        invariant
            i <= list@.len(),
            views(unique@).no_duplicates(),
            members(unique@) == members(list@.subrange(0, i as int)),
        decreases list@.len() - i,
    {
        let address = list[i];
        let ghost before = unique@;
        proof {
            lemma_members_push(list@.subrange(0, i as int), address);
            assert(list@.subrange(0, i as int).push(address) =~= list@.subrange(0, i + 1));
        }
        if !contains_address(&unique, &address) {
            unique.push(address);
            proof {
                lemma_members_push(before, address);
            }
        } else {
            assert(members(unique@).insert(address@) =~= members(unique@));
        }
        i += 1;
    }
    proof {
        assert(list@.subrange(0, list@.len() as int) =~= list@);
        views(unique@).unique_seq_to_set();
    }
    unique
}

/// Accepts a threshold that the named members can meet.
pub fn check_threshold(addresses: &Vec<Address>, threshold: usize) -> (checked: Result<
    (),
    VerificationError,
>)
    ensures
        checked == if threshold_fits(addresses@, threshold) {
            Ok::<(), VerificationError>(())
        } else {
            Err(VerificationError::InvalidThreshold)
        },
{
    let unique = distinct_addresses(addresses);
    if threshold <= unique.len() {
        Ok(())
    } else {
        Err(VerificationError::InvalidThreshold)
    }
}

} // verus!

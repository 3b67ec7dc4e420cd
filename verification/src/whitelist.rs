//! The whitelist: who may mint while it is enforced. Addresses are put on
//! it and taken off it in lists, a whole list or nothing.

use crate::collections::ListSet;
use crate::errors::Error;
use crate::requirements::is_privileged;
use crate::state::MinterState;
use crate::storage::{Minter, StorageModule};
use crate::types::Address;
use vstd::prelude::*;

verus! {

/// Every one of `items` can be added to `list`: none is in it, and none
/// occurs twice.
pub open spec fn all_new(list: Seq<Address>, items: Seq<Address>) -> bool {
    &&& items.no_duplicates()
    &&& forall|i: int| 0 <= i < items.len() ==> !list.contains(#[trigger] items[i])
}

/// Every one of `items` can be taken out of `list`: each is in it, and none
/// occurs twice.
pub open spec fn all_members(list: Seq<Address>, items: Seq<Address>) -> bool {
    &&& items.no_duplicates()
    &&& forall|i: int| 0 <= i < items.len() ==> list.contains(#[trigger] items[i])
}

/// Why the addresses are not put on the whitelist, if they are not.
pub open spec fn whitelist_addition_refusal(
    s: MinterState,
    caller: Address,
    items: Seq<Address>,
) -> Option<Error> {
    if items.len() == 0 {
        Some(Error::WhitelistIsEmpty)
    } else if !is_privileged(s, caller) {
        Some(Error::NotPrivileged)
    } else if !all_new(s.whitelist, items) {
        Some(Error::AlreadyInWhitelist)
    } else {
        None
    }
}

/// Why the addresses are not taken off the whitelist, if they are not.
pub open spec fn whitelist_removal_refusal(
    s: MinterState,
    caller: Address,
    items: Seq<Address>,
) -> Option<Error> {
    if items.len() == 0 {
        Some(Error::WhitelistIsEmpty)
    } else if !is_privileged(s, caller) {
        Some(Error::NotPrivileged)
    } else if !all_members(s.whitelist, items) {
        Some(Error::NotInWhitelist)
    } else {
        None
    }
}

/// The whitelist takes no address twice and gives up none that it does not
/// hold: one such address among `items` has the whole call refused.
pub proof fn lemma_whitelist_is_strict(
    s: MinterState,
    caller: Address,
    items: Seq<Address>,
    i: int,
)
    requires
        is_privileged(s, caller),
        0 <= i < items.len(),
    ensures
        s.whitelist.contains(items[i]) ==> whitelist_addition_refusal(s, caller, items) == Some(
            Error::AlreadyInWhitelist,
        ),
        !s.whitelist.contains(items[i]) ==> whitelist_removal_refusal(s, caller, items) == Some(
            Error::NotInWhitelist,
        ),
{
}

/// Whether any of `items` is on the whitelist already or occurs twice.
pub(crate) fn any_known(minter: &Minter, items: &Vec<Address>) -> (r: bool)
    requires
        minter.wf(),
    ensures
        r == !all_new(minter@.whitelist, items@),
{
    let mut seen: ListSet<Address> = ListSet::new();
    let mut i: usize = 0;
    while i < items.len()
        invariant
            minter.wf(),
            i <= items@.len(),
            seen.wf(),
            seen@ == items@.subrange(0, i as int),
            forall|j: int| 0 <= j < i ==> !minter@.whitelist.contains(#[trigger] items@[j]),
        decreases items@.len() - i,
    {
        if minter.whitelist_contains(&items[i]) {
            return true;
        }
        let fresh = seen.insert(items[i]);
        if !fresh {
            proof {
                let j = choose|j: int| 0 <= j < i && items@.subrange(0, i as int)[j] == items@[i as int];
                assert(items@[j] == items@[i as int]);
            }
            return true;
        }
        assert(seen@ =~= items@.subrange(0, i + 1));
        i = i + 1;
    }
    assert(seen@ =~= items@);
    false
}

/// Whether any of `items` is missing from the whitelist or occurs twice.
pub(crate) fn any_missing(minter: &Minter, items: &Vec<Address>) -> (r: bool)
    requires
        minter.wf(),
    ensures
        r == !all_members(minter@.whitelist, items@),
{
    let mut seen: ListSet<Address> = ListSet::new();
    let mut i: usize = 0;
    while i < items.len()
        invariant
            minter.wf(),
            i <= items@.len(),
            seen.wf(),
            seen@ == items@.subrange(0, i as int),
            forall|j: int| 0 <= j < i ==> minter@.whitelist.contains(#[trigger] items@[j]),
        decreases items@.len() - i,
    {
        if !minter.whitelist_contains(&items[i]) {
            return true;
        }
        let fresh = seen.insert(items[i]);
        if !fresh {
            proof {
                let j = choose|j: int| 0 <= j < i && items@.subrange(0, i as int)[j] == items@[i as int];
                assert(items@[j] == items@[i as int]);
            }
            return true;
        }
        assert(seen@ =~= items@.subrange(0, i + 1));
        i = i + 1;
    }
    assert(seen@ =~= items@);
    false
}

} // verus!

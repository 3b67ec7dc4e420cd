//! Pausing the collection, and the two lists of what is frozen: addresses,
//! for the whole collection, and single units held by an address. The
//! owner freezes for the whole collection; the owner and the administrator
//! freeze, unfreeze and wipe single units. An address that is frozen for the
//! whole collection takes no part in the second list.

use crate::collections::{lemma_without, without};
use crate::errors::Error;
use crate::ledger::{LedgerCall, LedgerCallView};
use crate::requirements::{is_privileged, owner_only, RequirementsModule};
use crate::state::MinterState;
use crate::storage::{Minter, StorageModule};
use crate::types::{copy_bytes, Address};
use vstd::prelude::*;

verus! {

/// What is done to one unit that an address holds.
#[derive(Clone, Copy, Debug, PartialEq, Eq, Structural)]
pub enum UnitAction {
    Freeze,
    Unfreeze,
    Wipe,
}

/// The request to the ledger for one unit.
pub open spec fn unit_call(
    action: UnitAction,
    token_identifier: Seq<u8>,
    nonce: u64,
    address: Address,
) -> LedgerCallView {
    match action {
        UnitAction::Freeze => LedgerCallView::FreezeSingleNft { token_identifier, nonce, address },
        UnitAction::Unfreeze => LedgerCallView::UnfreezeSingleNft {
            token_identifier,
            nonce,
            address,
        },
        UnitAction::Wipe => LedgerCallView::WipeSingleNft { token_identifier, nonce, address },
    }
}

pub open spec fn freeze_collection_refusal(s: MinterState, caller: Address, address: Address)
    -> Option<Error> {
    if caller != s.owner {
        Some(Error::OnlyOwner)
    } else if s.frozen_addresses_for_collection.contains(address) {
        Some(Error::AddressIsInCollectionFreezeList)
    } else {
        None
    }
}

pub open spec fn unfreeze_collection_refusal(s: MinterState, caller: Address, address: Address)
    -> Option<Error> {
    if caller != s.owner {
        Some(Error::OnlyOwner)
    } else if !s.frozen_addresses_for_collection.contains(address) {
        Some(Error::AddressNotInCollectionFreezeList)
    } else {
        None
    }
}

pub open spec fn freeze_unit_refusal(s: MinterState, caller: Address, nonce: u64, address: Address)
    -> Option<Error> {
    if !is_privileged(s, caller) {
        Some(Error::NotPrivileged)
    } else if s.frozen_addresses_for_collection.contains(address) {
        Some(Error::AddressIsInCollectionFreezeList)
    } else if s.frozen_nonces(address).contains(nonce) {
        Some(Error::NonceInFreezeList)
    } else {
        None
    }
}

/// Why a unit is not unfrozen or wiped, if it is not.
pub open spec fn release_unit_refusal(
    s: MinterState,
    caller: Address,
    nonce: u64,
    address: Address,
) -> Option<Error> {
    if !is_privileged(s, caller) {
        Some(Error::NotPrivileged)
    } else if s.frozen_addresses_for_collection.contains(address) {
        Some(Error::AddressIsInCollectionFreezeList)
    } else if !s.frozen_nonces(address).contains(nonce) {
        Some(Error::NonceNotFoundInFreezeList)
    } else {
        None
    }
}

/// An address that is frozen for the whole collection takes no part in
/// the list of single units: none of its units is frozen, unfrozen or wiped
/// one by one.
pub proof fn lemma_collection_freeze_is_exclusive(
    s: MinterState,
    caller: Address,
    nonce: u64,
    address: Address,
)
    requires
        s.frozen_addresses_for_collection.contains(address),
    ensures
        freeze_unit_refusal(s, caller, nonce, address) is Some,
        release_unit_refusal(s, caller, nonce, address) is Some,
        is_privileged(s, caller) ==> freeze_unit_refusal(s, caller, nonce, address) == Some(
            Error::AddressIsInCollectionFreezeList,
        ) && release_unit_refusal(s, caller, nonce, address) == Some(
            Error::AddressIsInCollectionFreezeList,
        ),
{
}

/// Freezing, unfreezing and wiping single units keep the stored number of
/// the frozen units of every address at the number of units in its set.
pub proof fn lemma_unit_lists_stay_counted(s: MinterState, nonce: u64, address: Address)
    requires
        s.valid(),
    ensures
        !s.frozen_nonces(address).contains(nonce) && s.frozen_nonces(address).len() < usize::MAX
            ==> unit_frozen(s, nonce, address).valid(),
        s.frozen_nonces(address).contains(nonce) ==> unit_released(s, nonce, address).valid(),
{
    let before = s.frozen_nonces(address);
    assert(before.no_duplicates());
    assert(s.frozen_count_of(address) == before.len());
    if !before.contains(nonce) && before.len() < usize::MAX {
        let t = unit_frozen(s, nonce, address);
        crate::collections::lemma_push_fresh(before, nonce);
        assert forall|a: Address| #[trigger] t.frozen_nonces(a).no_duplicates() by {
            assert(s.frozen_nonces(a).no_duplicates());
        }
        assert forall|a: Address| #[trigger]
            t.frozen_count_of(a) == t.frozen_nonces(a).len() by {
            assert(s.frozen_count_of(a) == s.frozen_nonces(a).len());
        }
    }
    if before.contains(nonce) {
        let t = unit_released(s, nonce, address);
        lemma_without(before, nonce);
        assert forall|a: Address| #[trigger] t.frozen_nonces(a).no_duplicates() by {
            assert(s.frozen_nonces(a).no_duplicates());
        }
        assert forall|a: Address| #[trigger]
            t.frozen_count_of(a) == t.frozen_nonces(a).len() by {
            assert(s.frozen_count_of(a) == s.frozen_nonces(a).len());
        }
    }
}

/// The state after the unit `nonce` was added to those frozen for
/// `address`.
pub open spec fn unit_frozen(s: MinterState, nonce: u64, address: Address) -> MinterState {
    MinterState {
        frozen_sfts_per_address: s.frozen_sfts_per_address.insert(
            address,
            s.frozen_nonces(address).push(nonce),
        ),
        frozen_count: s.frozen_count.insert(
            address,
            (s.frozen_nonces(address).len() + 1) as usize,
        ),
        ..s
    }
}

/// The state after the unit `nonce` was taken from those frozen for
/// `address`.
pub open spec fn unit_released(s: MinterState, nonce: u64, address: Address) -> MinterState {
    MinterState {
        frozen_sfts_per_address: s.frozen_sfts_per_address.insert(
            address,
            without(s.frozen_nonces(address), nonce),
        ),
        frozen_count: s.frozen_count.insert(
            address,
            (s.frozen_nonces(address).len() - 1) as usize,
        ),
        ..s
    }
}

pub trait CollectionManagement: StorageModule + RequirementsModule {
    /// The request to freeze one unit that `address` holds.
    fn freeze_single_nft(&self, nonce: u64, address: &Address) -> (call: LedgerCall)
        requires
            self.wf(),
        ensures
            call@ == unit_call(UnitAction::Freeze, self@.collection_id(), nonce, *address),
    ;

    /// The request to unfreeze one unit that `address` holds.
    fn unfreeze_single_nft(&self, nonce: u64, address: &Address) -> (call: LedgerCall)
        requires
            self.wf(),
        ensures
            call@ == unit_call(UnitAction::Unfreeze, self@.collection_id(), nonce, *address),
    ;

    /// The request to wipe one unit that `address` holds.
    fn wipe_single_nft(&self, nonce: u64, address: &Address) -> (call: LedgerCall)
        requires
            self.wf(),
        ensures
            call@ == unit_call(UnitAction::Wipe, self@.collection_id(), nonce, *address),
    ;

    /// The owner stops all transfers of the collection.
    fn pause_collection(&self, caller: &Address) -> (r: Result<LedgerCall, Error>)
        requires
            self.wf(),
        ensures
            match owner_only(self@, *caller) {
                Some(e) => r == Err::<LedgerCall, Error>(e),
                None => r matches Ok(call) && call@ == (LedgerCallView::Pause {
                    token_identifier: self@.collection_id(),
                }),
            },
    ;

    /// The owner lifts the pause.
    fn unpause_collection(&self, caller: &Address) -> (r: Result<LedgerCall, Error>)
        requires
            self.wf(),
        ensures
            match owner_only(self@, *caller) {
                Some(e) => r == Err::<LedgerCall, Error>(e),
                None => r matches Ok(call) && call@ == (LedgerCallView::Unpause {
                    token_identifier: self@.collection_id(),
                }),
            },
    ;

    /// The owner freezes all that `address` holds of the collection.
    fn freeze_collection_for_address(&mut self, caller: &Address, address: &Address) -> (r: Result<
        LedgerCall,
        Error,
    >)
        requires
            old(self).wf(),
        ensures
            final(self).wf(),
            match freeze_collection_refusal(old(self)@, *caller, *address) {
                Some(e) => r == Err::<LedgerCall, Error>(e) && final(self)@ == old(self)@,
                None => {
                    &&& r matches Ok(call)
                    &&& call@ == (LedgerCallView::Freeze {
                        token_identifier: old(self)@.collection_id(),
                        address: *address,
                    })
                    &&& final(self)@ == (MinterState {
                        frozen_addresses_for_collection: old(
                            self,
                        )@.frozen_addresses_for_collection.push(*address),
                        ..old(self)@
                    })
                },
            },
    ;

    /// The owner lifts the freeze of `address` for the whole collection.
    fn unfreeze_collection_for_address(&mut self, caller: &Address, address: &Address) -> (r:
        Result<LedgerCall, Error>)
        requires
            old(self).wf(),
        ensures
            final(self).wf(),
            match unfreeze_collection_refusal(old(self)@, *caller, *address) {
                Some(e) => r == Err::<LedgerCall, Error>(e) && final(self)@ == old(self)@,
                None => {
                    &&& r matches Ok(call)
                    &&& call@ == (LedgerCallView::Unfreeze {
                        token_identifier: old(self)@.collection_id(),
                        address: *address,
                    })
                    &&& final(self)@ == (MinterState {
                        frozen_addresses_for_collection: without(
                            old(self)@.frozen_addresses_for_collection,
                            *address,
                        ),
                        ..old(self)@
                    })
                },
            },
    ;

    /// A privileged caller freezes one unit that `address` holds. The
    /// stored number of frozen units is the number of members of the set,
    /// whether the call is refused or not.
    fn freeze_single_token_for_address(&mut self, caller: &Address, nonce: u64, address: &Address)
        -> (r: Result<LedgerCall, Error>)
        requires
            old(self).wf(),
        ensures
            final(self).wf(),
            match freeze_unit_refusal(old(self)@, *caller, nonce, *address) {
                Some(e) => r == Err::<LedgerCall, Error>(e) && final(self)@ == old(self)@,
                None => {
                    &&& r matches Ok(call)
                    &&& call@ == unit_call(
                        UnitAction::Freeze,
                        old(self)@.collection_id(),
                        nonce,
                        *address,
                    )
                    &&& final(self)@ == unit_frozen(old(self)@, nonce, *address)
                },
            },
            final(self)@.frozen_count_of(*address) == final(self)@.frozen_nonces(*address).len(),
    ;

    /// A privileged caller unfreezes one unit that `address` holds.
    fn unfreeze_single_token_for_address(
        &mut self,
        caller: &Address,
        nonce: u64,
        address: &Address,
    ) -> (r: Result<LedgerCall, Error>)
        requires
            old(self).wf(),
        ensures
            final(self).wf(),
            match release_unit_refusal(old(self)@, *caller, nonce, *address) {
                Some(e) => r == Err::<LedgerCall, Error>(e) && final(self)@ == old(self)@,
                None => {
                    &&& r matches Ok(call)
                    &&& call@ == unit_call(
                        UnitAction::Unfreeze,
                        old(self)@.collection_id(),
                        nonce,
                        *address,
                    )
                    &&& final(self)@ == unit_released(old(self)@, nonce, *address)
                },
            },
            final(self)@.frozen_count_of(*address) == final(self)@.frozen_nonces(*address).len(),
    ;

    /// A privileged caller wipes one frozen unit that `address` holds.
    fn wipe_single_token_for_address(&mut self, caller: &Address, nonce: u64, address: &Address)
        -> (r: Result<LedgerCall, Error>)
        requires
            old(self).wf(),
        ensures
            final(self).wf(),
            match release_unit_refusal(old(self)@, *caller, nonce, *address) {
                Some(e) => r == Err::<LedgerCall, Error>(e) && final(self)@ == old(self)@,
                None => {
                    &&& r matches Ok(call)
                    &&& call@ == unit_call(
                        UnitAction::Wipe,
                        old(self)@.collection_id(),
                        nonce,
                        *address,
                    )
                    &&& final(self)@ == unit_released(old(self)@, nonce, *address)
                },
            },
            final(self)@.frozen_count_of(*address) == final(self)@.frozen_nonces(*address).len(),
    ;
}

/// The bytes under which requests about the collection are made.
fn collection_id(minter: &Minter) -> (id: Vec<u8>)
    requires
        minter.wf(),
    ensures
        id@ == minter@.collection_id(),
{
    match minter.token_id() {
        Some(id) => copy_bytes(id),
        None => Vec::new(),
    }
}

impl CollectionManagement for Minter {
    fn freeze_single_nft(&self, nonce: u64, address: &Address) -> (call: LedgerCall) {
        LedgerCall::FreezeSingleNft {
            token_identifier: collection_id(self),
            nonce,
            address: *address,
        }
    }

    fn unfreeze_single_nft(&self, nonce: u64, address: &Address) -> (call: LedgerCall) {
        LedgerCall::UnfreezeSingleNft {
            token_identifier: collection_id(self),
            nonce,
            address: *address,
        }
    }

    fn wipe_single_nft(&self, nonce: u64, address: &Address) -> (call: LedgerCall) {
        LedgerCall::WipeSingleNft {
            token_identifier: collection_id(self),
            nonce,
            address: *address,
        }
    }

    fn pause_collection(&self, caller: &Address) -> (r: Result<LedgerCall, Error>) {
        match self.require_is_owner(caller) {
            Err(e) => return Err(e),
            Ok(()) => {},
        }
        Ok(LedgerCall::Pause { token_identifier: collection_id(self) })
    }

    fn unpause_collection(&self, caller: &Address) -> (r: Result<LedgerCall, Error>) {
        match self.require_is_owner(caller) {
            Err(e) => return Err(e),
            Ok(()) => {},
        }
        Ok(LedgerCall::Unpause { token_identifier: collection_id(self) })
    }

    fn freeze_collection_for_address(&mut self, caller: &Address, address: &Address) -> (r: Result<
        LedgerCall,
        Error,
    >) {
        match self.require_is_owner(caller) {
            Err(e) => return Err(e),
            Ok(()) => {},
        }
        if !self.collection_freeze_insert(*address) {
            return Err(Error::AddressIsInCollectionFreezeList);
        }
        Ok(LedgerCall::Freeze { token_identifier: collection_id(self), address: *address })
    }

    fn unfreeze_collection_for_address(&mut self, caller: &Address, address: &Address) -> (r:
        Result<LedgerCall, Error>) {
        match self.require_is_owner(caller) {
            Err(e) => return Err(e),
            Ok(()) => {},
        }
        if !self.collection_freeze_remove(address) {
            proof {
                self.lemma_valid();
                lemma_without(old(self)@.frozen_addresses_for_collection, *address);
            }
            return Err(Error::AddressNotInCollectionFreezeList);
        }
        Ok(LedgerCall::Unfreeze { token_identifier: collection_id(self), address: *address })
    }

    fn freeze_single_token_for_address(&mut self, caller: &Address, nonce: u64, address: &Address)
        -> (r: Result<LedgerCall, Error>) {
        proof {
            self.lemma_valid();
        }
        match self.require_is_privileged(caller) {
            Err(e) => return Err(e),
            Ok(()) => {},
        }
        if self.is_frozen_for_collection(address) {
            return Err(Error::AddressIsInCollectionFreezeList);
        }
        if !self.frozen_sft_insert(*address, nonce) {
            return Err(Error::NonceInFreezeList);
        }
        Ok(self.freeze_single_nft(nonce, address))
    }

    fn unfreeze_single_token_for_address(
        &mut self,
        caller: &Address,
        nonce: u64,
        address: &Address,
    ) -> (r: Result<LedgerCall, Error>) {
        proof {
            self.lemma_valid();
        }
        match self.require_is_privileged(caller) {
            Err(e) => return Err(e),
            Ok(()) => {},
        }
        if self.is_frozen_for_collection(address) {
            return Err(Error::AddressIsInCollectionFreezeList);
        }
        if !self.frozen_sft_remove(*address, nonce) {
            return Err(Error::NonceNotFoundInFreezeList);
        }
        Ok(self.unfreeze_single_nft(nonce, address))
    }

    fn wipe_single_token_for_address(&mut self, caller: &Address, nonce: u64, address: &Address)
        -> (r: Result<LedgerCall, Error>) {
        proof {
            self.lemma_valid();
        }
        match self.require_is_privileged(caller) {
            Err(e) => return Err(e),
            Ok(()) => {},
        }
        if self.is_frozen_for_collection(address) {
            return Err(Error::AddressIsInCollectionFreezeList);
        }
        if !self.frozen_sft_remove(*address, nonce) {
            return Err(Error::NonceNotFoundInFreezeList);
        }
        Ok(self.wipe_single_nft(nonce, address))
    }
}

} // verus!

//! How the collection comes about: the owner asks the ledger for it, and
//! then for the contract's roles on it. What the ledger answers is dealt
//! with where the callbacks are.

use crate::errors::Error;
use crate::ledger::{CollectionProperties, LocalRole};
use crate::state::{IssuanceView, MinterState};
use crate::types::Address;
use vstd::prelude::*;

verus! {

/// What the ledger takes for creating a collection: 0.05 EGLD.
pub const ISSUE_COST: u128 = 50_000_000_000_000_000;

/// Why the collection is not asked for, if it is not.
pub open spec fn initialize_refusal(s: MinterState, caller: Address, egld_value: u128) -> Option<
    Error,
> {
    if caller != s.owner {
        Some(Error::OnlyOwner)
    } else if s.token_id() is Some {
        Some(Error::ContractAlreadyInitialized)
    } else if egld_value != ISSUE_COST {
        Some(Error::IssueCost)
    } else {
        None
    }
}

/// The minter's collection can be frozen, wiped and paused, can change its
/// owner, can be upgraded, and can have roles granted and handed on.
pub open spec fn collection_properties() -> CollectionProperties {
    CollectionProperties {
        can_freeze: true,
        can_wipe: true,
        can_pause: true,
        can_change_owner: true,
        can_upgrade: true,
        can_add_special_roles: true,
        can_transfer_create_role: true,
    }
}

/// The roles that the contract needs on its collection.
pub open spec fn local_roles() -> Seq<LocalRole> {
    seq![LocalRole::NftCreate, LocalRole::NftBurn, LocalRole::NftAddQuantity]
}

/// Why the roles are not asked for, if they are not.
pub open spec fn set_local_roles_refusal(s: MinterState, caller: Address) -> Option<Error> {
    if caller != s.owner {
        Some(Error::OnlyOwner)
    } else if s.token_id() is None {
        Some(Error::TokenNotIssued)
    } else {
        None
    }
}

/// The state after the roles were asked for.
pub open spec fn roles_requested(s: MinterState) -> MinterState {
    match s.issuance {
        IssuanceView::Issued(id) => MinterState { issuance: IssuanceView::RolesPending(id), ..s },
        _ => s,
    }
}

} // verus!

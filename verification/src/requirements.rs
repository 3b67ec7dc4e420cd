//! The conditions that calls are held to. Each check reads the state and
//! its arguments, changes nothing, and names the first condition that fails.

use crate::errors::Error;
use crate::state::MinterState;
use crate::storage::{Minter, StorageModule};
use crate::types::{Address, Key};
use vstd::prelude::*;

verus! {

/// The result of a check that found `refusal`.
pub open spec fn outcome(refusal: Option<Error>) -> Result<(), Error> {
    match refusal {
        Some(e) => Err(e),
        None => Ok(()),
    }
}

/// Minting and burning are open: the minter is not paused, the collection
/// exists, the contract has its roles on it, and a treasury is set.
pub open spec fn ready_for_minting_and_burning(s: MinterState) -> bool {
    &&& !s.is_paused
    &&& s.token_id() is Some
    &&& s.treasury_address is Some
    &&& s.roles_are_set()
}

/// Why `address` may not mint at the time `now`, if it may not: its last
/// mint is less than the time limit ago, or the whitelist is enforced and
/// the address is not on it.
pub open spec fn minting_refusal(s: MinterState, address: Address, now: u64) -> Option<Error> {
    if now - s.last_mint(address) < s.mint_time_limit {
        Some(Error::WaitMoreTime)
    } else if s.whitelist_enabled && !s.whitelist.contains(address) {
        Some(Error::NotWhitelisted)
    } else {
        None
    }
}

/// Why units with these royalties and this supply may not be created, if
/// they may not.
pub open spec fn sft_refusal(s: MinterState, royalties: u128, supply: u128) -> Option<Error> {
    if royalties > s.max_royalties {
        Some(Error::RoyaltiesAreBiggerThanMaxRoyalties)
    } else if royalties < s.min_royalties {
        Some(Error::RoyaltiesAreSmallerThanMinRoyalties)
    } else if supply > s.max_supply {
        Some(Error::MaxSupplyExceeded)
    } else if supply == 0 {
        Some(Error::SupplyHigherThanZero)
    } else {
        None
    }
}

/// The owner is privileged, and so is the administrator, where one is set.
pub open spec fn is_privileged(s: MinterState, address: Address) -> bool {
    address == s.owner || s.administrator == Some(address)
}

/// Only the owner may.
pub open spec fn owner_only(s: MinterState, caller: Address) -> Option<Error> {
    if caller == s.owner {
        None
    } else {
        Some(Error::OnlyOwner)
    }
}

/// Only the owner and the administrator may.
pub open spec fn privileged_only(s: MinterState, caller: Address) -> Option<Error> {
    if is_privileged(s, caller) {
        None
    } else {
        Some(Error::NotPrivileged)
    }
}

pub open spec fn title_description_refusal(title: Seq<u8>, description: Seq<u8>) -> Option<
    Error,
> {
    if title.len() == 0 {
        Some(Error::FieldIsEmpty)
    } else if title.len() > 30 {
        Some(Error::TooManyChars)
    } else if description.len() == 0 {
        Some(Error::FieldIsEmpty)
    } else if description.len() > 400 {
        Some(Error::TooManyChars)
    } else {
        None
    }
}

/// The bytes of `https://`.
pub open spec fn https_prefix() -> Seq<u8> {
    seq![104u8, 116u8, 116u8, 112u8, 115u8, 58u8, 47u8, 47u8]
}

pub open spec fn starts_with_https(url: Seq<u8>) -> bool {
    url.len() >= 8 && url.subrange(0, 8) == https_prefix()
}

/// A byte that may stand in a URL: printable ASCII, the space left out.
pub open spec fn is_url_byte(b: u8) -> bool {
    32 < b < 127
}

pub open spec fn url_length_refusal(s: MinterState, url: Seq<u8>) -> Option<Error> {
    if url.len() == 0 {
        Some(Error::UrlIsEmpty)
    } else if url.len() > s.url_max_length {
        Some(Error::UrlTooBig)
    } else if url.len() < s.url_min_length {
        Some(Error::UrlTooSmall)
    } else {
        None
    }
}

pub open spec fn url_refusal(s: MinterState, url: Seq<u8>) -> Option<Error> {
    if url_length_refusal(s, url) is Some {
        url_length_refusal(s, url)
    } else if !starts_with_https(url) {
        Some(Error::NotUrl)
    } else if exists|i: int| 0 <= i < url.len() && !is_url_byte(#[trigger] url[i]) {
        Some(Error::UrlInvalidCharacters)
    } else {
        None
    }
}

pub open spec fn royalties_limits_refusal(min_royalties: u128, max_royalties: u128) -> Option<
    Error,
> {
    if min_royalties >= max_royalties {
        Some(Error::MinRoyaltiesBiggerThanMaxRoyalties)
    } else if max_royalties >= 10_000 {
        Some(Error::MaxRoyaltiesTooHigh)
    } else {
        None
    }
}

pub trait RequirementsModule: StorageModule {
    fn require_ready_for_minting_and_burning(&self) -> (r: Result<(), Error>)
        requires
            self.wf(),
        ensures
            r == if ready_for_minting_and_burning(self@) {
                Ok::<(), Error>(())
            } else {
                Err(Error::MintingAndBurningNotAllowed)
            },
    ;

    fn require_minting_is_allowed(&self, address: &Address, current_time: u64) -> (r: Result<
        (),
        Error,
    >)
        requires
            self.wf(),
        ensures
            r == outcome(minting_refusal(self@, *address, current_time)),
    ;

    fn require_value_is_positive(&self, value: u128) -> (r: Result<(), Error>)
        ensures
            r == if value > 0 {
                Ok::<(), Error>(())
            } else {
                Err(Error::ValueMustBePositive)
            },
    ;

    fn require_sft_is_valid(&self, royalties: u128, supply: u128) -> (r: Result<(), Error>)
        requires
            self.wf(),
        ensures
            r == outcome(sft_refusal(self@, royalties, supply)),
    ;

    fn require_is_privileged(&self, address: &Address) -> (r: Result<(), Error>)
        requires
            self.wf(),
        ensures
            r == outcome(privileged_only(self@, *address)),
    ;

    fn require_is_owner(&self, address: &Address) -> (r: Result<(), Error>)
        requires
            self.wf(),
        ensures
            r == outcome(owner_only(self@, *address)),
    ;

    fn require_title_description_are_valid(&self, title: &Vec<u8>, description: &Vec<u8>) -> (r:
        Result<(), Error>)
        ensures
            r == outcome(title_description_refusal(title@, description@)),
    ;

    fn require_url_is_valid(&self, url: &Vec<u8>) -> (r: Result<(), Error>)
        requires
            self.wf(),
        ensures
            r == outcome(url_refusal(self@, url@)),
    ;

    fn require_url_is_adequate_length(&self, url: &Vec<u8>) -> (r: Result<(), Error>)
        requires
            self.wf(),
        ensures
            r == outcome(url_length_refusal(self@, url@)),
    ;

    fn require_royalties_are_valid(&self, min_royalties: u128, max_royalties: u128) -> (r:
        Result<(), Error>)
        ensures
            r == outcome(royalties_limits_refusal(min_royalties, max_royalties)),
    ;

    fn require_token_issued(&self) -> (r: Result<(), Error>)
        requires
            self.wf(),
        ensures
            r == if self@.token_id() is Some {
                Ok::<(), Error>(())
            } else {
                Err(Error::TokenNotIssued)
            },
    ;

    fn require_withdrawal_address_is_set(&self) -> (r: Result<(), Error>)
        requires
            self.wf(),
        ensures
            r == if self@.withdrawal_address is Some {
                Ok::<(), Error>(())
            } else {
                Err(Error::WithdrawalAddressNotSet)
            },
    ;

    fn require_is_withdrawal_address(&self, address: &Address) -> (r: Result<(), Error>)
        requires
            self.wf(),
        ensures
            r == if self@.withdrawal_address == Some(*address) {
                Ok::<(), Error>(())
            } else {
                Err(Error::OnlyWithdrawalAddressCanWithdraw)
            },
    ;
}

/// Whether an address is set and is `address`.
pub fn is_address(set: Option<Address>, address: &Address) -> (r: bool)
    ensures
        r == (set == Some(*address)),
{
    match set {
        Some(a) => a.same(address),
        None => false,
    }
}

impl RequirementsModule for Minter {
    fn require_ready_for_minting_and_burning(&self) -> (r: Result<(), Error>) {
        let mut is_mint_ready = true;
        if self.is_paused() {
            is_mint_ready = false;
        }
        if self.token_id().is_none() {
            is_mint_ready = false;
        }
        if self.treasury_address().is_none() {
            is_mint_ready = false;
        }
        if !self.roles_are_set() {
            is_mint_ready = false;
        }
        if is_mint_ready {
            Ok(())
        } else {
            Err(Error::MintingAndBurningNotAllowed)
        }
    }

    fn require_minting_is_allowed(&self, address: &Address, current_time: u64) -> (r: Result<
        (),
        Error,
    >) {
        let last_mint_time = self.last_mint_time(address);
        let mint_time_limit = self.mint_time_limit();
        if current_time < last_mint_time || current_time - last_mint_time < mint_time_limit {
            return Err(Error::WaitMoreTime);
        }
        if self.whitelist_enabled() && !self.whitelist_contains(address) {
            return Err(Error::NotWhitelisted);
        }
        Ok(())
    }

    fn require_value_is_positive(&self, value: u128) -> (r: Result<(), Error>) {
        if value > 0 {
            Ok(())
        } else {
            Err(Error::ValueMustBePositive)
        }
    }

    fn require_sft_is_valid(&self, royalties: u128, supply: u128) -> (r: Result<(), Error>) {
        if royalties > self.max_royalties() {
            return Err(Error::RoyaltiesAreBiggerThanMaxRoyalties);
        }
        if royalties < self.min_royalties() {
            return Err(Error::RoyaltiesAreSmallerThanMinRoyalties);
        }
        if supply > self.max_supply() {
            return Err(Error::MaxSupplyExceeded);
        }
        if supply == 0 {
            return Err(Error::SupplyHigherThanZero);
        }
        Ok(())
    }

    fn require_is_privileged(&self, address: &Address) -> (r: Result<(), Error>) {
        if self.owner().same(address) || is_address(self.administrator(), address) {
            Ok(())
        } else {
            Err(Error::NotPrivileged)
        }
    }

    fn require_is_owner(&self, address: &Address) -> (r: Result<(), Error>) {
        if self.owner().same(address) {
            Ok(())
        } else {
            Err(Error::OnlyOwner)
        }
    }

    fn require_title_description_are_valid(&self, title: &Vec<u8>, description: &Vec<u8>) -> (r:
        Result<(), Error>) {
        if title.len() == 0 {
            return Err(Error::FieldIsEmpty);
        }
        if title.len() > 30 {
            return Err(Error::TooManyChars);
        }
        if description.len() == 0 {
            return Err(Error::FieldIsEmpty);
        }
        if description.len() > 400 {
            return Err(Error::TooManyChars);
        }
        Ok(())
    }

    fn require_url_is_valid(&self, url: &Vec<u8>) -> (r: Result<(), Error>) {
        let checked = self.require_url_is_adequate_length(url);
        if checked.is_err() {
            return checked;
        }
        let prefix: [u8; 8] = [104, 116, 116, 112, 115, 58, 47, 47];
        assert(prefix@ =~= https_prefix());
        if url.len() < 8 {
            return Err(Error::NotUrl);
        }
        let mut i: usize = 0;
        while i < 8
            invariant
                i <= 8,
                url@.len() >= 8,
                url_length_refusal(self@, url@) is None,
                prefix@ == https_prefix(),
                forall|j: int| 0 <= j < i ==> url@[j] == https_prefix()[j],
            decreases 8 - i,
        {
            if url[i] != prefix[i] {
                assert(url@.subrange(0, 8)[i as int] != https_prefix()[i as int]);
                return Err(Error::NotUrl);
            }
            i = i + 1;
        }
        assert(url@.subrange(0, 8) =~= https_prefix());
        let mut k: usize = 0;
        while k < url.len()
            invariant
                k <= url@.len(),
                url_length_refusal(self@, url@) is None,
                starts_with_https(url@),
                forall|j: int| 0 <= j < k ==> is_url_byte(#[trigger] url@[j]),
            decreases url@.len() - k,
        {
            if !(url[k] > 32 && url[k] < 127) {
                return Err(Error::UrlInvalidCharacters);
            }
            k = k + 1;
        }
        Ok(())
    }

    fn require_url_is_adequate_length(&self, url: &Vec<u8>) -> (r: Result<(), Error>) {
        let url_length = url.len();
        if url_length == 0 {
            return Err(Error::UrlIsEmpty);
        }
        if url_length > self.url_max_length() {
            return Err(Error::UrlTooBig);
        }
        if url_length < self.url_min_length() {
            return Err(Error::UrlTooSmall);
        }
        Ok(())
    }

    fn require_royalties_are_valid(&self, min_royalties: u128, max_royalties: u128) -> (r:
        Result<(), Error>) {
        if min_royalties >= max_royalties {
            return Err(Error::MinRoyaltiesBiggerThanMaxRoyalties);
        }
        if max_royalties >= 10_000 {
            return Err(Error::MaxRoyaltiesTooHigh);
        }
        Ok(())
    }

    fn require_token_issued(&self) -> (r: Result<(), Error>) {
        if self.token_id().is_some() {
            Ok(())
        } else {
            Err(Error::TokenNotIssued)
        }
    }

    fn require_withdrawal_address_is_set(&self) -> (r: Result<(), Error>) {
        if self.withdrawal_address().is_some() {
            Ok(())
        } else {
            Err(Error::WithdrawalAddressNotSet)
        }
    }

    fn require_is_withdrawal_address(&self, address: &Address) -> (r: Result<(), Error>) {
        if is_address(self.withdrawal_address(), address) {
            Ok(())
        } else {
            Err(Error::OnlyWithdrawalAddressCanWithdraw)
        }
    }
}

} // verus!

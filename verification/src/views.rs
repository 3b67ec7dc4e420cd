//! All that a user needs to know before minting, in one answer.

use crate::state::MinterState;
use crate::storage::{Minter, StorageModule};
use crate::types::{Address, TokenId, TokenIdView};
use vstd::prelude::*;

verus! {

#[derive(Debug, PartialEq, Eq)]
pub struct UserDataOut {
    pub anti_spam_tax_value: u128,
    pub is_paused: bool,
    pub max_royalties: u128,
    pub min_royalties: u128,
    pub max_supply: u128,
    pub mint_time_limit: u64,
    pub last_mint_time: u64,
    pub whitelist_enabled: bool,
    pub is_whitelisted: bool,
    pub minted_per_user: u128,
    pub total_minted: u128,
    pub frozen: bool,
    pub frozen_nonces: Vec<u64>,
    pub max_donation_percentage: u64,
}

pub struct UserDataOutView {
    pub anti_spam_tax_value: u128,
    pub is_paused: bool,
    pub max_royalties: u128,
    pub min_royalties: u128,
    pub max_supply: u128,
    pub mint_time_limit: u64,
    pub last_mint_time: u64,
    pub whitelist_enabled: bool,
    pub is_whitelisted: bool,
    pub minted_per_user: u128,
    pub total_minted: u128,
    pub frozen: bool,
    pub frozen_nonces: Seq<u64>,
    pub max_donation_percentage: u64,
}

impl View for UserDataOut {
    type V = UserDataOutView;

    open spec fn view(&self) -> UserDataOutView {
        UserDataOutView {
            anti_spam_tax_value: self.anti_spam_tax_value,
            is_paused: self.is_paused,
            max_royalties: self.max_royalties,
            min_royalties: self.min_royalties,
            max_supply: self.max_supply,
            mint_time_limit: self.mint_time_limit,
            last_mint_time: self.last_mint_time,
            whitelist_enabled: self.whitelist_enabled,
            is_whitelisted: self.is_whitelisted,
            minted_per_user: self.minted_per_user,
            total_minted: self.total_minted,
            frozen: self.frozen,
            frozen_nonces: self.frozen_nonces@,
            max_donation_percentage: self.max_donation_percentage,
        }
    }
}

/// What the state holds for `address`, minting against `tax_token`.
pub open spec fn user_data_out(s: MinterState, address: Address, tax_token: TokenIdView)
    -> UserDataOutView {
    UserDataOutView {
        anti_spam_tax_value: s.tax(tax_token),
        is_paused: s.is_paused,
        max_royalties: s.max_royalties,
        min_royalties: s.min_royalties,
        max_supply: s.max_supply,
        mint_time_limit: s.mint_time_limit,
        last_mint_time: s.last_mint(address),
        whitelist_enabled: s.whitelist_enabled,
        is_whitelisted: s.whitelist.contains(address),
        minted_per_user: s.minted_by(address),
        total_minted: s.minted_tokens,
        frozen: s.frozen_addresses_for_collection.contains(address),
        frozen_nonces: s.frozen_nonces(address),
        max_donation_percentage: s.max_donation_percentage,
    }
}

pub trait ViewsModule: StorageModule {
    fn get_user_data_out(&self, address: &Address, tax_token: &TokenId) -> (r: UserDataOut)
        requires
            self.wf(),
        ensures
            r@ == user_data_out(self@, *address, tax_token@),
    ;
}

impl ViewsModule for Minter {
    fn get_user_data_out(&self, address: &Address, tax_token: &TokenId) -> (r: UserDataOut) {
        UserDataOut {
            anti_spam_tax_value: self.anti_spam_tax(tax_token),
            is_paused: self.is_paused(),
            max_royalties: self.max_royalties(),
            min_royalties: self.min_royalties(),
            max_supply: self.max_supply(),
            mint_time_limit: self.mint_time_limit(),
            last_mint_time: self.last_mint_time(address),
            whitelist_enabled: self.whitelist_enabled(),
            is_whitelisted: self.whitelist_contains(address),
            minted_per_user: self.minted_per_address(address),
            total_minted: self.minted_tokens(),
            frozen: self.is_frozen_for_collection(address),
            frozen_nonces: self.frozen_sfts_per_address(address),
            max_donation_percentage: self.max_donation_percentage(),
        }
    }
}

} // verus!

//! A minter of data NFT-FTs: it has a collection created at the ledger,
//! mints units of it against a tax and a bond, and keeps the lists of frozen
//! addresses and units. The minter decides and keeps its books; what it
//! decides comes back to the caller as requests to carry out.

pub mod bonding_proxy;
pub mod callbacks;
pub mod collection_management;
pub mod collections;
pub mod errors;
pub mod issuance;
pub mod ledger;
pub mod mint;
pub mod nft_mint_utils;
pub mod requirements;
pub mod state;
pub mod storage;
pub mod treasury;
pub mod types;
pub mod views;
pub mod whitelist;

use crate::collections::{lemma_without_all, without_all};
use crate::errors::Error;
use crate::issuance::{
    collection_properties, initialize_refusal, local_roles, roles_requested,
    set_local_roles_refusal, ISSUE_COST,
};
use crate::ledger::{
    CollectionProperties, LedgerCall, LedgerCallView, LocalRole, MintReceipt, Transfer,
    TransferView, UnitCreation, UnitShare,
};
use crate::mint::{
    burn_refusal, content_refusal, donation_share, mint_receipt, mint_refusal, minted_state,
    MintCall,
};
use crate::nft_mint_utils::{sha256_digest, views_of, NftMintUtils};
use crate::requirements::{
    minting_refusal, outcome, owner_only, privileged_only, RequirementsModule,
};
use crate::state::{IssuanceView, MinterState};
use crate::storage::{DataNftAttributes, IssuanceState, Minter, StorageModule};
use crate::treasury::{donation_percentage_refusal, royalties_refusal, withdraw_refusal};
use crate::types::{bytes_equal, copy_bytes, Address, Payment, TokenId};
use crate::whitelist::{
    all_new, any_known, any_missing, whitelist_addition_refusal, whitelist_removal_refusal,
};
use vstd::prelude::*;

verus! {

pub trait DataNftMint: StorageModule + RequirementsModule + NftMintUtils {
    /// What a deployment does: the minter is paused, the whitelist is
    /// enforced, and a mint is held to at most 20 units unless a limit is
    /// set already. The limits of the royalties are always set, and stay.
    fn init(&mut self)
        requires
            old(self).wf(),
        ensures
            final(self).wf(),
            final(self)@ == (MinterState {
                is_paused: true,
                whitelist_enabled: true,
                max_supply: if old(self)@.max_supply == 0 {
                    20
                } else {
                    old(self)@.max_supply
                },
                ..old(self)@
            }),
    ;

    /// What an upgrade does: the minter is paused.
    fn upgrade(&mut self)
        requires
            old(self).wf(),
        ensures
            final(self).wf(),
            final(self)@ == (MinterState { is_paused: true, ..old(self)@ }),
    ;

    /// The owner sets the tax, the time limit and the treasury, and asks
    /// the ledger for the collection; `egld_value` is what came with the
    /// call. Served as long as no collection exists, for the exact fee.
    fn initialize_contract(
        &mut self,
        caller: &Address,
        egld_value: u128,
        collection_name: Vec<u8>,
        token_ticker: Vec<u8>,
        anti_spam_tax_token: TokenId,
        anti_spam_tax_value: u128,
        mint_time_limit: u64,
        treasury_address: Address,
    ) -> (r: Result<LedgerCall, Error>)
        requires
            old(self).wf(),
        ensures
            final(self).wf(),
            match initialize_refusal(old(self)@, *caller, egld_value) {
                Some(e) => r == Err::<LedgerCall, Error>(e) && final(self)@ == old(self)@,
                None => {
                    &&& r matches Ok(call)
                    &&& call@ == (LedgerCallView::IssueSemiFungible {
                        issue_cost: egld_value,
                        token_display_name: collection_name@,
                        token_ticker: token_ticker@,
                        properties: collection_properties(),
                    })
                    &&& final(self)@ == (MinterState {
                        anti_spam_tax: old(self)@.anti_spam_tax.insert(
                            anti_spam_tax_token@,
                            anti_spam_tax_value,
                        ),
                        mint_time_limit,
                        treasury_address: Some(treasury_address),
                        issuance: IssuanceView::IssuancePending,
                        ..old(self)@
                    })
                },
            },
    ;

    /// The owner asks the ledger to grant the contract the roles to create
    /// units, to burn them and to add to them.
    fn set_local_roles(&mut self, caller: &Address) -> (r: Result<LedgerCall, Error>)
        requires
            old(self).wf(),
        ensures
            final(self).wf(),
            match set_local_roles_refusal(old(self)@, *caller) {
                Some(e) => r == Err::<LedgerCall, Error>(e) && final(self)@ == old(self)@,
                None => {
                    &&& r matches Ok(call)
                    &&& call@ == (LedgerCallView::SetSpecialRoles {
                        token_identifier: old(self)@.token_id()->0,
                        roles: local_roles(),
                    })
                    &&& final(self)@ == roles_requested(old(self)@)
                },
            },
    ;

    /// What a mint is held to before the bond contract is asked for the
    /// bond: that the request is in order and that `caller` may mint at the
    /// time `current_time`.
    fn check_mint_request(
        &self,
        caller: &Address,
        current_time: u64,
        media: &Vec<u8>,
        metadata: &Vec<u8>,
        data_marshal: &Vec<u8>,
        data_stream: &Vec<u8>,
        data_preview: &Vec<u8>,
        royalties: u128,
        supply: u128,
        title: &Vec<u8>,
        description: &Vec<u8>,
        donation_percentage: u64,
    ) -> (r: Result<(), Error>)
        requires
            self.wf(),
        ensures
            r == outcome(
                match content_refusal(
                    self@,
                    media@,
                    metadata@,
                    data_marshal@,
                    data_stream@,
                    data_preview@,
                    royalties,
                    supply,
                    title@,
                    description@,
                    donation_percentage,
                ) {
                    Some(e) => Some(e),
                    None => minting_refusal(self@, *caller, current_time),
                },
            ),
    ;

    /// Mints one unit for `caller` at the time `current_time`, against
    /// `payment`; `bond_amount` is what the bond contract asks for the lock
    /// period. Refused, with nothing changed, on the first check that
    /// fails. Else the caller's mint is booked, and the receipt says what is
    /// to be done: the tax to the treasury, the unit created with the hash
    /// of its data, the bond deposited, the supply handed out. The two
    /// counters that a mint raises must not stand at the end of `u128`.
    fn mint_token(
        &mut self,
        caller: &Address,
        current_time: u64,
        payment: Payment,
        bond_amount: u128,
        name: Vec<u8>,
        media: Vec<u8>,
        metadata: Vec<u8>,
        data_marshal: Vec<u8>,
        data_stream: Vec<u8>,
        data_preview: Vec<u8>,
        royalties: u128,
        supply: u128,
        title: Vec<u8>,
        description: Vec<u8>,
        lock_period_sec: u64,
        donation_percentage: u64,
        extra_assets: Vec<Vec<u8>>,
    ) -> (r: Result<MintReceipt, Error>)
        requires
            old(self).wf(),
            old(self)@.minted_tokens < u128::MAX,
            old(self)@.minted_by(*caller) < u128::MAX,
        ensures
            final(self).wf(),
            ({
                let call = MintCall {
                    caller: *caller,
                    current_time,
                    payment: payment@,
                    bond_amount,
                    name: name@,
                    media: media@,
                    metadata: metadata@,
                    data_marshal: data_marshal@,
                    data_stream: data_stream@,
                    data_preview: data_preview@,
                    royalties,
                    supply,
                    title: title@,
                    description: description@,
                    lock_period_sec,
                    donation_percentage,
                    extra_assets: views_of(extra_assets@),
                };
                match mint_refusal(old(self)@, call) {
                    Some(e) => r == Err::<MintReceipt, Error>(e) && final(self)@ == old(self)@,
                    None => r matches Ok(receipt) && receipt@ == mint_receipt(
                        old(self)@,
                        call,
                        sha256_digest(data_marshal@ + data_stream@),
                    ) && final(self)@ == minted_state(old(self)@, call),
                }
            }),
            payment.amount != old(self)@.tax(payment.token_identifier@) + bond_amount ==> r is Err
                && final(self)@ == old(self)@,
            old(self)@.whitelist_enabled && !old(self)@.whitelist.contains(*caller) ==> r is Err
                && final(self)@ == old(self)@,
    ;

    /// `mint_token` for a unit whose data has the hash `hash`.
    fn mint_token_with_hash(
        &mut self,
        caller: &Address,
        current_time: u64,
        payment: Payment,
        bond_amount: u128,
        name: Vec<u8>,
        media: Vec<u8>,
        metadata: Vec<u8>,
        data_marshal: Vec<u8>,
        data_stream: Vec<u8>,
        data_preview: Vec<u8>,
        royalties: u128,
        supply: u128,
        title: Vec<u8>,
        description: Vec<u8>,
        lock_period_sec: u64,
        donation_percentage: u64,
        extra_assets: Vec<Vec<u8>>,
        hash: Vec<u8>,
    ) -> (r: Result<MintReceipt, Error>)
        requires
            old(self).wf(),
            old(self)@.minted_tokens < u128::MAX,
            old(self)@.minted_by(*caller) < u128::MAX,
        ensures
            final(self).wf(),
            ({
                let call = MintCall {
                    caller: *caller,
                    current_time,
                    payment: payment@,
                    bond_amount,
                    name: name@,
                    media: media@,
                    metadata: metadata@,
                    data_marshal: data_marshal@,
                    data_stream: data_stream@,
                    data_preview: data_preview@,
                    royalties,
                    supply,
                    title: title@,
                    description: description@,
                    lock_period_sec,
                    donation_percentage,
                    extra_assets: views_of(extra_assets@),
                };
                match mint_refusal(old(self)@, call) {
                    Some(e) => r == Err::<MintReceipt, Error>(e) && final(self)@ == old(self)@,
                    None => r matches Ok(receipt) && receipt@ == mint_receipt(
                        old(self)@,
                        call,
                        hash@,
                    ) && final(self)@ == minted_state(old(self)@, call),
                }
            }),
            payment.amount != old(self)@.tax(payment.token_identifier@) + bond_amount ==> r is Err
                && final(self)@ == old(self)@,
            old(self)@.whitelist_enabled && !old(self)@.whitelist.contains(*caller) ==> r is Err
                && final(self)@ == old(self)@,
    ;

    /// Burns the units of the collection that came with the call.
    fn burn_token(&self, payment: &Payment) -> (r: Result<LedgerCall, Error>)
        requires
            self.wf(),
        ensures
            match burn_refusal(self@, payment@) {
                Some(e) => r == Err::<LedgerCall, Error>(e),
                None => r matches Ok(call) && call@ == (LedgerCallView::Burn {
                    token_identifier: self@.token_id()->0,
                    nonce: payment.token_nonce,
                    amount: payment.amount,
                }),
            },
    ;

    fn set_treasury_address(&mut self, caller: &Address, address: Address) -> (r: Result<
        (),
        Error,
    >)
        requires
            old(self).wf(),
        ensures
            final(self).wf(),
            r == outcome(owner_only(old(self)@, *caller)),
            final(self)@ == if r is Ok {
                MinterState { treasury_address: Some(address), ..old(self)@ }
            } else {
                old(self)@
            },
    ;

    fn set_donation_treasury_address(&mut self, caller: &Address, address: Address) -> (r: Result<
        (),
        Error,
    >)
        requires
            old(self).wf(),
        ensures
            final(self).wf(),
            r == outcome(privileged_only(old(self)@, *caller)),
            final(self)@ == if r is Ok {
                MinterState { donation_treasury_address: Some(address), ..old(self)@ }
            } else {
                old(self)@
            },
    ;

    /// Sets the largest share of a mint that may go to the donation
    /// treasury, in basis points: at most 10000.
    fn set_max_donation_percentage(&mut self, caller: &Address, percentage: u64) -> (r: Result<
        (),
        Error,
    >)
        requires
            old(self).wf(),
        ensures
            final(self).wf(),
            r == outcome(donation_percentage_refusal(old(self)@, *caller, percentage)),
            final(self)@ == if r is Ok {
                MinterState { max_donation_percentage: percentage, ..old(self)@ }
            } else {
                old(self)@
            },
    ;

    fn set_is_paused(&mut self, caller: &Address, is_paused: bool) -> (r: Result<(), Error>)
        requires
            old(self).wf(),
        ensures
            final(self).wf(),
            r == outcome(privileged_only(old(self)@, *caller)),
            final(self)@ == if r is Ok {
                MinterState { is_paused, ..old(self)@ }
            } else {
                old(self)@
            },
    ;

    fn set_whitelist_enabled(&mut self, caller: &Address, is_enabled: bool) -> (r: Result<
        (),
        Error,
    >)
        requires
            old(self).wf(),
        ensures
            final(self).wf(),
            r == outcome(privileged_only(old(self)@, *caller)),
            final(self)@ == if r is Ok {
                MinterState { whitelist_enabled: is_enabled, ..old(self)@ }
            } else {
                old(self)@
            },
    ;

    /// Sets the tax on a mint that is paid in the token `token_id`.
    fn set_anti_spam_tax(&mut self, caller: &Address, token_id: TokenId, tax: u128) -> (r: Result<
        (),
        Error,
    >)
        requires
            old(self).wf(),
        ensures
            final(self).wf(),
            r == outcome(privileged_only(old(self)@, *caller)),
            final(self)@ == if r is Ok {
                MinterState {
                    anti_spam_tax: old(self)@.anti_spam_tax.insert(token_id@, tax),
                    ..old(self)@
                }
            } else {
                old(self)@
            },
    ;

    /// Puts the addresses on the whitelist, all or none: none if one of
    /// them is on it already or occurs twice.
    fn set_whitelist_spots(&mut self, caller: &Address, whitelist: Vec<Address>) -> (r: Result<
        (),
        Error,
    >)
        requires
            old(self).wf(),
        ensures
            final(self).wf(),
            r == outcome(whitelist_addition_refusal(old(self)@, *caller, whitelist@)),
            final(self)@ == if r is Ok {
                MinterState { whitelist: old(self)@.whitelist + whitelist@, ..old(self)@ }
            } else {
                old(self)@
            },
    ;

    /// Takes the addresses off the whitelist, all or none: none if one of
    /// them is not on it or occurs twice.
    fn remove_whitelist_spots(&mut self, caller: &Address, whitelist: Vec<Address>) -> (r: Result<
        (),
        Error,
    >)
        requires
            old(self).wf(),
        ensures
            final(self).wf(),
            r == outcome(whitelist_removal_refusal(old(self)@, *caller, whitelist@)),
            final(self)@ == if r is Ok {
                MinterState {
                    whitelist: without_all(old(self)@.whitelist, whitelist@),
                    ..old(self)@
                }
            } else {
                old(self)@
            },
            r is Ok ==> forall|a: Address| #[trigger]
                final(self)@.whitelist.contains(a) <==> old(self)@.whitelist.contains(a)
                    && !whitelist@.contains(a),
    ;

    fn set_mint_time_limit(&mut self, caller: &Address, mint_time_limit: u64) -> (r: Result<
        (),
        Error,
    >)
        requires
            old(self).wf(),
        ensures
            final(self).wf(),
            r == outcome(owner_only(old(self)@, *caller)),
            final(self)@ == if r is Ok {
                MinterState { mint_time_limit, ..old(self)@ }
            } else {
                old(self)@
            },
    ;

    /// Sets the limits of the royalties of a mint, in basis points: the
    /// lower under the upper, the upper under 10000.
    fn set_royalties_limits(&mut self, caller: &Address, min_royalties: u128, max_royalties: u128)
        -> (r: Result<(), Error>)
        requires
            old(self).wf(),
        ensures
            final(self).wf(),
            r == outcome(royalties_refusal(old(self)@, *caller, min_royalties, max_royalties)),
            final(self)@ == if r is Ok {
                MinterState { min_royalties, max_royalties, ..old(self)@ }
            } else {
                old(self)@
            },
    ;

    fn set_max_supply(&mut self, caller: &Address, max_supply: u128) -> (r: Result<(), Error>)
        requires
            old(self).wf(),
        ensures
            final(self).wf(),
            r == outcome(privileged_only(old(self)@, *caller)),
            final(self)@ == if r is Ok {
                MinterState { max_supply, ..old(self)@ }
            } else {
                old(self)@
            },
    ;

    fn set_administrator(&mut self, caller: &Address, administrator: Address) -> (r: Result<
        (),
        Error,
    >)
        requires
            old(self).wf(),
        ensures
            final(self).wf(),
            r == outcome(owner_only(old(self)@, *caller)),
            final(self)@ == if r is Ok {
                MinterState { administrator: Some(administrator), ..old(self)@ }
            } else {
                old(self)@
            },
    ;

    fn set_bond_contract_address(&mut self, caller: &Address, bond_contract_address: Address) -> (r:
        Result<(), Error>)
        requires
            old(self).wf(),
        ensures
            final(self).wf(),
            r == outcome(owner_only(old(self)@, *caller)),
            final(self)@ == if r is Ok {
                MinterState { bond_contract_address: Some(bond_contract_address), ..old(self)@ }
            } else {
                old(self)@
            },
    ;

    fn set_withdrawal_address(&mut self, caller: &Address, withdrawal_address: Address) -> (r:
        Result<(), Error>)
        requires
            old(self).wf(),
        ensures
            final(self).wf(),
            r == outcome(owner_only(old(self)@, *caller)),
            final(self)@ == if r is Ok {
                MinterState { withdrawal_address: Some(withdrawal_address), ..old(self)@ }
            } else {
                old(self)@
            },
    ;

    /// The withdrawal address takes `amount` of a token out of the
    /// contract's balance, which is `balance`.
    fn withdraw(
        &self,
        caller: &Address,
        token_identifier: TokenId,
        nonce: u64,
        amount: u128,
        balance: u128,
    ) -> (r: Result<Transfer, Error>)
        requires
            self.wf(),
        ensures
            match withdraw_refusal(self@, *caller, amount, balance) {
                Some(e) => r == Err::<Transfer, Error>(e),
                None => r matches Ok(transfer) && transfer@ == (TransferView {
                    to: *caller,
                    token_identifier: token_identifier@,
                    token_nonce: nonce,
                    amount,
                }),
            },
    ;
}

impl DataNftMint for Minter {
    fn init(&mut self) {
        self.store_is_paused(true);
        self.store_whitelist_enabled(true);
        if self.max_supply() == 0 {
            self.store_max_supply(20);
        }
    }

    fn upgrade(&mut self) {
        self.store_is_paused(true);
    }

    fn initialize_contract(
        &mut self,
        caller: &Address,
        egld_value: u128,
        collection_name: Vec<u8>,
        token_ticker: Vec<u8>,
        anti_spam_tax_token: TokenId,
        anti_spam_tax_value: u128,
        mint_time_limit: u64,
        treasury_address: Address,
    ) -> (r: Result<LedgerCall, Error>) {
        match self.require_is_owner(caller) {
            Err(e) => return Err(e),
            Ok(()) => {},
        }
        if self.token_id().is_some() {
            return Err(Error::ContractAlreadyInitialized);
        }
        if egld_value != ISSUE_COST {
            return Err(Error::IssueCost);
        }
        self.store_anti_spam_tax(anti_spam_tax_token, anti_spam_tax_value);
        self.store_mint_time_limit(mint_time_limit);
        self.store_treasury_address(treasury_address);
        self.store_issuance(IssuanceState::IssuancePending);
        Ok(
            LedgerCall::IssueSemiFungible {
                issue_cost: egld_value,
                token_display_name: collection_name,
                token_ticker,
                properties: CollectionProperties {
                    can_freeze: true,
                    can_wipe: true,
                    can_pause: true,
                    can_change_owner: true,
                    can_upgrade: true,
                    can_add_special_roles: true,
                    can_transfer_create_role: true,
                },
            },
        )
    }

    fn set_local_roles(&mut self, caller: &Address) -> (r: Result<LedgerCall, Error>) {
        match self.require_is_owner(caller) {
            Err(e) => return Err(e),
            Ok(()) => {},
        }
        match self.require_token_issued() {
            Err(e) => return Err(e),
            Ok(()) => {},
        }
        let (token_identifier, pending) = match self.issuance_state() {
            IssuanceState::Issued(id) => (
                copy_bytes(id),
                Some(IssuanceState::RolesPending(copy_bytes(id))),
            ),
            IssuanceState::RolesPending(id) => (copy_bytes(id), None),
            IssuanceState::Ready(id) => (copy_bytes(id), None),
            _ => return Err(Error::TokenNotIssued),
        };
        match pending {
            Some(issuance) => self.store_issuance(issuance),
            None => {},
        }
        let mut roles: Vec<LocalRole> = Vec::new();
        roles.push(LocalRole::NftCreate);
        roles.push(LocalRole::NftBurn);
        roles.push(LocalRole::NftAddQuantity);
        assert(roles@ =~= local_roles());
        Ok(LedgerCall::SetSpecialRoles { token_identifier, roles })
    }

    fn check_mint_request(
        &self,
        caller: &Address,
        current_time: u64,
        media: &Vec<u8>,
        metadata: &Vec<u8>,
        data_marshal: &Vec<u8>,
        data_stream: &Vec<u8>,
        data_preview: &Vec<u8>,
        royalties: u128,
        supply: u128,
        title: &Vec<u8>,
        description: &Vec<u8>,
        donation_percentage: u64,
    ) -> (r: Result<(), Error>) {
        match self.require_ready_for_minting_and_burning() {
            Err(e) => return Err(e),
            Ok(()) => {},
        }
        if data_stream.len() == 0 {
            return Err(Error::DataStreamIsEmpty);
        }
        match self.require_url_is_valid(data_marshal) {
            Err(e) => return Err(e),
            Ok(()) => {},
        }
        match self.require_url_is_valid(data_preview) {
            Err(e) => return Err(e),
            Ok(()) => {},
        }
        match self.require_url_is_valid(media) {
            Err(e) => return Err(e),
            Ok(()) => {},
        }
        match self.require_url_is_valid(metadata) {
            Err(e) => return Err(e),
            Ok(()) => {},
        }
        match self.require_title_description_are_valid(title, description) {
            Err(e) => return Err(e),
            Ok(()) => {},
        }
        match self.require_sft_is_valid(royalties, supply) {
            Err(e) => return Err(e),
            Ok(()) => {},
        }
        if donation_percentage > self.max_donation_percentage() {
            return Err(Error::PercentageTooHigh);
        }
        self.require_minting_is_allowed(caller, current_time)
    }

    fn mint_token(
        &mut self,
        caller: &Address,
        current_time: u64,
        payment: Payment,
        bond_amount: u128,
        name: Vec<u8>,
        media: Vec<u8>,
        metadata: Vec<u8>,
        data_marshal: Vec<u8>,
        data_stream: Vec<u8>,
        data_preview: Vec<u8>,
        royalties: u128,
        supply: u128,
        title: Vec<u8>,
        description: Vec<u8>,
        lock_period_sec: u64,
        donation_percentage: u64,
        extra_assets: Vec<Vec<u8>>,
    ) -> (r: Result<MintReceipt, Error>) {
        let hash = self.create_hash_buffer(&data_marshal, &data_stream);
        self.mint_token_with_hash(
            caller,
            current_time,
            payment,
            bond_amount,
            name,
            media,
            metadata,
            data_marshal,
            data_stream,
            data_preview,
            royalties,
            supply,
            title,
            description,
            lock_period_sec,
            donation_percentage,
            extra_assets,
            hash,
        )
    }

    fn mint_token_with_hash(
        &mut self,
        caller: &Address,
        current_time: u64,
        payment: Payment,
        bond_amount: u128,
        name: Vec<u8>,
        media: Vec<u8>,
        metadata: Vec<u8>,
        data_marshal: Vec<u8>,
        data_stream: Vec<u8>,
        data_preview: Vec<u8>,
        royalties: u128,
        supply: u128,
        title: Vec<u8>,
        description: Vec<u8>,
        lock_period_sec: u64,
        donation_percentage: u64,
        extra_assets: Vec<Vec<u8>>,
        hash: Vec<u8>,
    ) -> (r: Result<MintReceipt, Error>) {
        match self.check_mint_request(
            caller,
            current_time,
            &media,
            &metadata,
            &data_marshal,
            &data_stream,
            &data_preview,
            royalties,
            supply,
            &title,
            &description,
            donation_percentage,
        ) {
            Err(e) => return Err(e),
            Ok(()) => {},
        }
        proof {
            self.lemma_valid();
        }
        let donation_supply = donation_share(supply, donation_percentage);
        if self.bond_contract_address().is_none() {
            return Err(Error::BondContractNotSet);
        }
        if bond_amount == 0 {
            return Err(Error::WrongBondPeriod);
        }
        let price = self.anti_spam_tax(&payment.token_identifier);
        if payment.amount < price || payment.amount - price != bond_amount {
            return Err(Error::WrongAmountOfFunds);
        }
        let donation = if donation_supply > 0 {
            match self.donation_treasury_address() {
                Some(to) => Some(UnitShare { to, amount: donation_supply }),
                None => return Err(Error::DonationTreasuryNotSet),
            }
        } else {
            None
        };
        let treasury_address = self.treasury_address().unwrap();
        let token_identifier = copy_bytes(self.token_id().unwrap());
        let minted_by_caller = self.minted_per_address(caller);
        let minted_tokens = self.minted_tokens();
        self.store_last_mint_time(*caller, current_time);
        self.store_minted_per_address(*caller, minted_by_caller + 1);
        self.store_minted_tokens(minted_tokens + 1);
        let tax = Transfer::non_zero(
            treasury_address,
            payment.token_identifier.copy(),
            payment.token_nonce,
            price,
        );
        let attributes = DataNftAttributes {
            data_stream_url: data_stream,
            data_preview_url: data_preview,
            data_marshal_url: data_marshal,
            creator: *caller,
            creation_time: current_time,
            title,
            description,
        };
        let uris = self.create_uris(media, metadata, extra_assets);
        Ok(
            MintReceipt {
                attributes,
                tax,
                creation: UnitCreation { token_identifier, supply, name, royalties, hash, uris },
                bond_payment: Payment {
                    token_identifier: payment.token_identifier,
                    token_nonce: payment.token_nonce,
                    amount: bond_amount,
                },
                lock_period_sec,
                donation,
                caller_share: UnitShare { to: *caller, amount: supply - donation_supply },
            },
        )
    }

    fn burn_token(&self, payment: &Payment) -> (r: Result<LedgerCall, Error>) {
        match self.require_ready_for_minting_and_burning() {
            Err(e) => return Err(e),
            Ok(()) => {},
        }
        let token_identifier = copy_bytes(self.token_id().unwrap());
        let same_token = match &payment.token_identifier {
            TokenId::Egld => false,
            TokenId::Esdt(id) => bytes_equal(id, &token_identifier),
        };
        if !same_token {
            return Err(Error::InvalidPaymentToken);
        }
        match self.require_value_is_positive(payment.amount) {
            Err(e) => return Err(e),
            Ok(()) => {},
        }
        Ok(
            LedgerCall::Burn {
                token_identifier,
                nonce: payment.token_nonce,
                amount: payment.amount,
            },
        )
    }

    fn set_treasury_address(&mut self, caller: &Address, address: Address) -> (r: Result<
        (),
        Error,
    >) {
        match self.require_is_owner(caller) {
            Err(e) => return Err(e),
            Ok(()) => {},
        }
        self.store_treasury_address(address);
        Ok(())
    }

    fn set_donation_treasury_address(&mut self, caller: &Address, address: Address) -> (r: Result<
        (),
        Error,
    >) {
        match self.require_is_privileged(caller) {
            Err(e) => return Err(e),
            Ok(()) => {},
        }
        self.store_donation_treasury_address(address);
        Ok(())
    }

    fn set_max_donation_percentage(&mut self, caller: &Address, percentage: u64) -> (r: Result<
        (),
        Error,
    >) {
        match self.require_is_privileged(caller) {
            Err(e) => return Err(e),
            Ok(()) => {},
        }
        if self.store_max_donation_percentage(percentage) {
            Ok(())
        } else {
            Err(Error::PercentageTooHigh)
        }
    }

    fn set_is_paused(&mut self, caller: &Address, is_paused: bool) -> (r: Result<(), Error>) {
        match self.require_is_privileged(caller) {
            Err(e) => return Err(e),
            Ok(()) => {},
        }
        self.store_is_paused(is_paused);
        Ok(())
    }

    fn set_whitelist_enabled(&mut self, caller: &Address, is_enabled: bool) -> (r: Result<
        (),
        Error,
    >) {
        match self.require_is_privileged(caller) {
            Err(e) => return Err(e),
            Ok(()) => {},
        }
        self.store_whitelist_enabled(is_enabled);
        Ok(())
    }

    fn set_anti_spam_tax(&mut self, caller: &Address, token_id: TokenId, tax: u128) -> (r: Result<
        (),
        Error,
    >) {
        match self.require_is_privileged(caller) {
            Err(e) => return Err(e),
            Ok(()) => {},
        }
        self.store_anti_spam_tax(token_id, tax);
        Ok(())
    }

    fn set_whitelist_spots(&mut self, caller: &Address, whitelist: Vec<Address>) -> (r: Result<
        (),
        Error,
    >) {
        if whitelist.len() == 0 {
            return Err(Error::WhitelistIsEmpty);
        }
        match self.require_is_privileged(caller) {
            Err(e) => return Err(e),
            Ok(()) => {},
        }
        if any_known(self, &whitelist) {
            return Err(Error::AlreadyInWhitelist);
        }
        let ghost before = self@;
        let mut i: usize = 0;
        while i < whitelist.len()
            invariant
                self.wf(),
                i <= whitelist@.len(),
                all_new(before.whitelist, whitelist@),
                self@ == (MinterState {
                    whitelist: before.whitelist + whitelist@.subrange(0, i as int),
                    ..before
                }),
            decreases whitelist@.len() - i,
        {
            proof {
                let prefix = whitelist@.subrange(0, i as int);
                if (before.whitelist + prefix).contains(whitelist@[i as int]) {
                    let j = choose|j: int|
                        0 <= j < (before.whitelist + prefix).len() && (before.whitelist
                            + prefix)[j] == whitelist@[i as int];
                    if j < before.whitelist.len() {
                        assert(before.whitelist[j] == whitelist@[i as int]);
                    } else {
                        assert(whitelist@[j - before.whitelist.len()] == whitelist@[i as int]);
                    }
                }
            }
            let _ = self.whitelist_insert(whitelist[i]);
            assert((before.whitelist + whitelist@.subrange(0, i as int)).push(whitelist@[i as int])
                =~= before.whitelist + whitelist@.subrange(0, i + 1));
            i = i + 1;
        }
        assert(whitelist@.subrange(0, whitelist@.len() as int) =~= whitelist@);
        Ok(())
    }

    fn remove_whitelist_spots(&mut self, caller: &Address, whitelist: Vec<Address>) -> (r: Result<
        (),
        Error,
    >) {
        if whitelist.len() == 0 {
            return Err(Error::WhitelistIsEmpty);
        }
        match self.require_is_privileged(caller) {
            Err(e) => return Err(e),
            Ok(()) => {},
        }
        if any_missing(self, &whitelist) {
            return Err(Error::NotInWhitelist);
        }
        let ghost before = self@;
        let mut i: usize = 0;
        assert(whitelist@.subrange(0, 0) =~= Seq::<Address>::empty());
        while i < whitelist.len()
            invariant
                self.wf(),
                i <= whitelist@.len(),
                self@ == (MinterState {
                    whitelist: without_all(before.whitelist, whitelist@.subrange(0, i as int)),
                    ..before
                }),
            decreases whitelist@.len() - i,
        {
            let _ = self.whitelist_remove(&whitelist[i]);
            proof {
                let next = whitelist@.subrange(0, i + 1);
                assert(next.drop_last() =~= whitelist@.subrange(0, i as int));
                assert(next.last() == whitelist@[i as int]);
            }
            i = i + 1;
        }
        proof {
            assert(whitelist@.subrange(0, whitelist@.len() as int) =~= whitelist@);
            old(self).lemma_valid();
            lemma_without_all(before.whitelist, whitelist@);
        }
        Ok(())
    }

    fn set_mint_time_limit(&mut self, caller: &Address, mint_time_limit: u64) -> (r: Result<
        (),
        Error,
    >) {
        match self.require_is_owner(caller) {
            Err(e) => return Err(e),
            Ok(()) => {},
        }
        self.store_mint_time_limit(mint_time_limit);
        Ok(())
    }

    fn set_royalties_limits(&mut self, caller: &Address, min_royalties: u128, max_royalties: u128)
        -> (r: Result<(), Error>) {
        match self.require_is_privileged(caller) {
            Err(e) => return Err(e),
            Ok(()) => {},
        }
        match self.require_royalties_are_valid(min_royalties, max_royalties) {
            Err(e) => return Err(e),
            Ok(()) => {},
        }
        let _ = self.store_royalties_limits(min_royalties, max_royalties);
        Ok(())
    }

    fn set_max_supply(&mut self, caller: &Address, max_supply: u128) -> (r: Result<(), Error>) {
        match self.require_is_privileged(caller) {
            Err(e) => return Err(e),
            Ok(()) => {},
        }
        self.store_max_supply(max_supply);
        Ok(())
    }

    fn set_administrator(&mut self, caller: &Address, administrator: Address) -> (r: Result<
        (),
        Error,
    >) {
        match self.require_is_owner(caller) {
            Err(e) => return Err(e),
            Ok(()) => {},
        }
        self.store_administrator(administrator);
        Ok(())
    }

    fn set_bond_contract_address(&mut self, caller: &Address, bond_contract_address: Address) -> (r:
        Result<(), Error>) {
        match self.require_is_owner(caller) {
            Err(e) => return Err(e),
            Ok(()) => {},
        }
        self.store_bond_contract_address(bond_contract_address);
        Ok(())
    }

    fn set_withdrawal_address(&mut self, caller: &Address, withdrawal_address: Address) -> (r:
        Result<(), Error>) {
        match self.require_is_owner(caller) {
            Err(e) => return Err(e),
            Ok(()) => {},
        }
        self.store_withdrawal_address(withdrawal_address);
        Ok(())
    }

    fn withdraw(
        &self,
        caller: &Address,
        token_identifier: TokenId,
        nonce: u64,
        amount: u128,
        balance: u128,
    ) -> (r: Result<Transfer, Error>) {
        match self.require_withdrawal_address_is_set() {
            Err(e) => return Err(e),
            Ok(()) => {},
        }
        match self.require_is_withdrawal_address(caller) {
            Err(e) => return Err(e),
            Ok(()) => {},
        }
        match self.require_value_is_positive(amount) {
            Err(e) => return Err(e),
            Ok(()) => {},
        }
        if balance > 0 && amount <= balance {
            Ok(Transfer { to: *caller, token_identifier, token_nonce: nonce, amount })
        } else {
            Err(Error::NotEnoughFunds)
        }
    }
}

} // verus!

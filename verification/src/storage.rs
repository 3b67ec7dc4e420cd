//! The store: what the minter keeps between calls, read and written through
//! `StorageModule`.

use crate::collections::{lemma_without, without, ListMap, ListSet};
use crate::state::{IssuanceView, MinterState};
use crate::types::{Address, TokenId};
use vstd::prelude::*;

verus! {

/// What is written into a unit when it is minted, and never changed after.
#[derive(Debug, PartialEq, Eq)]
pub struct DataNftAttributes {
    pub data_stream_url: Vec<u8>,
    pub data_preview_url: Vec<u8>,
    pub data_marshal_url: Vec<u8>,
    pub creator: Address,
    pub creation_time: u64,
    pub title: Vec<u8>,
    pub description: Vec<u8>,
}

/// How far the collection has come. A request to the ledger is answered in
/// a later call, so the time between the two is a state of its own.
#[derive(Debug, PartialEq, Eq)]
pub enum IssuanceState {
    /// No collection, and none asked for.
    Uninitialized,
    /// The ledger was asked to create the collection.
    IssuancePending,
    /// The collection exists; the contract has no roles on it.
    Issued(Vec<u8>),
    /// The ledger was asked to grant the roles.
    RolesPending(Vec<u8>),
    /// The collection exists and the roles are granted.
    Ready(Vec<u8>),
}

impl View for IssuanceState {
    type V = IssuanceView;

    open spec fn view(&self) -> IssuanceView {
        match self {
            IssuanceState::Uninitialized => IssuanceView::Uninitialized,
            IssuanceState::IssuancePending => IssuanceView::IssuancePending,
            IssuanceState::Issued(id) => IssuanceView::Issued(id@),
            IssuanceState::RolesPending(id) => IssuanceView::RolesPending(id@),
            IssuanceState::Ready(id) => IssuanceView::Ready(id@),
        }
    }
}

impl IssuanceState {
    /// The identifier of the collection, once the ledger has created it.
    pub fn token_id(&self) -> (r: Option<&Vec<u8>>)
        ensures
            match r {
                Some(id) => self@.token_id() == Some(id@),
                None => self@.token_id() is None,
            },
    {
        match self {
            IssuanceState::Uninitialized => None,
            IssuanceState::IssuancePending => None,
            IssuanceState::Issued(id) => Some(id),
            IssuanceState::RolesPending(id) => Some(id),
            IssuanceState::Ready(id) => Some(id),
        }
    }
}

/// Reading and writing the stored state. The writers check nothing about
/// who calls; they keep the state valid and change no more than they say.
pub trait StorageModule: View<V = MinterState> + Sized {
    /// The store is in order. Every value that this library hands out is.
    spec fn wf(&self) -> bool;

    proof fn lemma_valid(&self)
        requires
            self.wf(),
        ensures
            self@.valid(),
    ;

    fn owner(&self) -> (r: Address)
        requires
            self.wf(),
        ensures
            r == self@.owner,
    ;

    fn issuance_state(&self) -> (r: &IssuanceState)
        requires
            self.wf(),
        ensures
            r@ == self@.issuance,
    ;

    fn token_id(&self) -> (r: Option<&Vec<u8>>)
        requires
            self.wf(),
        ensures
            match r {
                Some(id) => self@.token_id() == Some(id@),
                None => self@.token_id() is None,
            },
    ;

    fn roles_are_set(&self) -> (r: bool)
        requires
            self.wf(),
        ensures
            r == self@.roles_are_set(),
    ;

    fn treasury_address(&self) -> (r: Option<Address>)
        requires
            self.wf(),
        ensures
            r == self@.treasury_address,
    ;

    fn donation_treasury_address(&self) -> (r: Option<Address>)
        requires
            self.wf(),
        ensures
            r == self@.donation_treasury_address,
    ;

    fn max_donation_percentage(&self) -> (r: u64)
        requires
            self.wf(),
        ensures
            r == self@.max_donation_percentage,
            r <= 10_000,
    ;

    fn withdrawal_address(&self) -> (r: Option<Address>)
        requires
            self.wf(),
        ensures
            r == self@.withdrawal_address,
    ;

    fn administrator(&self) -> (r: Option<Address>)
        requires
            self.wf(),
        ensures
            r == self@.administrator,
    ;

    fn bond_contract_address(&self) -> (r: Option<Address>)
        requires
            self.wf(),
        ensures
            r == self@.bond_contract_address,
    ;

    fn is_paused(&self) -> (r: bool)
        requires
            self.wf(),
        ensures
            r == self@.is_paused,
    ;

    fn whitelist_enabled(&self) -> (r: bool)
        requires
            self.wf(),
        ensures
            r == self@.whitelist_enabled,
    ;

    fn min_royalties(&self) -> (r: u128)
        requires
            self.wf(),
        ensures
            r == self@.min_royalties,
    ;

    fn max_royalties(&self) -> (r: u128)
        requires
            self.wf(),
        ensures
            r == self@.max_royalties,
    ;

    fn max_supply(&self) -> (r: u128)
        requires
            self.wf(),
        ensures
            r == self@.max_supply,
    ;

    fn mint_time_limit(&self) -> (r: u64)
        requires
            self.wf(),
        ensures
            r == self@.mint_time_limit,
    ;

    fn url_min_length(&self) -> (r: usize)
        requires
            self.wf(),
        ensures
            r == self@.url_min_length,
    ;

    fn url_max_length(&self) -> (r: usize)
        requires
            self.wf(),
        ensures
            r == self@.url_max_length,
    ;

    fn minted_tokens(&self) -> (r: u128)
        requires
            self.wf(),
        ensures
            r == self@.minted_tokens,
    ;

    fn anti_spam_tax(&self, token: &TokenId) -> (r: u128)
        requires
            self.wf(),
        ensures
            r == self@.tax(token@),
    ;

    fn minted_per_address(&self, address: &Address) -> (r: u128)
        requires
            self.wf(),
        ensures
            r == self@.minted_by(*address),
    ;

    fn last_mint_time(&self, address: &Address) -> (r: u64)
        requires
            self.wf(),
        ensures
            r == self@.last_mint(*address),
    ;

    fn whitelist_contains(&self, address: &Address) -> (r: bool)
        requires
            self.wf(),
        ensures
            r == self@.whitelist.contains(*address),
    ;

    /// The whitelist, in the order in which its members came.
    fn whitelist(&self) -> (r: Vec<Address>)
        requires
            self.wf(),
        ensures
            r@ == self@.whitelist,
    ;

    fn is_frozen_for_collection(&self, address: &Address) -> (r: bool)
        requires
            self.wf(),
        ensures
            r == self@.frozen_addresses_for_collection.contains(*address),
    ;

    /// The addresses frozen for the whole collection, in the order in which
    /// they were frozen.
    fn frozen_addresses_for_collection(&self) -> (r: Vec<Address>)
        requires
            self.wf(),
        ensures
            r@ == self@.frozen_addresses_for_collection,
    ;

    fn is_frozen_sft(&self, address: &Address, nonce: u64) -> (r: bool)
        requires
            self.wf(),
        ensures
            r == self@.frozen_nonces(*address).contains(nonce),
    ;

    /// The units frozen for `address`, in the order in which they were
    /// frozen.
    fn frozen_sfts_per_address(&self, address: &Address) -> (r: Vec<u64>)
        requires
            self.wf(),
        ensures
            r@ == self@.frozen_nonces(*address),
    ;

    /// The number of units frozen for `address`, as stored: it is the number
    /// of members of the set.
    fn frozen_count(&self, address: &Address) -> (r: usize)
        requires
            self.wf(),
        ensures
            r == self@.frozen_count_of(*address),
            r == self@.frozen_nonces(*address).len(),
    ;

    fn store_issuance(&mut self, issuance: IssuanceState)
        requires
            old(self).wf(),
        ensures
            final(self).wf(),
            final(self)@ == (MinterState { issuance: issuance@, ..old(self)@ }),
    ;

    fn store_treasury_address(&mut self, address: Address)
        requires
            old(self).wf(),
        ensures
            final(self).wf(),
            final(self)@ == (MinterState { treasury_address: Some(address), ..old(self)@ }),
    ;

    fn store_donation_treasury_address(&mut self, address: Address)
        requires
            old(self).wf(),
        ensures
            final(self).wf(),
            final(self)@ == (MinterState {
                donation_treasury_address: Some(address),
                ..old(self)@
            }),
    ;

    /// Refused, with nothing changed, above 10000 basis points.
    fn store_max_donation_percentage(&mut self, percentage: u64) -> (stored: bool)
        requires
            old(self).wf(),
        ensures
            final(self).wf(),
            stored == (percentage <= 10_000),
            final(self)@ == if stored {
                MinterState { max_donation_percentage: percentage, ..old(self)@ }
            } else {
                old(self)@
            },
    ;

    fn store_withdrawal_address(&mut self, address: Address)
        requires
            old(self).wf(),
        ensures
            final(self).wf(),
            final(self)@ == (MinterState { withdrawal_address: Some(address), ..old(self)@ }),
    ;

    fn store_administrator(&mut self, address: Address)
        requires
            old(self).wf(),
        ensures
            final(self).wf(),
            final(self)@ == (MinterState { administrator: Some(address), ..old(self)@ }),
    ;

    fn store_bond_contract_address(&mut self, address: Address)
        requires
            old(self).wf(),
        ensures
            final(self).wf(),
            final(self)@ == (MinterState { bond_contract_address: Some(address), ..old(self)@ }),
    ;

    fn store_is_paused(&mut self, is_paused: bool)
        requires
            old(self).wf(),
        ensures
            final(self).wf(),
            final(self)@ == (MinterState { is_paused, ..old(self)@ }),
    ;

    fn store_whitelist_enabled(&mut self, whitelist_enabled: bool)
        requires
            old(self).wf(),
        ensures
            final(self).wf(),
            final(self)@ == (MinterState { whitelist_enabled, ..old(self)@ }),
    ;

    /// Refused, with nothing changed, unless `min < max <= 10000`.
    fn store_royalties_limits(&mut self, min_royalties: u128, max_royalties: u128) -> (stored:
        bool)
        requires
            old(self).wf(),
        ensures
            final(self).wf(),
            stored == (min_royalties < max_royalties <= 10_000),
            final(self)@ == if stored {
                MinterState { min_royalties, max_royalties, ..old(self)@ }
            } else {
                old(self)@
            },
    ;

    fn store_max_supply(&mut self, max_supply: u128)
        requires
            old(self).wf(),
        ensures
            final(self).wf(),
            final(self)@ == (MinterState { max_supply, ..old(self)@ }),
    ;

    fn store_mint_time_limit(&mut self, mint_time_limit: u64)
        requires
            old(self).wf(),
        ensures
            final(self).wf(),
            final(self)@ == (MinterState { mint_time_limit, ..old(self)@ }),
    ;

    fn store_url_length_limits(&mut self, url_min_length: usize, url_max_length: usize)
        requires
            old(self).wf(),
        ensures
            final(self).wf(),
            final(self)@ == (MinterState { url_min_length, url_max_length, ..old(self)@ }),
    ;

    fn store_minted_tokens(&mut self, minted_tokens: u128)
        requires
            old(self).wf(),
        ensures
            final(self).wf(),
            final(self)@ == (MinterState { minted_tokens, ..old(self)@ }),
    ;

    fn store_anti_spam_tax(&mut self, token: TokenId, tax: u128)
        requires
            old(self).wf(),
        ensures
            final(self).wf(),
            final(self)@ == (MinterState {
                anti_spam_tax: old(self)@.anti_spam_tax.insert(token@, tax),
                ..old(self)@
            }),
    ;

    fn store_minted_per_address(&mut self, address: Address, minted: u128)
        requires
            old(self).wf(),
        ensures
            final(self).wf(),
            final(self)@ == (MinterState {
                minted_per_address: old(self)@.minted_per_address.insert(address, minted),
                ..old(self)@
            }),
    ;

    fn store_last_mint_time(&mut self, address: Address, time: u64)
        requires
            old(self).wf(),
        ensures
            final(self).wf(),
            final(self)@ == (MinterState {
                last_mint_time: old(self)@.last_mint_time.insert(address, time),
                ..old(self)@
            }),
    ;

    /// Adds `address` at the end of the whitelist unless it is there
    /// already; says whether it was added.
    fn whitelist_insert(&mut self, address: Address) -> (fresh: bool)
        requires
            old(self).wf(),
        ensures
            final(self).wf(),
            fresh == !old(self)@.whitelist.contains(address),
            final(self)@ == if fresh {
                MinterState { whitelist: old(self)@.whitelist.push(address), ..old(self)@ }
            } else {
                old(self)@
            },
    ;

    /// Takes `address` off the whitelist; says whether it was on it.
    fn whitelist_remove(&mut self, address: &Address) -> (found: bool)
        requires
            old(self).wf(),
        ensures
            final(self).wf(),
            found == old(self)@.whitelist.contains(*address),
            final(self)@ == (MinterState {
                whitelist: without(old(self)@.whitelist, *address),
                ..old(self)@
            }),
    ;

    /// Adds `address` to those frozen for the whole collection unless it is
    /// among them already; says whether it was added.
    fn collection_freeze_insert(&mut self, address: Address) -> (fresh: bool)
        requires
            old(self).wf(),
        ensures
            final(self).wf(),
            fresh == !old(self)@.frozen_addresses_for_collection.contains(address),
            final(self)@ == if fresh {
                MinterState {
                    frozen_addresses_for_collection: old(
                        self,
                    )@.frozen_addresses_for_collection.push(address),
                    ..old(self)@
                }
            } else {
                old(self)@
            },
    ;

    /// Takes `address` from those frozen for the whole collection; says
    /// whether it was among them.
    fn collection_freeze_remove(&mut self, address: &Address) -> (found: bool)
        requires
            old(self).wf(),
        ensures
            final(self).wf(),
            found == old(self)@.frozen_addresses_for_collection.contains(*address),
            final(self)@ == (MinterState {
                frozen_addresses_for_collection: without(
                    old(self)@.frozen_addresses_for_collection,
                    *address,
                ),
                ..old(self)@
            }),
    ;

    /// Adds the unit `nonce` to those frozen for `address`, and stores their
    /// new number; does nothing if the unit is among them already. Says
    /// whether it was added.
    fn frozen_sft_insert(&mut self, address: Address, nonce: u64) -> (fresh: bool)
        requires
            old(self).wf(),
        ensures
            final(self).wf(),
            fresh == !old(self)@.frozen_nonces(address).contains(nonce),
            final(self)@ == if fresh {
                MinterState {
                    frozen_sfts_per_address: old(self)@.frozen_sfts_per_address.insert(
                        address,
                        old(self)@.frozen_nonces(address).push(nonce),
                    ),
                    frozen_count: old(self)@.frozen_count.insert(
                        address,
                        (old(self)@.frozen_nonces(address).len() + 1) as usize,
                    ),
                    ..old(self)@
                }
            } else {
                old(self)@
            },
            final(self)@.frozen_count_of(address) == final(self)@.frozen_nonces(address).len(),
    ;

    /// Takes the unit `nonce` from those frozen for `address`, and stores
    /// their new number; does nothing if the unit is not among them. Says
    /// whether it was.
    fn frozen_sft_remove(&mut self, address: Address, nonce: u64) -> (found: bool)
        requires
            old(self).wf(),
        ensures
            final(self).wf(),
            found == old(self)@.frozen_nonces(address).contains(nonce),
            final(self)@ == if found {
                MinterState {
                    frozen_sfts_per_address: old(self)@.frozen_sfts_per_address.insert(
                        address,
                        without(old(self)@.frozen_nonces(address), nonce),
                    ),
                    frozen_count: old(self)@.frozen_count.insert(
                        address,
                        (old(self)@.frozen_nonces(address).len() - 1) as usize,
                    ),
                    ..old(self)@
                }
            } else {
                old(self)@
            },
            final(self)@.frozen_count_of(address) == final(self)@.frozen_nonces(address).len(),
    ;
}

/// The minter: the store, held in memory.
pub struct Minter {
    owner: Address,
    issuance: IssuanceState,
    treasury_address: Option<Address>,
    donation_treasury_address: Option<Address>,
    max_donation_percentage: u64,
    withdrawal_address: Option<Address>,
    administrator: Option<Address>,
    bond_contract_address: Option<Address>,
    is_paused: bool,
    whitelist_enabled: bool,
    min_royalties: u128,
    max_royalties: u128,
    max_supply: u128,
    mint_time_limit: u64,
    url_min_length: usize,
    url_max_length: usize,
    minted_tokens: u128,
    anti_spam_tax: ListMap<TokenId, u128>,
    minted_per_address: ListMap<Address, u128>,
    last_mint_time: ListMap<Address, u64>,
    whitelist: ListSet<Address>,
    frozen_addresses: ListSet<Address>,
    frozen_sfts: ListMap<Address, ListSet<u64>>,
    frozen_counts: ListMap<Address, usize>,
}

impl View for Minter {
    type V = MinterState;

    closed spec fn view(&self) -> MinterState {
        MinterState {
            owner: self.owner,
            issuance: self.issuance@,
            treasury_address: self.treasury_address,
            donation_treasury_address: self.donation_treasury_address,
            max_donation_percentage: self.max_donation_percentage,
            withdrawal_address: self.withdrawal_address,
            administrator: self.administrator,
            bond_contract_address: self.bond_contract_address,
            is_paused: self.is_paused,
            whitelist_enabled: self.whitelist_enabled,
            min_royalties: self.min_royalties,
            max_royalties: self.max_royalties,
            max_supply: self.max_supply,
            mint_time_limit: self.mint_time_limit,
            url_min_length: self.url_min_length,
            url_max_length: self.url_max_length,
            minted_tokens: self.minted_tokens,
            anti_spam_tax: self.anti_spam_tax@,
            minted_per_address: self.minted_per_address@,
            last_mint_time: self.last_mint_time@,
            whitelist: self.whitelist@,
            frozen_addresses_for_collection: self.frozen_addresses@,
            frozen_sfts_per_address: self.frozen_sfts@.map_values(|s: ListSet<u64>| s@),
            frozen_count: self.frozen_counts@,
        }
    }
}

/// The members of a set of addresses, in order.
fn addresses_of(set: &ListSet<Address>) -> (r: Vec<Address>)
    ensures
        r@ == set@,
{
    let mut out: Vec<Address> = Vec::new();
    let mut i: usize = 0;
    while i < set.len()
        invariant
            i <= set@.len(),
            out@ == set@.subrange(0, i as int),
        decreases set@.len() - i,
    {
        out.push(*set.get(i));
        assert(out@ =~= set@.subrange(0, i + 1));
        i = i + 1;
    }
    assert(out@ =~= set@);
    out
}

/// The members of a set of units, in order.
fn nonces_of(set: &ListSet<u64>) -> (r: Vec<u64>)
    ensures
        r@ == set@,
{
    let mut out: Vec<u64> = Vec::new();
    let mut i: usize = 0;
    while i < set.len()
        invariant
            i <= set@.len(),
            out@ == set@.subrange(0, i as int),
        decreases set@.len() - i,
    {
        out.push(*set.get(i));
        assert(out@ =~= set@.subrange(0, i + 1));
        i = i + 1;
    }
    assert(out@ =~= set@);
    out
}

impl Minter {
    /// A minter as it stands right after its deployment by `owner`: paused,
    /// the whitelist enforced, royalties from 0 to 8000 basis points, at
    /// most 20 units a mint, URLs of 15 to 400 bytes, and nothing else set.
    pub fn new(owner: Address) -> (m: Minter)
        ensures
            m.wf(),
            m@ == (MinterState {
                owner,
                issuance: IssuanceView::Uninitialized,
                treasury_address: None,
                donation_treasury_address: None,
                max_donation_percentage: 0,
                withdrawal_address: None,
                administrator: None,
                bond_contract_address: None,
                is_paused: true,
                whitelist_enabled: true,
                min_royalties: 0,
                max_royalties: 8000,
                max_supply: 20,
                mint_time_limit: 0,
                url_min_length: 15,
                url_max_length: 400,
                minted_tokens: 0,
                anti_spam_tax: Map::empty(),
                minted_per_address: Map::empty(),
                last_mint_time: Map::empty(),
                whitelist: Seq::empty(),
                frozen_addresses_for_collection: Seq::empty(),
                frozen_sfts_per_address: Map::empty(),
                frozen_count: Map::empty(),
            }),
    {
        let m = Minter {
            owner,
            issuance: IssuanceState::Uninitialized,
            treasury_address: None,
            donation_treasury_address: None,
            max_donation_percentage: 0,
            withdrawal_address: None,
            administrator: None,
            bond_contract_address: None,
            is_paused: true,
            whitelist_enabled: true,
            min_royalties: 0,
            max_royalties: 8000,
            max_supply: 20,
            mint_time_limit: 0,
            url_min_length: 15,
            url_max_length: 400,
            minted_tokens: 0,
            anti_spam_tax: ListMap::new(),
            minted_per_address: ListMap::new(),
            last_mint_time: ListMap::new(),
            whitelist: ListSet::new(),
            frozen_addresses: ListSet::new(),
            frozen_sfts: ListMap::new(),
            frozen_counts: ListMap::new(),
        };
        proof {
            assert(m@.frozen_sfts_per_address =~= Map::empty());
            assert forall|a: Address| #[trigger] m@.frozen_nonces(a).no_duplicates() by {}
        }
        m
    }

    /// The stored sets are in order, each for itself.
    spec fn parts_wf(&self) -> bool {
        &&& self.anti_spam_tax.wf()
        &&& self.minted_per_address.wf()
        &&& self.last_mint_time.wf()
        &&& self.whitelist.wf()
        &&& self.frozen_addresses.wf()
        &&& self.frozen_sfts.wf()
        &&& self.frozen_counts.wf()
    }
}

impl StorageModule for Minter {
    closed spec fn wf(&self) -> bool {
        &&& self.parts_wf()
        &&& self@.valid()
    }

    proof fn lemma_valid(&self) {
    }

    fn owner(&self) -> (r: Address) {
        self.owner
    }

    fn issuance_state(&self) -> (r: &IssuanceState) {
        &self.issuance
    }

    fn token_id(&self) -> (r: Option<&Vec<u8>>) {
        self.issuance.token_id()
    }

    fn roles_are_set(&self) -> (r: bool) {
        match &self.issuance {
            IssuanceState::Ready(_) => true,
            _ => false,
        }
    }

    fn treasury_address(&self) -> (r: Option<Address>) {
        self.treasury_address
    }

    fn donation_treasury_address(&self) -> (r: Option<Address>) {
        self.donation_treasury_address
    }

    fn max_donation_percentage(&self) -> (r: u64) {
        self.max_donation_percentage
    }

    fn withdrawal_address(&self) -> (r: Option<Address>) {
        self.withdrawal_address
    }

    fn administrator(&self) -> (r: Option<Address>) {
        self.administrator
    }

    fn bond_contract_address(&self) -> (r: Option<Address>) {
        self.bond_contract_address
    }

    fn is_paused(&self) -> (r: bool) {
        self.is_paused
    }

    fn whitelist_enabled(&self) -> (r: bool) {
        self.whitelist_enabled
    }

    fn min_royalties(&self) -> (r: u128) {
        self.min_royalties
    }

    fn max_royalties(&self) -> (r: u128) {
        self.max_royalties
    }

    fn max_supply(&self) -> (r: u128) {
        self.max_supply
    }

    fn mint_time_limit(&self) -> (r: u64) {
        self.mint_time_limit
    }

    fn url_min_length(&self) -> (r: usize) {
        self.url_min_length
    }

    fn url_max_length(&self) -> (r: usize) {
        self.url_max_length
    }

    fn minted_tokens(&self) -> (r: u128) {
        self.minted_tokens
    }

    fn anti_spam_tax(&self, token: &TokenId) -> (r: u128) {
        match self.anti_spam_tax.get(token) {
            Some(tax) => *tax,
            None => 0,
        }
    }

    fn minted_per_address(&self, address: &Address) -> (r: u128) {
        match self.minted_per_address.get(address) {
            Some(minted) => *minted,
            None => 0,
        }
    }

    fn last_mint_time(&self, address: &Address) -> (r: u64) {
        match self.last_mint_time.get(address) {
            Some(time) => *time,
            None => 0,
        }
    }

    fn whitelist_contains(&self, address: &Address) -> (r: bool) {
        self.whitelist.contains(address)
    }

    fn whitelist(&self) -> (r: Vec<Address>) {
        addresses_of(&self.whitelist)
    }

    fn is_frozen_for_collection(&self, address: &Address) -> (r: bool) {
        self.frozen_addresses.contains(address)
    }

    fn frozen_addresses_for_collection(&self) -> (r: Vec<Address>) {
        addresses_of(&self.frozen_addresses)
    }

    fn is_frozen_sft(&self, address: &Address, nonce: u64) -> (r: bool) {
        match self.frozen_sfts.get(address) {
            Some(set) => set.contains(&nonce),
            None => false,
        }
    }

    fn frozen_sfts_per_address(&self, address: &Address) -> (r: Vec<u64>) {
        match self.frozen_sfts.get(address) {
            Some(set) => nonces_of(set),
            None => Vec::new(),
        }
    }

    fn frozen_count(&self, address: &Address) -> (r: usize) {
        proof {
            assert(self@.frozen_count_of(*address) == self@.frozen_nonces(*address).len());
        }
        match self.frozen_counts.get(address) {
            Some(count) => *count,
            None => 0,
        }
    }

    fn store_issuance(&mut self, issuance: IssuanceState) {
        self.issuance = issuance;
        proof {
            self.lemma_frozen_unchanged(old(self));
        }
    }

    fn store_treasury_address(&mut self, address: Address) {
        self.treasury_address = Some(address);
        proof {
            self.lemma_frozen_unchanged(old(self));
        }
    }

    fn store_donation_treasury_address(&mut self, address: Address) {
        self.donation_treasury_address = Some(address);
        proof {
            self.lemma_frozen_unchanged(old(self));
        }
    }

    fn store_max_donation_percentage(&mut self, percentage: u64) -> (stored: bool) {
        if percentage <= 10_000 {
            self.max_donation_percentage = percentage;
            proof {
                self.lemma_frozen_unchanged(old(self));
            }
            true
        } else {
            false
        }
    }

    fn store_withdrawal_address(&mut self, address: Address) {
        self.withdrawal_address = Some(address);
        proof {
            self.lemma_frozen_unchanged(old(self));
        }
    }

    fn store_administrator(&mut self, address: Address) {
        self.administrator = Some(address);
        proof {
            self.lemma_frozen_unchanged(old(self));
        }
    }

    fn store_bond_contract_address(&mut self, address: Address) {
        self.bond_contract_address = Some(address);
        proof {
            self.lemma_frozen_unchanged(old(self));
        }
    }

    fn store_is_paused(&mut self, is_paused: bool) {
        self.is_paused = is_paused;
        proof {
            self.lemma_frozen_unchanged(old(self));
        }
    }

    fn store_whitelist_enabled(&mut self, whitelist_enabled: bool) {
        self.whitelist_enabled = whitelist_enabled;
        proof {
            self.lemma_frozen_unchanged(old(self));
        }
    }

    fn store_royalties_limits(&mut self, min_royalties: u128, max_royalties: u128) -> (stored:
        bool) {
        if min_royalties < max_royalties && max_royalties <= 10_000 {
            self.min_royalties = min_royalties;
            self.max_royalties = max_royalties;
            proof {
                self.lemma_frozen_unchanged(old(self));
            }
            true
        } else {
            false
        }
    }

    fn store_max_supply(&mut self, max_supply: u128) {
        self.max_supply = max_supply;
        proof {
            self.lemma_frozen_unchanged(old(self));
        }
    }

    fn store_mint_time_limit(&mut self, mint_time_limit: u64) {
        self.mint_time_limit = mint_time_limit;
        proof {
            self.lemma_frozen_unchanged(old(self));
        }
    }

    fn store_url_length_limits(&mut self, url_min_length: usize, url_max_length: usize) {
        self.url_min_length = url_min_length;
        self.url_max_length = url_max_length;
        proof {
            self.lemma_frozen_unchanged(old(self));
        }
    }

    fn store_minted_tokens(&mut self, minted_tokens: u128) {
        self.minted_tokens = minted_tokens;
        proof {
            self.lemma_frozen_unchanged(old(self));
        }
    }

    fn store_anti_spam_tax(&mut self, token: TokenId, tax: u128) {
        self.anti_spam_tax.set(token, tax);
        proof {
            self.lemma_frozen_unchanged(old(self));
        }
    }

    fn store_minted_per_address(&mut self, address: Address, minted: u128) {
        self.minted_per_address.set(address, minted);
        proof {
            self.lemma_frozen_unchanged(old(self));
        }
    }

    fn store_last_mint_time(&mut self, address: Address, time: u64) {
        self.last_mint_time.set(address, time);
        proof {
            self.lemma_frozen_unchanged(old(self));
        }
    }

    fn whitelist_insert(&mut self, address: Address) -> (fresh: bool) {
        let fresh = self.whitelist.insert(address);
        proof {
            self.lemma_frozen_unchanged(old(self));
        }
        fresh
    }

    fn whitelist_remove(&mut self, address: &Address) -> (found: bool) {
        let found = self.whitelist.remove(address);
        proof {
            self.lemma_frozen_unchanged(old(self));
        }
        found
    }

    fn collection_freeze_insert(&mut self, address: Address) -> (fresh: bool) {
        let fresh = self.frozen_addresses.insert(address);
        proof {
            self.lemma_frozen_unchanged(old(self));
        }
        fresh
    }

    fn collection_freeze_remove(&mut self, address: &Address) -> (found: bool) {
        let found = self.frozen_addresses.remove(address);
        proof {
            self.lemma_frozen_unchanged(old(self));
        }
        found
    }

    fn frozen_sft_insert(&mut self, address: Address, nonce: u64) -> (fresh: bool) {
        if self.is_frozen_sft(&address, nonce) {
            proof {
                assert(self@.frozen_count_of(address) == self@.frozen_nonces(address).len());
            }
            return false;
        }
        let ghost before = self@.frozen_nonces(address);
        proof {
            assert(before.no_duplicates());
        }
        let mut set = match self.frozen_sfts.take(&address) {
            Some(set) => set,
            None => ListSet::new(),
        };
        let _ = set.insert(nonce);
        let count = set.len();
        self.frozen_sfts.set(address, set);
        self.frozen_counts.set(address, count);
        proof {
            assert(self.frozen_sfts@.dom() =~= old(self).frozen_sfts@.dom().insert(address));
            self.lemma_frozen_written(old(self), address, before.push(nonce));
        }
        true
    }

    fn frozen_sft_remove(&mut self, address: Address, nonce: u64) -> (found: bool) {
        if !self.is_frozen_sft(&address, nonce) {
            proof {
                assert(self@.frozen_count_of(address) == self@.frozen_nonces(address).len());
            }
            return false;
        }
        let ghost before = self@.frozen_nonces(address);
        proof {
            assert(before.no_duplicates());
            lemma_without(before, nonce);
        }
        let mut set = match self.frozen_sfts.take(&address) {
            Some(set) => set,
            None => ListSet::new(),
        };
        let _ = set.remove(&nonce);
        let count = set.len();
        self.frozen_sfts.set(address, set);
        self.frozen_counts.set(address, count);
        proof {
            assert(self.frozen_sfts@.dom() =~= old(self).frozen_sfts@.dom().insert(address));
            self.lemma_frozen_written(old(self), address, without(before, nonce));
        }
        true
    }
}

impl Minter {
    /// A write that leaves the frozen units alone leaves what holds of them.
    proof fn lemma_frozen_unchanged(&self, before: &Minter)
        requires
            before.wf(),
            self.parts_wf(),
            self.frozen_sfts == before.frozen_sfts,
            self.frozen_counts == before.frozen_counts,
            self@.whitelist.no_duplicates(),
            self@.frozen_addresses_for_collection.no_duplicates(),
            self@.max_donation_percentage <= 10_000,
            self@.min_royalties < self@.max_royalties <= 10_000,
        ensures
            self.wf(),
    {
        assert forall|a: Address| #[trigger] self@.frozen_nonces(a).no_duplicates() by {
            assert(before@.frozen_nonces(a).no_duplicates());
        }
        assert forall|a: Address| #[trigger]
            self@.frozen_count_of(a) == self@.frozen_nonces(a).len() by {
            assert(before@.frozen_count_of(a) == before@.frozen_nonces(a).len());
        }
    }

    /// What holds after the units frozen for one address were replaced by
    /// `now`, and their number stored.
    proof fn lemma_frozen_written(&self, before: &Minter, address: Address, now: Seq<u64>)
        requires
            before.wf(),
            self.parts_wf(),
            now.no_duplicates(),
            now.len() <= usize::MAX,
            self.frozen_sfts@.dom() == before.frozen_sfts@.dom().insert(address),
            self.frozen_sfts@[address]@ == now,
            forall|a: Address|
                a != address && before.frozen_sfts@.contains_key(a) ==> self.frozen_sfts@[a]
                    == before.frozen_sfts@[a],
            self.frozen_counts@ == before.frozen_counts@.insert(address, now.len() as usize),
            self@ == (MinterState {
                frozen_sfts_per_address: self@.frozen_sfts_per_address,
                frozen_count: self@.frozen_count,
                ..before@
            }),
        ensures
            self.wf(),
            self@ == (MinterState {
                frozen_sfts_per_address: before@.frozen_sfts_per_address.insert(address, now),
                frozen_count: before@.frozen_count.insert(address, now.len() as usize),
                ..before@
            }),
            self@.frozen_count_of(address) == self@.frozen_nonces(address).len(),
    {
        assert(self@.frozen_sfts_per_address =~= before@.frozen_sfts_per_address.insert(
            address,
            now,
        ));
        assert forall|a: Address| #[trigger] self@.frozen_nonces(a).no_duplicates() by {
            assert(before@.frozen_nonces(a).no_duplicates());
        }
        assert forall|a: Address| #[trigger]
            self@.frozen_count_of(a) == self@.frozen_nonces(a).len() by {
            assert(before@.frozen_count_of(a) == before@.frozen_nonces(a).len());
        }
    }
}

} // verus!

//! The minter's stored state as mathematical values. Every contract of the
//! library is stated over `MinterState`.

use crate::types::{Address, TokenIdView};
use vstd::prelude::*;

verus! {

/// How far the collection has come: created at the ledger or not, and the
/// contract's roles on it granted or not.
pub enum IssuanceView {
    Uninitialized,
    IssuancePending,
    Issued(Seq<u8>),
    RolesPending(Seq<u8>),
    Ready(Seq<u8>),
}

impl IssuanceView {
    /// The identifier of the collection, once the ledger has created it.
    pub open spec fn token_id(self) -> Option<Seq<u8>> {
        match self {
            IssuanceView::Uninitialized => None,
            IssuanceView::IssuancePending => None,
            IssuanceView::Issued(id) => Some(id),
            IssuanceView::RolesPending(id) => Some(id),
            IssuanceView::Ready(id) => Some(id),
        }
    }

    pub open spec fn roles_are_set(self) -> bool {
        self is Ready
    }
}

/// Everything the minter keeps between calls.
pub struct MinterState {
    /// The account that deployed the minter.
    pub owner: Address,
    pub issuance: IssuanceView,
    pub treasury_address: Option<Address>,
    pub donation_treasury_address: Option<Address>,
    /// In basis points.
    pub max_donation_percentage: u64,
    pub withdrawal_address: Option<Address>,
    pub administrator: Option<Address>,
    pub bond_contract_address: Option<Address>,
    pub is_paused: bool,
    pub whitelist_enabled: bool,
    /// In basis points.
    pub min_royalties: u128,
    /// In basis points.
    pub max_royalties: u128,
    pub max_supply: u128,
    /// In seconds.
    pub mint_time_limit: u64,
    pub url_min_length: usize,
    pub url_max_length: usize,
    pub minted_tokens: u128,
    pub anti_spam_tax: Map<TokenIdView, u128>,
    pub minted_per_address: Map<Address, u128>,
    pub last_mint_time: Map<Address, u64>,
    pub whitelist: Seq<Address>,
    pub frozen_addresses_for_collection: Seq<Address>,
    pub frozen_sfts_per_address: Map<Address, Seq<u64>>,
    pub frozen_count: Map<Address, usize>,
}

impl MinterState {
    pub open spec fn token_id(self) -> Option<Seq<u8>> {
        self.issuance.token_id()
    }

    pub open spec fn roles_are_set(self) -> bool {
        self.issuance.roles_are_set()
    }

    /// The identifier that requests to the ledger about the collection are
    /// made under: that of the collection, and no bytes while there is none.
    pub open spec fn collection_id(self) -> Seq<u8> {
        match self.token_id() {
            Some(id) => id,
            None => Seq::empty(),
        }
    }

    /// The tax on a mint paid in `token`; nothing where none was set.
    pub open spec fn tax(self, token: TokenIdView) -> u128 {
        if self.anti_spam_tax.contains_key(token) {
            self.anti_spam_tax[token]
        } else {
            0
        }
    }

    /// How many units `address` has minted.
    pub open spec fn minted_by(self, address: Address) -> u128 {
        if self.minted_per_address.contains_key(address) {
            self.minted_per_address[address]
        } else {
            0
        }
    }

    /// When `address` last minted; 0 if it never did.
    pub open spec fn last_mint(self, address: Address) -> u64 {
        if self.last_mint_time.contains_key(address) {
            self.last_mint_time[address]
        } else {
            0
        }
    }

    /// The units frozen for `address`, in the order in which they were frozen.
    pub open spec fn frozen_nonces(self, address: Address) -> Seq<u64> {
        if self.frozen_sfts_per_address.contains_key(address) {
            self.frozen_sfts_per_address[address]
        } else {
            Seq::empty()
        }
    }

    /// The stored number of units frozen for `address`.
    pub open spec fn frozen_count_of(self, address: Address) -> usize {
        if self.frozen_count.contains_key(address) {
            self.frozen_count[address]
        } else {
            0
        }
    }

    /// What holds of the state at all times.
    pub open spec fn valid(self) -> bool {
        &&& self.whitelist.no_duplicates()
        &&& self.frozen_addresses_for_collection.no_duplicates()
        &&& forall|a: Address| #[trigger] self.frozen_nonces(a).no_duplicates()
        &&& forall|a: Address| #[trigger] self.frozen_count_of(a) == self.frozen_nonces(a).len()
        &&& self.max_donation_percentage <= 10_000
        &&& self.min_royalties < self.max_royalties <= 10_000
    }
}

/// The stored number of the units frozen for an address is the number of
/// units in its set, at all times.
pub proof fn lemma_frozen_count_is_cardinality(s: MinterState, address: Address)
    requires
        s.valid(),
    ensures
        s.frozen_count_of(address) == s.frozen_nonces(address).len(),
        s.frozen_count_of(address) == s.frozen_nonces(address).to_set().len(),
{
    assert(s.frozen_count_of(address) == s.frozen_nonces(address).len());
    assert(s.frozen_nonces(address).no_duplicates());
    s.frozen_nonces(address).unique_seq_to_set();
}

} // verus!

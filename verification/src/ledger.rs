//! What the minter asks of the ledger and of the bond contract. A call that
//! succeeds hands back the requests that its caller has to carry out; the
//! minter itself moves no funds and creates no units.

use crate::storage::DataNftAttributes;
use crate::types::{Address, Payment, PaymentView, TokenId, TokenIdView};
use vstd::prelude::*;

verus! {

/// Funds that leave the contract's balance.
#[derive(Debug, PartialEq, Eq)]
pub struct Transfer {
    pub to: Address,
    pub token_identifier: TokenId,
    pub token_nonce: u64,
    pub amount: u128,
}

pub struct TransferView {
    pub to: Address,
    pub token_identifier: TokenIdView,
    pub token_nonce: u64,
    pub amount: u128,
}

impl View for Transfer {
    type V = TransferView;

    open spec fn view(&self) -> TransferView {
        TransferView {
            to: self.to,
            token_identifier: self.token_identifier@,
            token_nonce: self.token_nonce,
            amount: self.amount,
        }
    }
}

impl Transfer {
    /// The transfer of `amount` to `to`, unless the amount is nothing: then
    /// there is nothing to send.
    pub fn non_zero(to: Address, token_identifier: TokenId, token_nonce: u64, amount: u128) -> (r:
        Option<Transfer>)
        ensures
            match r {
                Some(transfer) => amount > 0 && transfer@ == (TransferView {
                    to,
                    token_identifier: token_identifier@,
                    token_nonce,
                    amount,
                }),
                None => amount == 0,
            },
    {
        if amount > 0 {
            Some(Transfer { to, token_identifier, token_nonce, amount })
        } else {
            None
        }
    }
}

/// A role on the collection that the ledger can grant to an address.
#[derive(Clone, Copy, Debug, PartialEq, Eq, Structural)]
pub enum LocalRole {
    NftCreate,
    NftBurn,
    NftAddQuantity,
}

/// What the owner of a collection may do with it later.
#[derive(Clone, Copy, Debug, PartialEq, Eq, Structural)]
pub struct CollectionProperties {
    pub can_freeze: bool,
    pub can_wipe: bool,
    pub can_pause: bool,
    pub can_change_owner: bool,
    pub can_upgrade: bool,
    pub can_add_special_roles: bool,
    pub can_transfer_create_role: bool,
}

/// A request to the ledger. But for `Burn`, which is served at once, the
/// ledger answers in a later call.
#[derive(Debug, PartialEq, Eq)]
pub enum LedgerCall {
    /// Create the collection, for the fee `issue_cost`.
    IssueSemiFungible {
        issue_cost: u128,
        token_display_name: Vec<u8>,
        token_ticker: Vec<u8>,
        properties: CollectionProperties,
    },
    /// Grant the contract itself these roles on the collection.
    SetSpecialRoles { token_identifier: Vec<u8>, roles: Vec<LocalRole> },
    /// Stop all transfers of the collection.
    Pause { token_identifier: Vec<u8> },
    Unpause { token_identifier: Vec<u8> },
    /// Freeze all that `address` holds of the collection.
    Freeze { token_identifier: Vec<u8>, address: Address },
    Unfreeze { token_identifier: Vec<u8>, address: Address },
    /// Freeze what `address` holds of one unit.
    FreezeSingleNft { token_identifier: Vec<u8>, nonce: u64, address: Address },
    UnfreezeSingleNft { token_identifier: Vec<u8>, nonce: u64, address: Address },
    /// Take away what `address` holds of one unit.
    WipeSingleNft { token_identifier: Vec<u8>, nonce: u64, address: Address },
    /// Destroy `amount` of one unit out of the contract's balance.
    Burn { token_identifier: Vec<u8>, nonce: u64, amount: u128 },
}

pub enum LedgerCallView {
    IssueSemiFungible {
        issue_cost: u128,
        token_display_name: Seq<u8>,
        token_ticker: Seq<u8>,
        properties: CollectionProperties,
    },
    SetSpecialRoles { token_identifier: Seq<u8>, roles: Seq<LocalRole> },
    Pause { token_identifier: Seq<u8> },
    Unpause { token_identifier: Seq<u8> },
    Freeze { token_identifier: Seq<u8>, address: Address },
    Unfreeze { token_identifier: Seq<u8>, address: Address },
    FreezeSingleNft { token_identifier: Seq<u8>, nonce: u64, address: Address },
    UnfreezeSingleNft { token_identifier: Seq<u8>, nonce: u64, address: Address },
    WipeSingleNft { token_identifier: Seq<u8>, nonce: u64, address: Address },
    Burn { token_identifier: Seq<u8>, nonce: u64, amount: u128 },
}

impl View for LedgerCall {
    type V = LedgerCallView;

    open spec fn view(&self) -> LedgerCallView {
        match self {
            LedgerCall::IssueSemiFungible {
                issue_cost,
                token_display_name,
                token_ticker,
                properties,
            } => LedgerCallView::IssueSemiFungible {
                issue_cost: *issue_cost,
                token_display_name: token_display_name@,
                token_ticker: token_ticker@,
                properties: *properties,
            },
            LedgerCall::SetSpecialRoles { token_identifier, roles } => {
                LedgerCallView::SetSpecialRoles {
                    token_identifier: token_identifier@,
                    roles: roles@,
                }
            },
            LedgerCall::Pause { token_identifier } => LedgerCallView::Pause {
                token_identifier: token_identifier@,
            },
            LedgerCall::Unpause { token_identifier } => LedgerCallView::Unpause {
                token_identifier: token_identifier@,
            },
            LedgerCall::Freeze { token_identifier, address } => LedgerCallView::Freeze {
                token_identifier: token_identifier@,
                address: *address,
            },
            LedgerCall::Unfreeze { token_identifier, address } => LedgerCallView::Unfreeze {
                token_identifier: token_identifier@,
                address: *address,
            },
            LedgerCall::FreezeSingleNft { token_identifier, nonce, address } => {
                LedgerCallView::FreezeSingleNft {
                    token_identifier: token_identifier@,
                    nonce: *nonce,
                    address: *address,
                }
            },
            LedgerCall::UnfreezeSingleNft { token_identifier, nonce, address } => {
                LedgerCallView::UnfreezeSingleNft {
                    token_identifier: token_identifier@,
                    nonce: *nonce,
                    address: *address,
                }
            },
            LedgerCall::WipeSingleNft { token_identifier, nonce, address } => {
                LedgerCallView::WipeSingleNft {
                    token_identifier: token_identifier@,
                    nonce: *nonce,
                    address: *address,
                }
            },
            LedgerCall::Burn { token_identifier, nonce, amount } => LedgerCallView::Burn {
                token_identifier: token_identifier@,
                nonce: *nonce,
                amount: *amount,
            },
        }
    }
}

/// The creation of one unit of the collection. The ledger answers with the
/// nonce of the new unit.
#[derive(Debug, PartialEq, Eq)]
pub struct UnitCreation {
    pub token_identifier: Vec<u8>,
    pub supply: u128,
    pub name: Vec<u8>,
    pub royalties: u128,
    pub hash: Vec<u8>,
    pub uris: Vec<Vec<u8>>,
}

pub struct UnitCreationView {
    pub token_identifier: Seq<u8>,
    pub supply: u128,
    pub name: Seq<u8>,
    pub royalties: u128,
    pub hash: Seq<u8>,
    pub uris: Seq<Seq<u8>>,
}

impl View for UnitCreation {
    type V = UnitCreationView;

    open spec fn view(&self) -> UnitCreationView {
        UnitCreationView {
            token_identifier: self.token_identifier@,
            supply: self.supply,
            name: self.name@,
            royalties: self.royalties,
            hash: self.hash@,
            uris: self.uris@.map_values(|uri: Vec<u8>| uri@),
        }
    }
}

pub struct DataNftAttributesView {
    pub data_stream_url: Seq<u8>,
    pub data_preview_url: Seq<u8>,
    pub data_marshal_url: Seq<u8>,
    pub creator: Address,
    pub creation_time: u64,
    pub title: Seq<u8>,
    pub description: Seq<u8>,
}

impl View for DataNftAttributes {
    type V = DataNftAttributesView;

    open spec fn view(&self) -> DataNftAttributesView {
        DataNftAttributesView {
            data_stream_url: self.data_stream_url@,
            data_preview_url: self.data_preview_url@,
            data_marshal_url: self.data_marshal_url@,
            creator: self.creator,
            creation_time: self.creation_time,
            title: self.title@,
            description: self.description@,
        }
    }
}

/// Units of the newly created unit that go to an address.
#[derive(Clone, Copy, Debug, PartialEq, Eq)]
pub struct UnitShare {
    pub to: Address,
    pub amount: u128,
}

/// All that a successful mint asks for, in the order in which it is to be
/// carried out: the tax goes to the treasury, the unit is created, the bond
/// is deposited for it, and the units are handed out. If one step fails,
/// the state that the mint left behind is to be dropped with it.
#[derive(Debug, PartialEq, Eq)]
pub struct MintReceipt {
    /// What is written into the unit.
    pub attributes: DataNftAttributes,
    /// The tax, where there is one.
    pub tax: Option<Transfer>,
    pub creation: UnitCreation,
    /// What is left of the payment after the tax: the bond.
    pub bond_payment: Payment,
    pub lock_period_sec: u64,
    /// The share of the supply that goes to the donation treasury, where
    /// there is one.
    pub donation: Option<UnitShare>,
    /// The rest of the supply.
    pub caller_share: UnitShare,
}

pub struct MintReceiptView {
    pub attributes: DataNftAttributesView,
    pub tax: Option<TransferView>,
    pub creation: UnitCreationView,
    pub bond_payment: PaymentView,
    pub lock_period_sec: u64,
    pub donation: Option<UnitShare>,
    pub caller_share: UnitShare,
}

impl View for MintReceipt {
    type V = MintReceiptView;

    open spec fn view(&self) -> MintReceiptView {
        MintReceiptView {
            attributes: self.attributes@,
            tax: match self.tax {
                Some(t) => Some(t@),
                None => None,
            },
            creation: self.creation@,
            bond_payment: self.bond_payment@,
            lock_period_sec: self.lock_period_sec,
            donation: self.donation,
            caller_share: self.caller_share,
        }
    }
}

/// A question to the bond contract: how much is to be deposited for this
/// lock period?
#[derive(Clone, Copy, Debug, PartialEq, Eq)]
pub struct BondQuery {
    pub bond_contract: Address,
    pub lock_period: u64,
}

/// A deposit at the bond contract for one unit.
#[derive(Debug, PartialEq, Eq)]
pub struct BondDeposit {
    pub bond_contract: Address,
    pub original_caller: Address,
    pub token_identifier: Vec<u8>,
    pub nonce: u64,
    pub lock_period: u64,
    pub payment: Payment,
}

pub struct BondDepositView {
    pub bond_contract: Address,
    pub original_caller: Address,
    pub token_identifier: Seq<u8>,
    pub nonce: u64,
    pub lock_period: u64,
    pub payment: PaymentView,
}

impl View for BondDeposit {
    type V = BondDepositView;

    open spec fn view(&self) -> BondDepositView {
        BondDepositView {
            bond_contract: self.bond_contract,
            original_caller: self.original_caller,
            token_identifier: self.token_identifier@,
            nonce: self.nonce,
            lock_period: self.lock_period,
            payment: self.payment@,
        }
    }
}

} // verus!

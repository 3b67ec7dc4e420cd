//! The two calls into the bond contract, as requests. A proxy stands for
//! the bond contract at an address and puts its calls together; the minter
//! makes them for the address that it has stored.

use crate::errors::Error;
use crate::ledger::{BondDeposit, BondDepositView, BondQuery};
use crate::storage::{Minter, StorageModule};
use crate::types::{Address, Payment};
use vstd::prelude::*;

verus! {

/// What the minter calls at the bond contract.
pub trait BondingProxy: Sized {
    /// The address of the contract that the proxy stands for.
    spec fn contract(&self) -> Address;

    /// The question how much is to be deposited for a lock period.
    fn lock_period_bond_amount(&self, lock_period: u64) -> (query: BondQuery)
        ensures
            query == (BondQuery { bond_contract: self.contract(), lock_period }),
    ;

    /// The deposit of `payment` for the unit `nonce` of a collection, minted
    /// by `original_caller` and locked for `lock_period`.
    fn bond(
        &self,
        original_caller: &Address,
        token_identifier: Vec<u8>,
        nonce: u64,
        lock_period: u64,
        payment: Payment,
    ) -> (deposit: BondDeposit)
        ensures
            deposit@ == (BondDepositView {
                bond_contract: self.contract(),
                original_caller: *original_caller,
                token_identifier: token_identifier@,
                nonce,
                lock_period,
                payment: payment@,
            }),
    ;
}

/// The bond contract at an address.
#[derive(Clone, Copy, Debug, PartialEq, Eq)]
pub struct Proxy {
    pub sc_address: Address,
}

impl BondingProxy for Proxy {
    open spec fn contract(&self) -> Address {
        self.sc_address
    }

    fn lock_period_bond_amount(&self, lock_period: u64) -> (query: BondQuery) {
        BondQuery { bond_contract: self.sc_address, lock_period }
    }

    fn bond(
        &self,
        original_caller: &Address,
        token_identifier: Vec<u8>,
        nonce: u64,
        lock_period: u64,
        payment: Payment,
    ) -> (deposit: BondDeposit) {
        BondDeposit {
            bond_contract: self.sc_address,
            original_caller: *original_caller,
            token_identifier,
            nonce,
            lock_period,
            payment,
        }
    }
}

pub trait BondingContractProxyMethods: StorageModule {
    /// The bond contract at `sc_address`.
    fn bonding_proxy(&self, sc_address: Address) -> (proxy: Proxy)
        ensures
            proxy.sc_address == sc_address,
    ;

    /// The question to the bond contract that a mint with this lock period
    /// has to put first: what it answers is the bond.
    fn get_bond_amount_for_lock_period(&self, lock_period: u64) -> (r: Result<BondQuery, Error>)
        requires
            self.wf(),
        ensures
            r == match self@.bond_contract_address {
                Some(bond_contract) => Ok::<BondQuery, Error>(
                    BondQuery { bond_contract, lock_period },
                ),
                None => Err(Error::BondContractNotSet),
            },
    ;

    /// The deposit of `payment` at the bond contract for the unit `nonce`
    /// that `original_caller` minted.
    fn send_bond(
        &self,
        original_caller: &Address,
        token_identifier: Vec<u8>,
        nonce: u64,
        lock_period: u64,
        payment: Payment,
    ) -> (r: Result<BondDeposit, Error>)
        requires
            self.wf(),
        ensures
            match self@.bond_contract_address {
                Some(bond_contract) => r matches Ok(deposit) && deposit@ == (BondDepositView {
                    bond_contract,
                    original_caller: *original_caller,
                    token_identifier: token_identifier@,
                    nonce,
                    lock_period,
                    payment: payment@,
                }),
                None => r == Err::<BondDeposit, Error>(Error::BondContractNotSet),
            },
    ;
}

impl BondingContractProxyMethods for Minter {
    fn bonding_proxy(&self, sc_address: Address) -> (proxy: Proxy) {
        Proxy { sc_address }
    }

    fn get_bond_amount_for_lock_period(&self, lock_period: u64) -> (r: Result<BondQuery, Error>) {
        match self.bond_contract_address() {
            Some(bond_contract) => Ok(
                self.bonding_proxy(bond_contract).lock_period_bond_amount(lock_period),
            ),
            None => Err(Error::BondContractNotSet),
        }
    }

    fn send_bond(
        &self,
        original_caller: &Address,
        token_identifier: Vec<u8>,
        nonce: u64,
        lock_period: u64,
        payment: Payment,
    ) -> (r: Result<BondDeposit, Error>) {
        match self.bond_contract_address() {
            Some(bond_contract) => Ok(
                self.bonding_proxy(bond_contract).bond(
                    original_caller,
                    token_identifier,
                    nonce,
                    lock_period,
                    payment,
                ),
            ),
            None => Err(Error::BondContractNotSet),
        }
    }
}

} // verus!

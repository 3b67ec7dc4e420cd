//! Plain values that travel through the minter: addresses, byte strings,
//! token identifiers and payments.

use vstd::prelude::*;

verus! {

/// A value that can serve as a key: two keys are the same exactly when their
/// views are equal.
pub trait Key: View + Sized {
    fn same(&self, other: &Self) -> (r: bool)
        ensures
            r == (self@ == other@),
    ;
}

/// The address of an account or of a contract: 32 bytes.
#[derive(Clone, Copy, Debug, PartialEq, Eq)]
pub struct Address {
    pub bytes: [u8; 32],
}

impl View for Address {
    type V = Address;

    open spec fn view(&self) -> Address {
        *self
    }
}

impl Address {
    pub fn new(bytes: [u8; 32]) -> (a: Address)
        ensures
            a.bytes == bytes,
    {
        Address { bytes }
    }
}

impl Key for Address {
    fn same(&self, other: &Address) -> (r: bool) {
        let mut i: usize = 0;
        while i < 32
            invariant
                i <= 32,
                forall|j: int| 0 <= j < i ==> self.bytes[j] == other.bytes[j],
            decreases 32 - i,
        {
            if self.bytes[i] != other.bytes[i] {
                return false;
            }
            i = i + 1;
        }
        assert(self.bytes =~= other.bytes);
        true
    }
}

impl Key for u64 {
    fn same(&self, other: &u64) -> (r: bool) {
        *self == *other
    }
}

/// Whether two byte strings hold the same bytes.
pub fn bytes_equal(a: &Vec<u8>, b: &Vec<u8>) -> (r: bool)
    ensures
        r == (a@ == b@),
{
    if a.len() != b.len() {
        return false;
    }
    let mut i: usize = 0;
    while i < a.len()
        invariant
            i <= a.len(),
            a.len() == b.len(),
            forall|j: int| 0 <= j < i ==> a@[j] == b@[j],
        decreases a.len() - i,
    {
        if a[i] != b[i] {
            return false;
        }
        i = i + 1;
    }
    assert(a@ =~= b@);
    true
}

/// A fresh byte string with the same bytes.
pub fn copy_bytes(a: &Vec<u8>) -> (r: Vec<u8>)
    ensures
        r@ == a@,
{
    a.clone()
}

/// What a payment is made in: the native currency, or a token that the
/// ledger issued, named by its identifier.
#[derive(Debug, PartialEq, Eq)]
pub enum TokenId {
    Egld,
    Esdt(Vec<u8>),
}

/// A `TokenId` as a mathematical value.
pub enum TokenIdView {
    Egld,
    Esdt(Seq<u8>),
}

impl View for TokenId {
    type V = TokenIdView;

    open spec fn view(&self) -> TokenIdView {
        match self {
            TokenId::Egld => TokenIdView::Egld,
            TokenId::Esdt(id) => TokenIdView::Esdt(id@),
        }
    }
}

impl TokenId {
    pub fn is_egld(&self) -> (r: bool)
        ensures
            r == (self@ is Egld),
    {
        match self {
            TokenId::Egld => true,
            TokenId::Esdt(_) => false,
        }
    }

    /// A fresh identifier equal to this one.
    pub fn copy(&self) -> (r: TokenId)
        ensures
            r@ == self@,
    {
        match self {
            TokenId::Egld => TokenId::Egld,
            TokenId::Esdt(id) => TokenId::Esdt(copy_bytes(id)),
        }
    }
}

impl Key for TokenId {
    fn same(&self, other: &TokenId) -> (r: bool) {
        match (self, other) {
            (TokenId::Egld, TokenId::Egld) => true,
            (TokenId::Esdt(a), TokenId::Esdt(b)) => bytes_equal(a, b),
            _ => false,
        }
    }
}

/// One transfer attached to a call: the token, the unit within its
/// collection (0 for a fungible token) and the amount.
#[derive(Debug, PartialEq, Eq)]
pub struct Payment {
    pub token_identifier: TokenId,
    pub token_nonce: u64,
    pub amount: u128,
}

pub struct PaymentView {
    pub token_identifier: TokenIdView,
    pub token_nonce: u64,
    pub amount: u128,
}

impl View for Payment {
    type V = PaymentView;

    open spec fn view(&self) -> PaymentView {
        PaymentView {
            token_identifier: self.token_identifier@,
            token_nonce: self.token_nonce,
            amount: self.amount,
        }
    }
}

} // verus!

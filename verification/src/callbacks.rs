//! The ledger's answers to the two requests that bring the collection
//! about. Each answer comes in a call of its own, after the request.

use crate::errors::Error;
use crate::issuance::{initialize_refusal, roles_requested};
use crate::ledger::{Transfer, TransferView};
use crate::state::{IssuanceView, MinterState};
use crate::storage::{IssuanceState, Minter, StorageModule};
use crate::types::{copy_bytes, Address, Payment, PaymentView, TokenId, TokenIdView};
use vstd::prelude::*;

verus! {

/// Why a request to the ledger failed, in the ledger's words.
#[derive(Debug, PartialEq, Eq)]
pub struct AsyncCallError {
    pub err_code: u32,
    pub err_msg: Vec<u8>,
}

/// An upper-case letter or a digit.
pub open spec fn is_ticker_byte(b: u8) -> bool {
    65 <= b <= 90 || 48 <= b <= 57
}

/// A lower-case letter or a digit.
pub open spec fn is_suffix_byte(b: u8) -> bool {
    97 <= b <= 122 || 48 <= b <= 57
}

/// The form of a token identifier: a ticker of 3 to 10 upper-case letters
/// and digits, a dash, and 6 lower-case letters and digits.
pub open spec fn is_valid_token_identifier(id: Seq<u8>) -> bool {
    &&& 10 <= id.len() <= 17
    &&& forall|i: int| 0 <= i < id.len() - 7 ==> is_ticker_byte(#[trigger] id[i])
    &&& id[id.len() - 7] == 45
    &&& forall|i: int| id.len() - 6 <= i < id.len() ==> is_suffix_byte(#[trigger] id[i])
}

/// `multiversx_sc::chain_core::token_identifier_util::validate_token_identifier`:
/// whether the bytes have the form of a token identifier. This is taken on
/// trust from its source: it holds the length to 10..=17, every byte before
/// the last seven to `A-Z0-9`, the seventh from the end to `-`, and the
/// last six to `a-z0-9`.
#[verifier::external_body]
fn validate_token_identifier(id: &Vec<u8>) -> (valid: bool)
    ensures
        valid == is_valid_token_identifier(id@),
{
    multiversx_sc::chain_core::token_identifier_util::validate_token_identifier(id.as_slice())
}

/// Why the identifier that the ledger answered with is not taken, if it is
/// not.
pub open spec fn issue_refusal(s: MinterState, token: TokenIdView) -> Option<Error> {
    if s.token_id() is Some {
        Some(Error::TokenIssued)
    } else {
        match token {
            TokenIdView::Egld => Some(Error::EsdtExpected),
            TokenIdView::Esdt(id) => if is_valid_token_identifier(id) {
                None
            } else {
                Some(Error::InvalidTokenId)
            },
        }
    }
}

/// The state after the ledger refused to create the collection: a pending
/// request is pending no more.
pub open spec fn issue_failed(s: MinterState) -> MinterState {
    if s.issuance is IssuancePending {
        MinterState { issuance: IssuanceView::Uninitialized, ..s }
    } else {
        s
    }
}

/// The fee that goes back to the owner after the ledger refused to create
/// the collection: what came back with the answer, if it is in the native
/// currency and more than nothing.
pub open spec fn issue_refund(s: MinterState, returned: PaymentView) -> Option<TransferView> {
    if returned.token_identifier is Egld && returned.amount > 0 {
        Some(
            TransferView {
                to: s.owner,
                token_identifier: returned.token_identifier,
                token_nonce: 0,
                amount: returned.amount,
            },
        )
    } else {
        None
    }
}

/// The state after the ledger answered the request for the roles.
pub open spec fn roles_answered(s: MinterState, granted: bool) -> MinterState {
    match s.issuance {
        IssuanceView::Issued(id) => if granted {
            MinterState { issuance: IssuanceView::Ready(id), ..s }
        } else {
            s
        },
        IssuanceView::RolesPending(id) => if granted {
            MinterState { issuance: IssuanceView::Ready(id), ..s }
        } else {
            MinterState { issuance: IssuanceView::Issued(id), ..s }
        },
        _ => s,
    }
}

/// The identifier of the collection is written once: no answer of the
/// ledger takes it away or puts another in its place, and the collection is
/// not asked for again.
pub proof fn lemma_collection_is_written_once(
    s: MinterState,
    token: TokenIdView,
    caller: Address,
    egld_value: u128,
    granted: bool,
)
    requires
        s.token_id() is Some,
    ensures
        issue_refusal(s, token) == Some(Error::TokenIssued),
        issue_failed(s) == s,
        roles_answered(s, granted).token_id() == s.token_id(),
        roles_requested(s).token_id() == s.token_id(),
        initialize_refusal(s, caller, egld_value) is Some,
{
}

/// Roles that were granted stay granted, whatever the ledger answers later
/// and however often they are asked for again.
pub proof fn lemma_roles_are_granted_once(s: MinterState, granted: bool)
    requires
        s.roles_are_set(),
    ensures
        roles_answered(s, granted) == s,
        roles_requested(s) == s,
        issue_failed(s) == s,
{
}

pub trait Callbacks: StorageModule {
    /// The ledger's answer to the request to create the collection;
    /// `returned` is the payment that came back with it. On success the
    /// identifier is stored, once and for all, if it is one. On failure the
    /// minter is as before the request, and the fee goes back to the owner.
    fn issue_callback(&mut self, result: Result<TokenId, AsyncCallError>, returned: &Payment) -> (r:
        Result<Option<Transfer>, Error>)
        requires
            old(self).wf(),
        ensures
            final(self).wf(),
            match result {
                Ok(token) => match issue_refusal(old(self)@, token@) {
                    Some(e) => r == Err::<Option<Transfer>, Error>(e) && final(self)@ == old(
                        self,
                    )@,
                    None => r == Ok::<Option<Transfer>, Error>(None) && final(self)@
                        == (MinterState {
                        issuance: IssuanceView::Issued(token@->Esdt_0),
                        ..old(self)@
                    }),
                },
                Err(_) => {
                    &&& final(self)@ == issue_failed(old(self)@)
                    &&& r matches Ok(refund)
                    &&& match refund {
                        Some(transfer) => issue_refund(old(self)@, returned@) == Some(transfer@),
                        None => issue_refund(old(self)@, returned@) is None,
                    }
                },
            },
    ;

    /// The ledger's answer to the request for the roles. Once they are
    /// granted the collection is ready; a refusal changes nothing but that
    /// the request is pending no more.
    fn set_local_roles_callback(&mut self, result: Result<(), AsyncCallError>)
        requires
            old(self).wf(),
        ensures
            final(self).wf(),
            final(self)@ == roles_answered(old(self)@, result is Ok),
    ;
}

impl Callbacks for Minter {
    fn issue_callback(&mut self, result: Result<TokenId, AsyncCallError>, returned: &Payment) -> (r:
        Result<Option<Transfer>, Error>) {
        match result {
            Ok(token) => {
                if self.token_id().is_some() {
                    return Err(Error::TokenIssued);
                }
                match token {
                    TokenId::Egld => Err(Error::EsdtExpected),
                    TokenId::Esdt(id) => {
                        if !validate_token_identifier(&id) {
                            return Err(Error::InvalidTokenId);
                        }
                        self.store_issuance(IssuanceState::Issued(id));
                        Ok(None)
                    },
                }
            },
            Err(_) => {
                let pending = match self.issuance_state() {
                    IssuanceState::IssuancePending => true,
                    _ => false,
                };
                if pending {
                    self.store_issuance(IssuanceState::Uninitialized);
                }
                if returned.token_identifier.is_egld() {
                    Ok(Transfer::non_zero(self.owner(), TokenId::Egld, 0, returned.amount))
                } else {
                    Ok(None)
                }
            },
        }
    }

    fn set_local_roles_callback(&mut self, result: Result<(), AsyncCallError>) {
        let granted = result.is_ok();
        let next = match self.issuance_state() {
            IssuanceState::Issued(id) => if granted {
                Some(IssuanceState::Ready(copy_bytes(id)))
            } else {
                None
            },
            IssuanceState::RolesPending(id) => if granted {
                Some(IssuanceState::Ready(copy_bytes(id)))
            } else {
                Some(IssuanceState::Issued(copy_bytes(id)))
            },
            _ => None,
        };
        match next {
            Some(issuance) => self.store_issuance(issuance),
            None => {},
        }
    }
}

} // verus!

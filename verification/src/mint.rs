//! What a mint is: when it is refused, what it changes, and what it asks
//! the ledger and the bond contract to do.

use crate::errors::{Error, ErrorKind};
use crate::ledger::{
    DataNftAttributesView, MintReceiptView, TransferView, UnitCreationView, UnitShare,
};
use crate::nft_mint_utils::uris_of;
use crate::requirements::{
    minting_refusal, ready_for_minting_and_burning, sft_refusal, title_description_refusal,
    url_refusal,
};
use crate::state::MinterState;
use crate::types::{Address, PaymentView, TokenIdView};
use vstd::arithmetic::div_mod::{lemma_div_is_ordered, lemma_hoist_over_denominator};
use vstd::prelude::*;

verus! {

/// One call of `mint`: who calls and when, what is paid, what the bond
/// contract asks for the lock period, and the arguments.
pub struct MintCall {
    pub caller: Address,
    pub current_time: u64,
    pub payment: PaymentView,
    pub bond_amount: u128,
    pub name: Seq<u8>,
    pub media: Seq<u8>,
    pub metadata: Seq<u8>,
    pub data_marshal: Seq<u8>,
    pub data_stream: Seq<u8>,
    pub data_preview: Seq<u8>,
    pub royalties: u128,
    pub supply: u128,
    pub title: Seq<u8>,
    pub description: Seq<u8>,
    pub lock_period_sec: u64,
    /// In basis points.
    pub donation_percentage: u64,
    pub extra_assets: Seq<Seq<u8>>,
}

/// The part of `supply` that `donation_percentage` basis points stand for,
/// rounded down.
pub open spec fn donation_supply(supply: u128, donation_percentage: u64) -> nat {
    (supply * donation_percentage / 10_000) as nat
}

/// Why a request to mint is refused before anyone looks at who asks and
/// what is paid, if it is: minting is not open, or an argument is not in
/// order.
pub open spec fn content_refusal(
    s: MinterState,
    media: Seq<u8>,
    metadata: Seq<u8>,
    data_marshal: Seq<u8>,
    data_stream: Seq<u8>,
    data_preview: Seq<u8>,
    royalties: u128,
    supply: u128,
    title: Seq<u8>,
    description: Seq<u8>,
    donation_percentage: u64,
) -> Option<Error> {
    if !ready_for_minting_and_burning(s) {
        Some(Error::MintingAndBurningNotAllowed)
    } else if data_stream.len() == 0 {
        Some(Error::DataStreamIsEmpty)
    } else if url_refusal(s, data_marshal) is Some {
        url_refusal(s, data_marshal)
    } else if url_refusal(s, data_preview) is Some {
        url_refusal(s, data_preview)
    } else if url_refusal(s, media) is Some {
        url_refusal(s, media)
    } else if url_refusal(s, metadata) is Some {
        url_refusal(s, metadata)
    } else if title_description_refusal(title, description) is Some {
        title_description_refusal(title, description)
    } else if sft_refusal(s, royalties, supply) is Some {
        sft_refusal(s, royalties, supply)
    } else if donation_percentage > s.max_donation_percentage {
        Some(Error::PercentageTooHigh)
    } else {
        None
    }
}

/// Why the request itself is refused, if it is. Neither the caller nor the
/// payment plays a part.
pub open spec fn request_refusal(s: MinterState, c: MintCall) -> Option<Error> {
    content_refusal(
        s,
        c.media,
        c.metadata,
        c.data_marshal,
        c.data_stream,
        c.data_preview,
        c.royalties,
        c.supply,
        c.title,
        c.description,
        c.donation_percentage,
    )
}

/// Why a mint is refused before the bond contract is asked, if it is: the
/// request is not in order, or the caller may not mint now.
pub open spec fn entry_refusal(s: MinterState, c: MintCall) -> Option<Error> {
    if request_refusal(s, c) is Some {
        request_refusal(s, c)
    } else {
        minting_refusal(s, c.caller, c.current_time)
    }
}

/// Why the funds that come with a mint are refused, if they are: there is
/// no bond for the lock period, or the payment is not the tax and the bond
/// to the last unit, or a donation has nowhere to go.
pub open spec fn funding_refusal(s: MinterState, c: MintCall) -> Option<Error> {
    if s.bond_contract_address is None {
        Some(Error::BondContractNotSet)
    } else if c.bond_amount == 0 {
        Some(Error::WrongBondPeriod)
    } else if c.payment.amount != s.tax(c.payment.token_identifier) + c.bond_amount {
        Some(Error::WrongAmountOfFunds)
    } else if donation_supply(c.supply, c.donation_percentage) > 0 && s.donation_treasury_address
        is None {
        Some(Error::DonationTreasuryNotSet)
    } else {
        None
    }
}

/// Why a mint is refused, if it is: the first of the checks that fails, the
/// request first, then the caller's right to mint, then the funds.
pub open spec fn mint_refusal(s: MinterState, c: MintCall) -> Option<Error> {
    if entry_refusal(s, c) is Some {
        entry_refusal(s, c)
    } else {
        funding_refusal(s, c)
    }
}

/// Why units are not burnt, if they are not: burning is not open, or the
/// payment is not in units of the collection, or it is nothing.
pub open spec fn burn_refusal(s: MinterState, payment: PaymentView) -> Option<Error> {
    if !ready_for_minting_and_burning(s) {
        Some(Error::MintingAndBurningNotAllowed)
    } else if payment.token_identifier != TokenIdView::Esdt(s.token_id()->0) {
        Some(Error::InvalidPaymentToken)
    } else if payment.amount == 0 {
        Some(Error::ValueMustBePositive)
    } else {
        None
    }
}

/// The state after a mint that was not refused: the caller has minted once
/// more, and now.
pub open spec fn minted_state(s: MinterState, c: MintCall) -> MinterState {
    MinterState {
        last_mint_time: s.last_mint_time.insert(c.caller, c.current_time),
        minted_per_address: s.minted_per_address.insert(
            c.caller,
            (s.minted_by(c.caller) + 1) as u128,
        ),
        minted_tokens: (s.minted_tokens + 1) as u128,
        ..s
    }
}

/// What a mint that was not refused asks for; `hash` is the hash of the
/// unit's data.
pub open spec fn mint_receipt(s: MinterState, c: MintCall, hash: Seq<u8>) -> MintReceiptView {
    let price = s.tax(c.payment.token_identifier);
    let donated = donation_supply(c.supply, c.donation_percentage);
    MintReceiptView {
        attributes: DataNftAttributesView {
            data_stream_url: c.data_stream,
            data_preview_url: c.data_preview,
            data_marshal_url: c.data_marshal,
            creator: c.caller,
            creation_time: c.current_time,
            title: c.title,
            description: c.description,
        },
        tax: if price > 0 {
            Some(
                TransferView {
                    to: s.treasury_address->0,
                    token_identifier: c.payment.token_identifier,
                    token_nonce: c.payment.token_nonce,
                    amount: price,
                },
            )
        } else {
            None
        },
        creation: UnitCreationView {
            token_identifier: s.token_id()->0,
            supply: c.supply,
            name: c.name,
            royalties: c.royalties,
            hash,
            uris: uris_of(c.media, c.metadata, c.extra_assets),
        },
        bond_payment: PaymentView {
            token_identifier: c.payment.token_identifier,
            token_nonce: c.payment.token_nonce,
            amount: c.bond_amount,
        },
        lock_period_sec: c.lock_period_sec,
        donation: if donated > 0 {
            Some(UnitShare { to: s.donation_treasury_address->0, amount: donated as u128 })
        } else {
            None
        },
        caller_share: UnitShare { to: c.caller, amount: (c.supply - donated) as u128 },
    }
}

/// A donation never exceeds the supply, and is nothing where the percentage
/// is nothing: the two shares of a mint are the whole supply.
pub proof fn lemma_donation_split(supply: u128, donation_percentage: u64)
    requires
        donation_percentage <= 10_000,
    ensures
        donation_supply(supply, donation_percentage) <= supply,
        donation_supply(supply, 0) == 0,
        donation_supply(supply, donation_percentage) + (supply - donation_supply(
            supply,
            donation_percentage,
        )) == supply,
{
    let p = donation_percentage as int;
    let s = supply as int;
    assert(s * p <= s * 10_000) by (nonlinear_arith)
        requires
            0 <= s,
            0 <= p <= 10_000,
    ;
    assert(0 <= s * p) by (nonlinear_arith)
        requires
            0 <= s,
            0 <= p,
    ;
    lemma_div_is_ordered(s * p, s * 10_000, 10_000);
    lemma_div_is_ordered(0, s * p, 10_000);
    assert(s * 10_000 / 10_000 == s) by (nonlinear_arith);
    assert(s * 0 / 10_000 == 0) by (nonlinear_arith);
}

/// The donation of a mint, computed without leaving `u128`.
pub fn donation_share(supply: u128, donation_percentage: u64) -> (share: u128)
    requires
        donation_percentage <= 10_000,
    ensures
        share == donation_supply(supply, donation_percentage),
        share <= supply,
{
    let whole: u128 = supply / 10_000;
    let rest: u128 = supply % 10_000;
    let percentage: u128 = donation_percentage as u128;
    proof {
        let s = supply as int;
        let p = donation_percentage as int;
        let q = whole as int;
        let t = rest as int;
        lemma_donation_split(supply, donation_percentage);
        assert(s == q * 10_000 + t);
        assert(s * p == t * p + (q * p) * 10_000) by (nonlinear_arith)
            requires
                s == q * 10_000 + t,
        ;
        lemma_hoist_over_denominator(t * p, q * p, 10_000);
        assert(0 <= t * p <= 10_000 * 10_000) by (nonlinear_arith)
            requires
                0 <= t < 10_000,
                0 <= p <= 10_000,
        ;
        assert(0 <= q * p) by (nonlinear_arith)
            requires
                0 <= q,
                0 <= p,
        ;
        assert(0 <= (t * p) / 10_000);
        assert(q * p + (t * p) / 10_000 == s * p / 10_000);
    }
    whole * percentage + rest * percentage / 10_000
}

/// The supply of a mint that was not refused goes out whole: the donation
/// is the part that the percentage stands for, rounded down, the caller has
/// the rest, and with no percentage the caller has all of it.
pub proof fn lemma_mint_shares(s: MinterState, c: MintCall, hash: Seq<u8>)
    requires
        s.valid(),
        mint_refusal(s, c) is None,
    ensures
        ({
            let receipt = mint_receipt(s, c, hash);
            let donated: nat = match receipt.donation {
                Some(share) => share.amount as nat,
                None => 0,
            };
            &&& donated == donation_supply(c.supply, c.donation_percentage)
            &&& donated + receipt.caller_share.amount == c.supply
            &&& receipt.caller_share.to == c.caller
            &&& receipt.donation matches Some(share) ==> share.to == s.donation_treasury_address->0
            &&& c.donation_percentage == 0 ==> receipt.donation is None
                && receipt.caller_share.amount == c.supply
        }),
{
    lemma_donation_split(c.supply, c.donation_percentage);
}

/// The funds of a mint that was not refused go out whole: the tax to the
/// treasury, the rest to the bond.
pub proof fn lemma_mint_funds(s: MinterState, c: MintCall, hash: Seq<u8>)
    requires
        mint_refusal(s, c) is None,
    ensures
        ({
            let receipt = mint_receipt(s, c, hash);
            let taxed: nat = match receipt.tax {
                Some(transfer) => transfer.amount as nat,
                None => 0,
            };
            &&& taxed == s.tax(c.payment.token_identifier)
            &&& taxed + receipt.bond_payment.amount == c.payment.amount
            &&& receipt.bond_payment.amount == c.bond_amount
            &&& receipt.tax matches Some(transfer) ==> transfer.to == s.treasury_address->0
                && transfer.token_identifier == c.payment.token_identifier
        }),
{
}

/// Without a collection, and without the roles on it, nothing is minted,
/// paused or not.
pub proof fn lemma_no_collection_no_mint(s: MinterState, c: MintCall)
    requires
        s.token_id() is None || !s.roles_are_set(),
    ensures
        mint_refusal(s, c) == Some(Error::MintingAndBurningNotAllowed),
{
}

/// A payment that is not the tax and the bond to the last unit is refused.
pub proof fn lemma_wrong_payment_is_refused(s: MinterState, c: MintCall)
    requires
        c.payment.amount != s.tax(c.payment.token_identifier) + c.bond_amount,
    ensures
        mint_refusal(s, c) is Some,
{
}

/// While the whitelist is enforced, the mint of an address that is not on
/// it is refused, whatever is paid; and where the request itself is in
/// order, the refusal says that the caller may not mint.
pub proof fn lemma_not_whitelisted_is_refused(s: MinterState, c: MintCall)
    requires
        s.whitelist_enabled,
        !s.whitelist.contains(c.caller),
    ensures
        mint_refusal(s, c) is Some,
        request_refusal(s, c) is None ==> mint_refusal(s, c)->0.kind() == ErrorKind::Entitlement,
        forall|payment: PaymentView, bond_amount: u128|
            mint_refusal(s, c) == #[trigger] mint_refusal(
                s,
                MintCall { payment, bond_amount, ..c },
            ),
{
    assert forall|payment: PaymentView, bond_amount: u128|
        mint_refusal(s, c) == #[trigger] mint_refusal(
            s,
            MintCall { payment, bond_amount, ..c },
        ) by {
        let d = MintCall { payment, bond_amount, ..c };
        assert(request_refusal(s, c) == request_refusal(s, d));
    }
}

} // verus!

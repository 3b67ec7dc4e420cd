//! Why a call was refused. A refused call changes nothing.

use vstd::prelude::*;

verus! {

/// The kinds of refusal.
#[derive(Clone, Copy, Debug, PartialEq, Eq, Structural)]
pub enum ErrorKind {
    /// The caller may not make this call.
    AccessControl,
    /// The minter is not in a state in which the call can be served.
    StatePrecondition,
    /// An argument is malformed or out of bounds.
    InputValidation,
    /// The attached payment is not the one asked for.
    Payment,
    /// The caller may not mint now.
    Entitlement,
}

#[derive(Clone, Copy, Debug, PartialEq, Eq, Structural)]
pub enum Error {
    MinRoyaltiesBiggerThanMaxRoyalties,
    MaxRoyaltiesTooHigh,
    TokenNotIssued,
    UrlTooSmall,
    UrlTooBig,
    UrlIsEmpty,
    UrlInvalidCharacters,
    NotUrl,
    NotPrivileged,
    OnlyOwner,
    SupplyHigherThanZero,
    MaxSupplyExceeded,
    RoyaltiesAreSmallerThanMinRoyalties,
    RoyaltiesAreBiggerThanMaxRoyalties,
    ValueMustBePositive,
    NotWhitelisted,
    NotInWhitelist,
    AlreadyInWhitelist,
    WaitMoreTime,
    MintingAndBurningNotAllowed,
    ContractAlreadyInitialized,
    IssueCost,
    WhitelistIsEmpty,
    DataStreamIsEmpty,
    TokenIssued,
    EsdtExpected,
    InvalidTokenId,
    InvalidPaymentToken,
    NonceNotFoundInFreezeList,
    NonceInFreezeList,
    AddressNotInCollectionFreezeList,
    AddressIsInCollectionFreezeList,
    FieldIsEmpty,
    TooManyChars,
    PercentageTooHigh,
    WrongBondPeriod,
    WrongAmountOfFunds,
    BondContractNotSet,
    DonationTreasuryNotSet,
    OnlyWithdrawalAddressCanWithdraw,
    WithdrawalAddressNotSet,
    NotEnoughFunds,
}

impl Error {
    /// The text that goes to the user with the refusal.
    pub open spec fn message_text(self) -> Seq<char> {
        match self {
            Error::MinRoyaltiesBiggerThanMaxRoyalties => "Min royalties bigger than max royalties"@,
            Error::MaxRoyaltiesTooHigh => "Max royalties too high"@,
            Error::TokenNotIssued => "Token not issued"@,
            Error::UrlTooSmall => "URL length is too small"@,
            Error::UrlTooBig => "URL length is too big"@,
            Error::UrlIsEmpty => "URL is empty"@,
            Error::UrlInvalidCharacters => "URL contains invalid characters"@,
            Error::NotUrl => "URL must start with https://"@,
            Error::NotPrivileged => "Address is not privileged"@,
            Error::OnlyOwner => "Endpoint can only be called by owner"@,
            Error::SupplyHigherThanZero => "Supply must be higher than zero"@,
            Error::MaxSupplyExceeded => "Max supply exceeded"@,
            Error::RoyaltiesAreSmallerThanMinRoyalties => "Royalties are smaller than min royalties"@,
            Error::RoyaltiesAreBiggerThanMaxRoyalties => "Royalties are bigger than max royalties"@,
            Error::ValueMustBePositive => "Value must be higher than zero"@,
            Error::NotWhitelisted => "You are not whitelisted"@,
            Error::NotInWhitelist => "Address not in whitelist"@,
            Error::AlreadyInWhitelist => "Address already in whitelist"@,
            Error::WaitMoreTime => "You need to wait more time before minting again"@,
            Error::MintingAndBurningNotAllowed => "Minting and burning not allowed"@,
            Error::ContractAlreadyInitialized => "Contract was already initialized"@,
            Error::IssueCost => "Issue cost is 0.05 eGLD"@,
            Error::WhitelistIsEmpty => "Given whitelist is empty"@,
            Error::DataStreamIsEmpty => "Data Stream is empty"@,
            Error::TokenIssued => "Token already issued"@,
            Error::EsdtExpected => "ESDT expected"@,
            Error::InvalidTokenId => "Invalid token ID"@,
            Error::InvalidPaymentToken => "Invalid payment token"@,
            Error::NonceNotFoundInFreezeList => "Nonce not found in freeze list"@,
            Error::NonceInFreezeList => "Nonce is in freeze list"@,
            Error::AddressNotInCollectionFreezeList => "Address is not in collection freeze list"@,
            Error::AddressIsInCollectionFreezeList => "Address is in collection freeze list"@,
            Error::FieldIsEmpty => "Field is empty"@,
            Error::TooManyChars => "Too many characters"@,
            Error::PercentageTooHigh => "Percentage too high"@,
            Error::WrongBondPeriod => "Wrong bond period"@,
            Error::WrongAmountOfFunds => "Wrong amount of funds"@,
            Error::BondContractNotSet => "Bond contract address not set"@,
            Error::DonationTreasuryNotSet => "Donation treasury address not set"@,
            Error::OnlyWithdrawalAddressCanWithdraw => "Only withdrawal address can withdraw tokens"@,
            Error::WithdrawalAddressNotSet => "Withdrawal address not set"@,
            Error::NotEnoughFunds => "Not enough funds"@,
        }
    }

    pub fn message(self) -> (text: &'static str)
        ensures
            text@ == self.message_text(),
    {
        match self {
            Error::MinRoyaltiesBiggerThanMaxRoyalties => "Min royalties bigger than max royalties",
            Error::MaxRoyaltiesTooHigh => "Max royalties too high",
            Error::TokenNotIssued => "Token not issued",
            Error::UrlTooSmall => "URL length is too small",
            Error::UrlTooBig => "URL length is too big",
            Error::UrlIsEmpty => "URL is empty",
            Error::UrlInvalidCharacters => "URL contains invalid characters",
            Error::NotUrl => "URL must start with https://",
            Error::NotPrivileged => "Address is not privileged",
            Error::OnlyOwner => "Endpoint can only be called by owner",
            Error::SupplyHigherThanZero => "Supply must be higher than zero",
            Error::MaxSupplyExceeded => "Max supply exceeded",
            Error::RoyaltiesAreSmallerThanMinRoyalties => "Royalties are smaller than min royalties",
            Error::RoyaltiesAreBiggerThanMaxRoyalties => "Royalties are bigger than max royalties",
            Error::ValueMustBePositive => "Value must be higher than zero",
            Error::NotWhitelisted => "You are not whitelisted",
            Error::NotInWhitelist => "Address not in whitelist",
            Error::AlreadyInWhitelist => "Address already in whitelist",
            Error::WaitMoreTime => "You need to wait more time before minting again",
            Error::MintingAndBurningNotAllowed => "Minting and burning not allowed",
            Error::ContractAlreadyInitialized => "Contract was already initialized",
            Error::IssueCost => "Issue cost is 0.05 eGLD",
            Error::WhitelistIsEmpty => "Given whitelist is empty",
            Error::DataStreamIsEmpty => "Data Stream is empty",
            Error::TokenIssued => "Token already issued",
            Error::EsdtExpected => "ESDT expected",
            Error::InvalidTokenId => "Invalid token ID",
            Error::InvalidPaymentToken => "Invalid payment token",
            Error::NonceNotFoundInFreezeList => "Nonce not found in freeze list",
            Error::NonceInFreezeList => "Nonce is in freeze list",
            Error::AddressNotInCollectionFreezeList => "Address is not in collection freeze list",
            Error::AddressIsInCollectionFreezeList => "Address is in collection freeze list",
            Error::FieldIsEmpty => "Field is empty",
            Error::TooManyChars => "Too many characters",
            Error::PercentageTooHigh => "Percentage too high",
            Error::WrongBondPeriod => "Wrong bond period",
            Error::WrongAmountOfFunds => "Wrong amount of funds",
            Error::BondContractNotSet => "Bond contract address not set",
            Error::DonationTreasuryNotSet => "Donation treasury address not set",
            Error::OnlyWithdrawalAddressCanWithdraw => "Only withdrawal address can withdraw tokens",
            Error::WithdrawalAddressNotSet => "Withdrawal address not set",
            Error::NotEnoughFunds => "Not enough funds",
        }
    }

    pub open spec fn spec_kind(self) -> ErrorKind {
        match self {
            Error::NotPrivileged
            | Error::OnlyOwner
            | Error::OnlyWithdrawalAddressCanWithdraw => ErrorKind::AccessControl,
            Error::TokenNotIssued
            | Error::MintingAndBurningNotAllowed
            | Error::ContractAlreadyInitialized
            | Error::TokenIssued
            | Error::InvalidTokenId
            | Error::BondContractNotSet
            | Error::DonationTreasuryNotSet
            | Error::WithdrawalAddressNotSet
            | Error::NotInWhitelist
            | Error::AlreadyInWhitelist
            | Error::NonceNotFoundInFreezeList
            | Error::NonceInFreezeList
            | Error::AddressNotInCollectionFreezeList
            | Error::AddressIsInCollectionFreezeList => ErrorKind::StatePrecondition,
            Error::MinRoyaltiesBiggerThanMaxRoyalties
            | Error::MaxRoyaltiesTooHigh
            | Error::UrlTooSmall
            | Error::UrlTooBig
            | Error::UrlIsEmpty
            | Error::UrlInvalidCharacters
            | Error::NotUrl
            | Error::SupplyHigherThanZero
            | Error::MaxSupplyExceeded
            | Error::RoyaltiesAreSmallerThanMinRoyalties
            | Error::RoyaltiesAreBiggerThanMaxRoyalties
            | Error::WhitelistIsEmpty
            | Error::DataStreamIsEmpty
            | Error::FieldIsEmpty
            | Error::TooManyChars
            | Error::PercentageTooHigh
            | Error::WrongBondPeriod
            | Error::EsdtExpected => ErrorKind::InputValidation,
            Error::ValueMustBePositive
            | Error::IssueCost
            | Error::InvalidPaymentToken
            | Error::WrongAmountOfFunds
            | Error::NotEnoughFunds => ErrorKind::Payment,
            Error::NotWhitelisted | Error::WaitMoreTime => ErrorKind::Entitlement,
        }
    }

    #[verifier::when_used_as_spec(spec_kind)]
    pub fn kind(self) -> (kind: ErrorKind)
        ensures
            kind == self.spec_kind(),
    {
        match self {
            Error::NotPrivileged
            | Error::OnlyOwner
            | Error::OnlyWithdrawalAddressCanWithdraw => ErrorKind::AccessControl,
            Error::TokenNotIssued
            | Error::MintingAndBurningNotAllowed
            | Error::ContractAlreadyInitialized
            | Error::TokenIssued
            | Error::InvalidTokenId
            | Error::BondContractNotSet
            | Error::DonationTreasuryNotSet
            | Error::WithdrawalAddressNotSet
            | Error::NotInWhitelist
            | Error::AlreadyInWhitelist
            | Error::NonceNotFoundInFreezeList
            | Error::NonceInFreezeList
            | Error::AddressNotInCollectionFreezeList
            | Error::AddressIsInCollectionFreezeList => ErrorKind::StatePrecondition,
            Error::MinRoyaltiesBiggerThanMaxRoyalties
            | Error::MaxRoyaltiesTooHigh
            | Error::UrlTooSmall
            | Error::UrlTooBig
            | Error::UrlIsEmpty
            | Error::UrlInvalidCharacters
            | Error::NotUrl
            | Error::SupplyHigherThanZero
            | Error::MaxSupplyExceeded
            | Error::RoyaltiesAreSmallerThanMinRoyalties
            | Error::RoyaltiesAreBiggerThanMaxRoyalties
            | Error::WhitelistIsEmpty
            | Error::DataStreamIsEmpty
            | Error::FieldIsEmpty
            | Error::TooManyChars
            | Error::PercentageTooHigh
            | Error::WrongBondPeriod
            | Error::EsdtExpected => ErrorKind::InputValidation,
            Error::ValueMustBePositive
            | Error::IssueCost
            | Error::InvalidPaymentToken
            | Error::WrongAmountOfFunds
            | Error::NotEnoughFunds => ErrorKind::Payment,
            Error::NotWhitelisted | Error::WaitMoreTime => ErrorKind::Entitlement,
        }
    }
}

} // verus!

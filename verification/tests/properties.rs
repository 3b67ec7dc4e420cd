use datanftmint::bonding_proxy::{BondingContractProxyMethods, BondingProxy, Proxy};
use datanftmint::callbacks::{AsyncCallError, Callbacks};
use datanftmint::collection_management::CollectionManagement;
use datanftmint::collections::{ListMap, ListSet};
use datanftmint::errors::{Error, ErrorKind};
use datanftmint::ledger::{
    BondQuery, CollectionProperties, LedgerCall, LocalRole, MintReceipt, Transfer, UnitShare,
};
use datanftmint::mint::donation_share;
use datanftmint::nft_mint_utils::NftMintUtils;
use datanftmint::requirements::RequirementsModule;
use datanftmint::storage::{IssuanceState, Minter, StorageModule};
use datanftmint::types::{bytes_equal, Address, Key, Payment, TokenId};
use datanftmint::issuance::ISSUE_COST;
use datanftmint::DataNftMint;

const TOKEN: &[u8] = b"ITHEUM-df6f26";
const COLLECTION: &[u8] = b"DATANFTFT-1a2b3c";
const URL: &[u8] = b"https://test.com/test";

/// The address that a name stands for: the name, filled up to 32 bytes.
fn address(name: &str) -> Address {
    let mut bytes = [b'_'; 32];
    bytes[..name.len()].copy_from_slice(name.as_bytes());
    Address::new(bytes)
}

fn owner() -> Address {
    address("owner")
}

fn token() -> TokenId {
    TokenId::Esdt(TOKEN.to_vec())
}

fn paid(amount: u128) -> Payment {
    Payment {
        token_identifier: token(),
        token_nonce: 0,
        amount,
    }
}

fn failed() -> AsyncCallError {
    AsyncCallError {
        err_code: 4,
        err_msg: b"refused".to_vec(),
    }
}

/// A minter that mints: not paused, the roles granted, the treasuries and
/// the bond contract set, `a` on the whitelist, no time limit, a tax of
/// 200 of the token.
fn ready_minter() -> Minter {
    let mut minter = Minter::new(owner());
    minter.store_issuance(IssuanceState::Ready(COLLECTION.to_vec()));
    minter.store_is_paused(false);
    minter.store_treasury_address(address("treasury"));
    minter.store_donation_treasury_address(address("donation"));
    minter.store_bond_contract_address(address("bond"));
    minter.store_anti_spam_tax(token(), 200);
    assert!(minter.whitelist_insert(address("a")));
    assert!(minter.store_max_donation_percentage(5000));
    minter
}

/// A mint of `a` at the time `now`, with a bond of 100 for a lock period
/// of 10.
fn mint_at(
    minter: &mut Minter,
    caller: &str,
    now: u64,
    payment: Payment,
    supply: u128,
    donation_percentage: u64,
) -> Result<MintReceipt, Error> {
    minter.mint_token(
        &address(caller),
        now,
        payment,
        100,
        b"Name".to_vec(),
        URL.to_vec(),
        URL.to_vec(),
        URL.to_vec(),
        b"stream".to_vec(),
        URL.to_vec(),
        1000,
        supply,
        b"Title".to_vec(),
        b"Description".to_vec(),
        10,
        donation_percentage,
        vec![b"https://test.com/extra".to_vec()],
    )
}

fn mint(minter: &mut Minter, payment: Payment) -> Result<MintReceipt, Error> {
    mint_at(minter, "a", 0, payment, 5, 0)
}

#[test]
fn a_wrong_payment_changes_nothing() {
    for amount in [0u128, 100, 200, 299, 301, u128::MAX] {
        let mut minter = ready_minter();
        minter.store_last_mint_time(address("a"), 3);
        assert_eq!(
            mint_at(&mut minter, "a", 7, paid(amount), 5, 0),
            Err(Error::WrongAmountOfFunds)
        );
        assert_eq!(minter.minted_tokens(), 0);
        assert_eq!(minter.minted_per_address(&address("a")), 0);
        assert_eq!(minter.last_mint_time(&address("a")), 3);
    }
}

#[test]
fn the_exact_payment_is_taken_apart() {
    let mut minter = ready_minter();
    let receipt = mint_at(&mut minter, "a", 7, paid(300), 5, 0).unwrap();
    assert_eq!(
        receipt.tax,
        Some(Transfer {
            to: address("treasury"),
            token_identifier: token(),
            token_nonce: 0,
            amount: 200
        })
    );
    assert_eq!(receipt.bond_payment, paid(100));
    assert_eq!(receipt.lock_period_sec, 10);
    assert_eq!(receipt.donation, None);
    assert_eq!(
        receipt.caller_share,
        UnitShare {
            to: address("a"),
            amount: 5
        }
    );
    assert_eq!(receipt.creation.token_identifier, COLLECTION.to_vec());
    assert_eq!(receipt.creation.supply, 5);
    assert_eq!(receipt.creation.royalties, 1000);
    assert_eq!(receipt.creation.name, b"Name".to_vec());
    assert_eq!(
        receipt.creation.uris,
        vec![
            URL.to_vec(),
            URL.to_vec(),
            b"https://test.com/extra".to_vec()
        ]
    );
    assert_eq!(receipt.attributes.creator, address("a"));
    assert_eq!(receipt.attributes.creation_time, 7);
    assert_eq!(receipt.attributes.data_stream_url, b"stream".to_vec());
    assert_eq!(minter.minted_tokens(), 1);
    assert_eq!(minter.minted_per_address(&address("a")), 1);
    assert_eq!(minter.last_mint_time(&address("a")), 7);
}

#[test]
fn a_mint_without_tax_sends_nothing_to_the_treasury() {
    let mut minter = ready_minter();
    minter.store_anti_spam_tax(token(), 0);
    let receipt = mint(&mut minter, paid(100)).unwrap();
    assert_eq!(receipt.tax, None);
    assert_eq!(receipt.bond_payment, paid(100));

    let receipt = mint(
        &mut minter,
        Payment {
            token_identifier: TokenId::Egld,
            token_nonce: 0,
            amount: 100,
        },
    )
    .unwrap();
    assert_eq!(receipt.tax, None);
    assert_eq!(receipt.bond_payment.token_identifier, TokenId::Egld);
}

#[test]
fn an_address_off_the_whitelist_does_not_mint_whatever_it_pays() {
    for amount in [0u128, 299, 300, 301] {
        let mut minter = ready_minter();
        let refused = mint_at(&mut minter, "b", 0, paid(amount), 5, 0).unwrap_err();
        assert_eq!(refused, Error::NotWhitelisted);
        assert_eq!(refused.kind(), ErrorKind::Entitlement);
        assert_eq!(minter.minted_tokens(), 0);
    }
    let mut minter = ready_minter();
    minter.store_whitelist_enabled(false);
    assert!(mint_at(&mut minter, "b", 0, paid(300), 5, 0).is_ok());
}

#[test]
fn the_time_limit_runs_from_the_last_mint() {
    let mut minter = ready_minter();
    minter.store_mint_time_limit(10);
    minter.store_last_mint_time(address("a"), 12);
    for now in [0u64, 11, 12, 21] {
        let refused = mint_at(&mut minter, "a", now, paid(300), 5, 0).unwrap_err();
        assert_eq!(refused, Error::WaitMoreTime);
        assert_eq!(refused.kind(), ErrorKind::Entitlement);
    }
    assert!(mint_at(&mut minter, "a", 22, paid(300), 5, 0).is_ok());
    assert_eq!(
        mint_at(&mut minter, "a", 31, paid(300), 5, 0),
        Err(Error::WaitMoreTime)
    );
    assert!(mint_at(&mut minter, "a", u64::MAX, paid(300), 5, 0).is_ok());
}

#[test]
fn the_whitelist_takes_no_address_twice_and_gives_up_none_it_does_not_hold() {
    let mut minter = ready_minter();
    let (a, b, c) = (address("a"), address("b"), address("c"));

    assert_eq!(
        minter.set_whitelist_spots(&owner(), vec![a]),
        Err(Error::AlreadyInWhitelist)
    );
    assert_eq!(
        minter.set_whitelist_spots(&owner(), vec![b, a]),
        Err(Error::AlreadyInWhitelist)
    );
    assert_eq!(
        minter.set_whitelist_spots(&owner(), vec![b, b]),
        Err(Error::AlreadyInWhitelist)
    );
    assert_eq!(minter.whitelist(), vec![a]);

    assert_eq!(minter.set_whitelist_spots(&owner(), vec![b, c]), Ok(()));
    assert_eq!(minter.whitelist(), vec![a, b, c]);

    assert_eq!(
        minter.remove_whitelist_spots(&owner(), vec![address("d")]),
        Err(Error::NotInWhitelist)
    );
    assert_eq!(
        minter.remove_whitelist_spots(&owner(), vec![a, address("d")]),
        Err(Error::NotInWhitelist)
    );
    assert_eq!(
        minter.remove_whitelist_spots(&owner(), vec![a, a]),
        Err(Error::NotInWhitelist)
    );
    assert_eq!(minter.whitelist(), vec![a, b, c]);

    assert_eq!(minter.remove_whitelist_spots(&owner(), vec![b]), Ok(()));
    assert_eq!(minter.whitelist(), vec![a, c]);
    assert_eq!(minter.remove_whitelist_spots(&owner(), vec![c, a]), Ok(()));
    assert_eq!(minter.whitelist(), Vec::<Address>::new());
    assert_eq!(minter.whitelist_contains(&a), false);
}

#[test]
fn the_count_of_frozen_units_is_the_size_of_the_set() {
    let mut minter = ready_minter();
    let b = address("b");
    let c = address("c");
    let counted = |minter: &Minter| {
        for holder in [b, c] {
            assert_eq!(
                minter.frozen_count(&holder),
                minter.frozen_sfts_per_address(&holder).len()
            );
        }
    };

    counted(&minter);
    for nonce in [4u64, 2, 9] {
        assert!(minter
            .freeze_single_token_for_address(&owner(), nonce, &b)
            .is_ok());
        counted(&minter);
    }
    assert_eq!(minter.frozen_sfts_per_address(&b), vec![4, 2, 9]);
    assert_eq!(minter.frozen_count(&b), 3);

    assert_eq!(
        minter.freeze_single_token_for_address(&owner(), 2, &b),
        Err(Error::NonceInFreezeList)
    );
    counted(&minter);
    assert_eq!(
        minter.unfreeze_single_token_for_address(&owner(), 5, &b),
        Err(Error::NonceNotFoundInFreezeList)
    );
    assert_eq!(
        minter.wipe_single_token_for_address(&owner(), 5, &b),
        Err(Error::NonceNotFoundInFreezeList)
    );
    assert_eq!(
        minter.unfreeze_single_token_for_address(&owner(), 4, &c),
        Err(Error::NonceNotFoundInFreezeList)
    );
    counted(&minter);

    assert!(minter
        .unfreeze_single_token_for_address(&owner(), 4, &b)
        .is_ok());
    counted(&minter);
    assert_eq!(minter.frozen_sfts_per_address(&b), vec![2, 9]);
    assert!(minter
        .freeze_single_token_for_address(&owner(), 4, &c)
        .is_ok());
    counted(&minter);
    assert!(minter.wipe_single_token_for_address(&owner(), 9, &b).is_ok());
    counted(&minter);
    assert!(minter.wipe_single_token_for_address(&owner(), 2, &b).is_ok());
    counted(&minter);
    assert_eq!(minter.frozen_count(&b), 0);
    assert_eq!(minter.frozen_sfts_per_address(&b), Vec::<u64>::new());
    assert_eq!(minter.frozen_count(&c), 1);
    assert_eq!(
        Error::NonceInFreezeList.message(),
        "Nonce is in freeze list"
    );
    assert_eq!(
        Error::NonceNotFoundInFreezeList.message(),
        "Nonce not found in freeze list"
    );
}

#[test]
fn the_supply_is_split_between_the_donation_and_the_caller() {
    let cases: [(u128, u64, u128); 8] = [
        (5, 0, 0),
        (5, 1000, 0),
        (10, 2500, 2),
        (20, 1250, 2),
        (20, 5000, 10),
        (19, 5000, 9),
        (1, 4999, 0),
        (3, 3334, 1),
    ];
    for (supply, percentage, donated) in cases {
        let mut minter = ready_minter();
        let receipt = mint_at(&mut minter, "a", 0, paid(300), supply, percentage).unwrap();
        if donated == 0 {
            assert_eq!(receipt.donation, None);
        } else {
            assert_eq!(
                receipt.donation,
                Some(UnitShare {
                    to: address("donation"),
                    amount: donated
                })
            );
        }
        assert_eq!(
            receipt.caller_share,
            UnitShare {
                to: address("a"),
                amount: supply - donated
            }
        );
    }
}

#[test]
fn a_donation_is_computed_without_overflow() {
    assert_eq!(donation_share(123_456_789, 2500), 30_864_197);
    assert_eq!(donation_share(u128::MAX, 10_000), u128::MAX);
    assert_eq!(donation_share(u128::MAX, 0), 0);
    assert_eq!(
        donation_share(u128::MAX, 9999),
        340248338684246369617028269971025034633
    );
    assert_eq!(
        donation_share(u128::MAX, 1),
        34028236692093846346337460743176821
    );

    let mut minter = ready_minter();
    minter.store_max_supply(u128::MAX);
    assert!(minter.store_max_donation_percentage(10_000));
    let receipt = mint_at(&mut minter, "a", 0, paid(300), u128::MAX, 9999).unwrap();
    assert_eq!(
        receipt.donation.unwrap().amount,
        340248338684246369617028269971025034633
    );
    assert_eq!(
        receipt.caller_share.amount,
        34028236692093846346337460743176822
    );
}

#[test]
fn a_donation_needs_a_limit_and_a_treasury() {
    let mut minter = ready_minter();
    assert_eq!(
        mint_at(&mut minter, "a", 0, paid(300), 10, 5001),
        Err(Error::PercentageTooHigh)
    );
    assert!(mint_at(&mut minter, "a", 0, paid(300), 10, 5000).is_ok());

    let mut minter = Minter::new(owner());
    minter.store_issuance(IssuanceState::Ready(COLLECTION.to_vec()));
    minter.store_is_paused(false);
    minter.store_whitelist_enabled(false);
    minter.store_treasury_address(address("treasury"));
    minter.store_bond_contract_address(address("bond"));
    assert_eq!(
        mint_at(&mut minter, "a", 0, paid(100), 10, 1),
        Err(Error::PercentageTooHigh)
    );
    assert!(minter.store_max_donation_percentage(10_000));
    assert_eq!(
        mint_at(&mut minter, "a", 0, paid(100), 10, 5000),
        Err(Error::DonationTreasuryNotSet)
    );
    assert_eq!(minter.minted_tokens(), 0);
    // A percentage that rounds down to nothing needs no treasury.
    assert!(mint_at(&mut minter, "a", 0, paid(100), 10, 999).is_ok());

    assert_eq!(
        minter.set_max_donation_percentage(&owner(), 10_001),
        Err(Error::PercentageTooHigh)
    );
    assert_eq!(minter.max_donation_percentage(), 10_000);
    assert_eq!(
        minter.set_max_donation_percentage(&address("a"), 1),
        Err(Error::NotPrivileged)
    );
    assert_eq!(minter.set_max_donation_percentage(&owner(), 30), Ok(()));
    assert_eq!(minter.max_donation_percentage(), 30);
    assert_eq!(minter.store_max_donation_percentage(10_001), false);
    assert_eq!(minter.max_donation_percentage(), 30);
    assert_eq!(Error::PercentageTooHigh.message(), "Percentage too high");
}

#[test]
fn a_mint_needs_a_bond() {
    let mut minter = ready_minter();
    let zero_bond = minter.mint_token(
        &address("a"),
        0,
        paid(200),
        0,
        b"Name".to_vec(),
        URL.to_vec(),
        URL.to_vec(),
        URL.to_vec(),
        b"stream".to_vec(),
        URL.to_vec(),
        1000,
        5,
        b"Title".to_vec(),
        b"Description".to_vec(),
        77,
        0,
        Vec::new(),
    );
    assert_eq!(zero_bond, Err(Error::WrongBondPeriod));

    assert_eq!(
        minter.get_bond_amount_for_lock_period(77),
        Ok(BondQuery {
            bond_contract: address("bond"),
            lock_period: 77
        })
    );
    let deposit = minter
        .send_bond(&address("a"), COLLECTION.to_vec(), 3, 77, paid(100))
        .unwrap();
    assert_eq!(deposit.bond_contract, address("bond"));
    assert_eq!(deposit.original_caller, address("a"));
    assert_eq!(deposit.token_identifier, COLLECTION.to_vec());
    assert_eq!(deposit.nonce, 3);
    assert_eq!(deposit.lock_period, 77);
    assert_eq!(deposit.payment, paid(100));

    let minter = Minter::new(owner());
    assert_eq!(
        minter.get_bond_amount_for_lock_period(77),
        Err(Error::BondContractNotSet)
    );
    assert_eq!(
        minter.send_bond(&address("a"), COLLECTION.to_vec(), 3, 77, paid(100)),
        Err(Error::BondContractNotSet)
    );
}

#[test]
fn the_collection_is_asked_for_once_and_for_the_exact_fee() {
    let mut minter = Minter::new(owner());
    let ask = |minter: &mut Minter, caller: Address, fee: u128| {
        minter.initialize_contract(
            &caller,
            fee,
            b"DATANFT-FT".to_vec(),
            b"DATANFTFT".to_vec(),
            token(),
            25,
            10,
            address("treasury"),
        )
    };

    assert_eq!(ISSUE_COST, 5 * 10u128.pow(16));
    assert_eq!(
        ask(&mut minter, address("a"), ISSUE_COST),
        Err(Error::OnlyOwner)
    );
    for fee in [0, 1, ISSUE_COST - 1, ISSUE_COST + 1] {
        assert_eq!(ask(&mut minter, owner(), fee), Err(Error::IssueCost));
    }
    assert_eq!(*minter.issuance_state(), IssuanceState::Uninitialized);
    assert_eq!(minter.treasury_address(), None);
    assert_eq!(minter.anti_spam_tax(&token()), 0);

    assert_eq!(
        ask(&mut minter, owner(), ISSUE_COST),
        Ok(LedgerCall::IssueSemiFungible {
            issue_cost: 50_000_000_000_000_000,
            token_display_name: b"DATANFT-FT".to_vec(),
            token_ticker: b"DATANFTFT".to_vec(),
            properties: CollectionProperties {
                can_freeze: true,
                can_wipe: true,
                can_pause: true,
                can_change_owner: true,
                can_upgrade: true,
                can_add_special_roles: true,
                can_transfer_create_role: true,
            },
        })
    );
    assert_eq!(*minter.issuance_state(), IssuanceState::IssuancePending);
    assert_eq!(minter.treasury_address(), Some(address("treasury")));
    assert_eq!(minter.anti_spam_tax(&token()), 25);
    assert_eq!(minter.mint_time_limit(), 10);

    assert_eq!(
        minter.issue_callback(Ok(TokenId::Esdt(COLLECTION.to_vec())), &paid(0)),
        Ok(None)
    );
    assert_eq!(minter.token_id(), Some(&COLLECTION.to_vec()));
    assert_eq!(
        *minter.issuance_state(),
        IssuanceState::Issued(COLLECTION.to_vec())
    );

    assert_eq!(
        ask(&mut minter, owner(), ISSUE_COST),
        Err(Error::ContractAlreadyInitialized)
    );
    assert_eq!(
        minter.issue_callback(Ok(TokenId::Esdt(b"OTHER-1a2b3c".to_vec())), &paid(0)),
        Err(Error::TokenIssued)
    );
    assert_eq!(minter.token_id(), Some(&COLLECTION.to_vec()));
    assert_eq!(Error::TokenIssued.message(), "Token already issued");
}

#[test]
fn a_refused_collection_leaves_the_minter_as_it_was() {
    let mut minter = Minter::new(owner());
    assert!(minter
        .initialize_contract(
            &owner(),
            ISSUE_COST,
            b"DATANFT-FT".to_vec(),
            b"DATANFTFT".to_vec(),
            token(),
            25,
            10,
            address("treasury"),
        )
        .is_ok());

    let returned = Payment {
        token_identifier: TokenId::Egld,
        token_nonce: 0,
        amount: ISSUE_COST,
    };
    assert_eq!(
        minter.issue_callback(Err(failed()), &returned),
        Ok(Some(Transfer {
            to: owner(),
            token_identifier: TokenId::Egld,
            token_nonce: 0,
            amount: ISSUE_COST
        }))
    );
    assert_eq!(*minter.issuance_state(), IssuanceState::Uninitialized);
    assert_eq!(minter.token_id(), None);

    // Nothing goes back where nothing came back, or where it is no EGLD.
    let nothing = Payment {
        token_identifier: TokenId::Egld,
        token_nonce: 0,
        amount: 0,
    };
    assert_eq!(minter.issue_callback(Err(failed()), &nothing), Ok(None));
    assert_eq!(minter.issue_callback(Err(failed()), &paid(7)), Ok(None));

    // The owner asks again.
    assert!(minter
        .initialize_contract(
            &owner(),
            ISSUE_COST,
            b"DATANFT-FT".to_vec(),
            b"DATANFTFT".to_vec(),
            token(),
            25,
            10,
            address("treasury"),
        )
        .is_ok());
    assert_eq!(*minter.issuance_state(), IssuanceState::IssuancePending);
}

#[test]
fn only_a_token_identifier_is_stored() {
    let valid: [&[u8]; 5] = [
        b"ABC-123456",
        b"DATANFTFT-1a2b3c",
        b"ABCDEFGHIJ-abcdef",
        b"A1B2C3-a1b2c3",
        b"000-000000",
    ];
    for id in valid {
        let mut minter = Minter::new(owner());
        assert_eq!(
            minter.issue_callback(Ok(TokenId::Esdt(id.to_vec())), &paid(0)),
            Ok(None)
        );
        assert_eq!(minter.token_id(), Some(&id.to_vec()));
    }

    let invalid: [&[u8]; 10] = [
        b"",
        b"AB-123456",
        b"ABCDEFGHIJK-abcdef",
        b"DATANFT-12345",
        b"TOKEN-fb133",
        b"abc-123456",
        b"ABC-12345G",
        b"ABC_123456",
        b"ABC-1234567",
        b"AB C-123456",
    ];
    for id in invalid {
        let mut minter = Minter::new(owner());
        assert_eq!(
            minter.issue_callback(Ok(TokenId::Esdt(id.to_vec())), &paid(0)),
            Err(Error::InvalidTokenId)
        );
        assert_eq!(minter.token_id(), None);
        assert_eq!(*minter.issuance_state(), IssuanceState::Uninitialized);
    }

    let mut minter = Minter::new(owner());
    assert_eq!(
        minter.issue_callback(Ok(TokenId::Egld), &paid(0)),
        Err(Error::EsdtExpected)
    );
    assert_eq!(Error::InvalidTokenId.message(), "Invalid token ID");
    assert_eq!(Error::EsdtExpected.message(), "ESDT expected");
}

#[test]
fn the_roles_are_asked_for_after_the_collection() {
    let mut minter = Minter::new(owner());
    assert_eq!(
        minter.set_local_roles(&owner()),
        Err(Error::TokenNotIssued)
    );
    assert_eq!(Error::TokenNotIssued.message(), "Token not issued");
    minter.set_local_roles_callback(Ok(()));
    assert_eq!(*minter.issuance_state(), IssuanceState::Uninitialized);
    assert_eq!(minter.roles_are_set(), false);

    minter.store_issuance(IssuanceState::Issued(COLLECTION.to_vec()));
    assert_eq!(
        minter.set_local_roles(&address("a")),
        Err(Error::OnlyOwner)
    );
    assert_eq!(
        minter.set_local_roles(&owner()),
        Ok(LedgerCall::SetSpecialRoles {
            token_identifier: COLLECTION.to_vec(),
            roles: vec![
                LocalRole::NftCreate,
                LocalRole::NftBurn,
                LocalRole::NftAddQuantity
            ],
        })
    );
    assert_eq!(
        *minter.issuance_state(),
        IssuanceState::RolesPending(COLLECTION.to_vec())
    );

    minter.set_local_roles_callback(Err(failed()));
    assert_eq!(
        *minter.issuance_state(),
        IssuanceState::Issued(COLLECTION.to_vec())
    );
    assert_eq!(minter.roles_are_set(), false);

    assert!(minter.set_local_roles(&owner()).is_ok());
    minter.set_local_roles_callback(Ok(()));
    assert_eq!(
        *minter.issuance_state(),
        IssuanceState::Ready(COLLECTION.to_vec())
    );
    assert_eq!(minter.roles_are_set(), true);

    // Asked for again, the roles stay.
    assert!(minter.set_local_roles(&owner()).is_ok());
    assert_eq!(minter.roles_are_set(), true);
    minter.set_local_roles_callback(Err(failed()));
    assert_eq!(minter.roles_are_set(), true);
}

#[test]
fn nothing_is_minted_or_burnt_without_collection_and_roles() {
    let unit = Payment {
        token_identifier: TokenId::Esdt(COLLECTION.to_vec()),
        token_nonce: 1,
        amount: 1,
    };
    for issuance in [
        IssuanceState::Uninitialized,
        IssuanceState::IssuancePending,
        IssuanceState::Issued(COLLECTION.to_vec()),
        IssuanceState::RolesPending(COLLECTION.to_vec()),
    ] {
        let mut minter = ready_minter();
        minter.store_issuance(issuance);
        assert_eq!(
            mint(&mut minter, paid(300)),
            Err(Error::MintingAndBurningNotAllowed)
        );
        assert_eq!(
            minter.burn_token(&unit),
            Err(Error::MintingAndBurningNotAllowed)
        );
    }
    let mut minter = ready_minter();
    assert!(mint(&mut minter, paid(300)).is_ok());
    assert!(minter.burn_token(&unit).is_ok());
    assert_eq!(
        minter.burn_token(&Payment {
            token_identifier: TokenId::Egld,
            token_nonce: 0,
            amount: 1
        }),
        Err(Error::InvalidPaymentToken)
    );
}

#[test]
fn a_frozen_address_takes_no_part_in_the_list_of_units() {
    let mut minter = ready_minter();
    let b = address("b");

    assert!(minter
        .freeze_single_token_for_address(&owner(), 1, &b)
        .is_ok());
    assert_eq!(
        minter.freeze_collection_for_address(&owner(), &b),
        Ok(LedgerCall::Freeze {
            token_identifier: COLLECTION.to_vec(),
            address: b
        })
    );
    assert_eq!(minter.frozen_addresses_for_collection(), vec![b]);

    assert_eq!(
        minter.freeze_single_token_for_address(&owner(), 2, &b),
        Err(Error::AddressIsInCollectionFreezeList)
    );
    assert_eq!(
        minter.unfreeze_single_token_for_address(&owner(), 1, &b),
        Err(Error::AddressIsInCollectionFreezeList)
    );
    assert_eq!(
        minter.wipe_single_token_for_address(&owner(), 1, &b),
        Err(Error::AddressIsInCollectionFreezeList)
    );
    assert_eq!(minter.frozen_sfts_per_address(&b), vec![1]);
    assert_eq!(minter.frozen_count(&b), 1);

    assert_eq!(
        minter.freeze_collection_for_address(&owner(), &b),
        Err(Error::AddressIsInCollectionFreezeList)
    );
    assert_eq!(
        minter.freeze_collection_for_address(&address("a"), &b),
        Err(Error::OnlyOwner)
    );
    assert_eq!(
        minter.unfreeze_collection_for_address(&address("a"), &b),
        Err(Error::OnlyOwner)
    );
    assert_eq!(
        minter.unfreeze_collection_for_address(&owner(), &address("c")),
        Err(Error::AddressNotInCollectionFreezeList)
    );
    assert!(minter
        .unfreeze_collection_for_address(&owner(), &b)
        .is_ok());
    assert_eq!(
        minter.unfreeze_collection_for_address(&owner(), &b),
        Err(Error::AddressNotInCollectionFreezeList)
    );
    assert!(minter
        .freeze_single_token_for_address(&owner(), 2, &b)
        .is_ok());
    assert_eq!(minter.frozen_sfts_per_address(&b), vec![1, 2]);
    assert_eq!(
        Error::AddressIsInCollectionFreezeList.message(),
        "Address is in collection freeze list"
    );
    assert_eq!(
        Error::AddressNotInCollectionFreezeList.message(),
        "Address is not in collection freeze list"
    );
}

#[test]
fn the_administrator_freezes_units_and_the_owner_alone_the_collection() {
    let mut minter = ready_minter();
    let admin = address("admin");
    let b = address("b");
    assert_eq!(minter.set_administrator(&owner(), admin), Ok(()));

    assert_eq!(
        minter.freeze_single_token_for_address(&admin, 1, &b),
        Ok(LedgerCall::FreezeSingleNft {
            token_identifier: COLLECTION.to_vec(),
            nonce: 1,
            address: b
        })
    );
    assert_eq!(
        minter.freeze_collection_for_address(&admin, &b),
        Err(Error::OnlyOwner)
    );
    assert_eq!(minter.pause_collection(&admin), Err(Error::OnlyOwner));
    assert_eq!(minter.unpause_collection(&admin), Err(Error::OnlyOwner));
    assert_eq!(
        minter.pause_collection(&owner()),
        Ok(LedgerCall::Pause {
            token_identifier: COLLECTION.to_vec()
        })
    );
    assert_eq!(
        minter.unpause_collection(&owner()),
        Ok(LedgerCall::Unpause {
            token_identifier: COLLECTION.to_vec()
        })
    );
    assert_eq!(
        minter.freeze_single_nft(7, &b),
        LedgerCall::FreezeSingleNft {
            token_identifier: COLLECTION.to_vec(),
            nonce: 7,
            address: b
        }
    );
    assert_eq!(
        minter.unfreeze_single_nft(7, &b),
        LedgerCall::UnfreezeSingleNft {
            token_identifier: COLLECTION.to_vec(),
            nonce: 7,
            address: b
        }
    );
    assert_eq!(
        minter.wipe_single_nft(7, &b),
        LedgerCall::WipeSingleNft {
            token_identifier: COLLECTION.to_vec(),
            nonce: 7,
            address: b
        }
    );
    assert_eq!(
        Error::OnlyOwner.message(),
        "Endpoint can only be called by owner"
    );
}

#[test]
fn the_owner_alone_sets_what_is_the_owners() {
    let mut minter = Minter::new(owner());
    let admin = address("admin");
    let x = address("x");
    assert_eq!(minter.set_administrator(&admin, admin), Err(Error::OnlyOwner));
    assert_eq!(minter.set_administrator(&owner(), admin), Ok(()));
    assert_eq!(minter.administrator(), Some(admin));

    assert_eq!(minter.set_treasury_address(&admin, x), Err(Error::OnlyOwner));
    assert_eq!(minter.set_mint_time_limit(&admin, 5), Err(Error::OnlyOwner));
    assert_eq!(
        minter.set_bond_contract_address(&admin, x),
        Err(Error::OnlyOwner)
    );
    assert_eq!(
        minter.set_withdrawal_address(&admin, x),
        Err(Error::OnlyOwner)
    );
    assert_eq!(minter.treasury_address(), None);
    assert_eq!(minter.mint_time_limit(), 0);
    assert_eq!(minter.bond_contract_address(), None);
    assert_eq!(minter.withdrawal_address(), None);

    assert_eq!(minter.set_treasury_address(&owner(), x), Ok(()));
    assert_eq!(minter.set_mint_time_limit(&owner(), 5), Ok(()));
    assert_eq!(minter.set_bond_contract_address(&owner(), x), Ok(()));
    assert_eq!(minter.set_withdrawal_address(&owner(), x), Ok(()));
    assert_eq!(minter.treasury_address(), Some(x));
    assert_eq!(minter.mint_time_limit(), 5);
    assert_eq!(minter.bond_contract_address(), Some(x));
    assert_eq!(minter.withdrawal_address(), Some(x));

    assert_eq!(
        minter.set_donation_treasury_address(&x, x),
        Err(Error::NotPrivileged)
    );
    assert_eq!(minter.set_donation_treasury_address(&admin, x), Ok(()));
    assert_eq!(minter.donation_treasury_address(), Some(x));
    assert_eq!(minter.owner(), owner());
}

#[test]
fn the_limits_of_the_royalties_are_held_apart() {
    let mut minter = Minter::new(owner());
    assert_eq!(
        minter.set_royalties_limits(&owner(), 100, 100),
        Err(Error::MinRoyaltiesBiggerThanMaxRoyalties)
    );
    assert_eq!(
        minter.set_royalties_limits(&owner(), 101, 100),
        Err(Error::MinRoyaltiesBiggerThanMaxRoyalties)
    );
    assert_eq!(
        minter.set_royalties_limits(&owner(), 0, 10_000),
        Err(Error::MaxRoyaltiesTooHigh)
    );
    assert_eq!(minter.min_royalties(), 0);
    assert_eq!(minter.max_royalties(), 8000);
    assert_eq!(minter.set_royalties_limits(&owner(), 10, 9999), Ok(()));
    assert_eq!(minter.min_royalties(), 10);
    assert_eq!(minter.max_royalties(), 9999);

    assert_eq!(minter.require_sft_is_valid(9, 1), Err(Error::RoyaltiesAreSmallerThanMinRoyalties));
    assert_eq!(minter.require_sft_is_valid(10, 1), Ok(()));
    assert_eq!(minter.require_sft_is_valid(9999, 20), Ok(()));
    assert_eq!(
        minter.require_sft_is_valid(10_000, 20),
        Err(Error::RoyaltiesAreBiggerThanMaxRoyalties)
    );
    assert_eq!(minter.require_sft_is_valid(10, 21), Err(Error::MaxSupplyExceeded));

    assert_eq!(minter.store_royalties_limits(5, 5), false);
    assert_eq!(minter.store_royalties_limits(0, 10_001), false);
    assert_eq!(minter.store_royalties_limits(0, 10_000), true);
    assert_eq!(minter.max_royalties(), 10_000);
    assert_eq!(
        Error::MinRoyaltiesBiggerThanMaxRoyalties.message(),
        "Min royalties bigger than max royalties"
    );
    assert_eq!(Error::MaxRoyaltiesTooHigh.message(), "Max royalties too high");
}

#[test]
fn the_lengths_of_urls_and_texts_have_their_limits() {
    let mut minter = Minter::new(owner());
    let url_of = |length: usize| {
        let mut url = b"https://".to_vec();
        url.resize(length, b'a');
        url
    };
    assert_eq!(minter.url_min_length(), 15);
    assert_eq!(minter.url_max_length(), 400);
    assert_eq!(
        minter.require_url_is_valid(&url_of(14)),
        Err(Error::UrlTooSmall)
    );
    assert_eq!(minter.require_url_is_valid(&url_of(15)), Ok(()));
    assert_eq!(minter.require_url_is_valid(&url_of(400)), Ok(()));
    assert_eq!(
        minter.require_url_is_valid(&url_of(401)),
        Err(Error::UrlTooBig)
    );
    for byte in [0u8, 31, 32, 127, 128, 255] {
        let mut url = url_of(20);
        url[19] = byte;
        assert_eq!(
            minter.require_url_is_valid(&url),
            Err(Error::UrlInvalidCharacters)
        );
    }
    for byte in [33u8, 126] {
        let mut url = url_of(20);
        url[19] = byte;
        assert_eq!(minter.require_url_is_valid(&url), Ok(()));
    }
    assert_eq!(
        minter.require_url_is_valid(&b"https:/test.com/test".to_vec()),
        Err(Error::NotUrl)
    );
    assert_eq!(
        minter.require_url_is_valid(&b"HTTPS://test.com/test".to_vec()),
        Err(Error::NotUrl)
    );

    minter.store_url_length_limits(20, 300);
    assert_eq!(
        minter.require_url_is_valid(&url_of(19)),
        Err(Error::UrlTooSmall)
    );
    assert_eq!(minter.require_url_is_valid(&url_of(20)), Ok(()));
    assert_eq!(minter.require_url_is_valid(&url_of(300)), Ok(()));
    assert_eq!(
        minter.require_url_is_valid(&url_of(301)),
        Err(Error::UrlTooBig)
    );

    minter.store_url_length_limits(1, 300);
    assert_eq!(
        minter.require_url_is_valid(&b"https:/".to_vec()),
        Err(Error::NotUrl)
    );
    assert_eq!(minter.require_url_is_valid(&b"https://".to_vec()), Ok(()));

    assert_eq!(
        minter.require_title_description_are_valid(&vec![b't'; 31], &vec![b'd'; 1]),
        Err(Error::TooManyChars)
    );
    assert_eq!(
        minter.require_title_description_are_valid(&vec![b't'; 30], &vec![b'd'; 401]),
        Err(Error::TooManyChars)
    );
    assert_eq!(
        minter.require_title_description_are_valid(&vec![b't'; 30], &vec![b'd'; 400]),
        Ok(())
    );
    assert_eq!(
        minter.require_title_description_are_valid(&vec![b't'; 1], &Vec::new()),
        Err(Error::FieldIsEmpty)
    );
}

#[test]
fn a_withdrawal_needs_funds() {
    let mut minter = Minter::new(owner());
    let w = address("withdrawal");
    minter.store_withdrawal_address(w);
    assert_eq!(
        minter.withdraw(&w, token(), 0, 0, 10),
        Err(Error::ValueMustBePositive)
    );
    assert_eq!(
        minter.withdraw(&w, token(), 0, 11, 10),
        Err(Error::NotEnoughFunds)
    );
    assert_eq!(
        minter.withdraw(&w, token(), 0, 1, 0),
        Err(Error::NotEnoughFunds)
    );
    assert_eq!(
        minter.withdraw(&w, token(), 2, 10, 10),
        Ok(Transfer {
            to: w,
            token_identifier: token(),
            token_nonce: 2,
            amount: 10
        })
    );
    assert_eq!(
        minter.withdraw(&w, TokenId::Egld, 0, 1, u128::MAX),
        Ok(Transfer {
            to: w,
            token_identifier: TokenId::Egld,
            token_nonce: 0,
            amount: 1
        })
    );
    assert_eq!(Error::NotEnoughFunds.message(), "Not enough funds");
    assert_eq!(Error::NotEnoughFunds.kind(), ErrorKind::Payment);
}

#[test]
fn the_hash_of_a_unit_is_the_digest_of_its_data() {
    let minter = Minter::new(owner());
    let digest: Vec<u8> = vec![
        186, 120, 22, 191, 143, 1, 207, 234, 65, 65, 64, 222, 93, 174, 34, 35, 176, 3, 97, 163,
        150, 23, 122, 156, 180, 16, 255, 97, 242, 0, 21, 173,
    ];
    assert_eq!(
        minter.create_hash_buffer(&b"a".to_vec(), &b"bc".to_vec()),
        digest
    );
    assert_eq!(
        minter.create_hash_buffer(&b"abc".to_vec(), &Vec::new()),
        digest
    );
    assert_eq!(
        minter.create_hash_buffer(&Vec::new(), &b"abc".to_vec()),
        digest
    );

    let mut minter = ready_minter();
    let receipt = minter
        .mint_token(
            &address("a"),
            0,
            paid(300),
            100,
            b"Name".to_vec(),
            URL.to_vec(),
            URL.to_vec(),
            URL.to_vec(),
            b"stream".to_vec(),
            URL.to_vec(),
            1000,
            5,
            b"Title".to_vec(),
            b"Description".to_vec(),
            10,
            0,
            Vec::new(),
        )
        .unwrap();
    assert_eq!(
        receipt.creation.hash,
        minter.create_hash_buffer(&URL.to_vec(), &b"stream".to_vec())
    );
    assert_eq!(receipt.creation.hash.len(), 32);

    let given = minter
        .mint_token_with_hash(
            &address("a"),
            0,
            paid(300),
            100,
            b"Name".to_vec(),
            URL.to_vec(),
            URL.to_vec(),
            URL.to_vec(),
            b"stream".to_vec(),
            URL.to_vec(),
            1000,
            5,
            b"Title".to_vec(),
            b"Description".to_vec(),
            10,
            0,
            Vec::new(),
            vec![1, 2, 3],
        )
        .unwrap();
    assert_eq!(given.creation.hash, vec![1, 2, 3]);
    assert_eq!(given.creation.uris, vec![URL.to_vec(), URL.to_vec()]);
}

#[test]
fn a_deployment_sets_the_safe_values() {
    let mut minter = Minter::new(owner());
    assert_eq!(minter.is_paused(), true);
    assert_eq!(minter.whitelist_enabled(), true);
    assert_eq!(minter.min_royalties(), 0);
    assert_eq!(minter.max_royalties(), 8000);
    assert_eq!(minter.max_supply(), 20);
    assert_eq!(minter.max_donation_percentage(), 0);
    assert_eq!(*minter.issuance_state(), IssuanceState::Uninitialized);

    minter.store_is_paused(false);
    minter.store_whitelist_enabled(false);
    minter.store_max_supply(0);
    minter.init();
    assert_eq!(minter.is_paused(), true);
    assert_eq!(minter.whitelist_enabled(), true);
    assert_eq!(minter.max_supply(), 20);

    minter.store_max_supply(7);
    minter.store_is_paused(false);
    minter.store_whitelist_enabled(false);
    minter.upgrade();
    assert_eq!(minter.is_paused(), true);
    assert_eq!(minter.whitelist_enabled(), false);
    minter.init();
    assert_eq!(minter.max_supply(), 7);
}

#[test]
fn equal_bytes_are_the_same_key() {
    assert!(address("a").same(&address("a")));
    assert!(!address("a").same(&address("b")));
    let mut last = address("a");
    last.bytes[31] = 0;
    assert!(!address("a").same(&last));
    assert!(token().same(&token()));
    assert!(!token().same(&TokenId::Egld));
    assert!(TokenId::Egld.same(&TokenId::Egld));
    assert!(!token().same(&TokenId::Esdt(b"ITHEUM-df6f27".to_vec())));
    assert!(bytes_equal(&b"ab".to_vec(), &b"ab".to_vec()));
    assert!(!bytes_equal(&b"ab".to_vec(), &b"abc".to_vec()));
    assert!(!bytes_equal(&b"ab".to_vec(), &b"ac".to_vec()));
    assert!(token().copy().same(&token()));
    assert!(!token().is_egld());
    assert!(TokenId::Egld.is_egld());
}

#[test]
fn every_refusal_has_its_kind() {
    assert_eq!(Error::OnlyOwner.kind(), ErrorKind::AccessControl);
    assert_eq!(Error::NotPrivileged.kind(), ErrorKind::AccessControl);
    assert_eq!(
        Error::OnlyWithdrawalAddressCanWithdraw.kind(),
        ErrorKind::AccessControl
    );
    assert_eq!(
        Error::MintingAndBurningNotAllowed.kind(),
        ErrorKind::StatePrecondition
    );
    assert_eq!(
        Error::ContractAlreadyInitialized.kind(),
        ErrorKind::StatePrecondition
    );
    assert_eq!(Error::TokenNotIssued.kind(), ErrorKind::StatePrecondition);
    assert_eq!(Error::UrlTooSmall.kind(), ErrorKind::InputValidation);
    assert_eq!(Error::WhitelistIsEmpty.kind(), ErrorKind::InputValidation);
    assert_eq!(Error::TooManyChars.kind(), ErrorKind::InputValidation);
    assert_eq!(Error::WrongAmountOfFunds.kind(), ErrorKind::Payment);
    assert_eq!(Error::IssueCost.kind(), ErrorKind::Payment);
    assert_eq!(Error::ValueMustBePositive.kind(), ErrorKind::Payment);
    assert_eq!(Error::WaitMoreTime.kind(), ErrorKind::Entitlement);
    assert_eq!(Error::NotWhitelisted.kind(), ErrorKind::Entitlement);
    assert_eq!(
        Error::BondContractNotSet.message(),
        "Bond contract address not set"
    );
    assert_eq!(
        Error::DonationTreasuryNotSet.message(),
        "Donation treasury address not set"
    );
}

#[test]
fn a_set_keeps_the_order_of_insertion() {
    let mut set: ListSet<u64> = ListSet::new();
    assert!(set.is_empty());
    assert!(set.insert(5));
    assert!(set.insert(3));
    assert!(set.insert(8));
    assert!(!set.insert(3));
    assert_eq!(set.len(), 3);
    assert_eq!((*set.get(0), *set.get(1), *set.get(2)), (5, 3, 8));
    assert!(set.contains(&8));
    assert!(!set.contains(&4));
    assert!(!set.remove(&4));
    assert!(set.remove(&5));
    assert!(!set.remove(&5));
    assert_eq!(set.len(), 2);
    assert_eq!((*set.get(0), *set.get(1)), (3, 8));
    assert!(set.insert(5));
    assert_eq!((*set.get(0), *set.get(1), *set.get(2)), (3, 8, 5));
}

#[test]
fn a_table_holds_one_value_for_a_key() {
    let mut table: ListMap<TokenId, u128> = ListMap::new();
    assert_eq!(table.get(&token()), None);
    table.set(token(), 7);
    table.set(TokenId::Egld, 9);
    assert_eq!(table.get(&token()), Some(&7));
    assert_eq!(table.get(&TokenId::Egld), Some(&9));
    table.set(token(), 8);
    assert_eq!(table.get(&token()), Some(&8));
    assert_eq!(table.get(&TokenId::Egld), Some(&9));
    assert_eq!(table.take(&token()), Some(8));
    assert_eq!(table.take(&token()), None);
    assert_eq!(table.get(&token()), None);
    assert_eq!(table.get(&TokenId::Egld), Some(&9));
}

#[test]
fn a_transfer_of_nothing_is_no_transfer() {
    assert_eq!(Transfer::non_zero(address("a"), token(), 0, 0), None);
    let transfer = Transfer::non_zero(address("a"), token(), 2, 1).unwrap();
    assert_eq!(
        transfer,
        Transfer {
            to: address("a"),
            token_identifier: token(),
            token_nonce: 2,
            amount: 1
        }
    );
    assert!(Transfer::non_zero(address("a"), TokenId::Egld, 0, 1).is_some());
}

#[test]
fn a_request_is_checked_before_the_bond_is_asked_for() {
    let minter = ready_minter();
    let check = |caller: &str, now: u64, data_stream: &[u8], supply: u128, percentage: u64| {
        minter.check_mint_request(
            &address(caller),
            now,
            &URL.to_vec(),
            &URL.to_vec(),
            &URL.to_vec(),
            &data_stream.to_vec(),
            &URL.to_vec(),
            1000,
            supply,
            &b"Title".to_vec(),
            &b"Description".to_vec(),
            percentage,
        )
    };
    assert_eq!(check("a", 0, b"stream", 5, 0), Ok(()));
    assert_eq!(check("a", 0, b"", 5, 0), Err(Error::DataStreamIsEmpty));
    assert_eq!(check("a", 0, b"stream", 21, 0), Err(Error::MaxSupplyExceeded));
    assert_eq!(check("a", 0, b"stream", 5, 5001), Err(Error::PercentageTooHigh));
    assert_eq!(check("b", 0, b"stream", 5, 0), Err(Error::NotWhitelisted));
    // The request comes before the caller.
    assert_eq!(check("b", 0, b"", 5, 0), Err(Error::DataStreamIsEmpty));
}

#[test]
fn a_proxy_puts_the_calls_to_the_bond_contract_together() {
    let minter = Minter::new(owner());
    let proxy = minter.bonding_proxy(address("other-bond"));
    assert_eq!(
        proxy,
        Proxy {
            sc_address: address("other-bond")
        }
    );
    assert_eq!(
        proxy.lock_period_bond_amount(9),
        BondQuery {
            bond_contract: address("other-bond"),
            lock_period: 9
        }
    );
    let deposit = proxy.bond(&address("a"), COLLECTION.to_vec(), 4, 9, paid(50));
    assert_eq!(deposit.bond_contract, address("other-bond"));
    assert_eq!(deposit.original_caller, address("a"));
    assert_eq!(deposit.token_identifier, COLLECTION.to_vec());
    assert_eq!(deposit.nonce, 4);
    assert_eq!(deposit.lock_period, 9);
    assert_eq!(deposit.payment, paid(50));
}

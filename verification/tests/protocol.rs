use hike_to_mint::errors::TokenError;
use hike_to_mint::keys::AccountId;
use hike_to_mint::protocol::mint_nft;
use hike_to_mint::state::{
    attempt_transfer, declare_non_transferable, finalize_mint, install_metadata_pointer,
    issue_supply, write_metadata, HoldingAccount, MetadataPointer, MintAccount, MintBase,
    TokenMetadata,
};

fn mint_address() -> AccountId {
    AccountId { hi: 0x1111, lo: 0x2222 }
}

fn payer_address() -> AccountId {
    AccountId { hi: 0x3333, lo: 0x4444 }
}

fn other_address() -> AccountId {
    AccountId { hi: 0x5555, lo: 0x6666 }
}

fn badge_inputs() -> (String, String, String) {
    (
        "Trail Badge".to_string(),
        "HIKE".to_string(),
        "https://example/badge.json".to_string(),
    )
}

#[test]
fn full_sequence_yields_badge() {
    let (name, symbol, uri) = badge_inputs();
    let payer = payer_address();
    let mut mint = MintAccount::new(mint_address(), 256);
    let mut dest = HoldingAccount { mint: mint_address(), owner: other_address(), amount: 0 };

    let r = mint_nft(&mut mint, &mut dest, &payer, name, symbol, uri);

    assert_eq!(r, Ok(()));
    assert_eq!(mint.supply, 1);
    assert!(mint.non_transferable);
    assert_eq!(
        mint.base,
        Some(MintBase { decimals: 0, mint_authority: payer, freeze_authority: payer })
    );
    assert_eq!(
        mint.metadata_pointer,
        Some(MetadataPointer { authority: payer, location: mint_address() })
    );
    let meta = mint.metadata.expect("metadata must be attached");
    assert_eq!(meta.name, "Trail Badge");
    assert_eq!(meta.symbol, "HIKE");
    assert_eq!(meta.uri, "https://example/badge.json");
    assert_eq!(meta.update_authority, payer);
    assert_eq!(dest.amount, 1);
}

#[test]
fn second_invocation_is_rejected() {
    let (name, symbol, uri) = badge_inputs();
    let payer = payer_address();
    let mut mint = MintAccount::new(mint_address(), 256);
    let mut dest = HoldingAccount { mint: mint_address(), owner: other_address(), amount: 0 };

    let first = mint_nft(&mut mint, &mut dest, &payer, name, symbol, uri);
    assert_eq!(first, Ok(()));

    let (name, symbol, uri) = badge_inputs();
    let second = mint_nft(&mut mint, &mut dest, &payer, name, symbol, uri);
    assert_eq!(second, Err(TokenError::OrderingViolation));
    assert_eq!(mint.supply, 1);
    assert_eq!(dest.amount, 1);
}

#[test]
fn finalize_before_extensions_is_rejected() {
    let payer = payer_address();
    let mut mint = MintAccount::new(mint_address(), 256);

    let finalized = finalize_mint(&mut mint, 0, &payer, &payer);
    assert_eq!(finalized, Ok(()));

    let declared = declare_non_transferable(&mut mint);
    assert_eq!(declared, Err(TokenError::OrderingViolation));
    assert!(!mint.non_transferable);

    let installed = install_metadata_pointer(&mut mint, &payer, &mint_address());
    assert_eq!(installed, Err(TokenError::OrderingViolation));
    assert!(mint.metadata_pointer.is_none());
}

#[test]
fn pointer_mismatch_leaves_supply_zero() {
    let (name, symbol, uri) = badge_inputs();
    let payer = payer_address();
    let mut mint = MintAccount::new(mint_address(), 256);

    assert_eq!(declare_non_transferable(&mut mint), Ok(()));
    // The pointer names a different account than the one written next.
    assert_eq!(install_metadata_pointer(&mut mint, &payer, &other_address()), Ok(()));
    assert_eq!(finalize_mint(&mut mint, 0, &payer, &payer), Ok(()));

    let meta = TokenMetadata { name, symbol, uri, update_authority: payer };
    let written = write_metadata(&mut mint, &mint_address(), &payer, meta);
    assert_eq!(written, Err(TokenError::PointerMismatch));
    assert!(mint.metadata.is_none());
    assert_eq!(mint.supply, 0);
}

#[test]
fn issued_unit_cannot_move() {
    let (name, symbol, uri) = badge_inputs();
    let payer = payer_address();
    let owner = other_address();
    let mut mint = MintAccount::new(mint_address(), 256);
    let mut dest = HoldingAccount { mint: mint_address(), owner, amount: 0 };

    assert_eq!(mint_nft(&mut mint, &mut dest, &payer, name, symbol, uri), Ok(()));

    // The owner cannot move the unit.
    let by_owner = attempt_transfer(&mint, &mut dest, &owner, 1);
    assert_eq!(by_owner, Err(TokenError::TransferForbidden));
    // Neither can the mint authority, nor anyone else.
    let by_payer = attempt_transfer(&mint, &mut dest, &payer, 1);
    assert_eq!(by_payer, Err(TokenError::TransferForbidden));
    assert_eq!(dest.amount, 1);
}

#[test]
fn invalid_destination_fails_issuance() {
    let (name, symbol, uri) = badge_inputs();
    let payer = payer_address();
    let mut mint = MintAccount::new(mint_address(), 256);
    // A holding account of some other mint cannot be resolved for this one.
    let mut dest = HoldingAccount { mint: other_address(), owner: other_address(), amount: 0 };

    let r = mint_nft(&mut mint, &mut dest, &payer, name, symbol, uri);
    assert_eq!(r, Err(TokenError::AuthorizationFailure));
    assert_eq!(mint.supply, 0);
    assert_eq!(dest.amount, 0);
}

#[test]
fn oversized_payload_fails_metadata_write() {
    let (name, symbol, uri) = badge_inputs();
    let payer = payer_address();
    // 41 length units of payload against 8 reserved.
    let mut mint = MintAccount::new(mint_address(), 8);
    let mut dest = HoldingAccount { mint: mint_address(), owner: other_address(), amount: 0 };

    let r = mint_nft(&mut mint, &mut dest, &payer, name, symbol, uri);
    assert_eq!(r, Err(TokenError::CapacityFailure));
    assert_eq!(mint.supply, 0);
    assert_eq!(dest.amount, 0);
}

#[test]
fn issuing_twice_is_duplicate() {
    let payer = payer_address();
    let mut mint = MintAccount::new(mint_address(), 256);
    let mut dest = HoldingAccount { mint: mint_address(), owner: other_address(), amount: 0 };

    assert_eq!(finalize_mint(&mut mint, 0, &payer, &payer), Ok(()));
    assert_eq!(issue_supply(&mut mint, &payer, &mut dest), Ok(()));
    assert_eq!(mint.supply, 1);

    let again = issue_supply(&mut mint, &payer, &mut dest);
    assert_eq!(again, Err(TokenError::DuplicateIssuance));
    assert_eq!(mint.supply, 1);
    assert_eq!(dest.amount, 1);
}

#[test]
fn issuance_requires_the_mint_authority() {
    let payer = payer_address();
    let stranger = other_address();
    let mut mint = MintAccount::new(mint_address(), 256);
    let mut dest = HoldingAccount { mint: mint_address(), owner: stranger, amount: 0 };

    assert_eq!(finalize_mint(&mut mint, 0, &payer, &payer), Ok(()));
    let r = issue_supply(&mut mint, &stranger, &mut dest);
    assert_eq!(r, Err(TokenError::AuthorizationFailure));
    assert_eq!(mint.supply, 0);
}

#[test]
fn issuance_before_finalization_is_rejected() {
    let payer = payer_address();
    let mut mint = MintAccount::new(mint_address(), 256);
    let mut dest = HoldingAccount { mint: mint_address(), owner: other_address(), amount: 0 };

    let r = issue_supply(&mut mint, &payer, &mut dest);
    assert_eq!(r, Err(TokenError::OrderingViolation));
    assert_eq!(mint.supply, 0);
}

#[test]
fn metadata_write_requires_the_mint_authority() {
    let (name, symbol, uri) = badge_inputs();
    let payer = payer_address();
    let stranger = other_address();
    let mut mint = MintAccount::new(mint_address(), 256);

    assert_eq!(declare_non_transferable(&mut mint), Ok(()));
    assert_eq!(install_metadata_pointer(&mut mint, &payer, &mint_address()), Ok(()));
    assert_eq!(finalize_mint(&mut mint, 0, &payer, &payer), Ok(()));

    let meta = TokenMetadata { name, symbol, uri, update_authority: payer };
    let r = write_metadata(&mut mint, &mint_address(), &stranger, meta);
    assert_eq!(r, Err(TokenError::AuthorizationFailure));
    assert!(mint.metadata.is_none());
}

#[test]
fn metadata_write_before_finalization_is_rejected() {
    let (name, symbol, uri) = badge_inputs();
    let payer = payer_address();
    let mut mint = MintAccount::new(mint_address(), 256);

    let meta = TokenMetadata { name, symbol, uri, update_authority: payer };
    let r = write_metadata(&mut mint, &mint_address(), &payer, meta);
    assert_eq!(r, Err(TokenError::OrderingViolation));
}

#[test]
fn transfer_moves_units_of_an_unrestricted_mint() {
    let payer = payer_address();
    let owner = other_address();
    let mut mint = MintAccount::new(mint_address(), 256);
    let mut source = HoldingAccount { mint: mint_address(), owner, amount: 0 };

    // A mint finalized without the non-transferable restriction.
    assert_eq!(finalize_mint(&mut mint, 0, &payer, &payer), Ok(()));
    assert_eq!(issue_supply(&mut mint, &payer, &mut source), Ok(()));

    let too_much = attempt_transfer(&mint, &mut source, &owner, 2);
    assert_eq!(too_much, Err(TokenError::InsufficientBalance));
    assert_eq!(source.amount, 1);

    let not_owner = attempt_transfer(&mint, &mut source, &payer, 1);
    assert_eq!(not_owner, Err(TokenError::AuthorizationFailure));

    let moved = attempt_transfer(&mint, &mut source, &owner, 1);
    assert_eq!(moved, Ok(()));
    assert_eq!(source.amount, 0);
}

#[test]
fn transfer_of_the_wrong_mint_is_rejected() {
    let payer = payer_address();
    let owner = other_address();
    let mut mint = MintAccount::new(mint_address(), 256);
    assert_eq!(finalize_mint(&mut mint, 0, &payer, &payer), Ok(()));

    let mut source = HoldingAccount { mint: other_address(), owner, amount: 1 };
    let r = attempt_transfer(&mint, &mut source, &owner, 1);
    assert_eq!(r, Err(TokenError::AuthorizationFailure));
    assert_eq!(source.amount, 1);
}

#[test]
fn payload_exactly_at_capacity_fits() {
    // "Trail Badge" + "HIKE" + "https://example/badge.json" takes 41 units.
    let (name, symbol, uri) = badge_inputs();
    let payer = payer_address();
    let mut mint = MintAccount::new(mint_address(), 41);
    let mut dest = HoldingAccount { mint: mint_address(), owner: other_address(), amount: 0 };
    assert_eq!(mint_nft(&mut mint, &mut dest, &payer, name, symbol, uri), Ok(()));
    assert_eq!(mint.supply, 1);

    let (name, symbol, uri) = badge_inputs();
    let mut tight = MintAccount::new(mint_address(), 40);
    let mut dest = HoldingAccount { mint: mint_address(), owner: other_address(), amount: 0 };
    let r = mint_nft(&mut tight, &mut dest, &payer, name, symbol, uri);
    assert_eq!(r, Err(TokenError::CapacityFailure));
    assert_eq!(tight.supply, 0);
}

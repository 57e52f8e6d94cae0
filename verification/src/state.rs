//! The mint account and its ordered lifecycle. Each step below models one
//! instruction the ledger's token program processes against the account:
//! which states it accepts, which error class it surfaces otherwise, and how
//! it changes the account. The lifecycle is strictly forward:
//! uninitialized, extensions declared, finalized, metadata attached, issued.

use vstd::prelude::*;

use crate::errors::TokenError;
use crate::keys::AccountId;

verus! {

/// The metadata pointer extension: who may update the metadata, and which
/// account hosts it.
#[derive(Clone, Copy, Debug, PartialEq, Eq, Structural)]
pub struct MetadataPointer {
    pub authority: AccountId,
    pub location: AccountId,
}

/// The core structural fields a finalized mint carries.
#[derive(Clone, Copy, Debug, PartialEq, Eq, Structural)]
pub struct MintBase {
    pub decimals: u8,
    pub mint_authority: AccountId,
    pub freeze_authority: AccountId,
}

/// The human-readable identity written into the metadata region.
#[derive(Clone, Debug)]
pub struct TokenMetadata {
    pub name: String,
    pub symbol: String,
    pub uri: String,
    pub update_authority: AccountId,
}

/// An account able to hold a balance of one mint.
#[derive(Clone, Copy, Debug, PartialEq, Eq, Structural)]
pub struct HoldingAccount {
    pub mint: AccountId,
    pub owner: AccountId,
    pub amount: u64,
}

/// A mint account: a fixed-capacity record owned by the token program. It
/// begins with nothing set; extensions are declared first, the structural
/// fields are finalized next, metadata is attached, and at most one unit is
/// ever issued.
pub struct MintAccount {
    /// The account's own address on the ledger.
    pub address: AccountId,
    /// How many length units the metadata region can take, fixed when the
    /// account was funded.
    pub metadata_capacity: usize,
    /// The non-transferable restriction extension, write-once.
    pub non_transferable: bool,
    /// The metadata pointer extension, write-once.
    pub metadata_pointer: Option<MetadataPointer>,
    /// `Some` exactly when the mint is finalized.
    pub base: Option<MintBase>,
    /// The metadata record, present once written.
    pub metadata: Option<TokenMetadata>,
    /// The number of units issued.
    pub supply: u64,
}

impl MintAccount {
    /// The mint's structural fields are locked (step three has run).
    pub open spec fn finalized(self) -> bool {
        self.base is Some
    }

    /// No step has touched the account yet.
    pub open spec fn fresh(self) -> bool {
        &&& !self.non_transferable
        &&& self.metadata_pointer is None
        &&& self.base is None
        &&& self.metadata is None
        &&& self.supply == 0
    }

    /// What every reachable account state satisfies: nothing past
    /// finalization exists before it, metadata sits where the pointer says,
    /// and at most the single unit is out.
    pub open spec fn wf(self) -> bool {
        &&& (self.base is None ==> self.supply == 0 && self.metadata is None)
        &&& (self.metadata matches Some(m) ==> self.metadata_pointer matches Some(p)
            && p.location == self.address)
        &&& self.supply <= 1
    }

    /// A mint account as the ledger hands it over before any initialization:
    /// addressed, sized, and otherwise empty.
    pub fn new(address: AccountId, metadata_capacity: usize) -> (r: MintAccount)
        ensures
            r.fresh(),
            r.wf(),
            r.address == address,
            r.metadata_capacity == metadata_capacity,
    {
        MintAccount {
            address,
            metadata_capacity,
            non_transferable: false,
            metadata_pointer: None,
            base: None,
            metadata: None,
            supply: 0,
        }
    }
}

/// How many length units a metadata payload takes.
pub open spec fn payload_len(name: Seq<char>, symbol: Seq<char>, uri: Seq<char>) -> nat {
    name.len() + symbol.len() + uri.len()
}

/// Step one as the token program decides it: the non-transferable flag is
/// set once, and only before finalization.
pub open spec fn declare_non_transferable_spec(a: MintAccount) -> (MintAccount, Result<
    (),
    TokenError,
>) {
    if a.finalized() || a.non_transferable {
        (a, Err(TokenError::OrderingViolation))
    } else {
        (MintAccount { non_transferable: true, ..a }, Ok(()))
    }
}

/// Step two: the metadata pointer is installed once, and only before
/// finalization.
pub open spec fn install_metadata_pointer_spec(
    a: MintAccount,
    authority: AccountId,
    location: AccountId,
) -> (MintAccount, Result<(), TokenError>) {
    if a.finalized() || a.metadata_pointer is Some {
        (a, Err(TokenError::OrderingViolation))
    } else {
        (
            MintAccount {
                metadata_pointer: Some(MetadataPointer { authority, location }),
                ..a
            },
            Ok(()),
        )
    }
}

/// Step three: the structural fields are written once; this locks the
/// extension set, so it rejects an already finalized account.
pub open spec fn finalize_mint_spec(
    a: MintAccount,
    decimals: u8,
    mint_authority: AccountId,
    freeze_authority: AccountId,
) -> (MintAccount, Result<(), TokenError>) {
    if a.finalized() {
        (a, Err(TokenError::OrderingViolation))
    } else {
        (
            MintAccount {
                base: Some(MintBase { decimals, mint_authority, freeze_authority }),
                ..a
            },
            Ok(()),
        )
    }
}

/// Step four: the metadata record is written at `location` by `signer`. The
/// mint must be finalized, the pointer must name exactly `location`, which
/// must be this account; the signer must be the mint authority; the record
/// is written once and must fit the reserved space.
pub open spec fn write_metadata_spec(
    a: MintAccount,
    location: AccountId,
    signer: AccountId,
    meta: TokenMetadata,
) -> (MintAccount, Result<(), TokenError>) {
    if !a.finalized() {
        (a, Err(TokenError::OrderingViolation))
    } else if !(a.metadata_pointer matches Some(p) && p.location == location && location
        == a.address) {
        (a, Err(TokenError::PointerMismatch))
    } else if signer != a.base.unwrap().mint_authority {
        (a, Err(TokenError::AuthorizationFailure))
    } else if a.metadata is Some {
        (a, Err(TokenError::OrderingViolation))
    } else if payload_len(meta.name@, meta.symbol@, meta.uri@) > a.metadata_capacity {
        (a, Err(TokenError::CapacityFailure))
    } else {
        (MintAccount { metadata: Some(meta), ..a }, Ok(()))
    }
}

/// Step five: the single unit is issued to the destination. The mint must be
/// finalized, the signer must be the mint authority, the destination must be
/// an account of this mint, and nothing may have been issued before.
pub open spec fn issue_supply_spec(a: MintAccount, signer: AccountId, dest: HoldingAccount) -> (
    MintAccount,
    HoldingAccount,
    Result<(), TokenError>,
) {
    if !a.finalized() {
        (a, dest, Err(TokenError::OrderingViolation))
    } else if signer != a.base.unwrap().mint_authority {
        (a, dest, Err(TokenError::AuthorizationFailure))
    } else if dest.mint != a.address {
        (a, dest, Err(TokenError::AuthorizationFailure))
    } else if a.supply != 0 {
        (a, dest, Err(TokenError::DuplicateIssuance))
    } else {
        (
            MintAccount { supply: 1, ..a },
            HoldingAccount { amount: 1, ..dest },
            Ok(()),
        )
    }
}

/// A transfer out of `source`, as the token program decides it: rejected for
/// the wrong mint, rejected outright when the mint carries the
/// non-transferable restriction, otherwise gated by ownership and balance.
pub open spec fn attempt_transfer_spec(
    mint: MintAccount,
    source: HoldingAccount,
    signer: AccountId,
    amount: u64,
) -> (HoldingAccount, Result<(), TokenError>) {
    if source.mint != mint.address {
        (source, Err(TokenError::AuthorizationFailure))
    } else if mint.non_transferable {
        (source, Err(TokenError::TransferForbidden))
    } else if signer != source.owner {
        (source, Err(TokenError::AuthorizationFailure))
    } else if amount > source.amount {
        (source, Err(TokenError::InsufficientBalance))
    } else {
        (HoldingAccount { amount: (source.amount - amount) as u64, ..source }, Ok(()))
    }
}

/// Declares the non-transferable restriction extension on the account.
pub fn declare_non_transferable(a: &mut MintAccount) -> (r: Result<(), TokenError>)
    requires
        old(a).wf(),
    ensures
        final(a).wf(),
        (*final(a), r) == declare_non_transferable_spec(*old(a)),
        r is Ok <==> !old(a).finalized() && !old(a).non_transferable,
        r is Err ==> *final(a) == *old(a) && r == Err::<(), TokenError>(
            TokenError::OrderingViolation,
        ),
{
    if a.base.is_some() || a.non_transferable {
        Err(TokenError::OrderingViolation)
    } else {
        a.non_transferable = true;
        Ok(())
    }
}

/// Installs the metadata pointer extension naming an update authority and
/// the account hosting the metadata.
pub fn install_metadata_pointer(a: &mut MintAccount, authority: &AccountId, location: &AccountId) -> (r:
    Result<(), TokenError>)
    requires
        old(a).wf(),
    ensures
        final(a).wf(),
        (*final(a), r) == install_metadata_pointer_spec(*old(a), *authority, *location),
        r is Ok <==> !old(a).finalized() && old(a).metadata_pointer is None,
        r is Err ==> *final(a) == *old(a) && r == Err::<(), TokenError>(
            TokenError::OrderingViolation,
        ),
{
    if a.base.is_some() || a.metadata_pointer.is_some() {
        Err(TokenError::OrderingViolation)
    } else {
        a.metadata_pointer = Some(MetadataPointer { authority: *authority, location: *location });
        Ok(())
    }
}

/// Writes the structural fields, locking the account's basic shape.
pub fn finalize_mint(
    a: &mut MintAccount,
    decimals: u8,
    mint_authority: &AccountId,
    freeze_authority: &AccountId,
) -> (r: Result<(), TokenError>)
    requires
        old(a).wf(),
    ensures
        final(a).wf(),
        (*final(a), r) == finalize_mint_spec(*old(a), decimals, *mint_authority, *freeze_authority),
        r is Ok <==> !old(a).finalized(),
        r is Ok ==> final(a).supply == 0,
        r is Err ==> *final(a) == *old(a) && r == Err::<(), TokenError>(
            TokenError::OrderingViolation,
        ),
{
    if a.base.is_some() {
        Err(TokenError::OrderingViolation)
    } else {
        a.base = Some(
            MintBase {
                decimals,
                mint_authority: *mint_authority,
                freeze_authority: *freeze_authority,
            },
        );
        Ok(())
    }
}

/// Writes the metadata record at `location`, signed by `signer`.
pub fn write_metadata(a: &mut MintAccount, location: &AccountId, signer: &AccountId, meta: TokenMetadata) -> (r:
    Result<(), TokenError>)
    requires
        old(a).wf(),
    ensures
        final(a).wf(),
        (*final(a), r) == write_metadata_spec(*old(a), *location, *signer, meta),
        final(a).supply == old(a).supply,
        r is Err ==> *final(a) == *old(a),
{
    if a.base.is_none() {
        return Err(TokenError::OrderingViolation);
    }
    let pointer_matches = match &a.metadata_pointer {
        Some(p) => p.location == *location && *location == a.address,
        None => false,
    };
    if !pointer_matches {
        return Err(TokenError::PointerMismatch);
    }
    let authority_ok = match &a.base {
        Some(b) => b.mint_authority == *signer,
        None => false,
    };
    if !authority_ok {
        return Err(TokenError::AuthorizationFailure);
    }
    if a.metadata.is_some() {
        return Err(TokenError::OrderingViolation);
    }
    let len: u128 = meta.name.as_str().unicode_len() as u128 + meta.symbol.as_str().unicode_len() as u128
        + meta.uri.as_str().unicode_len() as u128;
    if len > a.metadata_capacity as u128 {
        return Err(TokenError::CapacityFailure);
    }
    a.metadata = Some(meta);
    Ok(())
}

/// Issues the single unit to the destination holding account.
pub fn issue_supply(a: &mut MintAccount, signer: &AccountId, dest: &mut HoldingAccount) -> (r: Result<
    (),
    TokenError,
>)
    requires
        old(a).wf(),
    ensures
        final(a).wf(),
        (*final(a), *final(dest), r) == issue_supply_spec(*old(a), *signer, *old(dest)),
        r is Ok ==> final(a).supply == 1 && final(dest).amount == 1,
        r is Err ==> *final(a) == *old(a) && *final(dest) == *old(dest),
{
    if a.base.is_none() {
        return Err(TokenError::OrderingViolation);
    }
    let authority_ok = match &a.base {
        Some(b) => b.mint_authority == *signer,
        None => false,
    };
    if !authority_ok {
        return Err(TokenError::AuthorizationFailure);
    }
    if dest.mint != a.address {
        return Err(TokenError::AuthorizationFailure);
    }
    if a.supply != 0 {
        return Err(TokenError::DuplicateIssuance);
    }
    a.supply = 1;
    dest.amount = 1;
    Ok(())
}

/// Simulates a transfer of `amount` out of `source`, signed by `signer`.
pub fn attempt_transfer(
    mint: &MintAccount,
    source: &mut HoldingAccount,
    signer: &AccountId,
    amount: u64,
) -> (r: Result<(), TokenError>)
    requires
        mint.wf(),
    ensures
        (*final(source), r) == attempt_transfer_spec(*mint, *old(source), *signer, amount),
        mint.non_transferable && old(source).mint == mint.address ==> r == Err::<(), TokenError>(
            TokenError::TransferForbidden,
        ),
        r is Err ==> *final(source) == *old(source),
{
    if source.mint != mint.address {
        return Err(TokenError::AuthorizationFailure);
    }
    if mint.non_transferable {
        return Err(TokenError::TransferForbidden);
    }
    if *signer != source.owner {
        return Err(TokenError::AuthorizationFailure);
    }
    if amount > source.amount {
        return Err(TokenError::InsufficientBalance);
    }
    source.amount = source.amount - amount;
    Ok(())
}

} // verus!

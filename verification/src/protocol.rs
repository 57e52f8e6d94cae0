//! The issuance sequence: five ordered steps against one mint account, each
//! gated by the state the earlier steps produced, followed by the laws the
//! sequence obeys.

use vstd::prelude::*;

use crate::errors::TokenError;
use crate::keys::AccountId;
use crate::state::{
    attempt_transfer_spec, declare_non_transferable, declare_non_transferable_spec, finalize_mint,
    finalize_mint_spec, install_metadata_pointer, install_metadata_pointer_spec, issue_supply,
    issue_supply_spec, payload_len, write_metadata, write_metadata_spec, HoldingAccount,
    MetadataPointer, MintAccount, MintBase, TokenMetadata,
};

verus! {

/// The whole sequence as one function of the starting state: the result of
/// running steps one to five in order, stopping at the first failure.
pub open spec fn mint_nft_spec(
    a: MintAccount,
    dest: HoldingAccount,
    payer: AccountId,
    name: String,
    symbol: String,
    uri: String,
) -> (MintAccount, HoldingAccount, Result<(), TokenError>) {
    let (a1, r1) = declare_non_transferable_spec(a);
    if r1 is Err {
        (a1, dest, r1)
    } else {
        let (a2, r2) = install_metadata_pointer_spec(a1, payer, a1.address);
        if r2 is Err {
            (a2, dest, r2)
        } else {
            let (a3, r3) = finalize_mint_spec(a2, 0, payer, payer);
            if r3 is Err {
                (a3, dest, r3)
            } else {
                let meta = TokenMetadata { name, symbol, uri, update_authority: payer };
                let (a4, r4) = write_metadata_spec(a3, a3.address, payer, meta);
                if r4 is Err {
                    (a4, dest, r4)
                } else {
                    issue_supply_spec(a4, payer, dest)
                }
            }
        }
    }
}

/// The inputs on which the sequence is owed success: an untouched mint
/// account, a payload that fits its reserved space, and a destination
/// holding account of this mint.
pub open spec fn mint_nft_ok(
    a: MintAccount,
    dest: HoldingAccount,
    name: Seq<char>,
    symbol: Seq<char>,
    uri: Seq<char>,
) -> bool {
    &&& a.fresh()
    &&& payload_len(name, symbol, uri) <= a.metadata_capacity
    &&& dest.mint == a.address
}

/// Runs the five steps in order against the mint account: declare the
/// non-transferable restriction, install the metadata pointer naming the
/// payer as update authority and the account itself as metadata location,
/// finalize with zero decimals and the payer as mint and freeze authority,
/// write the metadata record, and issue the single unit to `dest`.
///
/// The first failing step's error is returned and the remaining steps are
/// not run. A failure never changes the supply or the destination balance;
/// discarding the partial extension state is the surrounding transaction's
/// rollback, outside this model.
pub fn mint_nft(
    a: &mut MintAccount,
    dest: &mut HoldingAccount,
    payer: &AccountId,
    name: String,
    symbol: String,
    uri: String,
) -> (r: Result<(), TokenError>)
    requires
        old(a).wf(),
    ensures
        final(a).wf(),
        (*final(a), *final(dest), r) == mint_nft_spec(
            *old(a),
            *old(dest),
            *payer,
            name,
            symbol,
            uri,
        ),
        r is Ok <==> mint_nft_ok(*old(a), *old(dest), name@, symbol@, uri@),
        r is Ok ==> final(a).supply == 1 && final(a).non_transferable && final(a).address == old(
            a,
        ).address && final(a).metadata_pointer == Some(
            MetadataPointer { authority: *payer, location: old(a).address },
        ) && final(a).base == Some(
            MintBase { decimals: 0, mint_authority: *payer, freeze_authority: *payer },
        ) && (final(a).metadata matches Some(m) && m.name@ == name@ && m.symbol@ == symbol@
            && m.uri@ == uri@ && m.update_authority == *payer) && final(dest).amount == 1,
        !old(a).fresh() ==> r == Err::<(), TokenError>(TokenError::OrderingViolation),
        old(a).fresh() && payload_len(name@, symbol@, uri@) > old(a).metadata_capacity ==> r
            == Err::<(), TokenError>(TokenError::CapacityFailure),
        old(a).fresh() && payload_len(name@, symbol@, uri@) <= old(a).metadata_capacity && old(
            dest,
        ).mint != old(a).address ==> r == Err::<(), TokenError>(TokenError::AuthorizationFailure),
        r is Err ==> final(a).supply == old(a).supply && *final(dest) == *old(dest),
{
    match declare_non_transferable(a) {
        Ok(()) => (),
        Err(e) => {
            return Err(e);
        },
    }
    let location = a.address;
    match install_metadata_pointer(a, payer, &location) {
        Ok(()) => (),
        Err(e) => {
            return Err(e);
        },
    }
    match finalize_mint(a, 0, payer, payer) {
        Ok(()) => (),
        Err(e) => {
            return Err(e);
        },
    }
    let meta = TokenMetadata { name, symbol, uri, update_authority: *payer };
    match write_metadata(a, &location, payer, meta) {
        Ok(()) => (),
        Err(e) => {
            return Err(e);
        },
    }
    issue_supply(a, payer, dest)
}

/// Law: on any valid input — untouched account, fitting payload, matching
/// destination — one invocation of the sequence succeeds and leaves a mint
/// with supply exactly one and the non-transferable restriction set.
pub proof fn lemma_single_issuance(
    a: MintAccount,
    dest: HoldingAccount,
    payer: AccountId,
    name: String,
    symbol: String,
    uri: String,
)
    requires
        a.wf(),
        mint_nft_ok(a, dest, name@, symbol@, uri@),
    ensures
        ({
            let (a1, d1, r) = mint_nft_spec(a, dest, payer, name, symbol, uri);
            r is Ok && a1.supply == 1 && a1.non_transferable && d1.amount == 1
        }),
{
}

/// Law: after the sequence has once succeeded on a mint account, invoking it
/// a second time — with any payer, payload or destination — fails with an
/// ordering violation and leaves the supply unchanged.
pub proof fn lemma_reissue_rejected(
    a: MintAccount,
    dest: HoldingAccount,
    payer: AccountId,
    name: String,
    symbol: String,
    uri: String,
    dest2: HoldingAccount,
    payer2: AccountId,
    name2: String,
    symbol2: String,
    uri2: String,
)
    requires
        a.wf(),
        mint_nft_ok(a, dest, name@, symbol@, uri@),
    ensures
        ({
            let (a1, d1, r1) = mint_nft_spec(a, dest, payer, name, symbol, uri);
            let (a2, d2, r2) = mint_nft_spec(a1, dest2, payer2, name2, symbol2, uri2);
            r1 is Ok && r2 == Err::<(), TokenError>(TokenError::OrderingViolation) && a2.supply
                == a1.supply && d2 == dest2
        }),
{
}

/// Law: running the finalization step before the two extension declarations
/// makes both declarations fail with an ordering violation; the reordered
/// sequence never silently succeeds with the extensions omitted.
pub proof fn lemma_order_sensitive(
    a: MintAccount,
    decimals: u8,
    mint_authority: AccountId,
    freeze_authority: AccountId,
    pointer_authority: AccountId,
    location: AccountId,
)
    requires
        a.wf(),
        a.fresh(),
    ensures
        ({
            let (a1, r1) = finalize_mint_spec(a, decimals, mint_authority, freeze_authority);
            let (a2, r2) = declare_non_transferable_spec(a1);
            let (a3, r3) = install_metadata_pointer_spec(a2, pointer_authority, location);
            r1 is Ok && r2 == Err::<(), TokenError>(TokenError::OrderingViolation) && r3 == Err::<
                (),
                TokenError,
            >(TokenError::OrderingViolation) && !a3.non_transferable && a3.metadata_pointer is None
        }),
{
}

/// Law: when the metadata pointer names a different account than the one
/// the metadata write targets, the write fails with a pointer mismatch and
/// the supply stays at zero.
pub proof fn lemma_pointer_mismatch(
    a: MintAccount,
    location: AccountId,
    signer: AccountId,
    meta: TokenMetadata,
)
    requires
        a.wf(),
        a.finalized(),
        a.supply == 0,
        a.metadata_pointer matches Some(p) && p.location != location,
    ensures
        ({
            let (a1, r) = write_metadata_spec(a, location, signer, meta);
            r == Err::<(), TokenError>(TokenError::PointerMismatch) && a1 == a && a1.supply == 0
        }),
{
}

/// Law: any simulated transfer out of a holding account of a mint that
/// carries the non-transferable restriction fails, regardless of the signer
/// and the amount, and moves nothing.
pub proof fn lemma_transfer_blocked(
    mint: MintAccount,
    source: HoldingAccount,
    signer: AccountId,
    amount: u64,
)
    requires
        mint.non_transferable,
        source.mint == mint.address,
    ensures
        ({
            let (s1, r) = attempt_transfer_spec(mint, source, signer, amount);
            r == Err::<(), TokenError>(TokenError::TransferForbidden) && s1 == source
        }),
{
}

/// Law: the unit the sequence issues is soulbound — after a successful run,
/// every simulated transfer out of the destination holding account fails.
pub proof fn lemma_issued_unit_soulbound(
    a: MintAccount,
    dest: HoldingAccount,
    payer: AccountId,
    name: String,
    symbol: String,
    uri: String,
)
    requires
        a.wf(),
        mint_nft_ok(a, dest, name@, symbol@, uri@),
    ensures
        ({
            let (a1, d1, r) = mint_nft_spec(a, dest, payer, name, symbol, uri);
            r is Ok && forall|signer: AccountId, amount: u64|
                attempt_transfer_spec(a1, d1, signer, amount).1 == Err::<(), TokenError>(
                    TokenError::TransferForbidden,
                )
        }),
{
}

} // verus!

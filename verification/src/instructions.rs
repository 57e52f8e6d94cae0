//! Building the real ledger instructions for the issuance sequence. Each
//! builder of the token program's client library is wrapped in a trusted
//! item whose contract states exactly when the build succeeds; the verified
//! composer below assembles the five instructions in protocol order.

use vstd::prelude::*;

use crate::errors::BuildError;
use crate::keys::AccountId;

verus! {

#[verifier::external_type_specification]
#[verifier::external_body]
pub struct ExInstruction(anchor_lang::solana_program::instruction::Instruction);

#[verifier::external_type_specification]
#[verifier::external_body]
pub struct ExProgramError(anchor_lang::solana_program::program_error::ProgramError);

#[verifier::external_type_specification]
#[verifier::external_body]
pub struct ExAddress(anchor_lang::solana_program::pubkey::Pubkey);

/// Whether the 32 bytes given as big-endian halves are the token-extension
/// program's own identifier — the comparison `check_program_account` of
/// spl_token_2022 performs.
pub uninterp spec fn is_token_2022_program(hi: u128, lo: u128) -> bool;

/// Whether the 32 bytes given as big-endian halves are the legacy token
/// program's identifier — the comparison `inline_spl_token::check_id` of
/// spl_token_2022 performs.
pub uninterp spec fn is_legacy_token_program(hi: u128, lo: u128) -> bool;

/// The instruction `initialize_non_transferable_mint` builds from a program
/// handle and a mint address, a function of those arguments alone.
pub uninterp spec fn declare_instruction_of(
    program_hi: u128,
    program_lo: u128,
    mint_hi: u128,
    mint_lo: u128,
) -> anchor_lang::solana_program::instruction::Instruction;

/// The instruction `metadata_pointer::instruction::initialize` builds from a
/// program handle, a mint, a present authority and a present metadata
/// address, a function of those arguments alone.
pub uninterp spec fn install_pointer_instruction_of(
    program_hi: u128,
    program_lo: u128,
    mint_hi: u128,
    mint_lo: u128,
    authority_hi: u128,
    authority_lo: u128,
    location_hi: u128,
    location_lo: u128,
) -> anchor_lang::solana_program::instruction::Instruction;

/// The instruction `initialize_mint2` builds from a program handle, a mint,
/// the two authorities and the decimals, a function of those arguments
/// alone.
pub uninterp spec fn finalize_instruction_of(
    program_hi: u128,
    program_lo: u128,
    mint_hi: u128,
    mint_lo: u128,
    mint_authority_hi: u128,
    mint_authority_lo: u128,
    freeze_authority_hi: u128,
    freeze_authority_lo: u128,
    decimals: u8,
) -> anchor_lang::solana_program::instruction::Instruction;

/// The instruction `spl_token_metadata_interface::instruction::initialize`
/// builds from a program handle, the metadata location, the update
/// authority, the mint, the mint authority and the three strings, a function
/// of those arguments alone.
pub uninterp spec fn write_metadata_instruction_of(
    program_hi: u128,
    program_lo: u128,
    location_hi: u128,
    location_lo: u128,
    update_authority_hi: u128,
    update_authority_lo: u128,
    mint_hi: u128,
    mint_lo: u128,
    mint_authority_hi: u128,
    mint_authority_lo: u128,
    name: Seq<char>,
    symbol: Seq<char>,
    uri: Seq<char>,
) -> anchor_lang::solana_program::instruction::Instruction;

/// The instruction `mint_to` builds from a program handle, a mint, a
/// destination, a single signing authority and an amount, a function of
/// those arguments alone.
pub uninterp spec fn issue_instruction_of(
    program_hi: u128,
    program_lo: u128,
    mint_hi: u128,
    mint_lo: u128,
    destination_hi: u128,
    destination_lo: u128,
    authority_hi: u128,
    authority_lo: u128,
    amount: u64,
) -> anchor_lang::solana_program::instruction::Instruction;

/// Short enough for the instruction encoding, which frames each string with
/// a 32-bit byte length: fewer than 2^30 characters occupy fewer than 2^32
/// bytes even at four bytes a character.
pub open spec fn encodable(s: Seq<char>) -> bool {
    s.len() < 0x4000_0000
}

/// Relies on Address::new_from_array: rebuilds the ledger's 32-byte address
/// from its big-endian halves.
#[verifier::external_body]
fn to_ledger_address(k: &AccountId) -> anchor_lang::solana_program::pubkey::Pubkey {
    let mut bytes = [0u8; 32];
    bytes[..16].copy_from_slice(&k.hi.to_be_bytes());
    bytes[16..].copy_from_slice(&k.lo.to_be_bytes());
    anchor_lang::solana_program::pubkey::Pubkey::new_from_array(bytes)
}

/// Relies on spl_token_2022::id: the address it returns is the one
/// `check_program_account` accepts.
#[verifier::external_body]
pub fn token_2022_program() -> (r: AccountId)
    ensures
        is_token_2022_program(r.hi, r.lo),
{
    let bytes = anchor_spl::token_2022::spl_token_2022::id().to_bytes();
    let mut half = [0u8; 16];
    half.copy_from_slice(&bytes[..16]);
    let hi = u128::from_be_bytes(half);
    half.copy_from_slice(&bytes[16..]);
    AccountId { hi, lo: u128::from_be_bytes(half) }
}

/// Relies on spl_token_2022::instruction::initialize_non_transferable_mint:
/// it builds the declaration instruction, failing exactly when the program
/// handle is not the token-extension program.
#[verifier::external_body]
fn build_declare_non_transferable(token_program: &AccountId, mint: &AccountId) -> (r: Result<
    anchor_lang::solana_program::instruction::Instruction,
    anchor_lang::solana_program::program_error::ProgramError,
>)
    ensures
        r is Ok <==> is_token_2022_program(token_program.hi, token_program.lo),
        r matches Ok(i) ==> i == declare_instruction_of(
            token_program.hi,
            token_program.lo,
            mint.hi,
            mint.lo,
        ),
{
    anchor_spl::token_2022::spl_token_2022::instruction::initialize_non_transferable_mint(
        &to_ledger_address(token_program),
        &to_ledger_address(mint),
    )
}

/// Relies on spl_token_2022's metadata_pointer::instruction::initialize,
/// called with both the authority and the metadata address present: it fails
/// exactly when the program handle is wrong or either address is the
/// all-zero address, which the pointer encoding reserves for "none".
#[verifier::external_body]
fn build_install_metadata_pointer(
    token_program: &AccountId,
    mint: &AccountId,
    authority: &AccountId,
    location: &AccountId,
) -> (r: Result<
    anchor_lang::solana_program::instruction::Instruction,
    anchor_lang::solana_program::program_error::ProgramError,
>)
    ensures
        r is Ok <==> (is_token_2022_program(token_program.hi, token_program.lo)
            && !authority.is_zero() && !location.is_zero()),
        r matches Ok(i) ==> i == install_pointer_instruction_of(
            token_program.hi,
            token_program.lo,
            mint.hi,
            mint.lo,
            authority.hi,
            authority.lo,
            location.hi,
            location.lo,
        ),
{
    anchor_spl::token_2022::spl_token_2022::extension::metadata_pointer::instruction::initialize(
        &to_ledger_address(token_program),
        &to_ledger_address(mint),
        Some(to_ledger_address(authority)),
        Some(to_ledger_address(location)),
    )
}

/// Relies on spl_token_2022::instruction::initialize_mint2: it builds the
/// finalization instruction, failing exactly when the program handle is
/// neither the token-extension program nor the legacy token program.
#[verifier::external_body]
fn build_finalize_mint(
    token_program: &AccountId,
    mint: &AccountId,
    mint_authority: &AccountId,
    freeze_authority: &AccountId,
    decimals: u8,
) -> (r: Result<
    anchor_lang::solana_program::instruction::Instruction,
    anchor_lang::solana_program::program_error::ProgramError,
>)
    ensures
        r is Ok <==> (is_token_2022_program(token_program.hi, token_program.lo)
            || is_legacy_token_program(token_program.hi, token_program.lo)),
        r matches Ok(i) ==> i == finalize_instruction_of(
            token_program.hi,
            token_program.lo,
            mint.hi,
            mint.lo,
            mint_authority.hi,
            mint_authority.lo,
            freeze_authority.hi,
            freeze_authority.lo,
            decimals,
        ),
{
    anchor_spl::token_2022::spl_token_2022::instruction::initialize_mint2(
        &to_ledger_address(token_program),
        &to_ledger_address(mint),
        &to_ledger_address(mint_authority),
        Some(&to_ledger_address(freeze_authority)),
        decimals,
    )
}

/// Relies on spl_token_metadata_interface::instruction::initialize: it
/// encodes the metadata write for every string its length framing can take;
/// past that the encoder gives up, so such strings are kept out.
#[verifier::external_body]
fn build_write_metadata(
    token_program: &AccountId,
    metadata: &AccountId,
    update_authority: &AccountId,
    mint: &AccountId,
    mint_authority: &AccountId,
    name: String,
    symbol: String,
    uri: String,
) -> (r: anchor_lang::solana_program::instruction::Instruction)
    requires
        encodable(name@),
        encodable(symbol@),
        encodable(uri@),
    ensures
        r == write_metadata_instruction_of(
            token_program.hi,
            token_program.lo,
            metadata.hi,
            metadata.lo,
            update_authority.hi,
            update_authority.lo,
            mint.hi,
            mint.lo,
            mint_authority.hi,
            mint_authority.lo,
            name@,
            symbol@,
            uri@,
        ),
{
    spl_token_metadata_interface::instruction::initialize(
        &to_ledger_address(token_program),
        &to_ledger_address(metadata),
        &to_ledger_address(update_authority),
        &to_ledger_address(mint),
        &to_ledger_address(mint_authority),
        name,
        symbol,
        uri,
    )
}

/// Relies on spl_token_2022::instruction::mint_to, called with no multisig
/// signers: it builds the issuance instruction, failing exactly when the
/// program handle is neither the token-extension program nor the legacy
/// token program.
#[verifier::external_body]
fn build_issue_supply(
    token_program: &AccountId,
    mint: &AccountId,
    destination: &AccountId,
    authority: &AccountId,
    amount: u64,
) -> (r: Result<
    anchor_lang::solana_program::instruction::Instruction,
    anchor_lang::solana_program::program_error::ProgramError,
>)
    ensures
        r is Ok <==> (is_token_2022_program(token_program.hi, token_program.lo)
            || is_legacy_token_program(token_program.hi, token_program.lo)),
        r matches Ok(i) ==> i == issue_instruction_of(
            token_program.hi,
            token_program.lo,
            mint.hi,
            mint.lo,
            destination.hi,
            destination.lo,
            authority.hi,
            authority.lo,
            amount,
        ),
{
    anchor_spl::token_2022::spl_token_2022::instruction::mint_to(
        &to_ledger_address(token_program),
        &to_ledger_address(mint),
        &to_ledger_address(destination),
        &to_ledger_address(authority),
        &[],
        amount,
    )
}

/// Builds, in protocol order, the five instructions the issuance sequence
/// submits to the ledger: declare the non-transferable restriction, install
/// the metadata pointer naming the payer and the mint itself, finalize with
/// zero decimals and the payer as both authorities, write the metadata
/// record, and issue the single unit to the destination.
pub fn mint_nft_instructions(
    token_program: &AccountId,
    mint: &AccountId,
    payer: &AccountId,
    destination: &AccountId,
    name: String,
    symbol: String,
    uri: String,
) -> (r: Result<Vec<anchor_lang::solana_program::instruction::Instruction>, BuildError>)
    requires
        encodable(name@),
        encodable(symbol@),
        encodable(uri@),
    ensures
        r is Ok <==> is_token_2022_program(token_program.hi, token_program.lo)
            && !payer.is_zero() && !mint.is_zero(),
        r matches Ok(v) ==> v@.len() == 5 && v@[0] == declare_instruction_of(
            token_program.hi,
            token_program.lo,
            mint.hi,
            mint.lo,
        ) && v@[1] == install_pointer_instruction_of(
            token_program.hi,
            token_program.lo,
            mint.hi,
            mint.lo,
            payer.hi,
            payer.lo,
            mint.hi,
            mint.lo,
        ) && v@[2] == finalize_instruction_of(
            token_program.hi,
            token_program.lo,
            mint.hi,
            mint.lo,
            payer.hi,
            payer.lo,
            payer.hi,
            payer.lo,
            0,
        ) && v@[3] == write_metadata_instruction_of(
            token_program.hi,
            token_program.lo,
            mint.hi,
            mint.lo,
            payer.hi,
            payer.lo,
            mint.hi,
            mint.lo,
            payer.hi,
            payer.lo,
            name@,
            symbol@,
            uri@,
        ) && v@[4] == issue_instruction_of(
            token_program.hi,
            token_program.lo,
            mint.hi,
            mint.lo,
            destination.hi,
            destination.lo,
            payer.hi,
            payer.lo,
            1,
        ),
        !is_token_2022_program(token_program.hi, token_program.lo) ==> r == Err::<
            Vec<anchor_lang::solana_program::instruction::Instruction>,
            BuildError,
        >(BuildError::UnsupportedTokenProgram),
        is_token_2022_program(token_program.hi, token_program.lo) && (payer.is_zero()
            || mint.is_zero()) ==> r == Err::<
            Vec<anchor_lang::solana_program::instruction::Instruction>,
            BuildError,
        >(BuildError::ZeroAddress),
{
    let declare = match build_declare_non_transferable(token_program, mint) {
        Ok(i) => i,
        Err(_) => {
            return Err(BuildError::UnsupportedTokenProgram);
        },
    };
    let install = match build_install_metadata_pointer(token_program, mint, payer, mint) {
        Ok(i) => i,
        Err(_) => {
            return Err(BuildError::ZeroAddress);
        },
    };
    let finalize = match build_finalize_mint(token_program, mint, payer, payer, 0) {
        Ok(i) => i,
        Err(_) => {
            return Err(BuildError::UnsupportedTokenProgram);
        },
    };
    let write = build_write_metadata(token_program, mint, payer, mint, payer, name, symbol, uri);
    let issue = match build_issue_supply(token_program, mint, destination, payer, 1) {
        Ok(i) => i,
        Err(_) => {
            return Err(BuildError::UnsupportedTokenProgram);
        },
    };
    let mut sequence: Vec<anchor_lang::solana_program::instruction::Instruction> = Vec::new();
    sequence.push(declare);
    sequence.push(install);
    sequence.push(finalize);
    sequence.push(write);
    sequence.push(issue);
    Ok(sequence)
}

} // verus!

use crate::address::{associated_token_address, associated_token_address_spec, create_program_address, derived_address, escrow_signer_seeds, escrow_signer_seeds_spec};
use crate::error::ConstraintError;
use crate::state::{Address, Escrow, Mint, TokenAccount};
use vstd::prelude::*;

verus! {

/// The checks of `associated_token::mint = mint, associated_token::authority = wallet,
/// associated_token::token_program = token_program` on an existing account, in the order
/// the program makes them.
pub open spec fn associated_token_check(
    account: TokenAccount,
    wallet: Seq<u8>,
    mint: Seq<u8>,
    token_program: Seq<u8>,
) -> Result<(), ConstraintError> {
    if account.program@ != token_program {
        Err(ConstraintError::ConstraintAssociatedTokenTokenProgram)
    } else if account.owner@ != wallet {
        Err(ConstraintError::ConstraintTokenOwner)
    } else if associated_token_address_spec(wallet, mint, token_program) != Some(account.key@) {
        Err(ConstraintError::ConstraintAssociated)
    } else {
        Ok(())
    }
}

/// The checks of the same constraints on an account marked `init_if_needed` that already
/// exists, in the order the program makes them.
pub open spec fn associated_token_if_needed_check(
    account: TokenAccount,
    wallet: Seq<u8>,
    mint: Seq<u8>,
    token_program: Seq<u8>,
) -> Result<(), ConstraintError> {
    if account.mint@ != mint {
        Err(ConstraintError::ConstraintTokenMint)
    } else if account.owner@ != wallet {
        Err(ConstraintError::ConstraintTokenOwner)
    } else if account.program@ != token_program {
        Err(ConstraintError::ConstraintAssociatedTokenTokenProgram)
    } else if associated_token_address_spec(wallet, mint, token_program) != Some(account.key@) {
        Err(ConstraintError::AccountNotAssociatedTokenAccount)
    } else {
        Ok(())
    }
}

/// The check of `mint::token_program = token_program`.
pub open spec fn mint_check(mint: Mint, token_program: Seq<u8>) -> Result<(), ConstraintError> {
    if mint.program@ != token_program {
        Err(ConstraintError::ConstraintMintTokenProgram)
    } else {
        Ok(())
    }
}

/// The check of `seeds = [ESCROW_SEED, maker, escrow.id], bump = escrow.bump` on the escrow
/// account `escrow_key` holding `escrow`.
pub open spec fn escrow_seeds_check(
    maker: Seq<u8>,
    escrow_key: Seq<u8>,
    escrow: Escrow,
    program_id: Seq<u8>,
) -> Result<(), ConstraintError> {
    if derived_address(escrow_signer_seeds_spec(maker, escrow.id, escrow.bump), program_id) != Some(escrow_key) {
        Err(ConstraintError::ConstraintSeeds)
    } else {
        Ok(())
    }
}

/// The check of `has_one`: the key stored in the escrow is the key of the account passed.
pub open spec fn has_one_check(stored: Seq<u8>, given: Seq<u8>) -> Result<(), ConstraintError> {
    if stored != given {
        Err(ConstraintError::ConstraintHasOne)
    } else {
        Ok(())
    }
}

pub fn check_associated_token(
    account: &TokenAccount,
    wallet: &Address,
    mint: &Address,
    token_program: &Address,
) -> (r: Result<(), ConstraintError>)
    ensures
        r == associated_token_check(*account, wallet@, mint@, token_program@),
{
    if !account.program.same(token_program) {
        return Err(ConstraintError::ConstraintAssociatedTokenTokenProgram);
    }
    if !account.owner.same(wallet) {
        return Err(ConstraintError::ConstraintTokenOwner);
    }
    match associated_token_address(wallet, mint, token_program) {
        Some(a) => {
            if a.same(&account.key) {
                Ok(())
            } else {
                Err(ConstraintError::ConstraintAssociated)
            }
        },
        None => Err(ConstraintError::ConstraintAssociated),
    }
}

pub fn check_associated_token_if_needed(
    account: &TokenAccount,
    wallet: &Address,
    mint: &Address,
    token_program: &Address,
) -> (r: Result<(), ConstraintError>)
    ensures
        r == associated_token_if_needed_check(*account, wallet@, mint@, token_program@),
{
    if !account.mint.same(mint) {
        return Err(ConstraintError::ConstraintTokenMint);
    }
    if !account.owner.same(wallet) {
        return Err(ConstraintError::ConstraintTokenOwner);
    }
    if !account.program.same(token_program) {
        return Err(ConstraintError::ConstraintAssociatedTokenTokenProgram);
    }
    match associated_token_address(wallet, mint, token_program) {
        Some(a) => {
            if a.same(&account.key) {
                Ok(())
            } else {
                Err(ConstraintError::AccountNotAssociatedTokenAccount)
            }
        },
        None => Err(ConstraintError::AccountNotAssociatedTokenAccount),
    }
}

pub fn check_mint(mint: &Mint, token_program: &Address) -> (r: Result<(), ConstraintError>)
    ensures
        r == mint_check(*mint, token_program@),
{
    if mint.program.same(token_program) {
        Ok(())
    } else {
        Err(ConstraintError::ConstraintMintTokenProgram)
    }
}

pub fn check_escrow_seeds(
    maker: &Address,
    escrow_key: &Address,
    escrow: &Escrow,
    program_id: &Address,
) -> (r: Result<(), ConstraintError>)
    ensures
        r == escrow_seeds_check(maker@, escrow_key@, *escrow, program_id@),
{
    let seeds = escrow_signer_seeds(maker, escrow.id, escrow.bump);
    match create_program_address(&seeds, program_id) {
        Some(a) => {
            if a.same(escrow_key) {
                Ok(())
            } else {
                Err(ConstraintError::ConstraintSeeds)
            }
        },
        None => Err(ConstraintError::ConstraintSeeds),
    }
}

pub fn check_has_one(stored: &Address, given: &Address) -> (r: Result<(), ConstraintError>)
    ensures
        r == has_one_check(stored@, given@),
{
    if stored.same(given) {
        Ok(())
    } else {
        Err(ConstraintError::ConstraintHasOne)
    }
}

} // verus!

verus! {

/// The first refusal of two checks made one after the other.
pub open spec fn chain(first: Result<(), ConstraintError>, then: Result<(), ConstraintError>) -> Result<(), ConstraintError> {
    if first is Err {
        first
    } else {
        then
    }
}

} // verus!

use crate::address::{escrow_signer_seeds, escrow_signer_seeds_spec};
use crate::clock::clock_unix_timestamp;
use crate::error::{ConstraintError, EscrowError, ProgramFailure};
use crate::instructions::checks::{
    associated_token_check, chain, check_associated_token, check_escrow_seeds, check_has_one,
    check_mint, escrow_seeds_check, has_one_check, mint_check,
};
use crate::instructions::take::close_vault_instruction;
use crate::state::{Address, Escrow, Mint, TokenAccount};
use crate::token::{call_is, TokenCall, TokenInstruction};
use vstd::prelude::*;

verus! {

/// The accounts of `refund`, as the program reads them.
///
/// - `maker` signs;
/// - `mint_a` is the mint of the deposit, of `token_program`;
/// - `maker_ata_a` is the maker's associated token account for `mint_a`, which gets the
///   deposit back;
/// - `escrow_key` is the escrow account, holding `escrow` (`None` where it holds no
///   escrow: never made, or closed by a settled swap or a refund);
/// - `vault` is the escrow's associated token account for `mint_a`, holding the deposit.
#[derive(Clone, Copy, Debug, PartialEq, Eq)]
pub struct Refund {
    pub maker: Address,
    pub mint_a: Mint,
    pub maker_ata_a: TokenAccount,
    pub escrow_key: Address,
    pub escrow: Option<Escrow>,
    pub vault: TokenAccount,
    pub token_program: Address,
}

/// The checks of the accounts of `refund`, in the order the program makes them: the
/// escrow account must hold an escrow, then the constraints declared on the accounts.
pub open spec fn refund_constraints(a: Refund, program_id: Seq<u8>) -> Result<(), ConstraintError> {
    let tp = a.token_program@;
    let e = a.escrow->0;
    if a.escrow is None {
        Err(ConstraintError::AccountNotInitialized)
    } else {
    chain(mint_check(a.mint_a, tp),
    chain(associated_token_check(a.maker_ata_a, a.maker@, a.mint_a.key@, tp),
    chain(escrow_seeds_check(a.maker@, a.escrow_key@, e, program_id),
    chain(has_one_check(e.maker@, a.maker@),
    chain(has_one_check(e.mint_a@, a.mint_a.key@),
    associated_token_check(a.vault, a.escrow_key@, a.mint_a.key@, tp))))))
    }
}

/// The accounts once the deposit is returned: the escrow account is closed.
pub open spec fn refunded(a: Refund) -> Refund {
    Refund { escrow: None, ..a }
}

/// Why refunding an offer expiring at `expiration` is refused at unix time `now`, if it
/// is: the deposit comes back from the expiration on only.
pub open spec fn refund_check(expiration: i64, now: i64) -> Result<(), EscrowError> {
    if now >= expiration {
        Ok(())
    } else {
        Err(EscrowError::OfferIsActive)
    }
}

/// The return of the deposit: everything the vault holds, to the maker's account for
/// mint A, approved by the escrow.
pub open spec fn return_instruction(a: Refund) -> TokenInstruction {
    TokenInstruction::TransferChecked {
        from: a.vault.key,
        mint: a.mint_a.key,
        to: a.maker_ata_a.key,
        authority: a.escrow_key,
        amount: a.vault.amount,
        decimals: a.mint_a.decimals,
    }
}

/// The token calls of a refund, in order: the return of the deposit and the closing of
/// the vault, both signed for the escrow.
pub open spec fn refund_calls(a: Refund, calls: Seq<TokenCall>) -> bool {
    let seeds = escrow_signer_seeds_spec(a.maker@, a.escrow->0.id, a.escrow->0.bump);
    &&& calls.len() == 2
    &&& call_is(calls[0], a.token_program, return_instruction(a), seeds)
    &&& call_is(calls[1], a.token_program, close_vault_instruction(a.vault.key, a.maker, a.escrow_key), seeds)
}

impl Refund {
    /// Checks the constraints declared on the accounts of `refund`.
    pub fn validate(&self, program_id: &Address) -> (r: Result<(), ConstraintError>)
        ensures
            r == refund_constraints(*self, program_id@),
    {
        let tp = &self.token_program;
        let escrow = match &self.escrow {
            Some(e) => e,
            None => {
                return Err(ConstraintError::AccountNotInitialized);
            },
        };
        check_mint(&self.mint_a, tp)?;
        check_associated_token(&self.maker_ata_a, &self.maker, &self.mint_a.key, tp)?;
        check_escrow_seeds(&self.maker, &self.escrow_key, escrow, program_id)?;
        check_has_one(&escrow.maker, &self.maker)?;
        check_has_one(&escrow.mint_a, &self.mint_a.key)?;
        check_associated_token(&self.vault, &self.escrow_key, &self.mint_a.key, tp)
    }

    /// Gives the deposit back at unix time `now`: the vault's whole balance goes to the
    /// maker, the vault is closed and so is the escrow account. Refused, with nothing
    /// changed, while the offer is open.
    pub fn refund_and_close_vault_at(&mut self, now: i64) -> (r: Result<Vec<TokenCall>, EscrowError>)
        requires
            old(self).escrow is Some,
        ensures
            r is Err ==> r == Err::<Vec<TokenCall>, EscrowError>(refund_check(old(self).escrow->0.expiration, now)->Err_0),
            r is Ok <==> refund_check(old(self).escrow->0.expiration, now) is Ok,
            r matches Ok(calls) ==> refund_calls(*old(self), calls@),
            r is Ok ==> *final(self) == refunded(*old(self)),
            r is Err ==> *final(self) == *old(self),
    {
        let escrow = self.escrow.unwrap();
        if !(now >= escrow.expiration) {
            return Err(EscrowError::OfferIsActive);
        }
        let mut calls: Vec<TokenCall> = Vec::new();
        calls.push(TokenCall {
            token_program: self.token_program,
            instruction: TokenInstruction::TransferChecked {
                from: self.vault.key,
                mint: self.mint_a.key,
                to: self.maker_ata_a.key,
                authority: self.escrow_key,
                amount: self.vault.amount,
                decimals: self.mint_a.decimals,
            },
            signer_seeds: escrow_signer_seeds(&self.maker, escrow.id, escrow.bump),
        });
        calls.push(TokenCall {
            token_program: self.token_program,
            instruction: TokenInstruction::CloseAccount {
                account: self.vault.key,
                destination: self.maker,
                authority: self.escrow_key,
            },
            signer_seeds: escrow_signer_seeds(&self.maker, escrow.id, escrow.bump),
        });
        self.escrow = None;
        Ok(calls)
    }

    /// Gives the deposit back at the cluster's current time. Whatever time the clock
    /// gives, a refund makes exactly the calls `refund_calls` describes and closes the
    /// escrow account, and the offer had then expired; a refusal is the offer still open
    /// or the clock failing, and changes nothing. The clock is read once and its time
    /// handed to `refund_and_close_vault_at`; which time it gave is left unsaid, as nothing
    /// determines the clock's reading.
    pub fn refund_and_close_vault(&mut self) -> (r: Result<Vec<TokenCall>, ProgramFailure>)
        requires
            old(self).escrow is Some,
        ensures
            r matches Ok(calls) ==> refund_calls(*old(self), calls@),
            r is Ok ==> exists|now: i64| refund_check(old(self).escrow->0.expiration, now) is Ok,
            r is Ok ==> *final(self) == refunded(*old(self)),
            r matches Err(ProgramFailure::Escrow(e)) ==> e == EscrowError::OfferIsActive
                && exists|now: i64| refund_check(old(self).escrow->0.expiration, now) == Err::<(), EscrowError>(e),
            r matches Err(ProgramFailure::Constraint(_)) ==> false,
            r is Err ==> *final(self) == *old(self),
    {
        let now = match clock_unix_timestamp() {
            Ok(t) => t,
            Err(_) => {
                return Err(ProgramFailure::ClockUnavailable);
            },
        };
        match self.refund_and_close_vault_at(now) {
            Ok(calls) => Ok(calls),
            Err(e) => Err(ProgramFailure::Escrow(e)),
        }
    }
}

} // verus!

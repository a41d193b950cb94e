use crate::address::{escrow_signer_seeds, escrow_signer_seeds_spec, seeds_view};
use crate::clock::clock_unix_timestamp;
use crate::error::{ConstraintError, EscrowError, ProgramFailure};
use crate::instructions::checks::{
    associated_token_check, associated_token_if_needed_check, chain, check_associated_token,
    check_associated_token_if_needed, check_escrow_seeds, check_has_one, check_mint,
    escrow_seeds_check, has_one_check, mint_check,
};
use crate::state::{Address, Escrow, Mint, TokenAccount};
use crate::token::{call_is, TokenCall, TokenInstruction};
use vstd::prelude::*;

verus! {

/// The accounts of `take`, as the program reads them.
///
/// - `taker` signs and pays; `maker` is the maker of the offer;
/// - `mint_a`, `mint_b` are the mints of the deposit and of the payment, both of
///   `token_program`;
/// - `taker_ata_a` is the taker's associated token account for `mint_a` and `maker_ata_b`
///   the maker's for `mint_b`, both created by the instruction where they do not exist;
/// - `taker_ata_b` is the taker's associated token account for `mint_b`, which pays;
/// - `escrow_key` is the escrow account, holding `escrow` (`None` where it holds no
///   escrow: never made, or closed by a settled swap or a refund);
/// - `vault` is the escrow's associated token account for `mint_a`, holding the deposit.
#[derive(Clone, Copy, Debug, PartialEq, Eq)]
pub struct Take {
    pub taker: Address,
    pub maker: Address,
    pub mint_a: Mint,
    pub mint_b: Mint,
    pub taker_ata_a: TokenAccount,
    pub taker_ata_b: TokenAccount,
    pub maker_ata_b: TokenAccount,
    pub escrow_key: Address,
    pub escrow: Option<Escrow>,
    pub vault: TokenAccount,
    pub token_program: Address,
}

/// The checks of the accounts of `take`, in the order the program makes them: the escrow
/// account must hold an escrow; then the constraints, first on the two accounts it creates
/// if needed, then on the mints, the taker's paying account, the escrow (its address, then
/// its maker and its two mints) and the vault.
pub open spec fn take_constraints(a: Take, program_id: Seq<u8>) -> Result<(), ConstraintError> {
    let tp = a.token_program@;
    let e = a.escrow->0;
    if a.escrow is None {
        Err(ConstraintError::AccountNotInitialized)
    } else {
    chain(associated_token_if_needed_check(a.taker_ata_a, a.taker@, a.mint_a.key@, tp),
    chain(associated_token_if_needed_check(a.maker_ata_b, a.maker@, a.mint_b.key@, tp),
    chain(mint_check(a.mint_a, tp),
    chain(mint_check(a.mint_b, tp),
    chain(associated_token_check(a.taker_ata_b, a.taker@, a.mint_b.key@, tp),
    chain(escrow_seeds_check(a.maker@, a.escrow_key@, e, program_id),
    chain(has_one_check(e.maker@, a.maker@),
    chain(has_one_check(e.mint_a@, a.mint_a.key@),
    chain(has_one_check(e.mint_b@, a.mint_b.key@),
    associated_token_check(a.vault, a.escrow_key@, a.mint_a.key@, tp))))))))))
    }
}

/// The accounts once the swap is settled: the escrow account is closed.
pub open spec fn settled(a: Take) -> Take {
    Take { escrow: None, ..a }
}

/// Why taking an offer expiring at `expiration` is refused at unix time `now`, if it is:
/// the offer can be taken strictly before its expiration only.
pub open spec fn take_check(expiration: i64, now: i64) -> Result<(), EscrowError> {
    if now < expiration {
        Ok(())
    } else {
        Err(EscrowError::OfferExpired)
    }
}

/// The payment: the amount of mint B the escrow asks, from the taker's account to the
/// maker's, approved by the taker.
pub open spec fn payment_instruction(a: Take) -> TokenInstruction {
    TokenInstruction::TransferChecked {
        from: a.taker_ata_b.key,
        mint: a.mint_b.key,
        to: a.maker_ata_b.key,
        authority: a.taker,
        amount: a.escrow->0.token_b_wanted_amount,
        decimals: a.mint_b.decimals,
    }
}

/// The release: everything the vault holds, to the taker's account for mint A, approved
/// by the escrow.
pub open spec fn release_instruction(a: Take) -> TokenInstruction {
    TokenInstruction::TransferChecked {
        from: a.vault.key,
        mint: a.mint_a.key,
        to: a.taker_ata_a.key,
        authority: a.escrow_key,
        amount: a.vault.amount,
        decimals: a.mint_a.decimals,
    }
}

/// The closing of the emptied vault, its lamports to the maker, approved by the escrow.
pub open spec fn close_vault_instruction(vault: Address, maker: Address, escrow_key: Address) -> TokenInstruction {
    TokenInstruction::CloseAccount { account: vault, destination: maker, authority: escrow_key }
}

/// The token calls of a settled swap, in order: the payment, the release and the
/// closing of the vault, the last two signed for the escrow.
pub open spec fn take_calls(a: Take, calls: Seq<TokenCall>) -> bool {
    let seeds = escrow_signer_seeds_spec(a.maker@, a.escrow->0.id, a.escrow->0.bump);
    &&& calls.len() == 3
    &&& call_is(calls[0], a.token_program, payment_instruction(a), Seq::empty())
    &&& call_is(calls[1], a.token_program, release_instruction(a), seeds)
    &&& call_is(calls[2], a.token_program, close_vault_instruction(a.vault.key, a.maker, a.escrow_key), seeds)
}

impl Take {
    /// Checks the constraints declared on the accounts of `take`.
    pub fn validate(&self, program_id: &Address) -> (r: Result<(), ConstraintError>)
        ensures
            r == take_constraints(*self, program_id@),
    {
        let tp = &self.token_program;
        let escrow = match &self.escrow {
            Some(e) => e,
            None => {
                return Err(ConstraintError::AccountNotInitialized);
            },
        };
        check_associated_token_if_needed(&self.taker_ata_a, &self.taker, &self.mint_a.key, tp)?;
        check_associated_token_if_needed(&self.maker_ata_b, &self.maker, &self.mint_b.key, tp)?;
        check_mint(&self.mint_a, tp)?;
        check_mint(&self.mint_b, tp)?;
        check_associated_token(&self.taker_ata_b, &self.taker, &self.mint_b.key, tp)?;
        check_escrow_seeds(&self.maker, &self.escrow_key, escrow, program_id)?;
        check_has_one(&escrow.maker, &self.maker)?;
        check_has_one(&escrow.mint_a, &self.mint_a.key)?;
        check_has_one(&escrow.mint_b, &self.mint_b.key)?;
        check_associated_token(&self.vault, &self.escrow_key, &self.mint_a.key, tp)
    }

    /// Settles the swap at unix time `now`: the taker pays the maker the amount of mint B
    /// asked, the vault's whole balance goes to the taker, the vault is closed and so is
    /// the escrow account. Refused, with nothing changed, once the offer has expired.
    pub fn swap_and_close_vault_at(&mut self, now: i64) -> (r: Result<Vec<TokenCall>, EscrowError>)
        requires
            old(self).escrow is Some,
        ensures
            r is Err ==> r == Err::<Vec<TokenCall>, EscrowError>(take_check(old(self).escrow->0.expiration, now)->Err_0),
            r is Ok <==> take_check(old(self).escrow->0.expiration, now) is Ok,
            r matches Ok(calls) ==> take_calls(*old(self), calls@),
            r is Ok ==> *final(self) == settled(*old(self)),
            r is Err ==> *final(self) == *old(self),
    {
        let escrow = self.escrow.unwrap();
        if !(now < escrow.expiration) {
            return Err(EscrowError::OfferExpired);
        }
        let mut calls: Vec<TokenCall> = Vec::new();
        calls.push(TokenCall {
            token_program: self.token_program,
            instruction: TokenInstruction::TransferChecked {
                from: self.taker_ata_b.key,
                mint: self.mint_b.key,
                to: self.maker_ata_b.key,
                authority: self.taker,
                amount: escrow.token_b_wanted_amount,
                decimals: self.mint_b.decimals,
            },
            signer_seeds: Vec::new(),
        });
        calls.push(TokenCall {
            token_program: self.token_program,
            instruction: TokenInstruction::TransferChecked {
                from: self.vault.key,
                mint: self.mint_a.key,
                to: self.taker_ata_a.key,
                authority: self.escrow_key,
                amount: self.vault.amount,
                decimals: self.mint_a.decimals,
            },
            signer_seeds: escrow_signer_seeds(&self.maker, escrow.id, escrow.bump),
        });
        calls.push(TokenCall {
            token_program: self.token_program,
            instruction: TokenInstruction::CloseAccount {
                account: self.vault.key,
                destination: self.maker,
                authority: self.escrow_key,
            },
            signer_seeds: escrow_signer_seeds(&self.maker, escrow.id, escrow.bump),
        });
        assert(seeds_view(calls@[0].signer_seeds) =~= Seq::<Seq<u8>>::empty());
        self.escrow = None;
        Ok(calls)
    }

    /// Settles the swap at the cluster's current time. Whatever time the clock gives, a
    /// settled swap makes exactly the calls `take_calls` describes and closes the escrow
    /// account, and the offer was then still open; a refusal is the expired offer or the
    /// clock failing, and changes nothing. The clock is read once and its time handed to
    /// `swap_and_close_vault_at`; which time it gave is left unsaid, as nothing determines
    /// the clock's reading.
    pub fn swap_and_close_vault(&mut self) -> (r: Result<Vec<TokenCall>, ProgramFailure>)
        requires
            old(self).escrow is Some,
        ensures
            r matches Ok(calls) ==> take_calls(*old(self), calls@),
            r is Ok ==> exists|now: i64| take_check(old(self).escrow->0.expiration, now) is Ok,
            r is Ok ==> *final(self) == settled(*old(self)),
            r matches Err(ProgramFailure::Escrow(e)) ==> e == EscrowError::OfferExpired
                && exists|now: i64| take_check(old(self).escrow->0.expiration, now) == Err::<(), EscrowError>(e),
            r matches Err(ProgramFailure::Constraint(_)) ==> false,
            r is Err ==> *final(self) == *old(self),
    {
        let now = match clock_unix_timestamp() {
            Ok(t) => t,
            Err(_) => {
                return Err(ProgramFailure::ClockUnavailable);
            },
        };
        match self.swap_and_close_vault_at(now) {
            Ok(calls) => Ok(calls),
            Err(e) => Err(ProgramFailure::Escrow(e)),
        }
    }
}

} // verus!

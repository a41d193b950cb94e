use crate::address::{associated_token_address, associated_token_address_spec, canonical_address, derived_address, escrow_seeds, escrow_seeds_spec, escrow_signer_seeds_spec, find_program_address, lemma_found_bump_derives, seeds_view};
use crate::clock::clock_unix_timestamp;
use crate::constants::MAX_ESCROW_DURATION;
use crate::error::{ConstraintError, EscrowError, ProgramFailure};
use crate::instructions::checks::{associated_token_check, check_associated_token, check_mint, mint_check};
use crate::state::{Address, Escrow, Mint, TokenAccount};
use crate::token::{call_is, TokenCall, TokenInstruction};
use vstd::prelude::*;

verus! {

/// The accounts of `make`, as the program reads them.
///
/// - `maker` signs and pays;
/// - `escrow_key` is the escrow account, created by the instruction at the address derived
///   from `[ESCROW_SEED, maker, id]`, and `escrow` its data, `None` while the account does
///   not exist;
/// - `mint_a`, `mint_b` are the mints of the deposit and of the payment asked, both of
///   `token_program`;
/// - `maker_ata_a` is the maker's associated token account for `mint_a`;
/// - `vault` is the escrow's associated token account for `mint_a`, created by the
///   instruction, which receives the deposit; `vault_in_use` says whether an account
///   already exists there.
#[derive(Clone, Copy, Debug, PartialEq, Eq)]
pub struct Make {
    pub maker: Address,
    pub escrow_key: Address,
    pub escrow: Option<Escrow>,
    pub mint_a: Mint,
    pub mint_b: Mint,
    pub maker_ata_a: TokenAccount,
    pub vault: Address,
    pub vault_in_use: bool,
    pub token_program: Address,
}

/// The bump seeds found while checking the accounts of `make`.
#[derive(Clone, Copy, Debug, PartialEq, Eq)]
pub struct MakeBumps {
    pub escrow: u8,
}

/// The checks of the accounts of `make` for the offer `id`, in the order the program makes
/// them: first the two accounts it creates, the escrow (its address must be the one found
/// from its seeds, whose bump is kept, and no account may exist there yet) and the vault
/// (it must be the escrow's associated token account for mint A, not yet existing); then
/// the mints and the maker's token account.
pub open spec fn make_constraints(accounts: Make, program_id: Seq<u8>, id: u64) -> Result<MakeBumps, ConstraintError> {
    match canonical_address(escrow_seeds_spec(accounts.maker@, id), program_id) {
        None => Err(ConstraintError::ConstraintSeeds),
        Some((pda, bump)) => {
            if pda != accounts.escrow_key@ {
                Err(ConstraintError::ConstraintSeeds)
            } else if accounts.escrow is Some {
                Err(ConstraintError::AccountAlreadyInUse)
            } else if associated_token_address_spec(accounts.escrow_key@, accounts.mint_a.key@, accounts.token_program@)
                != Some(accounts.vault@) {
                Err(ConstraintError::InvalidAssociatedAddress)
            } else if accounts.vault_in_use {
                Err(ConstraintError::AccountAlreadyInUse)
            } else if mint_check(accounts.mint_a, accounts.token_program@) is Err {
                Err(mint_check(accounts.mint_a, accounts.token_program@)->Err_0)
            } else if mint_check(accounts.mint_b, accounts.token_program@) is Err {
                Err(mint_check(accounts.mint_b, accounts.token_program@)->Err_0)
            } else if associated_token_check(accounts.maker_ata_a, accounts.maker@, accounts.mint_a.key@, accounts.token_program@) is Err {
                Err(associated_token_check(accounts.maker_ata_a, accounts.maker@, accounts.mint_a.key@, accounts.token_program@)->Err_0)
            } else {
                Ok(MakeBumps { escrow: bump })
            }
        },
    }
}

/// Why `make` at unix time `now` refuses an offer asking `token_b_wanted_amount` and
/// expiring at `expiration`, if it does: the amount asked must be positive, and the
/// expiration after `now` and at most `MAX_ESCROW_DURATION` after it (and a time so late
/// that this bound would not fit in an `i64` refuses every expiration as too far).
pub open spec fn make_check(now: i64, token_b_wanted_amount: u64, expiration: i64) -> Result<(), EscrowError> {
    if token_b_wanted_amount == 0 {
        Err(EscrowError::InvalidAmount)
    } else if !(now < expiration) {
        Err(EscrowError::ExpirationInThePast)
    } else if now + MAX_ESCROW_DURATION > i64::MAX || expiration > now + MAX_ESCROW_DURATION {
        Err(EscrowError::ExpirationTooFar)
    } else {
        Ok(())
    }
}

/// The escrow that `make` records for the offer `id`.
pub open spec fn made_escrow(
    accounts: Make,
    id: u64,
    token_b_wanted_amount: u64,
    bump: u8,
    expiration: i64,
) -> Escrow {
    Escrow {
        id,
        maker: accounts.maker,
        mint_a: accounts.mint_a.key,
        mint_b: accounts.mint_b.key,
        token_b_wanted_amount,
        bump,
        expiration,
    }
}

/// The accounts with `escrow` as the escrow account's data.
pub open spec fn with_escrow(accounts: Make, escrow: Escrow) -> Make {
    Make { escrow: Some(escrow), ..accounts }
}

/// The deposit transfer: `deposit` tokens of mint A from the maker's account to the vault,
/// approved by the maker.
pub open spec fn deposit_instruction(accounts: Make, deposit: u64) -> TokenInstruction {
    TokenInstruction::TransferChecked {
        from: accounts.maker_ata_a.key,
        mint: accounts.mint_a.key,
        to: accounts.vault,
        authority: accounts.maker,
        amount: deposit,
        decimals: accounts.mint_a.decimals,
    }
}

impl Make {
    /// Checks the constraints declared on the accounts of `make` for the offer `id`,
    /// and gives the bump of the escrow account's address.
    pub fn validate(&self, program_id: &Address, id: u64) -> (r: Result<MakeBumps, ConstraintError>)
        ensures
            r == make_constraints(*self, program_id@, id),
            r matches Ok(bumps) ==> derived_address(
                escrow_signer_seeds_spec(self.maker@, id, bumps.escrow),
                program_id@,
            ) == Some(self.escrow_key@),
    {
        let seeds = escrow_seeds(&self.maker, id);
        let found = find_program_address(&seeds, program_id);
        proof {
            assert(seeds_view(seeds) == escrow_seeds_spec(self.maker@, id));
        }
        match found {
            None => Err(ConstraintError::ConstraintSeeds),
            Some((pda, bump)) => {
                if !pda.same(&self.escrow_key) {
                    return Err(ConstraintError::ConstraintSeeds);
                }
                proof {
                    lemma_found_bump_derives(seeds_view(seeds), program_id@, 255);
                    assert(seeds_view(seeds).push(seq![bump]) == escrow_signer_seeds_spec(self.maker@, id, bump));
                }
                if self.escrow.is_some() {
                    return Err(ConstraintError::AccountAlreadyInUse);
                }
                match associated_token_address(&self.escrow_key, &self.mint_a.key, &self.token_program) {
                    Some(a) => {
                        if !a.same(&self.vault) {
                            return Err(ConstraintError::InvalidAssociatedAddress);
                        }
                    },
                    None => {
                        return Err(ConstraintError::InvalidAssociatedAddress);
                    },
                }
                if self.vault_in_use {
                    return Err(ConstraintError::AccountAlreadyInUse);
                }
                check_mint(&self.mint_a, &self.token_program)?;
                check_mint(&self.mint_b, &self.token_program)?;
                check_associated_token(&self.maker_ata_a, &self.maker, &self.mint_a.key, &self.token_program)?;
                Ok(MakeBumps { escrow: bump })
            },
        }
    }

    /// Records the offer `id` in the escrow account at unix time `now`: the maker, the two
    /// mints, the amount of mint B asked, the bump of the escrow's address and the
    /// expiration. Refused, with nothing changed, as `make_check` says.
    pub fn populate_escrow_at(
        &mut self,
        now: i64,
        id: u64,
        token_b_wanted_amount: u64,
        bumps: &MakeBumps,
        expiration: i64,
    ) -> (r: Result<(), EscrowError>)
        ensures
            r == make_check(now, token_b_wanted_amount, expiration),
            r is Ok ==> *final(self) == with_escrow(
                *old(self),
                made_escrow(*old(self), id, token_b_wanted_amount, bumps.escrow, expiration),
            ),
            r is Err ==> *final(self) == *old(self),
    {
        if token_b_wanted_amount == 0 {
            return Err(EscrowError::InvalidAmount);
        }
        if !(now < expiration) {
            return Err(EscrowError::ExpirationInThePast);
        }
        let max_expiration = match now.checked_add(MAX_ESCROW_DURATION) {
            Some(m) => m,
            None => {
                return Err(EscrowError::ExpirationTooFar);
            },
        };
        if !(expiration <= max_expiration) {
            return Err(EscrowError::ExpirationTooFar);
        }
        self.escrow = Some(Escrow {
            id,
            maker: self.maker,
            mint_a: self.mint_a.key,
            mint_b: self.mint_b.key,
            token_b_wanted_amount,
            bump: bumps.escrow,
            expiration,
        });
        Ok(())
    }

    /// Records the offer `id` in the escrow account at the cluster's current time. An
    /// amount of zero is refused before the clock is read; whatever time the clock gives,
    /// a recorded offer is the one `made_escrow` describes, with an expiration after that
    /// time and at most `MAX_ESCROW_DURATION` after it, and a refusal changes nothing.
    /// The clock is read once and its time handed to `populate_escrow_at`; which time it
    /// gave is left unsaid, as nothing determines the clock's reading.
    pub fn populate_escrow(
        &mut self,
        id: u64,
        token_b_wanted_amount: u64,
        bumps: &MakeBumps,
        expiration: i64,
    ) -> (r: Result<(), ProgramFailure>)
        ensures
            token_b_wanted_amount == 0 <==> r == Err::<(), ProgramFailure>(ProgramFailure::Escrow(EscrowError::InvalidAmount)),
            r is Ok ==> exists|now: i64| make_check(now, token_b_wanted_amount, expiration) is Ok,
            r matches Err(ProgramFailure::Escrow(e)) ==> exists|now: i64| make_check(now, token_b_wanted_amount, expiration) == Err::<(), EscrowError>(e),
            r == Err::<(), ProgramFailure>(ProgramFailure::ClockUnavailable) ==> token_b_wanted_amount > 0,
            r is Ok ==> *final(self) == with_escrow(
                *old(self),
                made_escrow(*old(self), id, token_b_wanted_amount, bumps.escrow, expiration),
            ),
            r matches Err(ProgramFailure::Constraint(_)) ==> false,
            r is Err ==> *final(self) == *old(self),
    {
        if token_b_wanted_amount == 0 {
            assert(make_check(0, token_b_wanted_amount, expiration) == Err::<(), EscrowError>(EscrowError::InvalidAmount));
            return Err(ProgramFailure::Escrow(EscrowError::InvalidAmount));
        }
        let now = match clock_unix_timestamp() {
            Ok(t) => t,
            Err(_) => {
                return Err(ProgramFailure::ClockUnavailable);
            },
        };
        match self.populate_escrow_at(now, id, token_b_wanted_amount, bumps, expiration) {
            Ok(()) => Ok(()),
            Err(e) => Err(ProgramFailure::Escrow(e)),
        }
    }

    /// The transfer of the deposit into the vault: `deposit` tokens of mint A from the
    /// maker's account, approved by the maker. A deposit of zero is refused.
    pub fn deposit(&self, deposit: u64) -> (r: Result<TokenCall, EscrowError>)
        ensures
            deposit == 0 ==> r == Err::<TokenCall, EscrowError>(EscrowError::InvalidAmount),
            deposit > 0 ==> r is Ok,
            r matches Ok(call) ==> call_is(
                call,
                self.token_program,
                deposit_instruction(*self, deposit),
                Seq::empty(),
            ),
    {
        if !(deposit > 0) {
            return Err(EscrowError::InvalidAmount);
        }
        let call = TokenCall {
            token_program: self.token_program,
            instruction: TokenInstruction::TransferChecked {
                from: self.maker_ata_a.key,
                mint: self.mint_a.key,
                to: self.vault,
                authority: self.maker,
                amount: deposit,
                decimals: self.mint_a.decimals,
            },
            signer_seeds: Vec::new(),
        };
        assert(seeds_view(call.signer_seeds) =~= Seq::<Seq<u8>>::empty());
        Ok(call)
    }
}

} // verus!

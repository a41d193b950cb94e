//! An escrow of SPL tokens: a maker locks an amount of mint A in a vault and asks for an
//! amount of mint B in return; a taker settles the swap before the offer expires, or the
//! maker takes the deposit back once it has.
//!
//! The library decides. Each instruction checks the accounts it is handed against the
//! constraints the program declares, reads the cluster clock, and either refuses with an
//! error, changing nothing, or returns the escrow state to store and the token program
//! calls to make.

pub mod constants;
pub mod error;
pub mod state;
pub mod address;
pub mod clock;
pub mod token;
pub mod instructions;
pub mod laws;

use crate::error::{ConstraintError, EscrowError, ProgramFailure};
use crate::instructions::make::{deposit_instruction, MakeBumps, made_escrow, make_constraints, make_check, with_escrow, Make};
use crate::instructions::refund::{refund_calls, refund_check, refund_constraints, refunded, Refund};
use crate::instructions::take::{settled, take_calls, take_check, take_constraints, Take};
use crate::instructions::update::{is_update_error, update_check, update_constraints, with_expiration, Update};
use crate::state::Address;
use crate::token::{call_is, TokenCall};
use vstd::prelude::*;

verus! {

/// The `make` instruction of the program `program_id` at unix time `now`: checks the
/// accounts, records the offer `id` (asking `token_b_wanted_amount` of mint B, expiring at
/// `expiration`) and gives the transfer of `deposit` tokens of mint A into the vault.
///
/// The outcome is exactly this: a refusal by the account constraints first, as
/// `make_constraints` gives it; then a refusal of the offer, as `make_check` gives it;
/// then the refusal of a deposit of zero. Otherwise the offer is recorded as `made_escrow`
/// says, with the bump found for the escrow account, and the deposit transfer is the only
/// call. A refusal changes nothing.
pub fn make_at(
    accounts: &mut Make,
    program_id: &Address,
    now: i64,
    id: u64,
    deposit: u64,
    token_b_wanted_amount: u64,
    expiration: i64,
) -> (r: Result<Vec<TokenCall>, ProgramFailure>)
    ensures
        make_constraints(*old(accounts), program_id@, id) matches Err(e)
            ==> r == Err::<Vec<TokenCall>, ProgramFailure>(ProgramFailure::Constraint(e)),
        make_constraints(*old(accounts), program_id@, id) is Ok && make_check(now, token_b_wanted_amount, expiration) is Err
            ==> r == Err::<Vec<TokenCall>, ProgramFailure>(ProgramFailure::Escrow(make_check(now, token_b_wanted_amount, expiration)->Err_0)),
        make_constraints(*old(accounts), program_id@, id) is Ok && make_check(now, token_b_wanted_amount, expiration) is Ok && deposit == 0
            ==> r == Err::<Vec<TokenCall>, ProgramFailure>(ProgramFailure::Escrow(EscrowError::InvalidAmount)),
        make_constraints(*old(accounts), program_id@, id) is Ok && make_check(now, token_b_wanted_amount, expiration) is Ok && deposit > 0
            ==> r is Ok && made(*old(accounts), *final(accounts), r->Ok_0@, make_constraints(*old(accounts), program_id@, id)->Ok_0, id, deposit, token_b_wanted_amount, expiration),
        r is Err ==> *final(accounts) == *old(accounts),
{
    let bumps = match accounts.validate(program_id, id) {
        Ok(b) => b,
        Err(e) => {
            return Err(ProgramFailure::Constraint(e));
        },
    };
    let saved = accounts.escrow;
    match accounts.populate_escrow_at(now, id, token_b_wanted_amount, &bumps, expiration) {
        Ok(()) => {},
        Err(e) => {
            return Err(ProgramFailure::Escrow(e));
        },
    }
    let r = deposit_calls(accounts, deposit);
    if r.is_err() {
        // The whole instruction fails: the offer is not recorded.
        accounts.escrow = saved;
    }
    r
}

/// `after` is `before` with the offer recorded, and `calls` the deposit transfer alone.
pub open spec fn made(
    before: Make,
    after: Make,
    calls: Seq<TokenCall>,
    bumps: MakeBumps,
    id: u64,
    deposit: u64,
    token_b_wanted_amount: u64,
    expiration: i64,
) -> bool {
    &&& after == with_escrow(before, made_escrow(before, id, token_b_wanted_amount, bumps.escrow, expiration))
    &&& calls.len() == 1
    &&& call_is(calls[0], before.token_program, deposit_instruction(before, deposit), Seq::empty())
}

/// The deposit step of `make`: the deposit transfer as the only call, or the refusal of
/// a deposit of zero.
fn deposit_calls(accounts: &Make, deposit: u64) -> (r: Result<Vec<TokenCall>, ProgramFailure>)
    ensures
        deposit == 0 ==> r == Err::<Vec<TokenCall>, ProgramFailure>(ProgramFailure::Escrow(EscrowError::InvalidAmount)),
        deposit > 0 ==> r is Ok,
        r matches Ok(calls) ==> calls@.len() == 1
            && call_is(calls@[0], accounts.token_program, deposit_instruction(*accounts, deposit), Seq::empty()),
{
    match accounts.deposit(deposit) {
        Ok(call) => {
            let mut calls: Vec<TokenCall> = Vec::new();
            calls.push(call);
            Ok(calls)
        },
        Err(e) => Err(ProgramFailure::Escrow(e)),
    }
}

/// The `make` instruction of the program `program_id`, at the cluster's current time:
/// checks the accounts, records the offer `id` (asking `token_b_wanted_amount` of mint B,
/// expiring at `expiration`) and gives the transfer of `deposit` tokens of mint A into the
/// vault.
///
/// A refusal by the accounts comes first and is exactly the one `make_constraints` gives,
/// and no other refusal names the accounts. Past them, an amount of zero asked is refused
/// first, and a deposit of zero is refused too; any other refusal is one `make_check`
/// gives at some time, or the clock failing. Whatever time the clock gives, an accepted
/// offer is recorded as `made_escrow` says, with the bump found for the escrow account,
/// and the deposit transfer is the only call. A refusal changes nothing. The clock is read
/// once, by `Make::populate_escrow`; which time it gave is left unsaid, as nothing
/// determines the clock's reading, and `make_at` states the outcome for each time.
pub fn make(
    accounts: &mut Make,
    program_id: &Address,
    id: u64,
    deposit: u64,
    token_b_wanted_amount: u64,
    expiration: i64,
) -> (r: Result<Vec<TokenCall>, ProgramFailure>)
    ensures
        make_constraints(*old(accounts), program_id@, id) matches Err(e)
            ==> r == Err::<Vec<TokenCall>, ProgramFailure>(ProgramFailure::Constraint(e)),
        r matches Err(ProgramFailure::Constraint(e))
            ==> make_constraints(*old(accounts), program_id@, id) == Err::<MakeBumps, ConstraintError>(e),
        make_constraints(*old(accounts), program_id@, id) is Ok && token_b_wanted_amount == 0
            ==> r == Err::<Vec<TokenCall>, ProgramFailure>(ProgramFailure::Escrow(EscrowError::InvalidAmount)),
        deposit == 0 ==> r is Err,
        r == Err::<Vec<TokenCall>, ProgramFailure>(ProgramFailure::Escrow(EscrowError::InvalidAmount))
            ==> make_constraints(*old(accounts), program_id@, id) is Ok && (token_b_wanted_amount == 0 || deposit == 0),
        r matches Err(ProgramFailure::Escrow(e)) ==> e == EscrowError::InvalidAmount
            || exists|now: i64| make_check(now, token_b_wanted_amount, expiration) == Err::<(), EscrowError>(e),
        r == Err::<Vec<TokenCall>, ProgramFailure>(ProgramFailure::ClockUnavailable)
            ==> make_constraints(*old(accounts), program_id@, id) is Ok && token_b_wanted_amount > 0,
        r matches Ok(calls) ==> {
            &&& make_constraints(*old(accounts), program_id@, id) matches Ok(bumps)
            &&& made(*old(accounts), *final(accounts), calls@, bumps, id, deposit, token_b_wanted_amount, expiration)
            &&& exists|now: i64| make_check(now, token_b_wanted_amount, expiration) is Ok
        },
        r is Err ==> *final(accounts) == *old(accounts),
{
    let bumps = match accounts.validate(program_id, id) {
        Ok(b) => b,
        Err(e) => {
            return Err(ProgramFailure::Constraint(e));
        },
    };
    let saved = accounts.escrow;
    match accounts.populate_escrow(id, token_b_wanted_amount, &bumps, expiration) {
        Ok(()) => {},
        Err(e) => {
            return Err(e);
        },
    }
    let r = deposit_calls(accounts, deposit);
    if r.is_err() {
        // The whole instruction fails: the offer is not recorded.
        accounts.escrow = saved;
    }
    r
}

/// The `take` instruction of the program `program_id` at unix time `now`: checks the
/// accounts and, if the offer is still open, gives the calls that settle the swap and
/// closes the escrow account.
///
/// The outcome is exactly this: a refusal by the accounts first, as `take_constraints`
/// gives it; then the refusal of an expired offer; otherwise exactly the calls
/// `take_calls` describes, with the escrow account closed. A refusal changes nothing.
pub fn take_at(accounts: &mut Take, program_id: &Address, now: i64) -> (r: Result<Vec<TokenCall>, ProgramFailure>)
    ensures
        take_constraints(*old(accounts), program_id@) matches Err(e)
            ==> r == Err::<Vec<TokenCall>, ProgramFailure>(ProgramFailure::Constraint(e)),
        take_constraints(*old(accounts), program_id@) is Ok && take_check(old(accounts).escrow->0.expiration, now) is Err
            ==> r == Err::<Vec<TokenCall>, ProgramFailure>(ProgramFailure::Escrow(take_check(old(accounts).escrow->0.expiration, now)->Err_0)),
        take_constraints(*old(accounts), program_id@) is Ok && take_check(old(accounts).escrow->0.expiration, now) is Ok
            ==> r is Ok && take_calls(*old(accounts), r->Ok_0@) && *final(accounts) == settled(*old(accounts)),
        r is Err ==> *final(accounts) == *old(accounts),
{
    match accounts.validate(program_id) {
        Ok(()) => {},
        Err(e) => {
            return Err(ProgramFailure::Constraint(e));
        },
    }
    match accounts.swap_and_close_vault_at(now) {
        Ok(calls) => Ok(calls),
        Err(e) => Err(ProgramFailure::Escrow(e)),
    }
}

/// The `take` instruction of the program `program_id`, at the cluster's current time:
/// checks the accounts and, if the offer is still open, gives the calls that settle the
/// swap and closes the escrow account.
///
/// A refusal by the accounts comes first and is exactly the one `take_constraints` gives,
/// and no other refusal names the accounts; past them, the only refusals are an expired
/// offer and the clock failing. A settled swap makes exactly the calls `take_calls`
/// describes and closes the escrow account. A refusal changes nothing.
pub fn take(accounts: &mut Take, program_id: &Address) -> (r: Result<Vec<TokenCall>, ProgramFailure>)
    ensures
        take_constraints(*old(accounts), program_id@) matches Err(e)
            ==> r == Err::<Vec<TokenCall>, ProgramFailure>(ProgramFailure::Constraint(e)),
        r matches Err(ProgramFailure::Constraint(e))
            ==> take_constraints(*old(accounts), program_id@) == Err::<(), ConstraintError>(e),
        r matches Err(ProgramFailure::Escrow(e)) ==> {
            &&& e == EscrowError::OfferExpired
            &&& take_constraints(*old(accounts), program_id@) is Ok
            &&& exists|now: i64| take_check(old(accounts).escrow->0.expiration, now) == Err::<(), EscrowError>(e)
        },
        r == Err::<Vec<TokenCall>, ProgramFailure>(ProgramFailure::ClockUnavailable)
            ==> take_constraints(*old(accounts), program_id@) is Ok,
        r matches Ok(calls) ==> {
            &&& take_constraints(*old(accounts), program_id@) is Ok
            &&& exists|now: i64| take_check(old(accounts).escrow->0.expiration, now) is Ok
            &&& take_calls(*old(accounts), calls@)
            &&& *final(accounts) == settled(*old(accounts))
        },
        r is Err ==> *final(accounts) == *old(accounts),
{
    match accounts.validate(program_id) {
        Ok(()) => {},
        Err(e) => {
            return Err(ProgramFailure::Constraint(e));
        },
    }
    accounts.swap_and_close_vault()
}

/// The `refund` instruction of the program `program_id` at unix time `now`: checks the
/// accounts and, once the offer has expired, gives the calls that return the deposit to
/// the maker and closes the escrow account.
///
/// The outcome is exactly this: a refusal by the accounts first, as `refund_constraints`
/// gives it; then the refusal of an offer still open; otherwise exactly the calls
/// `refund_calls` describes, with the escrow account closed. A refusal changes nothing.
pub fn refund_at(accounts: &mut Refund, program_id: &Address, now: i64) -> (r: Result<Vec<TokenCall>, ProgramFailure>)
    ensures
        refund_constraints(*old(accounts), program_id@) matches Err(e)
            ==> r == Err::<Vec<TokenCall>, ProgramFailure>(ProgramFailure::Constraint(e)),
        refund_constraints(*old(accounts), program_id@) is Ok && refund_check(old(accounts).escrow->0.expiration, now) is Err
            ==> r == Err::<Vec<TokenCall>, ProgramFailure>(ProgramFailure::Escrow(refund_check(old(accounts).escrow->0.expiration, now)->Err_0)),
        refund_constraints(*old(accounts), program_id@) is Ok && refund_check(old(accounts).escrow->0.expiration, now) is Ok
            ==> r is Ok && refund_calls(*old(accounts), r->Ok_0@) && *final(accounts) == refunded(*old(accounts)),
        r is Err ==> *final(accounts) == *old(accounts),
{
    match accounts.validate(program_id) {
        Ok(()) => {},
        Err(e) => {
            return Err(ProgramFailure::Constraint(e));
        },
    }
    match accounts.refund_and_close_vault_at(now) {
        Ok(calls) => Ok(calls),
        Err(e) => Err(ProgramFailure::Escrow(e)),
    }
}

/// The `refund` instruction of the program `program_id`, at the cluster's current time:
/// checks the accounts and, once the offer has expired, gives the calls that return the
/// deposit to the maker and closes the escrow account.
///
/// A refusal by the accounts comes first and is exactly the one `refund_constraints`
/// gives, and no other refusal names the accounts; past them, the only refusals are an
/// offer still open and the clock failing. A refund makes exactly the calls
/// `refund_calls` describes and closes the escrow account. A refusal changes nothing.
pub fn refund(accounts: &mut Refund, program_id: &Address) -> (r: Result<Vec<TokenCall>, ProgramFailure>)
    ensures
        refund_constraints(*old(accounts), program_id@) matches Err(e)
            ==> r == Err::<Vec<TokenCall>, ProgramFailure>(ProgramFailure::Constraint(e)),
        r matches Err(ProgramFailure::Constraint(e))
            ==> refund_constraints(*old(accounts), program_id@) == Err::<(), ConstraintError>(e),
        r matches Err(ProgramFailure::Escrow(e)) ==> {
            &&& e == EscrowError::OfferIsActive
            &&& refund_constraints(*old(accounts), program_id@) is Ok
            &&& exists|now: i64| refund_check(old(accounts).escrow->0.expiration, now) == Err::<(), EscrowError>(e)
        },
        r == Err::<Vec<TokenCall>, ProgramFailure>(ProgramFailure::ClockUnavailable)
            ==> refund_constraints(*old(accounts), program_id@) is Ok,
        r matches Ok(calls) ==> {
            &&& refund_constraints(*old(accounts), program_id@) is Ok
            &&& exists|now: i64| refund_check(old(accounts).escrow->0.expiration, now) is Ok
            &&& refund_calls(*old(accounts), calls@)
            &&& *final(accounts) == refunded(*old(accounts))
        },
        r is Err ==> *final(accounts) == *old(accounts),
{
    match accounts.validate(program_id) {
        Ok(()) => {},
        Err(e) => {
            return Err(ProgramFailure::Constraint(e));
        },
    }
    accounts.refund_and_close_vault()
}

/// The `update` instruction of the program `program_id` at unix time `now`: checks the
/// accounts and moves the offer's expiration to `expiration`.
///
/// The outcome is exactly this: a refusal by the accounts first, as `update_constraints`
/// gives it; then a refusal as `update_check` gives it; otherwise the expiration, and only
/// it, is changed. A refusal changes nothing.
pub fn update_at(accounts: &mut Update, program_id: &Address, now: i64, expiration: i64) -> (r: Result<(), ProgramFailure>)
    ensures
        update_constraints(*old(accounts), program_id@) matches Err(e)
            ==> r == Err::<(), ProgramFailure>(ProgramFailure::Constraint(e)),
        update_constraints(*old(accounts), program_id@) is Ok && update_check(old(accounts).escrow->0.expiration, now, expiration) is Err
            ==> r == Err::<(), ProgramFailure>(ProgramFailure::Escrow(update_check(old(accounts).escrow->0.expiration, now, expiration)->Err_0)),
        update_constraints(*old(accounts), program_id@) is Ok && update_check(old(accounts).escrow->0.expiration, now, expiration) is Ok
            ==> r is Ok && *final(accounts) == with_expiration(*old(accounts), expiration),
        r is Err ==> *final(accounts) == *old(accounts),
{
    match accounts.validate(program_id) {
        Ok(()) => {},
        Err(e) => {
            return Err(ProgramFailure::Constraint(e));
        },
    }
    match accounts.update_escrow_at(now, expiration) {
        Ok(()) => Ok(()),
        Err(e) => Err(ProgramFailure::Escrow(e)),
    }
}

/// The `update` instruction of the program `program_id`, at the cluster's current time:
/// checks the accounts and moves the offer's expiration to `expiration`.
///
/// A refusal by the accounts comes first and is exactly the one `update_constraints`
/// gives, and no other refusal names the accounts; past them, an expiration that is not
/// later than the current one is refused, any refusal is one `update_check` gives at some
/// time or the clock failing, an accepted expiration changes the expiration only, and a
/// refusal changes nothing.
pub fn update(accounts: &mut Update, program_id: &Address, expiration: i64) -> (r: Result<(), ProgramFailure>)
    ensures
        update_constraints(*old(accounts), program_id@) matches Err(e)
            ==> r == Err::<(), ProgramFailure>(ProgramFailure::Constraint(e)),
        r matches Err(ProgramFailure::Constraint(e))
            ==> update_constraints(*old(accounts), program_id@) == Err::<(), ConstraintError>(e),
        old(accounts).escrow is Some && expiration <= old(accounts).escrow->0.expiration ==> r is Err,
        r matches Err(ProgramFailure::Escrow(e)) ==> {
            &&& is_update_error(e)
            &&& update_constraints(*old(accounts), program_id@) is Ok
            &&& exists|now: i64| update_check(old(accounts).escrow->0.expiration, now, expiration) == Err::<(), EscrowError>(e)
        },
        r == Err::<(), ProgramFailure>(ProgramFailure::ClockUnavailable)
            ==> update_constraints(*old(accounts), program_id@) is Ok,
        r is Ok ==> {
            &&& update_constraints(*old(accounts), program_id@) is Ok
            &&& exists|now: i64| update_check(old(accounts).escrow->0.expiration, now, expiration) is Ok
            &&& *final(accounts) == with_expiration(*old(accounts), expiration)
        },
        r is Err ==> *final(accounts) == *old(accounts),
{
    match accounts.validate(program_id) {
        Ok(()) => {},
        Err(e) => {
            return Err(ProgramFailure::Constraint(e));
        },
    }
    accounts.update_escrow(expiration)
}

} // verus!

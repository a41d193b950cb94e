use crate::clock::clock_unix_timestamp;
use crate::constants::MAX_ESCROW_DURATION;
use crate::error::{ConstraintError, EscrowError, ProgramFailure};
use crate::instructions::checks::{check_escrow_seeds, check_has_one, escrow_seeds_check, has_one_check};
use crate::state::{Address, Escrow};
use vstd::prelude::*;

verus! {

/// The accounts of `update`: the maker, who signs, and the escrow account `escrow_key`
/// holding `escrow` (`None` where the account holds no escrow), whose address derives from
/// `[ESCROW_SEED, maker, escrow.id]` and the stored bump, and which records `maker` as its
/// maker.
#[derive(Clone, Copy, Debug, PartialEq, Eq)]
pub struct Update {
    pub maker: Address,
    pub escrow_key: Address,
    pub escrow: Option<Escrow>,
}

/// The checks of the accounts of `update`, in order: the escrow account must hold an
/// escrow, then the constraints declared on it.
pub open spec fn update_constraints(accounts: Update, program_id: Seq<u8>) -> Result<(), ConstraintError> {
    match accounts.escrow {
        None => Err(ConstraintError::AccountNotInitialized),
        Some(e) => {
            if escrow_seeds_check(accounts.maker@, accounts.escrow_key@, e, program_id) is Err {
                escrow_seeds_check(accounts.maker@, accounts.escrow_key@, e, program_id)
            } else {
                has_one_check(e.maker@, accounts.maker@)
            }
        },
    }
}

/// Why moving at unix time `now` the expiration of an offer expiring at `expiration` to
/// `new_expiration` is refused, if it is: the offer must still be open, the new expiration
/// after `now`, later than the current one, and at most `MAX_ESCROW_DURATION` after `now`
/// (and a time so late that this bound would not fit in an `i64` refuses every new
/// expiration as too far).
pub open spec fn update_check(expiration: i64, now: i64, new_expiration: i64) -> Result<(), EscrowError> {
    if !(now < expiration) {
        Err(EscrowError::OfferExpired)
    } else if !(now < new_expiration) {
        Err(EscrowError::ExpirationInThePast)
    } else if !(expiration < new_expiration) {
        Err(EscrowError::ExpirationNotExtended)
    } else if now + MAX_ESCROW_DURATION > i64::MAX || new_expiration > now + MAX_ESCROW_DURATION {
        Err(EscrowError::ExpirationTooFar)
    } else {
        Ok(())
    }
}

/// The accounts with the escrow's expiration set to `expiration`.
pub open spec fn with_expiration(accounts: Update, expiration: i64) -> Update {
    Update { escrow: Some(Escrow { expiration, ..accounts.escrow->0 }), ..accounts }
}

/// The refusals `update_check` can give.
pub open spec fn is_update_error(e: EscrowError) -> bool {
    ||| e == EscrowError::OfferExpired
    ||| e == EscrowError::ExpirationInThePast
    ||| e == EscrowError::ExpirationNotExtended
    ||| e == EscrowError::ExpirationTooFar
}

impl Update {
    /// Checks the constraints declared on the accounts of `update`.
    pub fn validate(&self, program_id: &Address) -> (r: Result<(), ConstraintError>)
        ensures
            r == update_constraints(*self, program_id@),
    {
        let escrow = match &self.escrow {
            Some(e) => e,
            None => {
                return Err(ConstraintError::AccountNotInitialized);
            },
        };
        check_escrow_seeds(&self.maker, &self.escrow_key, escrow, program_id)?;
        check_has_one(&escrow.maker, &self.maker)
    }

    /// Moves the offer's expiration to `new_expiration` at unix time `now`. Refused, with
    /// nothing changed, as `update_check` says; otherwise only the expiration changes.
    pub fn update_escrow_at(&mut self, now: i64, new_expiration: i64) -> (r: Result<(), EscrowError>)
        requires
            old(self).escrow is Some,
        ensures
            r == update_check(old(self).escrow->0.expiration, now, new_expiration),
            r is Ok ==> *final(self) == with_expiration(*old(self), new_expiration),
            r is Err ==> *final(self) == *old(self),
    {
        let current = self.escrow.unwrap();
        if !(now < current.expiration) {
            return Err(EscrowError::OfferExpired);
        }
        if !(now < new_expiration) {
            return Err(EscrowError::ExpirationInThePast);
        }
        if !(current.expiration < new_expiration) {
            return Err(EscrowError::ExpirationNotExtended);
        }
        let max_expiration = match now.checked_add(MAX_ESCROW_DURATION) {
            Some(m) => m,
            None => {
                return Err(EscrowError::ExpirationTooFar);
            },
        };
        if !(new_expiration <= max_expiration) {
            return Err(EscrowError::ExpirationTooFar);
        }
        self.escrow = Some(Escrow { expiration: new_expiration, ..current });
        Ok(())
    }

    /// Moves the offer's expiration to `new_expiration` at the cluster's current time.
    /// Whatever time the clock gives, a new expiration that is not later than the current
    /// one is refused, an accepted one is later than the current one, and only the
    /// expiration changes; a refusal is one `update_check` gives at some time, or the
    /// clock failing, and changes nothing. The clock is read once and its time handed to
    /// `update_escrow_at`; which time it gave is left unsaid, as nothing determines the
    /// clock's reading.
    pub fn update_escrow(&mut self, new_expiration: i64) -> (r: Result<(), ProgramFailure>)
        requires
            old(self).escrow is Some,
        ensures
            new_expiration <= old(self).escrow->0.expiration ==> r is Err,
            r is Ok ==> exists|now: i64| update_check(old(self).escrow->0.expiration, now, new_expiration) is Ok,
            r matches Err(ProgramFailure::Escrow(e)) ==> is_update_error(e)
                && exists|now: i64| update_check(old(self).escrow->0.expiration, now, new_expiration) == Err::<(), EscrowError>(e),
            r is Ok ==> *final(self) == with_expiration(*old(self), new_expiration),
            r matches Err(ProgramFailure::Constraint(_)) ==> false,
            r is Err ==> *final(self) == *old(self),
    {
        let now = match clock_unix_timestamp() {
            Ok(t) => t,
            Err(_) => {
                return Err(ProgramFailure::ClockUnavailable);
            },
        };
        match self.update_escrow_at(now, new_expiration) {
            Ok(()) => Ok(()),
            Err(e) => Err(ProgramFailure::Escrow(e)),
        }
    }
}

} // verus!

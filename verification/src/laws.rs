//! Properties that hold across the program's instructions.

use crate::address::{derived_address, escrow_signer_seeds_spec};
use crate::constants::MAX_ESCROW_DURATION;
use crate::error::EscrowError;
use crate::instructions::checks::escrow_seeds_check;
use crate::error::ConstraintError;
use crate::instructions::make::{make_check, make_constraints, made_escrow, with_escrow, Make, MakeBumps};
use crate::instructions::refund::{refund_calls, refund_check, refund_constraints, refunded, Refund};
use crate::instructions::take::{settled, take_calls, take_check, take_constraints, Take};
use crate::instructions::update::{update_check, update_constraints, Update};
use crate::state::{Address, Escrow};
use crate::token::TokenInstruction;
use crate::token::TokenCall;
use vstd::prelude::*;

verus! {

/// At every moment an offer can be either taken or refunded, never both and never
/// neither: taking is allowed strictly before the expiration, refunding from it on.
pub proof fn take_or_refund_never_both(expiration: i64, now: i64)
    ensures
        take_check(expiration, now) is Ok <==> refund_check(expiration, now) is Err,
{
}

/// Expiry is terminal: once an offer has expired, at that time and every later one it can
/// no longer be taken nor extended, whatever new expiration is asked, and it can be
/// refunded.
pub proof fn expiry_is_terminal(expiration: i64, expired_at: i64, later: i64, new_expiration: i64)
    requires
        expired_at >= expiration,
        later >= expired_at,
    ensures
        take_check(expiration, later) == Err::<(), EscrowError>(EscrowError::OfferExpired),
        update_check(expiration, later, new_expiration) == Err::<(), EscrowError>(EscrowError::OfferExpired),
        refund_check(expiration, later) is Ok,
{
}

/// An offer accepted by `make` at time `made_at` expires after that time and at most
/// `MAX_ESCROW_DURATION` after it; it can be taken, and not refunded, at every time from
/// `made_at` up to its expiration, and refunded, and not taken, from its expiration on.
pub proof fn made_offer_lifecycle(made_at: i64, token_b_wanted_amount: u64, expiration: i64, now: i64)
    requires
        make_check(made_at, token_b_wanted_amount, expiration) is Ok,
        now >= made_at,
    ensures
        made_at < expiration <= made_at + MAX_ESCROW_DURATION,
        token_b_wanted_amount > 0,
        now < expiration ==> take_check(expiration, now) is Ok && refund_check(expiration, now) is Err,
        now >= expiration ==> refund_check(expiration, now) is Ok && take_check(expiration, now) is Err,
{
}

/// `update` only extends: an accepted new expiration is later than the current one, after
/// the time of the update and at most `MAX_ESCROW_DURATION` after it, and the offer was
/// still open. In particular asking for the current expiration, or an earlier one, is
/// refused.
pub proof fn update_only_extends(expiration: i64, now: i64, new_expiration: i64)
    ensures
        update_check(expiration, now, new_expiration) is Ok ==> {
            &&& expiration < new_expiration
            &&& now < expiration
            &&& now < new_expiration <= now + MAX_ESCROW_DURATION
        },
        new_expiration <= expiration ==> update_check(expiration, now, new_expiration) is Err,
{
}

/// An escrow recorded by `make` keeps the address its checks found: where the bump `make`
/// found derives the escrow account's address (as `Make::validate` ensures), the escrow
/// `make` records for that offer passes the address check of every later instruction made
/// with the same maker, and its maker passes all the checks of `update`.
pub proof fn made_escrow_is_found_again(accounts: Make, program_id: Address, id: u64, token_b_wanted_amount: u64, bumps: MakeBumps, expiration: i64)
    requires
        derived_address(escrow_signer_seeds_spec(accounts.maker@, id, bumps.escrow), program_id@)
            == Some(accounts.escrow_key@),
    ensures
        ({
            let e = made_escrow(accounts, id, token_b_wanted_amount, bumps.escrow, expiration);
            &&& escrow_seeds_check(accounts.maker@, accounts.escrow_key@, e, program_id@) is Ok
            &&& update_constraints(Update { maker: accounts.maker, escrow_key: accounts.escrow_key, escrow: Some(e) }, program_id@) is Ok
        }),
{
}

/// Only the maker extends an offer: in accounts that pass the checks of `update`, the key
/// passed as the maker (the signer) is the maker the escrow records.
pub proof fn only_the_maker_updates(accounts: Update, program_id: Seq<u8>)
    requires
        update_constraints(accounts, program_id) is Ok,
    ensures
        accounts.escrow is Some,
        accounts.maker@ == accounts.escrow->0.maker@,
{
}

/// A settled swap is the trade the maker offered and nothing else: the taker pays exactly
/// the amount asked, in the mint the escrow records, into an account of the maker the
/// escrow records for that mint; and the whole vault, which belongs to the escrow and
/// holds the recorded mint A, goes to an account of the taker for that mint.
pub proof fn take_settles_the_recorded_trade(accounts: Take, program_id: Seq<u8>, calls: Seq<TokenCall>)
    requires
        take_constraints(accounts, program_id) is Ok,
        take_calls(accounts, calls),
    ensures
        calls[0].instruction matches TokenInstruction::TransferChecked { from, mint, to, authority, amount, .. } && {
            &&& mint@ == accounts.escrow->0.mint_b@
            &&& amount == accounts.escrow->0.token_b_wanted_amount
            &&& to == accounts.maker_ata_b.key
            &&& accounts.maker_ata_b.owner@ == accounts.escrow->0.maker@
            &&& accounts.maker_ata_b.mint@ == accounts.escrow->0.mint_b@
            &&& from == accounts.taker_ata_b.key
            &&& authority == accounts.taker
            &&& accounts.taker_ata_b.owner@ == accounts.taker@
        },
        calls[1].instruction matches TokenInstruction::TransferChecked { from, mint, to, amount, .. } && {
            &&& mint@ == accounts.escrow->0.mint_a@
            &&& from == accounts.vault.key
            &&& amount == accounts.vault.amount
            &&& accounts.vault.owner@ == accounts.escrow_key@
            &&& to == accounts.taker_ata_a.key
            &&& accounts.taker_ata_a.owner@ == accounts.taker@
            &&& accounts.taker_ata_a.mint@ == accounts.escrow->0.mint_a@
        },
        calls[2].instruction matches TokenInstruction::CloseAccount { account, destination, .. } && {
            &&& account == accounts.vault.key
            &&& destination@ == accounts.escrow->0.maker@
        },
{
}

/// A refund gives the deposit back to the maker only: the key passed as the maker (the
/// signer) is the maker the escrow records, and the whole vault, which belongs to the escrow and holds the
/// recorded mint A, goes to an account of that maker for that mint.
pub proof fn refund_returns_to_the_maker(accounts: Refund, program_id: Seq<u8>, calls: Seq<TokenCall>)
    requires
        refund_constraints(accounts, program_id) is Ok,
        refund_calls(accounts, calls),
    ensures
        accounts.maker@ == accounts.escrow->0.maker@,
        calls[0].instruction matches TokenInstruction::TransferChecked { from, mint, to, amount, .. } && {
            &&& mint@ == accounts.escrow->0.mint_a@
            &&& from == accounts.vault.key
            &&& amount == accounts.vault.amount
            &&& accounts.vault.owner@ == accounts.escrow_key@
            &&& to == accounts.maker_ata_a.key
            &&& accounts.maker_ata_a.owner@ == accounts.escrow->0.maker@
        },
        calls[1].instruction matches TokenInstruction::CloseAccount { account, destination, .. } && {
            &&& account == accounts.vault.key
            &&& destination@ == accounts.escrow->0.maker@
        },
{
}

/// A settled escrow is paid out at most once: a swap settled or a deposit returned
/// closes the escrow account, and every later `take` or `refund` naming that account is
/// refused by its accounts, so moves no tokens.
pub proof fn settled_escrow_is_not_paid_again(
    took: Take,
    returned: Refund,
    take_again: Take,
    refund_again: Refund,
    program_id: Seq<u8>,
)
    requires
        take_again.escrow == settled(took).escrow || take_again.escrow == refunded(returned).escrow,
        refund_again.escrow == settled(took).escrow || refund_again.escrow == refunded(returned).escrow,
    ensures
        take_constraints(take_again, program_id) == Err::<(), ConstraintError>(ConstraintError::AccountNotInitialized),
        refund_constraints(refund_again, program_id) == Err::<(), ConstraintError>(ConstraintError::AccountNotInitialized),
{
}

/// An offer is made once: after `make` records an escrow, `make` for the same maker and
/// offer number is refused, as the escrow account already exists.
pub proof fn an_offer_is_made_once(accounts: Make, program_id: Seq<u8>, id: u64, escrow: Escrow)
    requires
        make_constraints(accounts, program_id, id) is Ok,
    ensures
        make_constraints(with_escrow(accounts, escrow), program_id, id)
            == Err::<MakeBumps, ConstraintError>(ConstraintError::AccountAlreadyInUse),
{
}

/// The deposit lands in the vault that a later `take` or `refund` empties: `make` sends it
/// to the escrow's associated token account for mint A, and the vault that passes the
/// checks of `take` or `refund` for the escrow `make` recorded is that same account.
pub proof fn deposit_goes_to_the_vault_later_emptied(
    made: Make,
    program_id: Seq<u8>,
    id: u64,
    token_b_wanted_amount: u64,
    bumps: MakeBumps,
    expiration: i64,
    take: Take,
    refund: Refund,
)
    requires
        make_constraints(made, program_id, id) is Ok,
        take.escrow_key == made.escrow_key,
        take.escrow == Some(made_escrow(made, id, token_b_wanted_amount, bumps.escrow, expiration)),
        take.token_program == made.token_program,
        refund.escrow_key == made.escrow_key,
        refund.escrow == Some(made_escrow(made, id, token_b_wanted_amount, bumps.escrow, expiration)),
        refund.token_program == made.token_program,
    ensures
        take_constraints(take, program_id) is Ok ==> take.vault.key@ == made.vault@,
        refund_constraints(refund, program_id) is Ok ==> refund.vault.key@ == made.vault@,
{
}

} // verus!

use vstd::prelude::*;

verus! {

/// The program's own refusals.
#[derive(Clone, Copy, Debug, PartialEq, Eq, Structural)]
pub enum EscrowError {
    /// Expiration must be in the future.
    ExpirationInThePast,
    /// New expiration must be later than the current one.
    ExpirationNotExtended,
    /// Expiration exceeds the maximum escrow duration.
    ExpirationTooFar,
    /// Amount must be greater than zero.
    InvalidAmount,
    /// The offer has expired.
    OfferExpired,
    /// The offer hasn't expired yet.
    OfferIsActive,
}

/// The refusals that come from an instruction's accounts, before the instruction runs:
/// reading them, creating those it initialises, and checking the constraints the program
/// declares on them.
#[derive(Clone, Copy, Debug, PartialEq, Eq, Structural)]
pub enum ConstraintError {
    /// An account's address is not the one its seeds derive.
    ConstraintSeeds,
    /// A key stored in the escrow differs from the account passed for it.
    ConstraintHasOne,
    /// A token account belongs to another wallet than the one required.
    ConstraintTokenOwner,
    /// A token account holds another mint than the one required.
    ConstraintTokenMint,
    /// A token account is not the associated token account of its wallet and mint.
    ConstraintAssociated,
    /// An existing token account given for one to create if needed is not the
    /// associated token account of its wallet and mint.
    AccountNotAssociatedTokenAccount,
    /// An associated token account is owned by another program than the token program given.
    ConstraintAssociatedTokenTokenProgram,
    /// A mint is owned by another program than the token program given.
    ConstraintMintTokenProgram,
    /// An account the instruction reads holds no data: it was never created, or it was
    /// closed.
    AccountNotInitialized,
    /// An account the instruction creates already exists.
    AccountAlreadyInUse,
    /// An associated token account to create is given at another address than the
    /// associated token account of its wallet and mint (the associated token account
    /// program refuses it).
    InvalidAssociatedAddress,
}

/// Why an instruction was refused. A refused instruction changes nothing.
#[derive(Clone, Copy, Debug, PartialEq, Eq, Structural)]
pub enum ProgramFailure {
    Constraint(ConstraintError),
    Escrow(EscrowError),
    /// The cluster clock could not be read.
    ClockUnavailable,
}

} // verus!

use crate::address::seeds_view;
use crate::state::Address;
use vstd::prelude::*;

verus! {

/// A token program instruction the escrow program makes.
#[derive(Clone, Copy, Debug, PartialEq, Eq)]
pub enum TokenInstruction {
    /// Moves `amount` tokens of `mint`, which has `decimals` decimals, from the account
    /// `from` to the account `to`, with the approval of `authority`.
    TransferChecked {
        from: Address,
        mint: Address,
        to: Address,
        authority: Address,
        amount: u64,
        decimals: u8,
    },
    /// Closes the empty token account `account` and hands its lamports to `destination`,
    /// with the approval of `authority`.
    CloseAccount { account: Address, destination: Address, authority: Address },
}

/// A call into the token program: the instruction and the seeds with which the escrow
/// program signs for an account it controls (none where the transaction's own signers
/// approve).
#[derive(Clone, Debug, PartialEq, Eq)]
pub struct TokenCall {
    pub token_program: Address,
    pub instruction: TokenInstruction,
    pub signer_seeds: Vec<Vec<u8>>,
}

/// `call` makes `instruction` in `token_program`, signed with `seeds`.
pub open spec fn call_is(
    call: TokenCall,
    token_program: Address,
    instruction: TokenInstruction,
    seeds: Seq<Seq<u8>>,
) -> bool {
    &&& call.token_program == token_program
    &&& call.instruction == instruction
    &&& seeds_view(call.signer_seeds) == seeds
}

} // verus!

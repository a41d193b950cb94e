use vstd::prelude::*;

verus! {

/// A 32-byte account address (a public key).
#[derive(Clone, Copy, Debug, PartialEq, Eq)]
pub struct Address {
    pub bytes: [u8; 32],
}

impl View for Address {
    type V = Seq<u8>;

    open spec fn view(&self) -> Seq<u8> {
        self.bytes@
    }
}

impl Address {
    /// Whether two addresses are the same key.
    pub fn same(&self, other: &Address) -> (r: bool)
        ensures
            r == (self@ == other@),
    {
        let mut i: usize = 0;
        while i < 32
            invariant
                i <= 32,
                self@.len() == 32,
                other@.len() == 32,
                forall|j: int| 0 <= j < i ==> self@[j] == other@[j],
            decreases 32 - i,
        {
            if self.bytes[i] != other.bytes[i] {
                return false;
            }
            i = i + 1;
        }
        assert(self@ =~= other@);
        true
    }
}

/// The data of an escrow account: one open offer of a maker.
#[derive(Clone, Copy, Debug, PartialEq, Eq)]
pub struct Escrow {
    /// The maker's own number for this offer; part of the account's address.
    pub id: u64,
    pub maker: Address,
    /// The mint of the deposited tokens.
    pub mint_a: Address,
    /// The mint of the tokens asked in return.
    pub mint_b: Address,
    /// How many tokens of mint B the maker asks for the deposit.
    pub token_b_wanted_amount: u64,
    /// The bump seed of the escrow account's address.
    pub bump: u8,
    /// The unix time from which the offer can no longer be taken and can be refunded.
    pub expiration: i64,
}

/// What the logic reads of a token account.
#[derive(Clone, Copy, Debug, PartialEq, Eq)]
pub struct TokenAccount {
    pub key: Address,
    /// The program that owns the account: the token program it belongs to.
    pub program: Address,
    pub mint: Address,
    /// The wallet that may move the account's tokens.
    pub owner: Address,
    pub amount: u64,
}

/// What the logic reads of a mint account.
#[derive(Clone, Copy, Debug, PartialEq, Eq)]
pub struct Mint {
    pub key: Address,
    /// The program that owns the account: the token program it belongs to.
    pub program: Address,
    pub decimals: u8,
}

} // verus!

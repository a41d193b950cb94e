use vstd::prelude::*;

verus! {

/// The first seed of every escrow account address: the bytes of `"escrow"`.
pub const ESCROW_SEED: [u8; 6] = [101, 115, 99, 114, 111, 119];

/// The longest an offer may stay open, counted from the moment it is made or extended:
/// 30 days, in seconds.
pub const MAX_ESCROW_DURATION: i64 = 2_592_000;

/// `"escrow"` as a sequence of bytes.
pub open spec fn escrow_seed_spec() -> Seq<u8> {
    seq![101u8, 115u8, 99u8, 114u8, 111u8, 119u8]
}

} // verus!

use vstd::prelude::*;

verus! {

/// Address of the program that owns the vault records and under which the
/// vault's addresses are derived: `8wjJau9UuUBHBWiafvh2svxp4rCqkDpcUa1j13EdYh5C`
/// in base 58.
pub const PROGRAM_ID: [u8; 32] = [
    118, 7, 1, 41, 21, 200, 251, 47, 37, 50, 66, 22, 22, 101, 38, 2, 237, 126, 84, 139, 29, 90,
    112, 254, 190, 111, 166, 167, 113, 224, 139, 75,
];

/// Seed label of the vault's signing authority: the bytes of `vault_authority`.
pub const VAULT_AUTHORITY_SEED: [u8; 15] = [
    118, 97, 117, 108, 116, 95, 97, 117, 116, 104, 111, 114, 105, 116, 121,
];

/// Seed label of the shares mint: the bytes of `shares_mint`.
pub const SHARES_MINT_SEED: [u8; 11] = [115, 104, 97, 114, 101, 115, 95, 109, 105, 110, 116];

/// Width of a ticker in bytes.
pub const TICKER_LEN: usize = 16;

/// Byte that fills a ticker behind its last significant byte.
pub const TICKER_PAD: u8 = 0;

/// Fewest significant bytes a ticker may have.
pub const MIN_TICKER_LEN: usize = 3;

} // verus!

pub mod ledger;
pub mod vault;

pub use ledger::{
    AuthoritySeeds, CreateAssociatedToken, InitializeMint, Mint, MintTo, TokenAccount,
    TransferChecked,
};
pub use vault::{Vault, VaultAccount};

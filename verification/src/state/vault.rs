use crate::util::errors::Errors;
use crate::util::pubkey::Pubkey;
use vstd::prelude::*;

verus! {

/// The persistent record of one vault.
#[derive(Clone, Copy, PartialEq, Eq, Debug)]
pub struct Vault {
    /// Who may relocate the vault's assets.
    pub admin: Pubkey,
    /// The derived address that owns the custody account and the shares mint.
    pub vault_authority: Pubkey,
    /// The mint of the vault's shares.
    pub shares_mint: Pubkey,
    /// The mint of the asset accepted for deposits.
    pub base_asset_mint: Pubkey,
    /// The token account that holds deposited base assets.
    pub vault_base_asset_ata: Pubkey,
    /// The token program that both mints belong to.
    pub token_program: Pubkey,
    /// Base assets the vault counts as deposited.
    pub total_base_assets: u64,
    pub mint_shares_decimals: u8,
    /// Deposits are paused unless this is zero.
    pub deposit_paused: u8,
    /// Relocations are paused unless this is zero.
    pub allocate_paused: u8,
    pub vault_authority_bump: u8,
    pub mint_shares_bump: u8,
    pub _padding: [u8; 3],
}

/// A vault record together with the address it is stored at.
#[derive(Clone, Copy, PartialEq, Eq, Debug)]
pub struct VaultAccount {
    pub key: Pubkey,
    pub data: Vault,
}

impl Vault {
    /// Bytes the record takes in storage.
    pub const MAX_SIZE: usize = 32 + 32 + 32 + 32 + 32 + 32 + 8 + 1 + 1 + 1 + 1 + 1 + 3;

    /// The record of a vault that was just created: the identifiers and the
    /// derivation bookkeeping as given, no assets counted and nothing paused.
    pub open spec fn created(
        admin: Pubkey,
        vault_authority: Pubkey,
        shares_mint: Pubkey,
        base_asset_mint: Pubkey,
        token_program: Pubkey,
        vault_base_asset_ata: Pubkey,
        mint_shares_decimals: u8,
        vault_authority_bump: u8,
        mint_shares_bump: u8,
    ) -> Vault {
        Vault {
            admin,
            vault_authority,
            shares_mint,
            base_asset_mint,
            vault_base_asset_ata,
            token_program,
            total_base_assets: 0,
            mint_shares_decimals,
            deposit_paused: 0,
            allocate_paused: 0,
            vault_authority_bump,
            mint_shares_bump,
            _padding: [0u8, 0u8, 0u8],
        }
    }

    /// Fills the record of a new vault. Whatever the record held before is
    /// overwritten.
    pub fn initialize(
        &mut self,
        admin: Pubkey,
        vault_authority: Pubkey,
        shares_mint: Pubkey,
        base_asset_mint: Pubkey,
        token_program: Pubkey,
        vault_base_asset_ata: Pubkey,
        mint_shares_decimals: u8,
        vault_authority_bump: u8,
        mint_shares_bump: u8,
    ) -> (done: Result<(), Errors>)
        ensures
            done is Ok,
            *final(self) == Vault::created(
                admin,
                vault_authority,
                shares_mint,
                base_asset_mint,
                token_program,
                vault_base_asset_ata,
                mint_shares_decimals,
                vault_authority_bump,
                mint_shares_bump,
            ),
    {
        self.admin = admin;
        self.vault_authority = vault_authority;
        self.shares_mint = shares_mint;
        self.base_asset_mint = base_asset_mint;
        self.token_program = token_program;
        self.vault_base_asset_ata = vault_base_asset_ata;
        self.mint_shares_decimals = mint_shares_decimals;
        self.vault_authority_bump = vault_authority_bump;
        self.mint_shares_bump = mint_shares_bump;

        self.total_base_assets = 0;
        self.deposit_paused = 0;
        self.allocate_paused = 0;
        self._padding = [0; 3];
        assert(self._padding =~= [0u8, 0u8, 0u8]);

        Ok(())
    }

    /// A record with every byte zero, as storage holds it before a vault is
    /// created in it.
    pub fn empty() -> (vault: Self)
        ensures
            vault.is_zeroed(),
    {
        let vault = Self {
            admin: Pubkey::zeroed(),
            vault_authority: Pubkey::zeroed(),
            shares_mint: Pubkey::zeroed(),
            base_asset_mint: Pubkey::zeroed(),
            token_program: Pubkey::zeroed(),
            vault_base_asset_ata: Pubkey::zeroed(),
            mint_shares_decimals: 0,
            vault_authority_bump: 0,
            mint_shares_bump: 0,
            total_base_assets: 0,
            deposit_paused: 0,
            allocate_paused: 0,
            _padding: [0; 3],
        };
        assert(vault._padding@ =~= Seq::new(3, |i: int| 0u8));
        vault
    }

    /// Every key is all zeros and every number and flag is zero.
    pub open spec fn is_zeroed(&self) -> bool {
        &&& self.admin@ == Seq::new(32, |i: int| 0u8)
        &&& self.vault_authority@ == Seq::new(32, |i: int| 0u8)
        &&& self.shares_mint@ == Seq::new(32, |i: int| 0u8)
        &&& self.base_asset_mint@ == Seq::new(32, |i: int| 0u8)
        &&& self.vault_base_asset_ata@ == Seq::new(32, |i: int| 0u8)
        &&& self.token_program@ == Seq::new(32, |i: int| 0u8)
        &&& self.total_base_assets == 0
        &&& self.mint_shares_decimals == 0
        &&& self.deposit_paused == 0
        &&& self.allocate_paused == 0
        &&& self.vault_authority_bump == 0
        &&& self.mint_shares_bump == 0
        &&& self._padding@ == Seq::new(3, |i: int| 0u8)
    }

    /// What an operation on a created vault may leave of the record `before`:
    /// the same record but for its total, which has not shrunk. Who
    /// administers the vault, who signs for it and which accounts it names
    /// are fixed when the vault is created.
    pub open spec fn succeeds(&self, before: Vault) -> bool {
        &&& self.total_base_assets >= before.total_base_assets
        &&& *self == Vault { total_base_assets: self.total_base_assets, ..before }
    }

    /// Over any run of operations on a created vault, from any record in the
    /// run to any later one, the total has not shrunk and nothing else has
    /// changed.
    pub proof fn lemma_lifecycle(records: Seq<Vault>, earlier: int, later: int)
        requires
            forall|i: int|
                0 <= i < records.len() - 1 ==> (#[trigger] records[i + 1]).succeeds(records[i]),
            0 <= earlier <= later < records.len(),
        ensures
            records[later].succeeds(records[earlier]),
            records[later].admin == records[earlier].admin,
            records[later].vault_authority == records[earlier].vault_authority,
            records[later].total_base_assets >= records[earlier].total_base_assets,
        decreases later - earlier,
    {
        if earlier < later {
            Self::lemma_lifecycle(records, earlier, later - 1);
            assert(records[later - 1 + 1].succeeds(records[later - 1]));
        }
    }

    /// Deposits are refused while the flag is set, whatever its value.
    pub open spec fn deposits_paused(&self) -> bool {
        self.deposit_paused != 0
    }

    /// Relocations are refused while the flag is set, whatever its value.
    pub open spec fn allocations_paused(&self) -> bool {
        self.allocate_paused != 0
    }
}

} // verus!

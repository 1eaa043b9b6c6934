use crate::constant::PROGRAM_ID;
use crate::state::ledger::{
    authority_seeds, authority_seeds_of, shares_mint_seeds, shares_mint_seeds_of,
    CreateAssociatedToken, InitializeMint, Mint,
};
use crate::state::vault::{Vault, VaultAccount};
use crate::util::errors::Errors;
use crate::util::pubkey::{derived_view, find_program_address, program_address, Pubkey};
use vstd::prelude::*;

verus! {

/// The accounts of a vault's creation:
/// - `admin`: who creates the vault, pays for its accounts and administers it
/// - `vault`: the record to fill, at its address
/// - `vault_authority`: the address meant to be the vault's signing authority
/// - `base_asset_mint`: the mint of the asset accepted for deposits
/// - `vault_base_asset_ata`: where the custody account is to be created
/// - `shares_mint`: where the shares mint is to be created
/// - `token_program`: the token program
#[derive(Clone, Copy, PartialEq, Eq, Debug)]
pub struct Initialize {
    pub admin: Pubkey,
    pub vault: VaultAccount,
    pub vault_authority: Pubkey,
    pub base_asset_mint: Mint,
    pub vault_base_asset_ata: Pubkey,
    pub shares_mint: Pubkey,
    pub token_program: Pubkey,
}

/// The record of a vault that was created.
#[derive(Clone, Copy, PartialEq, Eq, Debug)]
pub struct InitializeEvent {
    pub vault: Pubkey,
    pub admin: Pubkey,
    pub shares_mint: Pubkey,
    pub base_asset_mint: Pubkey,
}

/// What the ledger is to carry out for a vault's creation, and the event to
/// emit.
#[derive(Clone, Copy, PartialEq, Eq, Debug)]
pub struct InitializeEffects {
    /// The custody account, owned by the vault's authority.
    pub create_custody: CreateAssociatedToken,
    /// The shares mint, with the vault's authority as the only minter and the
    /// decimals of the base asset.
    pub create_shares_mint: InitializeMint,
    pub event: InitializeEvent,
}

impl Initialize {
    /// What deriving the vault's authority from the vault's address under
    /// this program finds.
    pub open spec fn derived_authority(&self) -> Option<(Seq<u8>, u8)> {
        program_address(authority_seeds_of(self.vault.key), PROGRAM_ID@)
    }

    /// What deriving the shares mint from the authority handed in, under
    /// this program, finds.
    pub open spec fn derived_shares_mint(&self) -> Option<(Seq<u8>, u8)> {
        program_address(shares_mint_seeds_of(self.vault_authority), PROGRAM_ID@)
    }

    /// The bumps of the two derivations where both found an address, the
    /// accounts handed in are at these addresses (the authority derived from
    /// the vault's address, and the shares mint derived from the authority)
    /// and the base asset's mint is under the token program handed in.
    pub open spec fn bumps(
        &self,
        authority: Option<(Seq<u8>, u8)>,
        shares_mint: Option<(Seq<u8>, u8)>,
    ) -> Option<(u8, u8)> {
        match (authority, shares_mint) {
            (Some((authority_address, authority_bump)), Some((mint_address, mint_bump))) => {
                if authority_address == self.vault_authority@ && mint_address
                    == self.shares_mint@ && self.base_asset_mint.token_program
                    == self.token_program {
                    Some((authority_bump, mint_bump))
                } else {
                    None
                }
            },
            _ => None,
        }
    }

    /// The orders and the event of the creation, for the bump of the shares
    /// mint.
    pub open spec fn effects(&self, mint_bump: u8) -> InitializeEffects {
        InitializeEffects {
            create_custody: CreateAssociatedToken {
                payer: self.admin,
                associated_token: self.vault_base_asset_ata,
                authority: self.vault_authority,
                mint: self.base_asset_mint.key,
                token_program: self.token_program,
            },
            create_shares_mint: InitializeMint {
                payer: self.admin,
                mint: self.shares_mint,
                decimals: self.base_asset_mint.decimals,
                mint_authority: self.vault_authority,
                bump: mint_bump,
                token_program: self.token_program,
            },
            event: InitializeEvent {
                vault: self.vault.key,
                admin: self.admin,
                shares_mint: self.shares_mint,
                base_asset_mint: self.base_asset_mint.key,
            },
        }
    }

    /// The record that the creation writes, for the two bumps.
    pub open spec fn record(&self, authority_bump: u8, mint_bump: u8) -> Vault {
        Vault::created(
            self.admin,
            self.vault_authority,
            self.shares_mint,
            self.base_asset_mint.key,
            self.token_program,
            self.vault_base_asset_ata,
            self.base_asset_mint.decimals,
            authority_bump,
            mint_bump,
        )
    }

    /// What a creation that goes through sets up: it orders the custody
    /// account for the vault's authority and the base asset, and the shares
    /// mint with the authority as its only minter and the decimals of the
    /// base asset; it leaves a record that names the administrator and the
    /// authority, counts no assets and has nothing paused.
    pub open spec fn set_up(&self, effects: InitializeEffects, record: Vault) -> bool {
        &&& effects.create_custody.authority == self.vault_authority
        &&& effects.create_custody.mint == self.base_asset_mint.key
        &&& effects.create_custody.associated_token == self.vault_base_asset_ata
        &&& effects.create_shares_mint.mint == self.shares_mint
        &&& effects.create_shares_mint.mint_authority == self.vault_authority
        &&& effects.create_shares_mint.decimals == self.base_asset_mint.decimals
        &&& record.admin == self.admin
        &&& record.vault_authority == self.vault_authority
        &&& record.shares_mint == self.shares_mint
        &&& record.base_asset_mint == self.base_asset_mint.key
        &&& record.vault_base_asset_ata == self.vault_base_asset_ata
        &&& record.total_base_assets == 0
        &&& !record.deposits_paused()
        &&& !record.allocations_paused()
    }

    /// What the creation comes to, for the outcomes of the two derivations.
    pub open spec fn outcome(
        &self,
        authority: Option<(Seq<u8>, u8)>,
        shares_mint: Option<(Seq<u8>, u8)>,
    ) -> Result<InitializeEffects, Errors> {
        match self.bumps(authority, shares_mint) {
            Some((_, mint_bump)) => Ok(self.effects(mint_bump)),
            None => Err(Errors::AccountMismatch),
        }
    }

    /// The accounts after the creation, for the outcomes of the two
    /// derivations: the record is written where the creation goes through,
    /// and nothing changes where it is refused.
    pub open spec fn after(
        &self,
        authority: Option<(Seq<u8>, u8)>,
        shares_mint: Option<(Seq<u8>, u8)>,
    ) -> Initialize {
        match self.bumps(authority, shares_mint) {
            Some((authority_bump, mint_bump)) => Initialize {
                vault: VaultAccount { data: self.record(authority_bump, mint_bump), ..self.vault },
                ..*self
            },
            None => *self,
        }
    }
}

/// Creates the vault from the outcomes of the two derivations. Where both
/// found an address and the accounts handed in are at these addresses, the
/// record is filled, with no assets counted and nothing paused, and the
/// orders to create the custody account and the shares mint are handed back.
/// Otherwise the creation is refused and the record stays as it was.
pub fn create(
    ctx: &mut Initialize,
    authority: Option<(Pubkey, u8)>,
    shares_mint: Option<(Pubkey, u8)>,
) -> (done: Result<InitializeEffects, Errors>)
    ensures
        done == old(ctx).outcome(derived_view(authority), derived_view(shares_mint)),
        *final(ctx) == old(ctx).after(derived_view(authority), derived_view(shares_mint)),
        done matches Ok(effects) ==> old(ctx).set_up(effects, final(ctx).vault.data),
        // A creation that is refused writes nothing.
        done is Err ==> *final(ctx) == *old(ctx),
{
    let (authority_address, authority_bump) = match authority {
        Some(derived) => derived,
        None => { return Err(Errors::AccountMismatch); },
    };
    let (mint_address, mint_bump) = match shares_mint {
        Some(derived) => derived,
        None => { return Err(Errors::AccountMismatch); },
    };
    proof {
        Pubkey::lemma_view_injective(authority_address, ctx.vault_authority);
        Pubkey::lemma_view_injective(mint_address, ctx.shares_mint);
    }
    if authority_address != ctx.vault_authority || mint_address != ctx.shares_mint
        || ctx.base_asset_mint.token_program != ctx.token_program {
        return Err(Errors::AccountMismatch);
    }
    let admin = ctx.admin;
    let vault_authority = ctx.vault_authority;
    let shares_mint = ctx.shares_mint;
    let shares_mint_decimals = ctx.base_asset_mint.decimals;
    let base_asset_mint = ctx.base_asset_mint.key;
    let vault_base_asset_ata = ctx.vault_base_asset_ata;
    let token_program = ctx.token_program;

    let create_custody = CreateAssociatedToken {
        payer: admin,
        associated_token: vault_base_asset_ata,
        authority: vault_authority,
        mint: base_asset_mint,
        token_program,
    };
    let create_shares_mint = InitializeMint {
        payer: admin,
        mint: shares_mint,
        decimals: shares_mint_decimals,
        mint_authority: vault_authority,
        bump: mint_bump,
        token_program,
    };
    let event = InitializeEvent { vault: ctx.vault.key, admin, shares_mint, base_asset_mint };

    let filled = ctx.vault.data.initialize(
        admin,
        vault_authority,
        shares_mint,
        base_asset_mint,
        token_program,
        vault_base_asset_ata,
        shares_mint_decimals,
        authority_bump,
        mint_bump,
    );
    match filled {
        Ok(()) => Ok(InitializeEffects { create_custody, create_shares_mint, event }),
        Err(refusal) => Err(refusal),
    }
}

/// Creates the vault: derives the vault's signing authority from the vault's
/// address and the shares mint from the authority, both under this program,
/// and goes on as `create` does with what the derivations found.
pub fn handle(ctx: &mut Initialize) -> (done: Result<InitializeEffects, Errors>)
    ensures
        done == old(ctx).outcome(old(ctx).derived_authority(), old(ctx).derived_shares_mint()),
        *final(ctx) == old(ctx).after(
            old(ctx).derived_authority(),
            old(ctx).derived_shares_mint(),
        ),
        done matches Ok(effects) ==> old(ctx).set_up(effects, final(ctx).vault.data),
        // A creation that is refused writes nothing.
        done is Err ==> *final(ctx) == *old(ctx),
{
    let program_id = crate::id();
    let authority = find_program_address(&authority_seeds(&ctx.vault.key), &program_id);
    let shares_mint = find_program_address(&shares_mint_seeds(&ctx.vault_authority), &program_id);
    create(ctx, authority, shares_mint)
}

} // verus!

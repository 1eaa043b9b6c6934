use crate::state::ledger::{AuthoritySeeds, Mint, TokenAccount, TransferChecked};
use crate::state::vault::VaultAccount;
use crate::util::errors::Errors;
use crate::util::pubkey::Pubkey;
use vstd::prelude::*;

verus! {

/// The accounts of a relocation, as read from the ledger before it:
/// - `admin`: the caller
/// - `vault`: the vault record
/// - `vault_authority`: the vault's signing authority
/// - `base_asset_mint`: the mint of the base asset
/// - `vault_base_asset_ata`: the vault's custody account for base assets
/// - `target_ata`: the token account the assets are relocated to
/// - `token_program`: the token program
#[derive(Clone, Copy, PartialEq, Eq, Debug)]
pub struct Allocate {
    pub admin: Pubkey,
    pub vault: VaultAccount,
    pub vault_authority: Pubkey,
    pub base_asset_mint: Mint,
    pub vault_base_asset_ata: TokenAccount,
    pub target_ata: TokenAccount,
    pub token_program: Pubkey,
}

/// The record of a relocation that was carried out.
#[derive(Clone, Copy, PartialEq, Eq, Debug)]
pub struct AllocateEvent {
    pub vault: Pubkey,
    pub target_ata: Pubkey,
    pub amount: u64,
}

/// What the ledger is to carry out for a relocation, and the event to emit.
#[derive(Clone, Copy, PartialEq, Eq, Debug)]
pub struct AllocateEffects {
    /// Base assets move from the vault's custody account to the target,
    /// signed by the vault's authority.
    pub transfer: TransferChecked,
    pub event: AllocateEvent,
}

impl Allocate {
    /// The caller is the administrator that the vault record names.
    pub open spec fn by_admin(&self) -> bool {
        self.vault.data.admin == self.admin
    }

    /// The accounts handed in are the ones that the vault record names, and
    /// the target holds the base asset, under the vault's token program.
    pub open spec fn accounts_match(&self) -> bool {
        &&& self.vault.data.base_asset_mint == self.base_asset_mint.key
        &&& self.vault.data.vault_authority == self.vault_authority
        &&& self.vault.data.vault_base_asset_ata == self.vault_base_asset_ata.key
        &&& self.vault.data.token_program == self.token_program
        &&& self.base_asset_mint.token_program == self.token_program
        &&& self.target_ata.mint == self.base_asset_mint.key
        &&& self.target_ata.token_program == self.token_program
    }

    /// The order and the event of a relocation of `amount`.
    pub open spec fn effects(&self, amount: u64) -> AllocateEffects {
        AllocateEffects {
            transfer: TransferChecked {
                from: self.vault_base_asset_ata.key,
                mint: self.base_asset_mint.key,
                to: self.target_ata.key,
                authority: self.vault_authority,
                amount,
                decimals: self.base_asset_mint.decimals,
                signer_seeds: Some(
                    AuthoritySeeds {
                        vault: self.vault.key,
                        bump: self.vault.data.vault_authority_bump,
                    },
                ),
            },
            event: AllocateEvent {
                vault: self.vault.key,
                target_ata: self.target_ata.key,
                amount,
            },
        }
    }

    /// What a relocation of `amount` comes to. The caller must be the
    /// administrator and the accounts those of the record; then the amount
    /// must be positive, relocations must not be paused and the custody
    /// account must hold the amount.
    pub open spec fn outcome(&self, amount: u64) -> Result<AllocateEffects, Errors> {
        if !self.by_admin() {
            Err(Errors::Unauthorized)
        } else if !self.accounts_match() {
            Err(Errors::AccountMismatch)
        } else if amount == 0 {
            Err(Errors::InvalidAmount)
        } else if self.vault.data.allocations_paused() {
            Err(Errors::AllocatePaused)
        } else if amount > self.vault_base_asset_ata.amount {
            Err(Errors::InsufficientBaseAssetBalance)
        } else {
            Ok(self.effects(amount))
        }
    }

    /// Holds the accounts against the vault record.
    pub fn check_accounts(&self) -> (matching: bool)
        ensures
            matching == self.accounts_match(),
    {
        self.vault.data.base_asset_mint == self.base_asset_mint.key
            && self.vault.data.vault_authority == self.vault_authority
            && self.vault.data.vault_base_asset_ata == self.vault_base_asset_ata.key
            && self.vault.data.token_program == self.token_program
            && self.base_asset_mint.token_program == self.token_program
            && self.target_ata.mint == self.base_asset_mint.key
            && self.target_ata.token_program == self.token_program
    }
}

/// Moves `amount` base assets from the vault's custody account to the target
/// account. The recorded total stays as it is: the assets are relocated, not
/// withdrawn, and still count as the vault's.
pub fn handle(ctx: &mut Allocate, amount: u64) -> (done: Result<AllocateEffects, Errors>)
    ensures
        done == old(ctx).outcome(amount),
        // The record, and with it the recorded total, is never changed.
        *final(ctx) == *old(ctx),
        final(ctx).vault.data.succeeds(old(ctx).vault.data),
        // Only the administrator relocates: anyone else is refused, and no
        // transfer is handed back.
        !old(ctx).by_admin() ==> done == Err::<AllocateEffects, Errors>(Errors::Unauthorized),
        // While relocations are paused every relocation is refused; one of a
        // positive amount by the administrator on the vault's own accounts is
        // refused as paused.
        old(ctx).vault.data.allocations_paused() ==> done is Err,
        old(ctx).vault.data.allocations_paused() && old(ctx).by_admin() && old(
            ctx,
        ).accounts_match() && amount > 0 ==> done == Err::<AllocateEffects, Errors>(
            Errors::AllocatePaused,
        ),
        // A relocation that goes through moves exactly the amount out of the
        // custody account into the target.
        done matches Ok(effects) ==> {
            &&& effects.transfer.amount == amount
            &&& effects.transfer.from == old(ctx).vault.data.vault_base_asset_ata
            &&& effects.transfer.to == old(ctx).target_ata.key
        },
{
    if ctx.vault.data.admin != ctx.admin {
        return Err(Errors::Unauthorized);
    }
    if !ctx.check_accounts() {
        return Err(Errors::AccountMismatch);
    }
    if amount == 0 {
        return Err(Errors::InvalidAmount);
    }
    if ctx.vault.data.allocate_paused != 0 {
        return Err(Errors::AllocatePaused);
    }
    if amount > ctx.vault_base_asset_ata.amount {
        return Err(Errors::InsufficientBaseAssetBalance);
    }
    let transfer = TransferChecked {
        from: ctx.vault_base_asset_ata.key,
        mint: ctx.base_asset_mint.key,
        to: ctx.target_ata.key,
        authority: ctx.vault_authority,
        amount,
        decimals: ctx.base_asset_mint.decimals,
        signer_seeds: Some(
            AuthoritySeeds { vault: ctx.vault.key, bump: ctx.vault.data.vault_authority_bump },
        ),
    };
    let event = AllocateEvent { vault: ctx.vault.key, target_ata: ctx.target_ata.key, amount };

    Ok(AllocateEffects { transfer, event })
}

/// Relocation accounting. Let a relocation of `amount` go through, to a
/// target that is not the custody account itself, and let the ledger, whose
/// balance of the custody account is the one that was read, carry out the
/// transfer handed back. Then the custody account holds exactly the amount
/// less, the target exactly the amount more, and every other balance is as
/// before. The vault record is the same before and after, as `handle` states.
pub proof fn lemma_relocation_accounting(ctx: Allocate, amount: u64, balances: Map<Pubkey, nat>)
    requires
        ctx.outcome(amount) is Ok,
        balances.dom().contains(ctx.vault_base_asset_ata.key),
        balances.dom().contains(ctx.target_ata.key),
        balances[ctx.vault_base_asset_ata.key] == ctx.vault_base_asset_ata.amount,
        ctx.target_ata.key != ctx.vault_base_asset_ata.key,
    ensures
        ctx.outcome(amount) matches Ok(effects) && {
            let moved = effects.transfer.apply(balances);
            &&& effects.transfer.accepted(balances)
            &&& moved[ctx.vault_base_asset_ata.key] == balances[ctx.vault_base_asset_ata.key]
                - amount
            &&& moved[ctx.target_ata.key] == balances[ctx.target_ata.key] + amount
            &&& forall|other: Pubkey|
                other != ctx.vault_base_asset_ata.key && other != ctx.target_ata.key
                    && balances.dom().contains(other) ==> #[trigger] moved[other]
                    == balances[other]
        },
{
}

} // verus!

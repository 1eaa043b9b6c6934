use crate::state::ledger::{AuthoritySeeds, Mint, MintTo, TokenAccount, TransferChecked};
use crate::state::vault::{Vault, VaultAccount};
use crate::util::errors::Errors;
use crate::util::helper::{convert_to_shares, shares_for};
use crate::util::pubkey::Pubkey;
use vstd::prelude::*;

verus! {

/// The accounts of a deposit, as read from the ledger before it:
/// - `signer`: the depositor
/// - `shares_mint`: the vault's shares mint
/// - `vault`: the vault record
/// - `vault_authority`: the vault's signing authority
/// - `shares_ata`: the depositor's token account for shares
/// - `base_asset_mint`: the mint of the base asset
/// - `base_asset_ata`: the depositor's token account holding base assets
/// - `vault_base_asset_ata`: the vault's custody account for base assets
/// - `token_program`: the token program
#[derive(Clone, Copy, PartialEq, Eq, Debug)]
pub struct Deposit {
    pub signer: Pubkey,
    pub shares_mint: Mint,
    pub vault: VaultAccount,
    pub vault_authority: Pubkey,
    pub shares_ata: TokenAccount,
    pub base_asset_mint: Mint,
    pub base_asset_ata: TokenAccount,
    pub vault_base_asset_ata: TokenAccount,
    pub token_program: Pubkey,
}

/// The record of a deposit that was carried out.
#[derive(Clone, Copy, PartialEq, Eq, Debug)]
pub struct DepositEvent {
    pub depositor: Pubkey,
    pub base_asset_amount: u64,
    pub shares_minted: u64,
}

/// What the ledger is to carry out for a deposit, together with the vault
/// record's update as one atomic unit, and the event to emit.
#[derive(Clone, Copy, PartialEq, Eq, Debug)]
pub struct DepositEffects {
    /// Base assets move from the depositor to the vault's custody account.
    pub transfer: TransferChecked,
    /// Shares are minted to the depositor.
    pub mint_to: MintTo,
    pub event: DepositEvent,
}

impl Deposit {
    /// The accounts handed in are the ones that the vault record names, and
    /// the depositor's token accounts are the depositor's own, one for each of
    /// the two mints, under the vault's token program.
    pub open spec fn accounts_match(&self) -> bool {
        &&& self.vault.data.shares_mint == self.shares_mint.key
        &&& self.vault.data.base_asset_mint == self.base_asset_mint.key
        &&& self.vault.data.vault_authority == self.vault_authority
        &&& self.vault.data.vault_base_asset_ata == self.vault_base_asset_ata.key
        &&& self.vault.data.token_program == self.token_program
        &&& self.shares_ata.mint == self.shares_mint.key
        &&& self.shares_ata.owner == self.signer
        &&& self.shares_ata.token_program == self.token_program
        &&& self.base_asset_ata.mint == self.base_asset_mint.key
        &&& self.base_asset_ata.owner == self.signer
        &&& self.base_asset_ata.token_program == self.token_program
    }

    /// The orders and the event of a deposit of `amount` that mints `shares`.
    pub open spec fn effects(&self, amount: u64, shares: u64) -> DepositEffects {
        DepositEffects {
            transfer: TransferChecked {
                from: self.base_asset_ata.key,
                mint: self.base_asset_mint.key,
                to: self.vault_base_asset_ata.key,
                authority: self.signer,
                amount,
                decimals: self.base_asset_mint.decimals,
                signer_seeds: None,
            },
            mint_to: MintTo {
                mint: self.shares_mint.key,
                to: self.shares_ata.key,
                authority: self.vault_authority,
                amount: shares,
                signer_seeds: AuthoritySeeds {
                    vault: self.vault.key,
                    bump: self.vault.data.vault_authority_bump,
                },
            },
            event: DepositEvent {
                depositor: self.signer,
                base_asset_amount: amount,
                shares_minted: shares,
            },
        }
    }

    /// What a deposit of `amount` comes to. The accounts are held against the
    /// record first; then the amount must be positive, deposits must not be
    /// paused and the depositor must hold the amount; then the shares are
    /// priced at the recorded total and the shares outstanding; last, the
    /// new total must fit.
    pub open spec fn outcome(&self, amount: u64) -> Result<DepositEffects, Errors> {
        if !self.accounts_match() {
            Err(Errors::AccountMismatch)
        } else if amount == 0 {
            Err(Errors::ZeroDeposit)
        } else if self.vault.data.deposits_paused() {
            Err(Errors::DepositPaused)
        } else if self.base_asset_ata.amount < amount {
            Err(Errors::InsufficientBaseAssetBalance)
        } else {
            match shares_for(amount, self.vault.data.total_base_assets, self.shares_mint.supply) {
                Err(refusal) => Err(refusal),
                Ok(shares) => if self.vault.data.total_base_assets + amount > u64::MAX {
                    Err(Errors::MathOverflow)
                } else {
                    Ok(self.effects(amount, shares))
                },
            }
        }
    }

    /// The accounts after a deposit of `amount` that went through: the
    /// recorded total has grown by the amount and nothing else has changed.
    pub open spec fn credited(&self, amount: u64) -> Deposit {
        Deposit {
            vault: VaultAccount {
                data: Vault {
                    total_base_assets: (self.vault.data.total_base_assets + amount) as u64,
                    ..self.vault.data
                },
                ..self.vault
            },
            ..*self
        }
    }

    /// The accounts after a deposit of `amount` was asked for: credited where
    /// it goes through, as before where it is refused.
    pub open spec fn after(&self, amount: u64) -> Deposit {
        if self.outcome(amount) is Ok {
            self.credited(amount)
        } else {
            *self
        }
    }

    /// Holds the accounts against the vault record.
    pub fn check_accounts(&self) -> (matching: bool)
        ensures
            matching == self.accounts_match(),
    {
        self.vault.data.shares_mint == self.shares_mint.key
            && self.vault.data.base_asset_mint == self.base_asset_mint.key
            && self.vault.data.vault_authority == self.vault_authority
            && self.vault.data.vault_base_asset_ata == self.vault_base_asset_ata.key
            && self.vault.data.token_program == self.token_program
            && self.shares_ata.mint == self.shares_mint.key
            && self.shares_ata.owner == self.signer
            && self.shares_ata.token_program == self.token_program
            && self.base_asset_ata.mint == self.base_asset_mint.key
            && self.base_asset_ata.owner == self.signer
            && self.base_asset_ata.token_program == self.token_program
    }
}

/// Processes a deposit of `amount` base assets: validates it, prices the
/// shares, and on success adds the amount to the recorded total and hands
/// back the transfer into custody and the mint of shares for the ledger to
/// carry out. A refused deposit leaves the record as it was.
pub fn handle(ctx: &mut Deposit, amount: u64) -> (done: Result<DepositEffects, Errors>)
    ensures
        done == old(ctx).outcome(amount),
        *final(ctx) == old(ctx).after(amount),
        // The recorded total never shrinks, and nothing else in the record
        // changes.
        final(ctx).vault.data.succeeds(old(ctx).vault.data),
        // A deposit that goes through adds exactly the amount to the recorded
        // total and mints to the depositor exactly the shares that the amount
        // is worth at the total and the supply from before.
        done matches Ok(effects) ==> {
            &&& final(ctx).vault.data.total_base_assets == old(ctx).vault.data.total_base_assets
                + amount
            &&& effects.transfer.amount == amount
            &&& effects.mint_to.to == old(ctx).shares_ata.key
            &&& shares_for(
                amount,
                old(ctx).vault.data.total_base_assets,
                old(ctx).shares_mint.supply,
            ) == Ok::<u64, Errors>(effects.mint_to.amount)
        },
        // A total that would not fit is refused, never wrapped around.
        old(ctx).vault.data.total_base_assets + amount > u64::MAX ==> done is Err,
        // While deposits are paused every deposit is refused and changes
        // nothing; one of a positive amount on the vault's own accounts is
        // refused as paused.
        old(ctx).vault.data.deposits_paused() ==> done is Err && *final(ctx) == *old(ctx),
        old(ctx).vault.data.deposits_paused() && old(ctx).accounts_match() && amount > 0 ==> done
            == Err::<DepositEffects, Errors>(Errors::DepositPaused),
{
    if !ctx.check_accounts() {
        return Err(Errors::AccountMismatch);
    }
    if amount == 0 {
        return Err(Errors::ZeroDeposit);
    }
    if ctx.vault.data.deposit_paused != 0 {
        return Err(Errors::DepositPaused);
    }
    if ctx.base_asset_ata.amount < amount {
        return Err(Errors::InsufficientBaseAssetBalance);
    }
    let total_shares = ctx.shares_mint.supply;
    let total_assets = ctx.vault.data.total_base_assets;

    let to_mint = match convert_to_shares(amount, total_assets, total_shares) {
        Ok(shares) => shares,
        Err(refusal) => { return Err(refusal); },
    };
    let new_total = match total_assets.checked_add(amount) {
        Some(total) => total,
        None => { return Err(Errors::MathOverflow); },
    };

    let transfer = TransferChecked {
        from: ctx.base_asset_ata.key,
        mint: ctx.base_asset_mint.key,
        to: ctx.vault_base_asset_ata.key,
        authority: ctx.signer,
        amount,
        decimals: ctx.base_asset_mint.decimals,
        signer_seeds: None,
    };
    let mint_to = MintTo {
        mint: ctx.shares_mint.key,
        to: ctx.shares_ata.key,
        authority: ctx.vault_authority,
        amount: to_mint,
        signer_seeds: AuthoritySeeds {
            vault: ctx.vault.key,
            bump: ctx.vault.data.vault_authority_bump,
        },
    };
    let event = DepositEvent {
        depositor: ctx.signer,
        base_asset_amount: amount,
        shares_minted: to_mint,
    };

    ctx.vault.data.total_base_assets = new_total;

    Ok(DepositEffects { transfer, mint_to, event })
}

/// Deposit accounting. Let a deposit of `amount` go through, and let the
/// ledger, whose balance of the depositor's base-asset account is the one
/// that was read, carry out the orders handed back. Then the recorded total
/// has grown by exactly the amount, and the depositor's shares account, where
/// it is neither the account debited nor the custody account, has grown by
/// exactly the shares that the amount was worth at the total and the supply
/// from before. The amount itself has moved from the depositor's account
/// into custody, where these are two accounts.
pub proof fn lemma_deposit_accounting(ctx: Deposit, amount: u64, balances: Map<Pubkey, nat>)
    requires
        ctx.outcome(amount) is Ok,
        balances.dom().contains(ctx.base_asset_ata.key),
        balances.dom().contains(ctx.vault_base_asset_ata.key),
        balances.dom().contains(ctx.shares_ata.key),
        balances[ctx.base_asset_ata.key] == ctx.base_asset_ata.amount,
        ctx.shares_ata.key != ctx.base_asset_ata.key,
        ctx.shares_ata.key != ctx.vault_base_asset_ata.key,
    ensures
        ctx.after(amount).vault.data.total_base_assets == ctx.vault.data.total_base_assets
            + amount,
        ctx.outcome(amount) matches Ok(effects) && shares_for(
            amount,
            ctx.vault.data.total_base_assets,
            ctx.shares_mint.supply,
        ) matches Ok(shares) && {
            let moved = effects.transfer.apply(balances);
            let minted = effects.mint_to.apply(moved);
            &&& effects.transfer.accepted(balances)
            &&& effects.mint_to.accepted(moved)
            &&& minted[ctx.shares_ata.key] == balances[ctx.shares_ata.key] + shares
            &&& ctx.base_asset_ata.key != ctx.vault_base_asset_ata.key ==> {
                &&& minted[ctx.base_asset_ata.key] == balances[ctx.base_asset_ata.key] - amount
                &&& minted[ctx.vault_base_asset_ata.key] == balances[ctx.vault_base_asset_ata.key]
                    + amount
            }
        },
{
}

} // verus!

//! Accounting and authorization core of a pooled-deposit vault.
//!
//! Depositors hand in a base asset and receive shares in proportion to the
//! pool; the administrator may move pooled assets to another custody account
//! without changing the recorded total. Every operation is a function from
//! the vault record and the values read from the token ledger to the new
//! record and the orders for the ledger to carry out. The caller carries the
//! orders out in one atomic unit with the record's update.
//!
//! A vault is found by the address of its record. The ticker that each
//! operation takes names the vault for its users and must be well formed.

pub mod constant;
pub mod instructions;
pub mod state;
pub mod util;

use crate::constant::PROGRAM_ID;
use crate::instructions::allocate::{Allocate, AllocateEffects};
use crate::instructions::deposit::{Deposit, DepositEffects};
use crate::instructions::initialize::{Initialize, InitializeEffects};
use crate::util::errors::Errors;
use crate::util::pubkey::Pubkey;
use crate::util::ticker::{is_valid_ticker, valid_ticker};
use vstd::prelude::*;

verus! {

/// The address of this program.
pub fn id() -> (key: Pubkey)
    ensures
        key.bytes == PROGRAM_ID,
{
    Pubkey { bytes: PROGRAM_ID }
}

/// Creates a vault under a ticker. A ticker that is not well formed is
/// refused before anything is derived or written; what follows is the
/// creation as `instructions::initialize::handle` carries it out.
pub fn initialize(ctx: &mut Initialize, ticker: [u8; 16]) -> (done: Result<
    InitializeEffects,
    Errors,
>)
    ensures
        done == (if valid_ticker(ticker@) {
            old(ctx).outcome(old(ctx).derived_authority(), old(ctx).derived_shares_mint())
        } else {
            Err(Errors::InvalidTicker)
        }),
        *final(ctx) == (if valid_ticker(ticker@) {
            old(ctx).after(old(ctx).derived_authority(), old(ctx).derived_shares_mint())
        } else {
            *old(ctx)
        }),
{
    if !is_valid_ticker(&ticker) {
        return Err(Errors::InvalidTicker);
    }
    crate::instructions::initialize::handle(ctx)
}

/// Deposits `amount` base assets into the vault under a ticker. A ticker
/// that is not well formed is refused first; what follows is the deposit
/// as `instructions::deposit::handle` carries it out.
pub fn deposit(ctx: &mut Deposit, amount: u64, ticker: [u8; 16]) -> (done: Result<
    DepositEffects,
    Errors,
>)
    ensures
        done == (if valid_ticker(ticker@) {
            old(ctx).outcome(amount)
        } else {
            Err(Errors::InvalidTicker)
        }),
        *final(ctx) == (if valid_ticker(ticker@) {
            old(ctx).after(amount)
        } else {
            *old(ctx)
        }),
        // While deposits are paused every deposit is refused and changes
        // nothing.
        old(ctx).vault.data.deposits_paused() ==> done is Err && *final(ctx) == *old(ctx),
{
    if !is_valid_ticker(&ticker) {
        return Err(Errors::InvalidTicker);
    }
    crate::instructions::deposit::handle(ctx, amount)
}

/// Relocates `amount` base assets out of the vault under a ticker. A ticker
/// that is not well formed is refused first; what follows is the relocation
/// as `instructions::allocate::handle` carries it out.
pub fn allocate(ctx: &mut Allocate, amount: u64, ticker: [u8; 16]) -> (done: Result<
    AllocateEffects,
    Errors,
>)
    ensures
        done == (if valid_ticker(ticker@) {
            old(ctx).outcome(amount)
        } else {
            Err(Errors::InvalidTicker)
        }),
        // The record, and with it the recorded total, is never changed.
        *final(ctx) == *old(ctx),
        // Whoever is not the administrator is refused, and so is everyone
        // while relocations are paused.
        !old(ctx).by_admin() ==> done is Err,
        old(ctx).vault.data.allocations_paused() ==> done is Err,
{
    if !is_valid_ticker(&ticker) {
        return Err(Errors::InvalidTicker);
    }
    crate::instructions::allocate::handle(ctx, amount)
}

} // verus!

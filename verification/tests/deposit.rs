use sol_4626_vault::instructions::deposit::handle;
use sol_4626_vault::instructions::{Deposit, DepositEffects, DepositEvent};
use sol_4626_vault::state::{
    AuthoritySeeds, Mint, MintTo, TokenAccount, TransferChecked, Vault, VaultAccount,
};
use sol_4626_vault::util::{Errors, Pubkey};

fn key(byte: u8) -> Pubkey {
    Pubkey { bytes: [byte; 32] }
}

const ADMIN: u8 = 1;
const AUTHORITY: u8 = 2;
const SHARES_MINT: u8 = 3;
const BASE_MINT: u8 = 4;
const TOKEN_PROGRAM: u8 = 5;
const CUSTODY: u8 = 6;
const VAULT: u8 = 7;
const DEPOSITOR: u8 = 8;
const DEPOSITOR_BASE: u8 = 9;
const DEPOSITOR_SHARES: u8 = 10;

fn accounts(total_base_assets: u64, supply: u64, balance: u64) -> Deposit {
    let mut data = Vault::empty();
    data.initialize(
        key(ADMIN),
        key(AUTHORITY),
        key(SHARES_MINT),
        key(BASE_MINT),
        key(TOKEN_PROGRAM),
        key(CUSTODY),
        6,
        254,
        253,
    )
    .unwrap();
    data.total_base_assets = total_base_assets;
    Deposit {
        signer: key(DEPOSITOR),
        shares_mint: Mint {
            key: key(SHARES_MINT),
            token_program: key(TOKEN_PROGRAM),
            supply,
            decimals: 6,
        },
        vault: VaultAccount { key: key(VAULT), data },
        vault_authority: key(AUTHORITY),
        shares_ata: TokenAccount {
            key: key(DEPOSITOR_SHARES),
            token_program: key(TOKEN_PROGRAM),
            mint: key(SHARES_MINT),
            owner: key(DEPOSITOR),
            amount: 0,
        },
        base_asset_mint: Mint {
            key: key(BASE_MINT),
            token_program: key(TOKEN_PROGRAM),
            supply: 1_000_000_000,
            decimals: 6,
        },
        base_asset_ata: TokenAccount {
            key: key(DEPOSITOR_BASE),
            token_program: key(TOKEN_PROGRAM),
            mint: key(BASE_MINT),
            owner: key(DEPOSITOR),
            amount: balance,
        },
        vault_base_asset_ata: TokenAccount {
            key: key(CUSTODY),
            token_program: key(TOKEN_PROGRAM),
            mint: key(BASE_MINT),
            owner: key(AUTHORITY),
            amount: total_base_assets,
        },
        token_program: key(TOKEN_PROGRAM),
    }
}

#[test]
fn first_deposit_records_amount_and_mints_one_to_one() {
    let mut ctx = accounts(0, 0, 1_000_000);
    let before = ctx;
    let effects = handle(&mut ctx, 250_000).unwrap();
    assert_eq!(
        effects,
        DepositEffects {
            transfer: TransferChecked {
                from: key(DEPOSITOR_BASE),
                mint: key(BASE_MINT),
                to: key(CUSTODY),
                authority: key(DEPOSITOR),
                amount: 250_000,
                decimals: 6,
                signer_seeds: None,
            },
            mint_to: MintTo {
                mint: key(SHARES_MINT),
                to: key(DEPOSITOR_SHARES),
                authority: key(AUTHORITY),
                amount: 250_000,
                signer_seeds: AuthoritySeeds { vault: key(VAULT), bump: 254 },
            },
            event: DepositEvent {
                depositor: key(DEPOSITOR),
                base_asset_amount: 250_000,
                shares_minted: 250_000,
            },
        }
    );
    assert_eq!(ctx.vault.data.total_base_assets, 250_000);
    let mut expected = before;
    expected.vault.data.total_base_assets = 250_000;
    assert_eq!(ctx, expected);
}

#[test]
fn deposit_mints_shares_at_the_price_before_it() {
    // 4_000_000 assets against 2_000_000 shares: a share costs two units
    let mut ctx = accounts(4_000_000, 2_000_000, 1_000_000);
    let effects = handle(&mut ctx, 1_000_000).unwrap();
    assert_eq!(effects.mint_to.amount, 500_000);
    assert_eq!(effects.event.shares_minted, 500_000);
    assert_eq!(effects.transfer.amount, 1_000_000);
    assert_eq!(ctx.vault.data.total_base_assets, 5_000_000);
}

#[test]
fn deposit_rounds_shares_down() {
    let mut ctx = accounts(3, 10, 5);
    let effects = handle(&mut ctx, 1).unwrap();
    assert_eq!(effects.mint_to.amount, 3);
    assert_eq!(ctx.vault.data.total_base_assets, 4);
}

#[test]
fn deposit_of_whole_balance_goes_through() {
    let mut ctx = accounts(10, 10, 5);
    let effects = handle(&mut ctx, 5).unwrap();
    assert_eq!(effects.mint_to.amount, 5);
    assert_eq!(ctx.vault.data.total_base_assets, 15);
}

#[test]
fn zero_deposit_is_refused() {
    let mut ctx = accounts(10, 10, 5);
    let before = ctx;
    assert_eq!(handle(&mut ctx, 0), Err(Errors::ZeroDeposit));
    assert_eq!(ctx, before);
}

#[test]
fn paused_deposit_is_refused_and_changes_nothing() {
    let mut ctx = accounts(10, 10, 5);
    ctx.vault.data.deposit_paused = 1;
    let before = ctx;
    assert_eq!(handle(&mut ctx, 5), Err(Errors::DepositPaused));
    assert_eq!(ctx, before);
}

#[test]
fn any_nonzero_flag_pauses_deposits() {
    let mut ctx = accounts(10, 10, 5);
    ctx.vault.data.deposit_paused = 255;
    assert_eq!(handle(&mut ctx, 5), Err(Errors::DepositPaused));
}

#[test]
fn pausing_relocations_does_not_pause_deposits() {
    let mut ctx = accounts(10, 10, 5);
    ctx.vault.data.allocate_paused = 1;
    assert!(handle(&mut ctx, 5).is_ok());
}

#[test]
fn deposit_beyond_balance_is_refused() {
    let mut ctx = accounts(10, 10, 5);
    let before = ctx;
    assert_eq!(handle(&mut ctx, 6), Err(Errors::InsufficientBaseAssetBalance));
    assert_eq!(ctx, before);
}

#[test]
fn zero_amount_is_reported_before_pause_and_balance() {
    let mut ctx = accounts(10, 10, 0);
    ctx.vault.data.deposit_paused = 1;
    assert_eq!(handle(&mut ctx, 0), Err(Errors::ZeroDeposit));
}

#[test]
fn pause_is_reported_before_balance() {
    let mut ctx = accounts(10, 10, 0);
    ctx.vault.data.deposit_paused = 1;
    assert_eq!(handle(&mut ctx, 1), Err(Errors::DepositPaused));
}

#[test]
fn shares_against_no_assets_refuse_the_deposit() {
    let mut ctx = accounts(0, 1_000, 100);
    let before = ctx;
    assert_eq!(handle(&mut ctx, 100), Err(Errors::DivideByZero));
    assert_eq!(ctx, before);
}

#[test]
fn shares_beyond_u64_refuse_the_deposit() {
    let mut ctx = accounts(1, u64::MAX, 100);
    let before = ctx;
    assert_eq!(handle(&mut ctx, 2), Err(Errors::MathOverflow));
    assert_eq!(ctx, before);
}

#[test]
fn total_beyond_u64_refuses_the_deposit() {
    let mut ctx = accounts(u64::MAX - 1, u64::MAX - 1, 100);
    let before = ctx;
    assert_eq!(handle(&mut ctx, 2), Err(Errors::MathOverflow));
    assert_eq!(ctx, before);
    // the largest total that fits
    let effects = handle(&mut ctx, 1).unwrap();
    assert_eq!(effects.mint_to.amount, 1);
    assert_eq!(ctx.vault.data.total_base_assets, u64::MAX);
}

#[test]
fn deposit_accounts_that_the_record_does_not_name_are_refused() {
    let wrong = key(99);
    let cases: [fn(&mut Deposit, Pubkey); 11] = [
        |ctx, wrong| ctx.shares_mint.key = wrong,
        |ctx, wrong| ctx.base_asset_mint.key = wrong,
        |ctx, wrong| ctx.vault_authority = wrong,
        |ctx, wrong| ctx.vault_base_asset_ata.key = wrong,
        |ctx, wrong| ctx.token_program = wrong,
        |ctx, wrong| ctx.shares_ata.mint = wrong,
        |ctx, wrong| ctx.shares_ata.owner = wrong,
        |ctx, wrong| ctx.shares_ata.token_program = wrong,
        |ctx, wrong| ctx.base_asset_ata.mint = wrong,
        |ctx, wrong| ctx.base_asset_ata.owner = wrong,
        |ctx, wrong| ctx.base_asset_ata.token_program = wrong,
    ];
    for change in cases {
        let mut ctx = accounts(10, 10, 5);
        change(&mut ctx, wrong);
        let before = ctx;
        assert!(!ctx.check_accounts());
        assert_eq!(handle(&mut ctx, 5), Err(Errors::AccountMismatch));
        assert_eq!(ctx, before);
    }
    assert!(accounts(10, 10, 5).check_accounts());
}

#[test]
fn account_mismatch_is_reported_first() {
    let mut ctx = accounts(10, 10, 0);
    ctx.vault.data.deposit_paused = 1;
    ctx.token_program = key(99);
    assert_eq!(handle(&mut ctx, 0), Err(Errors::AccountMismatch));
}

#[test]
fn deposit_under_a_ticker() {
    let mut ticker = [0u8; 16];
    ticker[..7].copy_from_slice(b"MYTOKEN");
    let mut ctx = accounts(0, 0, 1_000);
    let effects = sol_4626_vault::deposit(&mut ctx, 400, ticker).unwrap();
    assert_eq!(effects.mint_to.amount, 400);
    assert_eq!(ctx.vault.data.total_base_assets, 400);
}

#[test]
fn deposit_under_a_malformed_ticker_is_refused() {
    let mut ctx = accounts(0, 0, 1_000);
    let before = ctx;
    assert_eq!(sol_4626_vault::deposit(&mut ctx, 400, [0u8; 16]), Err(Errors::InvalidTicker));
    assert_eq!(ctx, before);
    let mut ticker = [0u8; 16];
    ticker[..2].copy_from_slice(b"AB");
    assert_eq!(sol_4626_vault::deposit(&mut ctx, 400, ticker), Err(Errors::InvalidTicker));
    assert_eq!(ctx, before);
}

#[test]
fn malformed_ticker_is_reported_before_the_deposit_is_looked_at() {
    let mut ctx = accounts(0, 0, 0);
    ctx.vault.data.deposit_paused = 1;
    ctx.token_program = key(99);
    assert_eq!(sol_4626_vault::deposit(&mut ctx, 0, [b'a'; 16]), Err(Errors::InvalidTicker));
}

#[test]
fn two_deposits_add_up() {
    let mut ctx = accounts(0, 0, 1_000);
    let first = handle(&mut ctx, 300).unwrap();
    assert_eq!(first.mint_to.amount, 300);
    // the ledger has minted the shares and moved the assets
    ctx.shares_mint.supply += first.mint_to.amount;
    ctx.base_asset_ata.amount -= first.transfer.amount;
    let second = handle(&mut ctx, 200).unwrap();
    assert_eq!(second.mint_to.amount, 200);
    assert_eq!(ctx.vault.data.total_base_assets, 500);
}

#[test]
fn authority_seeds_are_label_vault_and_bump() {
    let seeds = AuthoritySeeds { vault: key(VAULT), bump: 254 }.to_seeds();
    assert_eq!(seeds, vec![b"vault_authority".to_vec(), vec![VAULT; 32], vec![254u8]]);
}

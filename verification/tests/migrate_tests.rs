use wen_dev::errors::WenDevError;
use wen_dev::migrate::migrate;
use wen_dev::state::{AccountId, AmountConfig, Config, LaunchPhase, TokenLaunch};

const ADMIN: AccountId = AccountId { id: 1 };
const FEE_WALLET: AccountId = AccountId { id: 2 };

fn global_config() -> Config {
    Config {
        authority: ADMIN,
        fee_wallet: FEE_WALLET,
        platform_buy_fee_bps: 100,
        platform_sell_fee_bps: 100,
        pegasus_buy_fee_bps: 50,
        pegasus_sell_fee_bps: 50,
        lamport_amount_config: AmountConfig::Range { min: None, max: None },
        token_supply_config: AmountConfig::Range { min: None, max: None },
        token_decimals_config: AmountConfig::Range { min: None, max: None },
    }
}

fn launch_in(phase: LaunchPhase) -> TokenLaunch {
    TokenLaunch {
        token: AccountId { id: 20 },
        creator: AccountId { id: 10 },
        phase,
        virtual_lamport_reserves: 10_000_000_000,
        virtual_token_reserves: 1_000_000_000_000,
        initial_token_max_supply: 1_000_000_000_000,
    }
}

#[test]
fn settlement_before_completion_transfers_nothing() {
    for phase in [LaunchPhase::Presale, LaunchPhase::ProcessingPresale, LaunchPhase::OpenSale] {
        let cfg = global_config();
        let launch = launch_in(phase);
        let mut escrow_tokens: u64 = 1_000_000_000_000;
        let mut special_tokens: u64 = 0;
        let mut vault_sol: u64 = 30_000_000_000;
        let mut special_sol: u64 = 0;
        let r = migrate(
            &cfg,
            &launch,
            ADMIN,
            FEE_WALLET,
            &mut escrow_tokens,
            &mut special_tokens,
            &mut vault_sol,
            &mut special_sol,
        );
        assert_eq!(r, Err(WenDevError::NotCompleted));
        assert_eq!(escrow_tokens, 1_000_000_000_000);
        assert_eq!(special_tokens, 0);
        assert_eq!(vault_sol, 30_000_000_000);
        assert_eq!(special_sol, 0);
    }
}

#[test]
fn settlement_by_stranger_rejected() {
    let cfg = global_config();
    let launch = launch_in(LaunchPhase::Completed);
    let mut escrow_tokens: u64 = 500;
    let mut special_tokens: u64 = 0;
    let mut vault_sol: u64 = 700;
    let mut special_sol: u64 = 0;
    let r = migrate(
        &cfg,
        &launch,
        AccountId { id: 99 },
        FEE_WALLET,
        &mut escrow_tokens,
        &mut special_tokens,
        &mut vault_sol,
        &mut special_sol,
    );
    assert_eq!(r, Err(WenDevError::IncorrectAuthority));
    assert_eq!(escrow_tokens, 500);
    assert_eq!(vault_sol, 700);
}

#[test]
fn settlement_to_wrong_recipient_rejected() {
    let cfg = global_config();
    let launch = launch_in(LaunchPhase::Completed);
    let mut escrow_tokens: u64 = 500;
    let mut special_tokens: u64 = 0;
    let mut vault_sol: u64 = 700;
    let mut special_sol: u64 = 0;
    let r = migrate(
        &cfg,
        &launch,
        ADMIN,
        AccountId { id: 98 },
        &mut escrow_tokens,
        &mut special_tokens,
        &mut vault_sol,
        &mut special_sol,
    );
    assert_eq!(r, Err(WenDevError::IncorrectAuthority));
    assert_eq!(escrow_tokens, 500);
    assert_eq!(special_tokens, 0);
    assert_eq!(vault_sol, 700);
    assert_eq!(special_sol, 0);
}

#[test]
fn settlement_drains_both_escrows_in_full() {
    let cfg = global_config();
    let launch = launch_in(LaunchPhase::Completed);
    let mut escrow_tokens: u64 = 1_000_000_000_000;
    let mut special_tokens: u64 = 123;
    let mut vault_sol: u64 = 30_000_000_000;
    let mut special_sol: u64 = 456;
    let r = migrate(
        &cfg,
        &launch,
        ADMIN,
        FEE_WALLET,
        &mut escrow_tokens,
        &mut special_tokens,
        &mut vault_sol,
        &mut special_sol,
    );
    assert_eq!(r, Ok(()));
    assert_eq!(escrow_tokens, 0);
    assert_eq!(special_tokens, 1_000_000_000_000 + 123);
    assert_eq!(vault_sol, 0);
    assert_eq!(special_sol, 30_000_000_000 + 456);
}

#[test]
fn repeated_settlement_is_a_zero_transfer() {
    let cfg = global_config();
    let launch = launch_in(LaunchPhase::Completed);
    let mut escrow_tokens: u64 = 900;
    let mut special_tokens: u64 = 0;
    let mut vault_sol: u64 = 800;
    let mut special_sol: u64 = 0;
    migrate(
        &cfg,
        &launch,
        ADMIN,
        FEE_WALLET,
        &mut escrow_tokens,
        &mut special_tokens,
        &mut vault_sol,
        &mut special_sol,
    )
    .unwrap();
    // no one-time flag: a second run moves zero and still succeeds
    let r = migrate(
        &cfg,
        &launch,
        ADMIN,
        FEE_WALLET,
        &mut escrow_tokens,
        &mut special_tokens,
        &mut vault_sol,
        &mut special_sol,
    );
    assert_eq!(r, Ok(()));
    assert_eq!(escrow_tokens, 0);
    assert_eq!(special_tokens, 900);
    assert_eq!(vault_sol, 0);
    assert_eq!(special_sol, 800);
}

use vstd::prelude::*;

use crate::addresses::{record_address, Namespace};
use crate::errors::WenDevError;
use crate::ledger::{escrow_transfer, EscrowAuthority};
use crate::state::{AccountId, Config, LaunchPhase, TokenLaunch};

verus! {

/// Whether a settlement request is admitted: the launch has reached its
/// terminal phase, the caller is the deployment's administrative authority,
/// and the designated native-currency recipient is the recorded fee wallet.
pub open spec fn migrate_allowed(
    config: Config,
    token_launch: TokenLaunch,
    authority: AccountId,
    special_sol_wallet: AccountId,
) -> bool {
    &&& token_launch.phase == LaunchPhase::Completed
    &&& authority == config.authority
    &&& special_sol_wallet == config.fee_wallet
}

/// Terminal settlement: drain the launch's escrowed token balance to the
/// designated token recipient and the bonding-curve's accumulated native
/// currency to the recorded fee wallet, both in full, both authorized by the
/// respective escrow's own derived signing capability.
///
/// Fails with `NotCompleted` before the terminal phase, whoever calls; once
/// there, only the administrative authority paired with the recorded fee
/// wallet is admitted. Every rejection transfers nothing. There is no
/// one-time "settled" flag: a repeated run finds both sources at zero and
/// moves zero.
pub fn migrate(
    config: &Config,
    token_launch: &TokenLaunch,
    authority: AccountId,
    special_sol_wallet: AccountId,
    launch_token_balance: &mut u64,
    special_token_balance: &mut u64,
    bonding_sol_vault_lamports: &mut u64,
    special_sol_wallet_lamports: &mut u64,
) -> (r: Result<(), WenDevError>)
    requires
        *old(launch_token_balance) + *old(special_token_balance) <= u64::MAX,
        *old(bonding_sol_vault_lamports) + *old(special_sol_wallet_lamports) <= u64::MAX,
    ensures
        r is Ok <==> migrate_allowed(*config, *token_launch, authority, special_sol_wallet),
        r == Err::<(), WenDevError>(WenDevError::NotCompleted) <==> token_launch.phase
            != LaunchPhase::Completed,
        r == Err::<(), WenDevError>(WenDevError::IncorrectAuthority) <==> token_launch.phase
            == LaunchPhase::Completed && !(authority == config.authority && special_sol_wallet
            == config.fee_wallet),
        r is Err ==> {
            &&& *final(launch_token_balance) == *old(launch_token_balance)
            &&& *final(special_token_balance) == *old(special_token_balance)
            &&& *final(bonding_sol_vault_lamports) == *old(bonding_sol_vault_lamports)
            &&& *final(special_sol_wallet_lamports) == *old(special_sol_wallet_lamports)
        },
        r is Ok ==> {
            &&& *final(launch_token_balance) == 0
            &&& *final(special_token_balance) == *old(special_token_balance) + *old(launch_token_balance)
            &&& *final(bonding_sol_vault_lamports) == 0
            &&& *final(special_sol_wallet_lamports) == *old(special_sol_wallet_lamports) + *old(bonding_sol_vault_lamports)
        },
        *final(launch_token_balance) + *final(special_token_balance) == *old(launch_token_balance)
            + *old(special_token_balance),
        *final(bonding_sol_vault_lamports) + *final(special_sol_wallet_lamports) == *old(bonding_sol_vault_lamports)
            + *old(special_sol_wallet_lamports),
{
    if token_launch.phase != LaunchPhase::Completed {
        return Err(WenDevError::NotCompleted);
    }
    if authority != config.authority || special_sol_wallet != config.fee_wallet {
        return Err(WenDevError::IncorrectAuthority);
    }
    let token_authority = EscrowAuthority::for_record(
        record_address(Namespace::TokenLaunch, token_launch.token),
    );
    let token_balance = *launch_token_balance;
    escrow_transfer(&token_authority, launch_token_balance, special_token_balance, token_balance);
    let sol_authority = EscrowAuthority::for_record(
        record_address(Namespace::SolVault, token_launch.token),
    );
    let sol_balance = *bonding_sol_vault_lamports;
    escrow_transfer(
        &sol_authority,
        bonding_sol_vault_lamports,
        special_sol_wallet_lamports,
        sol_balance,
    );
    Ok(())
}

} // verus!

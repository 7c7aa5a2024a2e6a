use std::cmp::Ordering;

use wen_dev::addresses::{record_address, Namespace};
use wen_dev::errors::WenDevError;
use wen_dev::state::{AccountId, LaunchPhase, SnipeConfig};

fn bid(wallet: u64, bid_amount: u64, buy_lamports: u64) -> SnipeConfig {
    SnipeConfig {
        wallet: AccountId { id: wallet },
        bid_amount,
        buy_lamports,
        token_amount: 0,
        processed: false,
    }
}

#[test]
fn bids_with_equal_weight_are_equal_whatever_the_identity() {
    let a = bid(1, 500, 700);
    let mut b = bid(2, 500, 700);
    b.token_amount = 42;
    b.processed = true;
    assert_eq!(a, b);
    assert_ne!(a, bid(1, 500, 701));
    assert_ne!(a, bid(1, 501, 700));
}

#[test]
fn bids_order_lexicographically_by_weight() {
    assert_eq!(bid(1, 500, 700).partial_cmp(&bid(2, 500, 700)), Some(Ordering::Equal));
    assert_eq!(bid(1, 400, 900).partial_cmp(&bid(2, 500, 0)), Some(Ordering::Less));
    assert_eq!(bid(1, 600, 0).partial_cmp(&bid(2, 500, 900)), Some(Ordering::Greater));
    assert_eq!(bid(1, 500, 600).partial_cmp(&bid(2, 500, 700)), Some(Ordering::Less));
    assert_eq!(bid(1, 500, 800).partial_cmp(&bid(2, 500, 700)), Some(Ordering::Greater));
    assert!(bid(1, 400, 900) < bid(2, 500, 0));
    assert!(bid(1, 500, 800) > bid(2, 500, 700));
}

#[test]
fn phase_gate_accepts_only_the_demanded_phase() {
    assert_eq!(LaunchPhase::Presale.assert_eq(&LaunchPhase::Presale), Ok(()));
    assert_eq!(
        LaunchPhase::OpenSale.assert_eq(&LaunchPhase::Presale),
        Err(WenDevError::IncorrectLaunchPhase)
    );
    assert_eq!(
        LaunchPhase::Completed.assert_eq(&LaunchPhase::Presale),
        Err(WenDevError::IncorrectLaunchPhase)
    );
}

#[test]
fn record_addresses_separate_namespaces_and_parents() {
    let token_a = AccountId { id: 7 };
    let token_b = AccountId { id: 8 };
    let launch_a = record_address(Namespace::TokenLaunch, token_a);
    let queue_a = record_address(Namespace::SnipeQueue, token_a);
    let launch_b = record_address(Namespace::TokenLaunch, token_b);
    assert_eq!(launch_a, record_address(Namespace::TokenLaunch, token_a));
    assert_ne!(launch_a, queue_a);
    assert_ne!(launch_a, launch_b);
    assert_eq!(launch_a.namespace, Namespace::TokenLaunch);
    assert_eq!(launch_a.parent, token_a);
}

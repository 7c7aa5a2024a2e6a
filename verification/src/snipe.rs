use vstd::prelude::*;

use crate::addresses::{record_address, Namespace};
use crate::errors::WenDevError;
use crate::ledger::{escrow_transfer, transfer, EscrowAuthority};
use crate::state::{AccountId, LaunchPhase, SnipeConfig, SnipeQueue, TokenLaunch};

verus! {

/// Whether a requested guaranteed-allocation amount exceeds the per-bid
/// policy cap: one percent of the launch's initial maximum supply. The cap
/// compares a currency amount against a token-supply-denominated threshold,
/// exactly as the launch records it.
pub open spec fn cap_exceeded(launch: TokenLaunch, buy_lamports: Option<u64>) -> bool {
    buy_lamports matches Some(b) && b > launch.initial_token_max_supply / 100
}

/// Whether a bid request passes the three gates every submission must clear:
/// it asks for something, the launch is in `Presale`, and any requested
/// guaranteed allocation is within the policy cap.
pub open spec fn gates_pass(
    launch: TokenLaunch,
    bid_amount: Option<u64>,
    buy_lamports: Option<u64>,
) -> bool {
    &&& !(bid_amount is None && buy_lamports is None)
    &&& launch.phase == LaunchPhase::Presale
    &&& !cap_exceeded(launch, buy_lamports)
}

/// An existing entry after a bid update: each supplied amount replaces the
/// stored one, an absent amount leaves it unchanged; identity, resolved
/// allocation and fill state are untouched.
pub open spec fn updated_entry(
    c: SnipeConfig,
    bid_amount: Option<u64>,
    buy_lamports: Option<u64>,
) -> SnipeConfig {
    SnipeConfig {
        wallet: c.wallet,
        bid_amount: match bid_amount {
            Some(b) => b,
            None => c.bid_amount,
        },
        buy_lamports: match buy_lamports {
            Some(b) => b,
            None => c.buy_lamports,
        },
        token_amount: c.token_amount,
        processed: c.processed,
    }
}

/// The position of wallet `w`'s entry; meaningful when the queue holds one,
/// and then unique in a well-formed queue.
pub open spec fn index_for(s: Seq<SnipeConfig>, w: AccountId) -> int {
    choose|i: int| 0 <= i < s.len() && (#[trigger] s[i]).wallet == w
}

/// The rent-equivalent shortfall a growing queue must be topped up by: the
/// minimum balance its storage must hold at the new size, less what the
/// queue's backing account already holds (never negative).
pub open spec fn storage_delta(storage_cost: u64, queue_lamports: u64) -> int {
    if storage_cost > queue_lamports {
        storage_cost - queue_lamports
    } else {
        0
    }
}

/// The funding conditions under which the host's currency collaborator would
/// let a bid's transfers through: the paying side can cover the exact amount
/// moved and no balance leaves the currency's range. A request that one of
/// the gates rejects moves nothing and needs no funding.
pub open spec fn snipe_funded(
    q: SnipeQueue,
    launch: TokenLaunch,
    wallet: AccountId,
    bid_amount: Option<u64>,
    buy_lamports: Option<u64>,
    wallet_lamports: u64,
    queue_lamports: u64,
    storage_cost: u64,
) -> bool {
    if !gates_pass(launch, bid_amount, buy_lamports) {
        true
    } else if q.has_wallet(wallet) {
        let c = q.snipes@[index_for(q.snipes@, wallet)];
        let u = updated_entry(c, bid_amount, buy_lamports);
        let old_balance = c.bid_amount + c.buy_lamports;
        let new_balance = u.bid_amount + u.buy_lamports;
        &&& new_balance <= u64::MAX
        &&& new_balance > old_balance ==> wallet_lamports >= new_balance - old_balance
            && queue_lamports + (new_balance - old_balance) <= u64::MAX
        &&& old_balance > new_balance ==> queue_lamports >= old_balance - new_balance
            && wallet_lamports + (old_balance - new_balance) <= u64::MAX
    } else if bid_amount is Some && buy_lamports is Some {
        let amount = bid_amount->0 + buy_lamports->0 + storage_delta(storage_cost, queue_lamports);
        &&& amount <= u64::MAX
        &&& wallet_lamports >= amount
        &&& queue_lamports + amount <= u64::MAX
    } else {
        true
    }
}

/// The first entry of `snipes` belonging to `wallet`, if any.
fn find_wallet(snipes: &Vec<SnipeConfig>, wallet: AccountId) -> (r: Option<usize>)
    ensures
        match r {
            Some(i) => i < snipes@.len() && snipes@[i as int].wallet == wallet,
            None => forall|j: int|
                0 <= j < snipes@.len() ==> (#[trigger] snipes@[j]).wallet != wallet,
        },
{
    let n = snipes.len();
    let mut i: usize = 0;
    while i < n
        invariant
            n == snipes@.len(),
            i <= n,
            forall|j: int| 0 <= j < i ==> (#[trigger] snipes@[j]).wallet != wallet,
        decreases n - i,
    {
        if snipes[i].wallet == wallet {
            return Some(i);
        }
        i += 1;
    }
    None
}

/// Submit a new bid or update an existing one for `wallet` against the
/// launch of `token`, reconciling the queue's escrow with the wallet by the
/// exact signed difference in committed value.
///
/// A new entry demands both amounts, pays its commitment plus the storage
/// shortfall for the grown queue, and is appended at the end. An update
/// replaces whichever amounts were supplied and settles only the difference:
/// a larger commitment is pulled from the wallet, a smaller one is refunded
/// out of escrow under the queue's own derived authority. Every rejection
/// leaves the queue and both balances untouched, and in all cases value only
/// moves between the wallet and the escrow, never in or out of the pair.
pub fn snipe(
    token: AccountId,
    token_launch: &TokenLaunch,
    snipe_queue: &mut SnipeQueue,
    wallet: AccountId,
    bid_amount: Option<u64>,
    buy_lamports: Option<u64>,
    wallet_lamports: &mut u64,
    queue_lamports: &mut u64,
    new_queue_storage_cost: u64,
) -> (r: Result<(), WenDevError>)
    requires
        token_launch.token == token,
        old(snipe_queue).token == token,
        old(snipe_queue).wf(),
        snipe_funded(
            *old(snipe_queue),
            *token_launch,
            wallet,
            bid_amount,
            buy_lamports,
            *old(wallet_lamports),
            *old(queue_lamports),
            new_queue_storage_cost,
        ),
    ensures
        final(snipe_queue).wf(),
        final(snipe_queue).token == token,
        *final(wallet_lamports) + *final(queue_lamports) == *old(wallet_lamports) + *old(
            queue_lamports,
        ),
        r is Err ==> *final(snipe_queue) == *old(snipe_queue) && *final(wallet_lamports) == *old(
            wallet_lamports,
        ) && *final(queue_lamports) == *old(queue_lamports),
        r == Err::<(), WenDevError>(WenDevError::NothingToDo) <==> bid_amount is None
            && buy_lamports is None,
        r == Err::<(), WenDevError>(WenDevError::IncorrectLaunchPhase) <==> !(bid_amount is None
            && buy_lamports is None) && token_launch.phase != LaunchPhase::Presale,
        r == Err::<(), WenDevError>(WenDevError::BuyLamportsExceedsMaxSnipeAmount) <==> !(
        bid_amount is None && buy_lamports is None) && token_launch.phase == LaunchPhase::Presale
            && cap_exceeded(*token_launch, buy_lamports),
        r == Err::<(), WenDevError>(WenDevError::MissingValueToCreateSniper) <==> gates_pass(
            *token_launch,
            bid_amount,
            buy_lamports,
        ) && !old(snipe_queue).has_wallet(wallet) && !(bid_amount is Some
            && buy_lamports is Some),
        r is Ok <==> gates_pass(*token_launch, bid_amount, buy_lamports) && (old(
            snipe_queue,
        ).has_wallet(wallet) || (bid_amount is Some && buy_lamports is Some)),
        r is Ok ==> final(snipe_queue).has_wallet(wallet) && crate::state::wallet_entry_count(
            final(snipe_queue).snipes@,
            wallet,
        ) == 1,
        r is Ok && old(snipe_queue).has_wallet(wallet) ==> {
            let i = index_for(old(snipe_queue).snipes@, wallet);
            let c = old(snipe_queue).snipes@[i];
            let u = updated_entry(c, bid_amount, buy_lamports);
            &&& final(snipe_queue).snipes@ == old(snipe_queue).snipes@.update(i, u)
            &&& *final(wallet_lamports) - *old(wallet_lamports) == (c.bid_amount
                + c.buy_lamports) - (u.bid_amount + u.buy_lamports)
        },
        r is Ok && !old(snipe_queue).has_wallet(wallet) ==> {
            let entry = SnipeConfig {
                wallet,
                bid_amount: bid_amount->0,
                buy_lamports: buy_lamports->0,
                token_amount: 0,
                processed: false,
            };
            &&& final(snipe_queue).snipes@ == old(snipe_queue).snipes@.push(entry)
            &&& final(snipe_queue).has_wallet(wallet)
            &&& *old(wallet_lamports) - *final(wallet_lamports) == bid_amount->0
                + buy_lamports->0 + storage_delta(new_queue_storage_cost, *old(queue_lamports))
        },
{
    if bid_amount.is_none() && buy_lamports.is_none() {
        return Err(WenDevError::NothingToDo);
    }
    match token_launch.phase.assert_eq(&LaunchPhase::Presale) {
        Err(e) => {
            return Err(e);
        },
        Ok(()) => {},
    }
    if let Some(b) = buy_lamports {
        let token_supply = token_launch.initial_token_max_supply;
        let max_snipe_amount = token_supply / 100;
        if b > max_snipe_amount {
            return Err(WenDevError::BuyLamportsExceedsMaxSnipeAmount);
        }
    }
    match find_wallet(&snipe_queue.snipes, wallet) {
        Some(i) => {
            proof {
                assert(old(snipe_queue).has_wallet(wallet));
                let k = index_for(old(snipe_queue).snipes@, wallet);
                assert(0 <= k < old(snipe_queue).snipes@.len() && old(
                    snipe_queue,
                ).snipes@[k].wallet == wallet);
                assert(k == i);
            }
            let c = snipe_queue.snipes[i];
            proof {
                assert(c.bid_amount + c.buy_lamports <= u64::MAX);
            }
            let old_balance = c.bid_amount + c.buy_lamports;
            let mut u = c;
            if let Some(b) = bid_amount {
                u.bid_amount = b;
            }
            if let Some(b) = buy_lamports {
                u.buy_lamports = b;
            }
            proof {
                assert(u == updated_entry(c, bid_amount, buy_lamports));
            }
            let new_balance = u.bid_amount + u.buy_lamports;
            snipe_queue.snipes.set(i, u);
            proof {
                let s = old(snipe_queue).snipes@;
                let s2 = snipe_queue.snipes@;
                assert forall|p: int, q: int|
                    0 <= p < q < s2.len() implies (#[trigger] s2[p]).wallet != (
                #[trigger] s2[q]).wallet by {
                    assert(s2[p].wallet == s[p].wallet);
                    assert(s2[q].wallet == s[q].wallet);
                }
                assert forall|p: int|
                    0 <= p < s2.len() implies (#[trigger] s2[p]).bid_amount + s2[p].buy_lamports
                    <= u64::MAX by {
                    if p != i {
                        assert(s2[p] == s[p]);
                    }
                }
                assert(s2[i as int].wallet == wallet);
                assert(snipe_queue.has_wallet(wallet));
                crate::state::lemma_unique_wallet_entry(*snipe_queue, wallet);
            }
            if new_balance > old_balance {
                let d = new_balance - old_balance;
                transfer(wallet_lamports, queue_lamports, d);
            } else if old_balance > new_balance {
                let d = old_balance - new_balance;
                let authority = EscrowAuthority::for_record(
                    record_address(Namespace::SnipeQueue, token),
                );
                escrow_transfer(&authority, queue_lamports, wallet_lamports, d);
            }
            Ok(())
        },
        None => {
            proof {
                assert(!old(snipe_queue).has_wallet(wallet));
            }
            match (bid_amount, buy_lamports) {
                (Some(bid), Some(buy)) => {
                    let delta = if new_queue_storage_cost > *queue_lamports {
                        new_queue_storage_cost - *queue_lamports
                    } else {
                        0
                    };
                    let transfer_amount = bid + buy + delta;
                    transfer(wallet_lamports, queue_lamports, transfer_amount);
                    let entry = SnipeConfig {
                        wallet,
                        bid_amount: bid,
                        buy_lamports: buy,
                        token_amount: 0,
                        processed: false,
                    };
                    snipe_queue.snipes.push(entry);
                    proof {
                        let s = old(snipe_queue).snipes@;
                        let s2 = snipe_queue.snipes@;
                        let n = s.len() as int;
                        assert(s2 == s.push(entry));
                        assert forall|p: int, q: int|
                            0 <= p < q < s2.len() implies (#[trigger] s2[p]).wallet != (
                        #[trigger] s2[q]).wallet by {
                            if q < n {
                                assert(s2[p] == s[p] && s2[q] == s[q]);
                            } else {
                                assert(s2[q] == entry);
                                assert(s2[p] == s[p]);
                            }
                        }
                        assert forall|p: int|
                            0 <= p < s2.len() implies (#[trigger] s2[p]).bid_amount
                            + s2[p].buy_lamports <= u64::MAX by {
                            if p < n {
                                assert(s2[p] == s[p]);
                            } else {
                                assert(s2[p] == entry);
                            }
                        }
                        assert(s2[n].wallet == wallet);
                        assert(snipe_queue.has_wallet(wallet));
                        crate::state::lemma_unique_wallet_entry(*snipe_queue, wallet);
                    }
                    Ok(())
                },
                _ => Err(WenDevError::MissingValueToCreateSniper),
            }
        },
    }
}

} // verus!

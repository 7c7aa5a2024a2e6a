use vstd::prelude::*;

use core::cmp::Ordering;

use crate::errors::WenDevError;

verus! {

/// An account identity: the model's stand-in for a public key on the host
/// ledger. Two identities are the same account exactly when the ids agree.
#[derive(Clone, Copy, Debug, PartialEq, Eq, Structural)]
pub struct AccountId {
    pub id: u64,
}

/// Serialized size in bytes of a launch record (a compatibility surface:
/// discriminator, two identities, the phase byte, three 64-bit amounts).
pub const TOKEN_LAUNCH_ACCOUNT_LEN: usize = 8 + 32 + 32 + 1 + 8 + 8 + 8;

/// Serialized size in bytes of an empty snipe queue (discriminator, the
/// token identity, the length prefix of the growable list).
pub const SNIPE_QUEUE_MIN_ACCOUNT_LEN: usize = 8 + 32 + 4;

/// Serialized size in bytes of one bid entry in the snipe queue.
pub const SNIPE_CONFIG_DATA_LEN: usize = 32 + 8 + 8 + 8 + 1;

/// A validator for one configurable numeric parameter: either an inclusive
/// range with optional bounds, or an explicit allow-list.
#[derive(Clone, Debug)]
pub enum AmountConfig<T> {
    Range { min: Option<T>, max: Option<T> },
    Enum(Vec<T>),
}

impl AmountConfig<u64> {
    /// Whether the validator accepts `value`: within both present bounds for
    /// a range, listed for an allow-list.
    pub open spec fn accepts(self, value: u64) -> bool {
        match self {
            AmountConfig::Range { min, max } => {
                &&& (min matches Some(m) ==> m <= value)
                &&& (max matches Some(m) ==> value <= m)
            },
            AmountConfig::Enum(options) => options@.contains(value),
        }
    }

    /// The exact result of validation: the first violated bound names the
    /// error, an unlisted value is invalid.
    pub open spec fn spec_validate(self, value: u64) -> Result<(), WenDevError> {
        match self {
            AmountConfig::Range { min, max } => {
                if min matches Some(m) && value < m {
                    Err(WenDevError::ValueTooSmall)
                } else if max matches Some(m) && m < value {
                    Err(WenDevError::ValueTooLarge)
                } else {
                    Ok(())
                }
            },
            AmountConfig::Enum(options) => {
                if options@.contains(value) {
                    Ok(())
                } else {
                    Err(WenDevError::ValueInvalid)
                }
            },
        }
    }

    /// Pure gate with no side effects: accepts exactly the values that
    /// satisfy the configured constraint.
    #[verifier::loop_isolation(false)]
    pub fn validate(&self, value: &u64) -> (r: Result<(), WenDevError>)
        ensures
            r == self.spec_validate(*value),
            r is Ok <==> self.accepts(*value),
    {
        match self {
            AmountConfig::Range { min, max } => {
                if let Some(m) = min {
                    if *value < *m {
                        return Err(WenDevError::ValueTooSmall);
                    }
                }
                if let Some(m) = max {
                    if *value > *m {
                        return Err(WenDevError::ValueTooLarge);
                    }
                }
                Ok(())
            },
            AmountConfig::Enum(options) => {
                let n = options.len();
                let mut i: usize = 0;
                while i < n
                    invariant
                        n == options@.len(),
                        i <= n,
                        forall|j: int| 0 <= j < i ==> options@[j] != *value,
                    decreases n - i,
                {
                    if options[i] == *value {
                        proof {
                            assert(options@.contains(*value)) by {
                                assert(options@[i as int] == *value);
                            }
                        }
                        return Ok(());
                    }
                    i += 1;
                }
                Err(WenDevError::ValueInvalid)
            },
        }
    }
}

impl AmountConfig<u8> {
    /// Whether the validator accepts `value`: within both present bounds for
    /// a range, listed for an allow-list.
    pub open spec fn accepts(self, value: u8) -> bool {
        match self {
            AmountConfig::Range { min, max } => {
                &&& (min matches Some(m) ==> m <= value)
                &&& (max matches Some(m) ==> value <= m)
            },
            AmountConfig::Enum(options) => options@.contains(value),
        }
    }

    /// The exact result of validation: the first violated bound names the
    /// error, an unlisted value is invalid.
    pub open spec fn spec_validate(self, value: u8) -> Result<(), WenDevError> {
        match self {
            AmountConfig::Range { min, max } => {
                if min matches Some(m) && value < m {
                    Err(WenDevError::ValueTooSmall)
                } else if max matches Some(m) && m < value {
                    Err(WenDevError::ValueTooLarge)
                } else {
                    Ok(())
                }
            },
            AmountConfig::Enum(options) => {
                if options@.contains(value) {
                    Ok(())
                } else {
                    Err(WenDevError::ValueInvalid)
                }
            },
        }
    }

    /// Pure gate with no side effects: accepts exactly the values that
    /// satisfy the configured constraint.
    #[verifier::loop_isolation(false)]
    pub fn validate(&self, value: &u8) -> (r: Result<(), WenDevError>)
        ensures
            r == self.spec_validate(*value),
            r is Ok <==> self.accepts(*value),
    {
        match self {
            AmountConfig::Range { min, max } => {
                if let Some(m) = min {
                    if *value < *m {
                        return Err(WenDevError::ValueTooSmall);
                    }
                }
                if let Some(m) = max {
                    if *value > *m {
                        return Err(WenDevError::ValueTooLarge);
                    }
                }
                Ok(())
            },
            AmountConfig::Enum(options) => {
                let n = options.len();
                let mut i: usize = 0;
                while i < n
                    invariant
                        n == options@.len(),
                        i <= n,
                        forall|j: int| 0 <= j < i ==> options@[j] != *value,
                    decreases n - i,
                {
                    if options[i] == *value {
                        proof {
                            assert(options@.contains(*value)) by {
                                assert(options@[i as int] == *value);
                            }
                        }
                        return Ok(());
                    }
                    i += 1;
                }
                Err(WenDevError::ValueInvalid)
            },
        }
    }
}

/// The process-wide configuration record, one per deployment: the
/// administrative authority, the fee recipient, the fee rates in basis
/// points, and the validators applied to every new launch.
#[derive(Clone, Debug)]
pub struct Config {
    pub authority: AccountId,
    pub fee_wallet: AccountId,
    pub platform_buy_fee_bps: u16,
    pub platform_sell_fee_bps: u16,
    pub pegasus_buy_fee_bps: u16,
    pub pegasus_sell_fee_bps: u16,
    pub lamport_amount_config: AmountConfig<u64>,
    pub token_supply_config: AmountConfig<u64>,
    pub token_decimals_config: AmountConfig<u8>,
}

/// One stage of a launch's linear lifecycle. Bids are accepted only in
/// `Presale`; settlement is permitted only in `Completed`.
#[derive(Clone, Copy, Debug, PartialEq, Eq, Structural)]
pub enum LaunchPhase {
    Presale,
    ProcessingPresale,
    OpenSale,
    Completed,
}

impl LaunchPhase {
    /// Gate an operation on the launch standing in `phase`.
    pub fn assert_eq(&self, phase: &Self) -> (r: Result<(), WenDevError>)
        ensures
            r is Ok <==> *self == *phase,
            r is Err ==> r == Err::<(), WenDevError>(WenDevError::IncorrectLaunchPhase),
    {
        if *self != *phase {
            Err(WenDevError::IncorrectLaunchPhase)
        } else {
            Ok(())
        }
    }
}

/// The per-token launch record: identity, phase, virtual reserves, and the
/// initial maximum supply the per-bid cap is derived from.
#[derive(Clone, Debug)]
pub struct TokenLaunch {
    pub token: AccountId,
    pub creator: AccountId,
    pub phase: LaunchPhase,
    pub virtual_lamport_reserves: u64,
    pub virtual_token_reserves: u64,
    pub initial_token_max_supply: u64,
}

/// One wallet's bid: competitive weight (`bid_amount`), guaranteed-allocation
/// weight (`buy_lamports`), the allocation resolved at settlement, and a
/// processed flag. Equality and order read only the economic pair
/// `(bid_amount, buy_lamports)`: identity and fill state are excluded.
#[derive(Clone, Copy, Debug, Eq)]
pub struct SnipeConfig {
    pub wallet: AccountId,
    pub bid_amount: u64,
    pub buy_lamports: u64,
    pub token_amount: u64,
    pub processed: bool,
}

impl PartialEq for SnipeConfig {
    fn eq(&self, other: &Self) -> (r: bool) {
        self.bid_amount == other.bid_amount && self.buy_lamports == other.buy_lamports
    }
}

impl vstd::std_specs::cmp::PartialEqSpecImpl for SnipeConfig {
    open spec fn obeys_eq_spec() -> bool {
        true
    }

    open spec fn eq_spec(&self, other: &Self) -> bool {
        self.bid_amount == other.bid_amount && self.buy_lamports == other.buy_lamports
    }
}

impl PartialOrd for SnipeConfig {
    fn partial_cmp(&self, other: &Self) -> (r: Option<Ordering>) {
        if self.bid_amount < other.bid_amount {
            Some(Ordering::Less)
        } else if self.bid_amount > other.bid_amount {
            Some(Ordering::Greater)
        } else if self.buy_lamports < other.buy_lamports {
            Some(Ordering::Less)
        } else if self.buy_lamports > other.buy_lamports {
            Some(Ordering::Greater)
        } else {
            Some(Ordering::Equal)
        }
    }
}

impl vstd::std_specs::cmp::PartialOrdSpecImpl for SnipeConfig {
    open spec fn obeys_partial_cmp_spec() -> bool {
        true
    }

    /// Lexicographic order on `(bid_amount, buy_lamports)`, ascending.
    open spec fn partial_cmp_spec(&self, other: &Self) -> Option<Ordering> {
        if self.bid_amount < other.bid_amount {
            Some(Ordering::Less)
        } else if self.bid_amount > other.bid_amount {
            Some(Ordering::Greater)
        } else if self.buy_lamports < other.buy_lamports {
            Some(Ordering::Less)
        } else if self.buy_lamports > other.buy_lamports {
            Some(Ordering::Greater)
        } else {
            Some(Ordering::Equal)
        }
    }
}

/// The wallets of distinct entries are distinct: at most one bid per wallet.
pub open spec fn wallets_distinct(s: Seq<SnipeConfig>) -> bool {
    forall|i: int, j: int|
        0 <= i < j < s.len() ==> (#[trigger] s[i]).wallet != (#[trigger] s[j]).wallet
}

/// Every entry's total commitment fits in the currency type, so the balance
/// it is owed can always be computed.
pub open spec fn entry_sums_fit(s: Seq<SnipeConfig>) -> bool {
    forall|i: int| 0 <= i < s.len() ==> (#[trigger] s[i]).bid_amount + s[i].buy_lamports <= u64::MAX
}

/// How many entries of `s` belong to wallet `w`.
pub open spec fn wallet_entry_count(s: Seq<SnipeConfig>, w: AccountId) -> nat
    decreases s.len(),
{
    if s.len() == 0 {
        0
    } else {
        (if s[0].wallet == w {
            1nat
        } else {
            0nat
        }) + wallet_entry_count(s.skip(1), w)
    }
}

/// The per-token ordered collection of pending bids, growing by appending.
#[derive(Clone, Debug)]
pub struct SnipeQueue {
    pub token: AccountId,
    pub snipes: Vec<SnipeConfig>,
}

impl SnipeQueue {
    /// Well-formedness: at most one entry per wallet, and each entry's total
    /// commitment fits in the currency type. Established at creation and
    /// preserved by every mutation.
    pub open spec fn wf(self) -> bool {
        &&& wallets_distinct(self.snipes@)
        &&& entry_sums_fit(self.snipes@)
    }

    /// Whether some entry belongs to wallet `w`.
    pub open spec fn has_wallet(self, w: AccountId) -> bool {
        exists|i: int| 0 <= i < self.snipes@.len() && (#[trigger] self.snipes@[i]).wallet == w
    }
}

proof fn lemma_wallet_entry_count_zero(s: Seq<SnipeConfig>, w: AccountId)
    requires
        forall|i: int| 0 <= i < s.len() ==> (#[trigger] s[i]).wallet != w,
    ensures
        wallet_entry_count(s, w) == 0,
    decreases s.len(),
{
    if s.len() > 0 {
        assert forall|i: int| 0 <= i < s.skip(1).len() implies (#[trigger] s.skip(1)[i]).wallet
            != w by {
            assert(s.skip(1)[i] == s[i + 1]);
        }
        lemma_wallet_entry_count_zero(s.skip(1), w);
    }
}

proof fn lemma_wallet_entry_count_one(s: Seq<SnipeConfig>, w: AccountId)
    requires
        wallets_distinct(s),
        exists|i: int| 0 <= i < s.len() && (#[trigger] s[i]).wallet == w,
    ensures
        wallet_entry_count(s, w) == 1,
    decreases s.len(),
{
    let i = choose|i: int| 0 <= i < s.len() && (#[trigger] s[i]).wallet == w;
    if s[0].wallet == w {
        assert forall|j: int| 0 <= j < s.skip(1).len() implies (#[trigger] s.skip(1)[j]).wallet
            != w by {
            assert(s.skip(1)[j] == s[j + 1]);
            assert(s[0].wallet != s[j + 1].wallet);
        }
        lemma_wallet_entry_count_zero(s.skip(1), w);
    } else {
        assert(0 < i);
        assert forall|p: int, q: int|
            0 <= p < q < s.skip(1).len() implies (#[trigger] s.skip(1)[p]).wallet != (#[trigger] s.skip(
            1,
        )[q]).wallet by {
            assert(s.skip(1)[p] == s[p + 1]);
            assert(s.skip(1)[q] == s[q + 1]);
        }
        assert(s.skip(1)[i - 1] == s[i]);
        lemma_wallet_entry_count_one(s.skip(1), w);
    }
}

/// A well-formed queue that holds a bid for `w` holds exactly one: the
/// lookup-before-insert discipline never duplicates a wallet.
pub proof fn lemma_unique_wallet_entry(q: SnipeQueue, w: AccountId)
    requires
        q.wf(),
        q.has_wallet(w),
    ensures
        wallet_entry_count(q.snipes@, w) == 1,
{
    lemma_wallet_entry_count_one(q.snipes@, w);
}

/// The serialized size of a snipe queue holding `entries` bids.
pub fn snipe_queue_account_len(entries: usize) -> (r: usize)
    requires
        entries <= (usize::MAX - SNIPE_QUEUE_MIN_ACCOUNT_LEN) as int / (
        SNIPE_CONFIG_DATA_LEN as int),
    ensures
        r == SNIPE_QUEUE_MIN_ACCOUNT_LEN + entries * SNIPE_CONFIG_DATA_LEN,
{
    proof {
        assert(entries * SNIPE_CONFIG_DATA_LEN <= usize::MAX - SNIPE_QUEUE_MIN_ACCOUNT_LEN)
            by (nonlinear_arith)
            requires
                entries <= (usize::MAX - SNIPE_QUEUE_MIN_ACCOUNT_LEN) as int / (
                SNIPE_CONFIG_DATA_LEN as int),
        ;
    }
    SNIPE_QUEUE_MIN_ACCOUNT_LEN + entries * SNIPE_CONFIG_DATA_LEN
}

} // verus!

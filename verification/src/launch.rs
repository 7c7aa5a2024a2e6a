use vstd::prelude::*;

use crate::errors::WenDevError;
use crate::state::{AccountId, Config, LaunchPhase, SnipeQueue, TokenLaunch};

verus! {

/// Ten to the power `e`.
pub open spec fn pow10(e: nat) -> nat
    decreases e,
{
    if e == 0 {
        1
    } else {
        10 * pow10((e - 1) as nat)
    }
}

proof fn lemma_pow10_pos(e: nat)
    ensures
        pow10(e) >= 1,
    decreases e,
{
    if e > 0 {
        lemma_pow10_pos((e - 1) as nat);
    }
}

proof fn lemma_pow10_monotone(a: nat, b: nat)
    requires
        a <= b,
    ensures
        pow10(a) <= pow10(b),
    decreases b,
{
    if a < b {
        lemma_pow10_monotone(a, (b - 1) as nat);
        lemma_pow10_pos((b - 1) as nat);
    }
}

fn pow10_u64(e: u8) -> (r: u64)
    requires
        e <= 19,
    ensures
        r == pow10(e as nat),
{
    let mut r: u64 = 1;
    let mut i: u8 = 0;
    while i < e
        invariant
            i <= e,
            e <= 19,
            r == pow10(i as nat),
        decreases e - i,
    {
        proof {
            lemma_pow10_monotone((i + 1) as nat, 19);
            assert(pow10(19) == 10_000_000_000_000_000_000) by {
                reveal_with_fuel(pow10, 20);
            }
        }
        r = r * 10;
        i = i + 1;
    }
    r
}

/// The descriptive metadata attached to a token by the Metadata Registry.
#[derive(Clone, Debug)]
pub struct TokenMetadata {
    pub name: String,
    pub symbol: String,
    pub uri: String,
}

/// Everything a successful launch creates, atomically: the launch record in
/// its opening phase, the empty bid queue, the full supply minted into the
/// launch's escrow by the Token Ledger, the registered metadata, and the
/// one-way revocation of any further minting authority.
#[derive(Clone, Debug)]
pub struct LaunchOutcome {
    pub token_launch: TokenLaunch,
    pub snipe_queue: SnipeQueue,
    pub escrow_token_balance: u64,
    pub metadata: TokenMetadata,
    pub mint_authority_revoked: bool,
}

/// The exact gate a launch request passes or fails: a fractional whole-token
/// count is invalid, then the three configured validators are consulted in
/// order (reserves, whole-token supply, decimals), each propagating its own
/// error.
pub open spec fn spec_launch_gate(
    config: Config,
    virtual_lamport_reserves: u64,
    token_supply: u64,
    decimals: u8,
) -> Result<(), WenDevError> {
    let m = pow10(decimals as nat) as int;
    if token_supply as int % m != 0 {
        Err(WenDevError::ValueInvalid)
    } else if config.lamport_amount_config.spec_validate(virtual_lamport_reserves) is Err {
        config.lamport_amount_config.spec_validate(virtual_lamport_reserves)
    } else if config.token_supply_config.spec_validate(
        ((token_supply as int / m) as u64),
    ) is Err {
        config.token_supply_config.spec_validate(((token_supply as int / m) as u64))
    } else if config.token_decimals_config.spec_validate(decimals) is Err {
        config.token_decimals_config.spec_validate(decimals)
    } else {
        Ok(())
    }
}

/// Create a launch: validate the request against the global configuration,
/// then initialize the launch record in `Presale`, an empty snipe queue, the
/// escrowed supply, and the token's metadata, all-or-nothing.
///
/// The supply is counted in base units and must be an exact multiple of
/// `10^decimals`; the whole-token count is what the supply validator sees.
pub fn launch(
    config: &Config,
    creator: AccountId,
    token: AccountId,
    name: String,
    symbol: String,
    uri: String,
    virtual_lamport_reserves: u64,
    token_supply: u64,
    decimals: u8,
) -> (r: Result<LaunchOutcome, WenDevError>)
    requires
        decimals <= 19,
    ensures
        r is Ok <==> spec_launch_gate(*config, virtual_lamport_reserves, token_supply, decimals)
            is Ok,
        r matches Err(e) ==> spec_launch_gate(
            *config,
            virtual_lamport_reserves,
            token_supply,
            decimals,
        ) == Err::<(), WenDevError>(e),
        token_supply as int % (pow10(decimals as nat) as int) != 0 ==> r == Err::<
            LaunchOutcome,
            WenDevError,
        >(WenDevError::ValueInvalid),
        r matches Ok(o) ==> {
            &&& o.token_launch == (TokenLaunch {
                token,
                creator,
                phase: LaunchPhase::Presale,
                virtual_lamport_reserves,
                virtual_token_reserves: token_supply,
                initial_token_max_supply: token_supply,
            })
            &&& o.snipe_queue.token == token
            &&& o.snipe_queue.snipes@.len() == 0
            &&& o.snipe_queue.wf()
            &&& o.escrow_token_balance == token_supply
            &&& o.metadata.name@ == name@
            &&& o.metadata.symbol@ == symbol@
            &&& o.metadata.uri@ == uri@
            &&& o.mint_authority_revoked
        },
{
    let multiplier = pow10_u64(decimals);
    proof {
        lemma_pow10_pos(decimals as nat);
    }
    let fractional_tokens = token_supply % multiplier;
    if fractional_tokens != 0 {
        return Err(WenDevError::ValueInvalid);
    }
    match config.lamport_amount_config.validate(&virtual_lamport_reserves) {
        Err(e) => {
            return Err(e);
        },
        Ok(()) => {},
    }
    let whole_supply = token_supply / multiplier;
    match config.token_supply_config.validate(&whole_supply) {
        Err(e) => {
            return Err(e);
        },
        Ok(()) => {},
    }
    match config.token_decimals_config.validate(&decimals) {
        Err(e) => {
            return Err(e);
        },
        Ok(()) => {},
    }
    let token_launch = TokenLaunch {
        token,
        creator,
        phase: LaunchPhase::Presale,
        virtual_lamport_reserves,
        virtual_token_reserves: token_supply,
        initial_token_max_supply: token_supply,
    };
    let snipe_queue = SnipeQueue { token, snipes: Vec::new() };
    let mut escrow_token_balance: u64 = 0;
    crate::ledger::mint(&mut escrow_token_balance, token_supply);
    let metadata = TokenMetadata { name, symbol, uri };
    Ok(
        LaunchOutcome {
            token_launch,
            snipe_queue,
            escrow_token_balance,
            metadata,
            mint_authority_revoked: true,
        },
    )
}

} // verus!

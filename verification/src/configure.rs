use vstd::prelude::*;

use crate::errors::WenDevError;
use crate::state::{AccountId, Config};

verus! {

/// The single update entry point for the global configuration record: only
/// the recorded administrative authority may replace it; anyone else is
/// rejected with no mutation.
pub fn configure(config: &mut Config, caller: AccountId, new_config: Config) -> (r: Result<
    (),
    WenDevError,
>)
    ensures
        r is Ok <==> caller == old(config).authority,
        r is Ok ==> *final(config) == new_config,
        r is Err ==> r == Err::<(), WenDevError>(WenDevError::IncorrectAuthority) && *final(config)
            == *old(config),
{
    if caller != config.authority {
        return Err(WenDevError::IncorrectAuthority);
    }
    *config = new_config;
    Ok(())
}

} // verus!

use vstd::prelude::*;

verus! {

/// The typed failures of the operation surface. Every rejected operation
/// returns one of these and leaves all state unchanged.
#[derive(Clone, Copy, Debug, PartialEq, Eq, Structural)]
pub enum WenDevError {
    /// A value fell below a configured minimum bound.
    ValueTooSmall,
    /// A value exceeded a configured maximum bound.
    ValueTooLarge,
    /// A value was rejected outright: not in a configured allow-list, or a
    /// token supply with a fractional whole-token count.
    ValueInvalid,
    /// A persisted record could not be encoded or decoded.
    SerializationFailed,
    /// The caller is not the actor the operation is reserved for.
    IncorrectAuthority,
    /// A bid carried neither a bid amount nor a buy amount.
    NothingToDo,
    /// The launch is not in the phase the operation demands.
    IncorrectLaunchPhase,
    /// A new bid must supply both a bid amount and a buy amount.
    MissingValueToCreateSniper,
    /// A guaranteed-allocation bid exceeded the per-bid policy cap.
    BuyLamportsExceedsMaxSnipeAmount,
    /// Settlement was attempted before the launch reached its terminal phase.
    NotCompleted,
}

} // verus!

use vstd::prelude::*;

use crate::addresses::RecordId;

verus! {

/// The signing capability a record's escrow holds over its own balance.
/// It is minted only inside the library's operation paths, from the record's
/// derived address, so no external caller ever authorizes an outgoing
/// transfer of escrowed funds directly.
pub struct EscrowAuthority {
    owner: RecordId,
}

impl EscrowAuthority {
    /// The record whose escrow this capability signs for.
    pub closed spec fn spec_owner(self) -> RecordId {
        self.owner
    }

    pub(crate) fn for_record(owner: RecordId) -> (r: EscrowAuthority)
        ensures
            r.spec_owner() == owner,
    {
        EscrowAuthority { owner }
    }
}

/// Currency transfer between two balances: exact-amount, atomic, no partial
/// application. The host rejects as a unit a transfer its payer cannot fund,
/// so an operation reaches this model only with a funded payer; the
/// destination bound is the machine limit of the balance type.
pub fn transfer(from: &mut u64, to: &mut u64, amount: u64)
    requires
        *old(from) >= amount,
        *old(to) + amount <= u64::MAX,
    ensures
        *final(from) == *old(from) - amount,
        *final(to) == *old(to) + amount,
{
    *from = *from - amount;
    *to = *to + amount;
}

/// An outgoing transfer from an escrowed balance: the same exact movement,
/// but only a holder of the escrow's own signing capability may request it.
pub fn escrow_transfer(authority: &EscrowAuthority, escrow: &mut u64, to: &mut u64, amount: u64)
    requires
        *old(escrow) >= amount,
        *old(to) + amount <= u64::MAX,
    ensures
        *final(escrow) == *old(escrow) - amount,
        *final(to) == *old(to) + amount,
{
    *escrow = *escrow - amount;
    *to = *to + amount;
}

/// Token Ledger mint: creates `amount` new units in `destination`.
pub fn mint(destination: &mut u64, amount: u64)
    requires
        *old(destination) + amount <= u64::MAX,
    ensures
        *final(destination) == *old(destination) + amount,
{
    *destination = *destination + amount;
}

} // verus!

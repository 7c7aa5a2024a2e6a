use vstd::prelude::*;

use crate::state::AccountId;

verus! {

/// The namespaces under which per-token records are filed.
#[derive(Clone, Copy, Debug, PartialEq, Eq, Structural)]
pub enum Namespace {
    Config,
    TokenLaunch,
    SnipeQueue,
    SolVault,
    Metadata,
}

/// A deterministically derived record address: any holder of the parent
/// identity can locate the record, and no two distinct (namespace, parent)
/// pairs share an address.
#[derive(Clone, Copy, Debug, PartialEq, Eq, Structural)]
pub struct RecordId {
    pub namespace: Namespace,
    pub parent: AccountId,
}

/// Derive the address of the record filed under `namespace` for `parent`.
/// Collision-free by construction: the address carries both components.
pub fn record_address(namespace: Namespace, parent: AccountId) -> (r: RecordId)
    ensures
        r.namespace == namespace,
        r.parent == parent,
{
    RecordId { namespace, parent }
}

/// Derivation is injective: two record addresses coincide exactly when both
/// the namespace and the parent identity coincide.
pub proof fn lemma_record_address_injective(a: RecordId, b: RecordId)
    ensures
        a == b <==> (a.namespace == b.namespace && a.parent == b.parent),
{
}

} // verus!

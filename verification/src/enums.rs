use vstd::prelude::*;

verus! {

/// The kind of record stored at an account.  All record kinds share one
/// storage namespace, so the kind is persisted as the first byte of the
/// account's data and discriminates them.
#[derive(Clone, Copy, Debug, PartialEq, Eq, Structural)]
pub enum GovernanceAccountType {
    Uninitialized,
    Realm,
    TokenOwnerRecord,
}

/// The one-byte tag under which each account type is persisted.
pub open spec fn account_type_tag(t: GovernanceAccountType) -> u8 {
    match t {
        GovernanceAccountType::Uninitialized => 0,
        GovernanceAccountType::Realm => 1,
        GovernanceAccountType::TokenOwnerRecord => 2,
    }
}

/// The persisted form of an account type.
pub fn account_type_to_byte(t: GovernanceAccountType) -> (r: u8)
    ensures
        r == account_type_tag(t),
{
    match t {
        GovernanceAccountType::Uninitialized => 0,
        GovernanceAccountType::Realm => 1,
        GovernanceAccountType::TokenOwnerRecord => 2,
    }
}

} // verus!

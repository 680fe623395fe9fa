use vstd::prelude::*;

verus! {

/// Every way the creation of a token owner record can fail.
///
/// `InvalidRealmAccount`, `InvalidGoverningTokenMint`,
/// `InvalidAccountAddress` and `TokenOwnerRecordAlreadyExists` are
/// precondition failures: the caller must change its inputs.
/// `InsufficientFunds` is a resource failure: the payer cannot reach the
/// storage-exempt balance. `AddressDerivationExhausted` marks the
/// practically unreachable case that no disambiguation byte yields a
/// program-controlled address.
#[derive(Clone, Copy, Debug, PartialEq, Eq, Structural)]
pub enum GovernanceError {
    InvalidRealmAccount,
    InvalidGoverningTokenMint,
    InvalidAccountAddress,
    TokenOwnerRecordAlreadyExists,
    InsufficientFunds,
    AddressDerivationExhausted,
}

} // verus!

use vstd::prelude::*;

use crate::addresses::{derivation_of, seeds_view, try_find_program_address};
use crate::enums::{account_type_tag, account_type_to_byte, GovernanceAccountType};
use crate::error::GovernanceError;
use crate::layout::{push_bytes, push_u32_le, push_u64_le, u32_le_bytes, u64_le_bytes};
use crate::pubkey::Pubkey;

verus! {

/// The per-(realm, mint, owner) record this library creates: it tracks
/// one identity's deposit, delegation and voting activity for one
/// governing token mint of one realm.
#[derive(Clone, Copy, Debug, PartialEq, Eq)]
pub struct TokenOwnerRecord {
    /// Marks the record as a token owner record among the record kinds
    /// sharing the storage namespace.
    pub account_type: GovernanceAccountType,
    /// The realm the record belongs to; immutable after creation.
    pub realm: Pubkey,
    /// The token-holding identity the record represents; immutable after
    /// creation, being part of the address derivation.
    pub governing_token_owner: Pubkey,
    /// The amount of the governing token deposited by the owner.
    pub governing_token_deposit_amount: u64,
    /// The accepted mint the record tracks; immutable after creation.
    pub governing_token_mint: Pubkey,
    /// The identity voting power is delegated to, if any.
    pub governance_delegate: Option<Pubkey>,
    /// Votes cast and not yet relinquished.
    pub unrelinquished_votes_count: u64,
    /// Votes cast over the record's lifetime.
    pub total_votes_count: u64,
    /// Proposals the owner currently has outstanding.
    pub outstanding_proposal_count: u32,
    /// Padding reserved for future fields, kept zero.
    pub reserved: [u8; 7],
}

/// The persisted form of the optional delegate: an absence byte, or a
/// presence byte followed by the identity.
pub open spec fn delegate_bytes(d: Option<Pubkey>) -> Seq<u8> {
    match d {
        None => seq![0u8],
        Some(p) => seq![1u8] + p@,
    }
}

/// The fixed, versioned binary form under which a record is persisted.
pub open spec fn serialized_token_owner_record(r: TokenOwnerRecord) -> Seq<u8> {
    seq![account_type_tag(r.account_type)] + r.realm@ + r.governing_token_owner@ + u64_le_bytes(
        r.governing_token_deposit_amount,
    ) + r.governing_token_mint@ + delegate_bytes(r.governance_delegate) + u64_le_bytes(
        r.unrelinquished_votes_count,
    ) + u64_le_bytes(r.total_votes_count) + u32_le_bytes(r.outstanding_proposal_count)
        + r.reserved@
}

/// Builds the record for `governing_token_owner`'s voting relationship
/// to `realm` through `governing_token_mint`, with every counter zeroed,
/// no delegate set and the reserved padding zero-filled.
pub fn new_record(realm: Pubkey, governing_token_owner: Pubkey, governing_token_mint: Pubkey) -> (r:
    TokenOwnerRecord)
    ensures
        r.account_type == GovernanceAccountType::TokenOwnerRecord,
        r.realm@ == realm@,
        r.governing_token_owner@ == governing_token_owner@,
        r.governing_token_deposit_amount == 0,
        r.governing_token_mint@ == governing_token_mint@,
        r.governance_delegate is None,
        r.unrelinquished_votes_count == 0,
        r.total_votes_count == 0,
        r.outstanding_proposal_count == 0,
        r.reserved@ =~= seq![0u8, 0u8, 0u8, 0u8, 0u8, 0u8, 0u8],
{
    TokenOwnerRecord {
        account_type: GovernanceAccountType::TokenOwnerRecord,
        realm,
        governing_token_owner,
        governing_token_deposit_amount: 0,
        governing_token_mint,
        governance_delegate: None,
        unrelinquished_votes_count: 0,
        total_votes_count: 0,
        outstanding_proposal_count: 0,
        reserved: [0; 7],
    }
}

/// Writes a record into its fixed binary form.
pub fn serialize_token_owner_record(r: &TokenOwnerRecord) -> (out: Vec<u8>)
    ensures
        out@ == serialized_token_owner_record(*r),
{
    let mut out: Vec<u8> = Vec::new();
    out.push(account_type_to_byte(r.account_type));
    push_bytes(&mut out, &r.realm.0);
    push_bytes(&mut out, &r.governing_token_owner.0);
    push_u64_le(&mut out, r.governing_token_deposit_amount);
    push_bytes(&mut out, &r.governing_token_mint.0);
    match &r.governance_delegate {
        None => out.push(0),
        Some(d) => {
            out.push(1);
            push_bytes(&mut out, &d.0);
        },
    }
    push_u64_le(&mut out, r.unrelinquished_votes_count);
    push_u64_le(&mut out, r.total_votes_count);
    push_u32_le(&mut out, r.outstanding_proposal_count);
    push_bytes(&mut out, &r.reserved);
    proof {
        assert(out@ =~= serialized_token_owner_record(*r));
    }
    out
}

/// The bytes of a freshly created record for the (realm, mint, owner)
/// triple: the token-owner-record tag, the three identities, every
/// counter zero, no delegate, and zero-filled reserved padding.
pub open spec fn new_record_bytes(realm: Seq<u8>, owner: Seq<u8>, mint: Seq<u8>) -> Seq<u8> {
    seq![account_type_tag(GovernanceAccountType::TokenOwnerRecord)] + realm + owner + u64_le_bytes(
        0,
    ) + mint + seq![0u8] + u64_le_bytes(0) + u64_le_bytes(0) + u32_le_bytes(0) + seq![0u8, 0u8, 0u8, 0u8, 0u8, 0u8, 0u8]
}

/// A record with the freshly-created shape serializes to exactly the
/// fresh-record bytes of its triple.
pub proof fn lemma_new_record_serialization(r: TokenOwnerRecord)
    requires
        r.account_type == GovernanceAccountType::TokenOwnerRecord,
        r.governing_token_deposit_amount == 0,
        r.governance_delegate is None,
        r.unrelinquished_votes_count == 0,
        r.total_votes_count == 0,
        r.outstanding_proposal_count == 0,
        r.reserved@ =~= seq![0u8, 0u8, 0u8, 0u8, 0u8, 0u8, 0u8],
    ensures
        serialized_token_owner_record(r) == new_record_bytes(
            r.realm@,
            r.governing_token_owner@,
            r.governing_token_mint@,
        ),
{
    assert(serialized_token_owner_record(r) =~= new_record_bytes(
        r.realm@,
        r.governing_token_owner@,
        r.governing_token_mint@,
    ));
}

/// The namespace literal that scopes every address this program
/// derives: the ASCII bytes of the word `governance`.
pub open spec fn program_authority_seed() -> Seq<u8> {
    seq![103u8, 111u8, 118u8, 101u8, 114u8, 110u8, 97u8, 110u8, 99u8, 101u8]
}

/// The ordered seed scheme of a token owner record: the namespace
/// literal, the realm, the governing token mint, and the owner.
pub open spec fn token_owner_record_seeds(realm: Seq<u8>, mint: Seq<u8>, owner: Seq<u8>) -> Seq<
    Seq<u8>,
> {
    seq![program_authority_seed(), realm, mint, owner]
}

/// Builds the seed slices from which a token owner record's address is
/// derived.
pub fn get_token_owner_record_address_seeds(
    realm: &Pubkey,
    governing_token_mint: &Pubkey,
    governing_token_owner: &Pubkey,
) -> (r: Vec<Vec<u8>>)
    ensures
        seeds_view(r@) == token_owner_record_seeds(
            realm@,
            governing_token_mint@,
            governing_token_owner@,
        ),
{
    let mut namespace: Vec<u8> = Vec::new();
    namespace.push(103);
    namespace.push(111);
    namespace.push(118);
    namespace.push(101);
    namespace.push(114);
    namespace.push(110);
    namespace.push(97);
    namespace.push(110);
    namespace.push(99);
    namespace.push(101);
    proof {
        assert(namespace@ =~= program_authority_seed());
    }
    let mut realm_bytes: Vec<u8> = Vec::new();
    push_bytes(&mut realm_bytes, &realm.0);
    let mut mint_bytes: Vec<u8> = Vec::new();
    push_bytes(&mut mint_bytes, &governing_token_mint.0);
    let mut owner_bytes: Vec<u8> = Vec::new();
    push_bytes(&mut owner_bytes, &governing_token_owner.0);
    let mut r: Vec<Vec<u8>> = Vec::new();
    r.push(namespace);
    r.push(realm_bytes);
    r.push(mint_bytes);
    r.push(owner_bytes);
    proof {
        assert(seeds_view(r@) =~= token_owner_record_seeds(
            realm@,
            governing_token_mint@,
            governing_token_owner@,
        ));
    }
    r
}

/// Derives the storage address and disambiguation byte of
/// `governing_token_owner`'s record in `realm` under
/// `governing_token_mint`, scoped to `program_id`.  The result is fixed
/// by the four identities: any party holding them reproduces it.
pub fn derive_token_owner_record_address(
    program_id: &Pubkey,
    realm: &Pubkey,
    governing_token_mint: &Pubkey,
    governing_token_owner: &Pubkey,
) -> (r: Result<(Pubkey, u8), GovernanceError>)
    ensures
        (match derivation_of(
            token_owner_record_seeds(realm@, governing_token_mint@, governing_token_owner@),
            program_id@,
        ) {
            Some(d) => r is Ok && (r->Ok_0.0@, r->Ok_0.1) == d,
            None => r == Err::<(Pubkey, u8), GovernanceError>(
                GovernanceError::AddressDerivationExhausted,
            ),
        }),
{
    let seeds = get_token_owner_record_address_seeds(
        realm,
        governing_token_mint,
        governing_token_owner,
    );
    match try_find_program_address(&seeds, program_id) {
        Some(found) => Ok(found),
        None => Err(GovernanceError::AddressDerivationExhausted),
    }
}

} // verus!

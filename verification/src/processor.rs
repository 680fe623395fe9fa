use vstd::prelude::*;

use crate::account_tools::{create_and_serialize_account_signed, materialize_spec};
use crate::accounts::{AccountData, AccountView};
use crate::addresses::derivation_of;
use crate::error::GovernanceError;
use crate::pubkey::Pubkey;
use crate::realm::{get_realm_data, parse_realm, realm_accepts_mint, RealmView};
use crate::token_owner_record::{get_token_owner_record_address_seeds,
    lemma_new_record_serialization, new_record, new_record_bytes, token_owner_record_seeds};

verus! {

/// What one creation attempt decides: the result surfaced to the
/// caller, and the payer and target accounts as they stand afterwards.
#[verifier::ext_equal]
pub ghost struct ProcessView {
    pub result: Result<(), GovernanceError>,
    pub payer: AccountView,
    pub token_owner_record: AccountView,
}

/// The whole behaviour of creating a token owner record.  In order: the
/// realm account must be owned by this program and hold a well-formed
/// realm; the realm must accept the governing token mint; the target
/// must be unoccupied; the address derived from the (realm, mint,
/// owner) seed scheme must match the caller-claimed target address; the
/// payer must cover the storage-exempt balance.  On success the target
/// holds exactly the bytes of a fresh record for the triple; on failure
/// nothing changes.
pub open spec fn process_spec(
    program_id: Seq<u8>,
    realm_address: Seq<u8>,
    realm_info: AccountView,
    governing_token_owner: Seq<u8>,
    token_owner_record_address: Seq<u8>,
    token_owner_record_info: AccountView,
    governing_token_mint: Seq<u8>,
    payer: AccountView,
    rent_exempt_minimum: u64,
) -> ProcessView {
    if realm_info.owner != program_id || parse_realm(realm_info.data) is None {
        ProcessView {
            result: Err(GovernanceError::InvalidRealmAccount),
            payer,
            token_owner_record: token_owner_record_info,
        }
    } else if !realm_accepts_mint(parse_realm(realm_info.data)->0, governing_token_mint) {
        ProcessView {
            result: Err(GovernanceError::InvalidGoverningTokenMint),
            payer,
            token_owner_record: token_owner_record_info,
        }
    } else if token_owner_record_info.data.len() != 0 {
        ProcessView {
            result: Err(GovernanceError::TokenOwnerRecordAlreadyExists),
            payer,
            token_owner_record: token_owner_record_info,
        }
    } else {
        let m = materialize_spec(
            payer,
            token_owner_record_address,
            token_owner_record_info,
            new_record_bytes(realm_address, governing_token_owner, governing_token_mint),
            token_owner_record_seeds(realm_address, governing_token_mint, governing_token_owner),
            program_id,
            rent_exempt_minimum,
        );
        ProcessView { result: m.result, payer: m.payer, token_owner_record: m.account }
    }
}

/// Creates the token owner record for (`realm_address`,
/// `governing_token_mint`, `governing_token_owner`): loads and checks
/// the realm, checks the mint is accepted, checks the target is
/// unoccupied, and materializes a fresh record at the derived address,
/// funded by `payer_info` up to `rent_exempt_minimum`.  All or nothing:
/// on any failure both writable accounts are left exactly as they were.
pub fn process_create_token_owner_record(
    program_id: &Pubkey,
    realm_address: &Pubkey,
    realm_info: &AccountData,
    governing_token_owner: &Pubkey,
    token_owner_record_address: &Pubkey,
    token_owner_record_info: &mut AccountData,
    governing_token_mint: &Pubkey,
    payer_info: &mut AccountData,
    rent_exempt_minimum: u64,
) -> (r: Result<(), GovernanceError>)
    ensures
        ({
            let p = process_spec(
                program_id@,
                realm_address@,
                realm_info@,
                governing_token_owner@,
                token_owner_record_address@,
                old(token_owner_record_info)@,
                governing_token_mint@,
                old(payer_info)@,
                rent_exempt_minimum,
            );
            r == p.result && final(payer_info)@ == p.payer && final(token_owner_record_info)@
                == p.token_owner_record
        }),
{
    let realm_data = match get_realm_data(program_id, realm_info) {
        Ok(realm_data) => realm_data,
        Err(e) => {
            return Err(e);
        },
    };
    match realm_data.assert_is_valid_governing_token_mint(governing_token_mint) {
        Ok(()) => {},
        Err(e) => {
            return Err(e);
        },
    }
    if token_owner_record_info.data.len() != 0 {
        return Err(GovernanceError::TokenOwnerRecordAlreadyExists);
    }
    let token_owner_record_data = new_record(
        *realm_address,
        *governing_token_owner,
        *governing_token_mint,
    );
    proof {
        lemma_new_record_serialization(token_owner_record_data);
    }
    let seeds = get_token_owner_record_address_seeds(
        realm_address,
        governing_token_mint,
        governing_token_owner,
    );
    create_and_serialize_account_signed(
        payer_info,
        token_owner_record_address,
        token_owner_record_info,
        &token_owner_record_data,
        &seeds,
        program_id,
        rent_exempt_minimum,
    )
}

/// Uniqueness: once a creation has succeeded, an identical second
/// attempt — same program, realm, mint, owner and target — fails with
/// `TokenOwnerRecordAlreadyExists`, whatever payer and exempt balance it
/// brings, and leaves the created record's bytes and the second payer
/// untouched.
pub proof fn lemma_second_creation_fails(
    program_id: Seq<u8>,
    realm_address: Seq<u8>,
    realm_info: AccountView,
    governing_token_owner: Seq<u8>,
    token_owner_record_address: Seq<u8>,
    token_owner_record_info: AccountView,
    governing_token_mint: Seq<u8>,
    payer: AccountView,
    rent_exempt_minimum: u64,
    second_payer: AccountView,
    second_rent_exempt_minimum: u64,
)
    requires
        process_spec(
            program_id,
            realm_address,
            realm_info,
            governing_token_owner,
            token_owner_record_address,
            token_owner_record_info,
            governing_token_mint,
            payer,
            rent_exempt_minimum,
        ).result is Ok,
    ensures
        ({
            let first = process_spec(
                program_id,
                realm_address,
                realm_info,
                governing_token_owner,
                token_owner_record_address,
                token_owner_record_info,
                governing_token_mint,
                payer,
                rent_exempt_minimum,
            );
            let second = process_spec(
                program_id,
                realm_address,
                realm_info,
                governing_token_owner,
                token_owner_record_address,
                first.token_owner_record,
                governing_token_mint,
                second_payer,
                second_rent_exempt_minimum,
            );
            &&& second.result == Err::<(), GovernanceError>(
                GovernanceError::TokenOwnerRecordAlreadyExists,
            )
            &&& second.token_owner_record == first.token_owner_record
            &&& second.payer == second_payer
        }),
{
    let first = process_spec(
        program_id,
        realm_address,
        realm_info,
        governing_token_owner,
        token_owner_record_address,
        token_owner_record_info,
        governing_token_mint,
        payer,
        rent_exempt_minimum,
    );
    assert(first.token_owner_record.data == new_record_bytes(
        realm_address,
        governing_token_owner,
        governing_token_mint,
    ));
    assert(first.token_owner_record.data.len() != 0);
}

/// Mint gating: with a well-formed realm account that does not accept
/// the supplied governing token mint, creation fails with
/// `InvalidGoverningTokenMint` and touches neither account.
pub proof fn lemma_mint_gating(
    program_id: Seq<u8>,
    realm_address: Seq<u8>,
    realm_info: AccountView,
    realm: RealmView,
    governing_token_owner: Seq<u8>,
    token_owner_record_address: Seq<u8>,
    token_owner_record_info: AccountView,
    governing_token_mint: Seq<u8>,
    payer: AccountView,
    rent_exempt_minimum: u64,
)
    requires
        realm_info.owner == program_id,
        parse_realm(realm_info.data) == Some(realm),
        !realm_accepts_mint(realm, governing_token_mint),
    ensures
        ({
            let p = process_spec(
                program_id,
                realm_address,
                realm_info,
                governing_token_owner,
                token_owner_record_address,
                token_owner_record_info,
                governing_token_mint,
                payer,
                rent_exempt_minimum,
            );
            &&& p.result == Err::<(), GovernanceError>(GovernanceError::InvalidGoverningTokenMint)
            &&& p.token_owner_record == token_owner_record_info
            &&& p.payer == payer
        }),
{
}

/// Address binding: even with a well-formed realm, an accepted mint and
/// an unoccupied target, a caller-claimed target address that is not
/// the derived address for the (realm, mint, owner) seeds fails with
/// `InvalidAccountAddress` and touches neither account.
pub proof fn lemma_address_binding(
    program_id: Seq<u8>,
    realm_address: Seq<u8>,
    realm_info: AccountView,
    realm: RealmView,
    governing_token_owner: Seq<u8>,
    token_owner_record_address: Seq<u8>,
    token_owner_record_info: AccountView,
    governing_token_mint: Seq<u8>,
    payer: AccountView,
    rent_exempt_minimum: u64,
)
    requires
        realm_info.owner == program_id,
        parse_realm(realm_info.data) == Some(realm),
        realm_accepts_mint(realm, governing_token_mint),
        token_owner_record_info.data.len() == 0,
        derivation_of(
            token_owner_record_seeds(realm_address, governing_token_mint, governing_token_owner),
            program_id,
        ) matches Some(derived) && derived.0 != token_owner_record_address,
    ensures
        ({
            let p = process_spec(
                program_id,
                realm_address,
                realm_info,
                governing_token_owner,
                token_owner_record_address,
                token_owner_record_info,
                governing_token_mint,
                payer,
                rent_exempt_minimum,
            );
            &&& p.result == Err::<(), GovernanceError>(GovernanceError::InvalidAccountAddress)
            &&& p.token_owner_record == token_owner_record_info
            &&& p.payer == payer
        }),
{
}

} // verus!

use vstd::prelude::*;

use crate::accounts::{AccountData, AccountView};
use crate::addresses::{derivation_of, seeds_view, try_find_program_address};
use crate::error::GovernanceError;
use crate::pubkey::{pubkey_eq, Pubkey};
use crate::token_owner_record::{serialize_token_owner_record, serialized_token_owner_record,
    TokenOwnerRecord};

verus! {

/// What materializing a record decides: the result surfaced to the
/// caller, and the payer and target accounts as they stand afterwards.
#[verifier::ext_equal]
pub ghost struct MaterializeView {
    pub result: Result<(), GovernanceError>,
    pub payer: AccountView,
    pub account: AccountView,
}

/// The whole behaviour of the account materializer.  In order: the
/// address derived from `seeds` must match the caller-claimed address;
/// the target must be unoccupied; the payer must cover what the target
/// still lacks of the storage-exempt balance.  On success the payer is
/// debited by exactly that shortfall, and the target is credited it,
/// handed to the program and filled with `record_bytes`.  On failure
/// neither account changes.
pub open spec fn materialize_spec(
    payer: AccountView,
    account_address: Seq<u8>,
    account: AccountView,
    record_bytes: Seq<u8>,
    seeds: Seq<Seq<u8>>,
    program_id: Seq<u8>,
    rent_exempt_minimum: u64,
) -> MaterializeView {
    match derivation_of(seeds, program_id) {
        None => MaterializeView {
            result: Err(GovernanceError::AddressDerivationExhausted),
            payer,
            account,
        },
        Some(derived) => if derived.0 != account_address {
            MaterializeView { result: Err(GovernanceError::InvalidAccountAddress), payer, account }
        } else if account.data.len() != 0 {
            MaterializeView {
                result: Err(GovernanceError::TokenOwnerRecordAlreadyExists),
                payer,
                account,
            }
        } else {
            let needed: int = if rent_exempt_minimum > account.lamports {
                rent_exempt_minimum - account.lamports
            } else {
                0
            };
            if payer.lamports < needed {
                MaterializeView { result: Err(GovernanceError::InsufficientFunds), payer, account }
            } else {
                MaterializeView {
                    result: Ok(()),
                    payer: AccountView {
                        lamports: (payer.lamports - needed) as u64,
                        owner: payer.owner,
                        data: payer.data,
                    },
                    account: AccountView {
                        lamports: (account.lamports + needed) as u64,
                        owner: program_id,
                        data: record_bytes,
                    },
                }
            }
        },
    }
}

/// Materializes `record` at the storage address derived from `seeds`:
/// verifies the caller-claimed address against the derivation, checks
/// the target is unoccupied, funds it from `payer` up to
/// `rent_exempt_minimum`, hands it to the program and persists the
/// record's bytes.  All or nothing: on any failure both accounts are
/// left exactly as they were.
pub fn create_and_serialize_account_signed(
    payer_info: &mut AccountData,
    account_address: &Pubkey,
    account_info: &mut AccountData,
    record: &TokenOwnerRecord,
    seeds: &Vec<Vec<u8>>,
    program_id: &Pubkey,
    rent_exempt_minimum: u64,
) -> (r: Result<(), GovernanceError>)
    ensures
        ({
            let m = materialize_spec(
                old(payer_info)@,
                account_address@,
                old(account_info)@,
                serialized_token_owner_record(*record),
                seeds_view(seeds@),
                program_id@,
                rent_exempt_minimum,
            );
            r == m.result && final(payer_info)@ == m.payer && final(account_info)@ == m.account
        }),
{
    let derived = try_find_program_address(seeds, program_id);
    match derived {
        None => Err(GovernanceError::AddressDerivationExhausted),
        Some(found) => {
            if !pubkey_eq(&found.0, account_address) {
                return Err(GovernanceError::InvalidAccountAddress);
            }
            if account_info.data.len() != 0 {
                return Err(GovernanceError::TokenOwnerRecordAlreadyExists);
            }
            let needed: u64 = if rent_exempt_minimum > account_info.lamports {
                rent_exempt_minimum - account_info.lamports
            } else {
                0
            };
            if payer_info.lamports < needed {
                return Err(GovernanceError::InsufficientFunds);
            }
            payer_info.lamports = payer_info.lamports - needed;
            account_info.lamports = account_info.lamports + needed;
            account_info.owner = *program_id;
            account_info.data = serialize_token_owner_record(record);
            Ok(())
        },
    }
}

} // verus!

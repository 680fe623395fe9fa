use governance::enums::GovernanceAccountType;
use governance::error::GovernanceError;
use governance::pubkey::{pubkey_eq, Pubkey};
use governance::realm::{get_realm_data, serialize_realm, RealmData};
use governance::token_owner_record::{new_record, serialize_token_owner_record, TokenOwnerRecord};

use governance::accounts::AccountData;

fn key(b: u8) -> Pubkey {
    Pubkey([b; 32])
}

fn realm_account(program: &Pubkey, realm: &RealmData) -> AccountData {
    AccountData { lamports: 1, owner: *program, data: serialize_realm(realm) }
}

#[test]
fn pubkey_eq_compares_bytes() {
    assert!(pubkey_eq(&key(5), &key(5)));
    assert!(!pubkey_eq(&key(5), &key(6)));
    let mut almost = [7u8; 32];
    almost[31] = 8;
    assert!(!pubkey_eq(&Pubkey(almost), &key(7)));
}

#[test]
fn new_record_is_zero_initialized() {
    let r = new_record(key(1), key(2), key(3));
    assert_eq!(r.account_type, GovernanceAccountType::TokenOwnerRecord);
    assert_eq!(r.realm, key(1));
    assert_eq!(r.governing_token_owner, key(2));
    assert_eq!(r.governing_token_mint, key(3));
    assert_eq!(r.governing_token_deposit_amount, 0);
    assert_eq!(r.governance_delegate, None);
    assert_eq!(r.unrelinquished_votes_count, 0);
    assert_eq!(r.total_votes_count, 0);
    assert_eq!(r.outstanding_proposal_count, 0);
    assert_eq!(r.reserved, [0u8; 7]);
}

#[test]
fn record_serializes_to_fixed_layout() {
    let record = TokenOwnerRecord {
        account_type: GovernanceAccountType::TokenOwnerRecord,
        realm: key(1),
        governing_token_owner: key(2),
        governing_token_deposit_amount: 0x0102030405060708,
        governing_token_mint: key(3),
        governance_delegate: Some(key(4)),
        unrelinquished_votes_count: 1,
        total_votes_count: 0x1122334455667788,
        outstanding_proposal_count: 0x01020304,
        reserved: [0; 7],
    };
    let bytes = serialize_token_owner_record(&record);
    let mut expected: Vec<u8> = Vec::new();
    expected.push(2);
    expected.extend_from_slice(&[1; 32]);
    expected.extend_from_slice(&[2; 32]);
    expected.extend_from_slice(&[8, 7, 6, 5, 4, 3, 2, 1]);
    expected.extend_from_slice(&[3; 32]);
    expected.push(1);
    expected.extend_from_slice(&[4; 32]);
    expected.extend_from_slice(&[1, 0, 0, 0, 0, 0, 0, 0]);
    expected.extend_from_slice(&[0x88, 0x77, 0x66, 0x55, 0x44, 0x33, 0x22, 0x11]);
    expected.extend_from_slice(&[4, 3, 2, 1]);
    expected.extend_from_slice(&[0; 7]);
    assert_eq!(bytes, expected);
    assert_eq!(bytes.len(), 165);
}

#[test]
fn fresh_record_serialized_length() {
    let bytes = serialize_token_owner_record(&new_record(key(1), key(2), key(3)));
    assert_eq!(bytes.len(), 133);
    assert_eq!(bytes[0], 2);
}

#[test]
fn realm_round_trips_through_its_account() {
    let program = key(9);
    let with_council =
        RealmData { community_mint: key(20), council_mint: Some(key(21)) };
    let loaded = get_realm_data(&program, &realm_account(&program, &with_council)).unwrap();
    assert_eq!(loaded, with_council);

    let without_council = RealmData { community_mint: key(20), council_mint: None };
    let loaded = get_realm_data(&program, &realm_account(&program, &without_council)).unwrap();
    assert_eq!(loaded, without_council);
}

#[test]
fn realm_with_wrong_owner_is_rejected() {
    let realm = RealmData { community_mint: key(20), council_mint: None };
    let account = realm_account(&key(8), &realm);
    assert_eq!(
        get_realm_data(&key(9), &account),
        Err(GovernanceError::InvalidRealmAccount)
    );
}

#[test]
fn realm_with_wrong_tag_is_rejected() {
    let program = key(9);
    let realm = RealmData { community_mint: key(20), council_mint: None };
    let mut account = realm_account(&program, &realm);
    account.data[0] = 2;
    assert_eq!(
        get_realm_data(&program, &account),
        Err(GovernanceError::InvalidRealmAccount)
    );
}

#[test]
fn empty_or_truncated_realm_is_rejected() {
    let program = key(9);
    let empty = AccountData { lamports: 1, owner: program, data: Vec::new() };
    assert_eq!(
        get_realm_data(&program, &empty),
        Err(GovernanceError::InvalidRealmAccount)
    );
    let realm = RealmData { community_mint: key(20), council_mint: None };
    let mut truncated = realm_account(&program, &realm);
    truncated.data.pop();
    assert_eq!(
        get_realm_data(&program, &truncated),
        Err(GovernanceError::InvalidRealmAccount)
    );
}

#[test]
fn realm_with_inconsistent_council_flag_is_rejected() {
    let program = key(9);
    let realm = RealmData { community_mint: key(20), council_mint: None };
    let mut account = realm_account(&program, &realm);
    account.data[33] = 1;
    assert_eq!(
        get_realm_data(&program, &account),
        Err(GovernanceError::InvalidRealmAccount)
    );
}

#[test]
fn realm_accepts_its_mints_and_no_other() {
    let realm = RealmData { community_mint: key(20), council_mint: Some(key(21)) };
    assert!(realm.assert_is_valid_governing_token_mint(&key(20)).is_ok());
    assert!(realm.assert_is_valid_governing_token_mint(&key(21)).is_ok());
    assert_eq!(
        realm.assert_is_valid_governing_token_mint(&key(22)),
        Err(GovernanceError::InvalidGoverningTokenMint)
    );
    let no_council = RealmData { community_mint: key(20), council_mint: None };
    assert_eq!(
        no_council.assert_is_valid_governing_token_mint(&key(21)),
        Err(GovernanceError::InvalidGoverningTokenMint)
    );
}

use vstd::prelude::*;

use crate::accounts::AccountData;
use crate::enums::{account_type_tag, account_type_to_byte, GovernanceAccountType};
use crate::error::GovernanceError;
use crate::layout::push_bytes;
use crate::pubkey::{pubkey_eq, Pubkey};

verus! {

/// The mathematical view of a realm's persisted configuration: which
/// mints it accepts as governing tokens.
#[verifier::ext_equal]
pub ghost struct RealmView {
    pub community_mint: Seq<u8>,
    pub council_mint: Option<Seq<u8>>,
}

/// A realm's configuration as read back from its account: the community
/// mint it always accepts, and the council mint it may also accept.
#[derive(Clone, Copy, Debug, PartialEq, Eq)]
pub struct RealmData {
    pub community_mint: Pubkey,
    pub council_mint: Option<Pubkey>,
}

impl View for RealmData {
    type V = RealmView;

    open spec fn view(&self) -> RealmView {
        RealmView {
            community_mint: self.community_mint@,
            council_mint: match self.council_mint {
                None => None,
                Some(c) => Some(c@),
            },
        }
    }
}

/// Whether `realm` accepts `mint` as a governing token mint: it is the
/// realm's community mint or its council mint.
pub open spec fn realm_accepts_mint(realm: RealmView, mint: Seq<u8>) -> bool {
    realm.community_mint == mint || realm.council_mint == Some(mint)
}

/// The realm configuration that `data` holds, if `data` is a well-formed
/// persisted realm: the realm's account-type tag, the community mint,
/// and a present-or-absent council mint, nothing more.
pub open spec fn parse_realm(data: Seq<u8>) -> Option<RealmView> {
    if data.len() == 34 && data[0] == account_type_tag(GovernanceAccountType::Realm) && data[33]
        == 0u8 {
        Some(RealmView { community_mint: data.subrange(1, 33), council_mint: None })
    } else if data.len() == 66 && data[0] == account_type_tag(GovernanceAccountType::Realm)
        && data[33] == 1u8 {
        Some(RealmView { community_mint: data.subrange(1, 33), council_mint: Some(data.subrange(34, 66)) })
    } else {
        None
    }
}

/// The fixed binary form under which a realm configuration is persisted.
pub open spec fn serialized_realm(realm: RealmView) -> Seq<u8> {
    seq![account_type_tag(GovernanceAccountType::Realm)] + realm.community_mint
        + (match realm.council_mint {
        None => seq![0u8],
        Some(c) => seq![1u8] + c,
    })
}

/// A realm view is well-formed when its mints are fixed-width
/// identities.
pub open spec fn realm_view_wf(realm: RealmView) -> bool {
    realm.community_mint.len() == 32 && match realm.council_mint {
        None => true,
        Some(c) => c.len() == 32,
    }
}

/// Reading back a persisted realm recovers exactly the configuration
/// that was written.
pub proof fn lemma_realm_round_trip(realm: RealmView)
    requires
        realm_view_wf(realm),
    ensures
        parse_realm(serialized_realm(realm)) == Some(realm),
{
    let data = serialized_realm(realm);
    match realm.council_mint {
        None => {
            assert(data.len() == 34);
            assert(data.subrange(1, 33) =~= realm.community_mint);
            assert(parse_realm(data)->0 =~= realm);
        },
        Some(c) => {
            assert(data.len() == 66);
            assert(data.subrange(1, 33) =~= realm.community_mint);
            assert(data.subrange(34, 66) =~= c);
            assert(parse_realm(data)->0 =~= realm);
        },
    }
}

/// Writes a realm configuration into its fixed binary form.
pub fn serialize_realm(realm: &RealmData) -> (out: Vec<u8>)
    ensures
        out@ == serialized_realm(realm@),
{
    let mut out: Vec<u8> = Vec::new();
    out.push(account_type_to_byte(GovernanceAccountType::Realm));
    push_bytes(&mut out, &realm.community_mint.0);
    match &realm.council_mint {
        None => out.push(0),
        Some(c) => {
            out.push(1);
            push_bytes(&mut out, &c.0);
        },
    }
    proof {
        assert(out@ =~= serialized_realm(realm@));
    }
    out
}

/// Copies one fixed-width identity out of a byte buffer.
fn read_pubkey(data: &Vec<u8>, start: usize) -> (r: Pubkey)
    requires
        start + 32 <= data@.len(),
    ensures
        r@ == data@.subrange(start as int, start as int + 32),
{
    let data_len = data.len();
    let mut bytes: [u8; 32] = [0; 32];
    let mut i: usize = 0;
    while i < 32
        invariant
            i <= 32,
            start + 32 <= data_len == data@.len(),
            forall|j: int| 0 <= j < i ==> bytes@[j] == data@[start + j],
        decreases 32 - i,
    {
        bytes[i] = data[start + i];
        i += 1;
    }
    proof {
        assert(bytes@ =~= data@.subrange(start as int, start as int + 32));
    }
    Pubkey(bytes)
}

/// Loads and checks the realm at `realm_info`: the account must hold
/// bytes, be owned by this program, and carry the realm account-type
/// tag; anything else is rejected as an invalid realm account.
pub fn get_realm_data(program_id: &Pubkey, realm_info: &AccountData) -> (r: Result<
    RealmData,
    GovernanceError,
>)
    ensures
        r is Ok <==> realm_info@.owner == program_id@ && parse_realm(realm_info@.data) is Some,
        r matches Ok(rd) ==> parse_realm(realm_info@.data) == Some(rd@),
        r is Err ==> r == Err::<RealmData, GovernanceError>(GovernanceError::InvalidRealmAccount),
{
    if !pubkey_eq(&realm_info.owner, program_id) {
        return Err(GovernanceError::InvalidRealmAccount);
    }
    let n = realm_info.data.len();
    if n != 34 && n != 66 {
        return Err(GovernanceError::InvalidRealmAccount);
    }
    if realm_info.data[0] != account_type_to_byte(GovernanceAccountType::Realm) {
        return Err(GovernanceError::InvalidRealmAccount);
    }
    let council_flag = realm_info.data[33];
    if n == 34 && council_flag != 0 {
        return Err(GovernanceError::InvalidRealmAccount);
    }
    if n == 66 && council_flag != 1 {
        return Err(GovernanceError::InvalidRealmAccount);
    }
    let community_mint = read_pubkey(&realm_info.data, 1);
    let council_mint = if n == 66 {
        Some(read_pubkey(&realm_info.data, 34))
    } else {
        None
    };
    let rd = RealmData { community_mint, council_mint };
    proof {
        assert(parse_realm(realm_info@.data)->0 =~= rd@);
    }
    Ok(rd)
}

impl RealmData {
    /// Checks that `governing_token_mint` is a mint this realm accepts.
    pub fn assert_is_valid_governing_token_mint(&self, governing_token_mint: &Pubkey) -> (r:
        Result<(), GovernanceError>)
        ensures
            r is Ok <==> realm_accepts_mint(self@, governing_token_mint@),
            r is Err ==> r == Err::<(), GovernanceError>(GovernanceError::InvalidGoverningTokenMint),
    {
        if pubkey_eq(&self.community_mint, governing_token_mint) {
            return Ok(());
        }
        match &self.council_mint {
            Some(c) => {
                if pubkey_eq(c, governing_token_mint) {
                    return Ok(());
                }
            },
            None => {},
        }
        Err(GovernanceError::InvalidGoverningTokenMint)
    }
}

} // verus!

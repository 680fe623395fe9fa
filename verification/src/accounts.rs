use vstd::prelude::*;

use crate::pubkey::Pubkey;

verus! {

/// The mathematical view of one ledger account: its balance, the program
/// that owns it, and its stored bytes.
#[verifier::ext_equal]
pub ghost struct AccountView {
    pub lamports: u64,
    pub owner: Seq<u8>,
    pub data: Seq<u8>,
}

/// One ledger account as this library models it.  The surrounding runtime
/// hands accounts in and writes them back; the library only decides how
/// their balances, owners and bytes change.
pub struct AccountData {
    /// The balance the account holds, in the ledger's native unit.
    pub lamports: u64,
    /// The program that owns (may write) the account.
    pub owner: Pubkey,
    /// The bytes stored at the account; empty while unoccupied.
    pub data: Vec<u8>,
}

impl View for AccountData {
    type V = AccountView;

    open spec fn view(&self) -> AccountView {
        AccountView { lamports: self.lamports, owner: self.owner@, data: self.data@ }
    }
}

} // verus!

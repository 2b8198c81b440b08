//! Accounts as a hook receives them on the raw path: an address and the
//! bytes stored under it, in a flat list indexed by position.

use crate::address::Address;
use vstd::prelude::*;

verus! {

/// One account of the flat list: its address and its stored bytes.
#[derive(Debug, PartialEq, Eq)]
pub struct AccountHandle {
    pub key: Address,
    pub data: Vec<u8>,
}

/// What an account handle stands for.
pub struct AccountView {
    pub key: Address,
    pub data: Seq<u8>,
}

impl View for AccountHandle {
    type V = AccountView;

    open spec fn view(&self) -> AccountView {
        AccountView { key: self.key, data: self.data@ }
    }
}

impl Clone for AccountHandle {
    fn clone(&self) -> (copy: AccountHandle)
        ensures
            copy@ == self@,
    {
        let data = self.data.clone();
        assert(data@ =~= self.data@);
        AccountHandle { key: self.key, data }
    }
}

/// The views of the accounts of a list, in the order of the list.
pub open spec fn account_views(accounts: Seq<AccountHandle>) -> Seq<AccountView> {
    accounts.map_values(|account: AccountHandle| account@)
}

} // verus!

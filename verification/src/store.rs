//! The document store that keeps the accounts: how the service reaches it,
//! and what the service relies on it to do, stated over a map from
//! identifiers to accounts.

use crate::account::{AccountView, UpdateAccountView};
use vstd::prelude::*;

verus! {

/// The store failed to carry out a call.
#[derive(Clone, Copy, Debug, PartialEq, Eq)]
pub struct StoreFault {}

/// How the service reaches its store.
#[derive(Clone, Debug, PartialEq, Eq)]
pub struct StoreSettings {
    /// The database that holds the collection.
    pub database: String,
    /// The collection that holds the accounts.
    pub collection: String,
    /// Whether the client tries a failed write once more.
    pub retry_writes: bool,
    /// Whether the client tries a failed read once more.
    pub retry_reads: bool,
}

impl StoreSettings {
    /// The settings of the service. The client retries neither writes nor
    /// reads, so that a failure of the store shows at once.
    pub fn new() -> (settings: StoreSettings)
        ensures
            settings.database@ == "Example"@,
            settings.collection@ == "Accounts"@,
            !settings.retry_writes,
            !settings.retry_reads,
    {
        StoreSettings {
            database: "Example".to_owned(),
            collection: "Accounts".to_owned(),
            retry_writes: false,
            retry_reads: false,
        }
    }
}

/// The accounts that a store holds, each under its identifier.
pub type Accounts = Map<Seq<u8>, AccountView>;

/// Whether every account is kept under an identifier of twelve bytes and
/// carries that identifier itself.
pub open spec fn well_formed(accounts: Accounts) -> bool {
    forall|id: Seq<u8>| #[trigger]
        accounts.contains_key(id) ==> id.len() == 12 && accounts[id].id == Some(id)
}

/// The store after it took in `document` and assigned it `id`.
pub open spec fn insert_one(accounts: Accounts, id: Seq<u8>, document: AccountView) -> Accounts {
    accounts.insert(id, document.with_id(id))
}

/// The account that the store holds under `id`, if any.
pub open spec fn find_one(accounts: Accounts, id: Seq<u8>) -> Option<AccountView> {
    if accounts.contains_key(id) {
        Some(accounts[id])
    } else {
        None
    }
}

/// The store after `fields` were written over the account under `id`. A
/// store that holds no such account stays as it is.
pub open spec fn update_one(accounts: Accounts, id: Seq<u8>, fields: UpdateAccountView) -> Accounts {
    if accounts.contains_key(id) {
        accounts.insert(id, fields.merged_into(accounts[id]))
    } else {
        accounts
    }
}

} // verus!

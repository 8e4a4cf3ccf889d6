//! Accounts, and the partial accounts that update them.

use crate::id::AccountId;
use vstd::prelude::*;

verus! {

/// An account as a client sends it and as the store keeps it. The store
/// assigns `id`; it is absent until then.
#[derive(Clone, Debug, PartialEq, Eq)]
pub struct Account {
    pub id: Option<AccountId>,
    pub email: String,
    pub first_name: String,
    pub last_name: String,
}

/// What an [`Account`] holds.
pub ghost struct AccountView {
    pub id: Option<Seq<u8>>,
    pub email: Seq<char>,
    pub first_name: Seq<char>,
    pub last_name: Seq<char>,
}

/// The bytes of an identifier that may be absent.
pub open spec fn id_view(id: Option<AccountId>) -> Option<Seq<u8>> {
    match id {
        Some(id) => Some(id@),
        None => None,
    }
}

/// The characters of a text that may be absent.
pub open spec fn text_view(text: Option<String>) -> Option<Seq<char>> {
    match text {
        Some(text) => Some(text@),
        None => None,
    }
}

impl View for Account {
    type V = AccountView;

    open spec fn view(&self) -> AccountView {
        AccountView {
            id: id_view(self.id),
            email: self.email@,
            first_name: self.first_name@,
            last_name: self.last_name@,
        }
    }
}

impl AccountView {
    /// The same account with no identifier.
    pub open spec fn without_id(self) -> AccountView {
        AccountView { id: None, ..self }
    }

    /// The same account under the identifier `id`.
    pub open spec fn with_id(self, id: Seq<u8>) -> AccountView {
        AccountView { id: Some(id), ..self }
    }

    /// Whether two accounts agree in every field but the identifier.
    pub open spec fn same_fields(self, other: AccountView) -> bool {
        &&& self.email == other.email
        &&& self.first_name == other.first_name
        &&& self.last_name == other.last_name
    }
}

impl Account {
    /// The same account with no identifier.
    pub fn without_id(self) -> (account: Account)
        ensures
            account@ == self@.without_id(),
    {
        Account { id: None, email: self.email, first_name: self.first_name, last_name: self.last_name }
    }

    /// The same account under the identifier `id`.
    pub fn with_id(self, id: AccountId) -> (account: Account)
        ensures
            account@ == self@.with_id(id@),
    {
        Account {
            id: Some(id),
            email: self.email,
            first_name: self.first_name,
            last_name: self.last_name,
        }
    }
}

/// A partial account: the fields to write over a stored account. A field
/// that is absent leaves the stored one as it is.
#[derive(Clone, Debug, PartialEq, Eq)]
pub struct UpdateAccount {
    pub id: Option<AccountId>,
    pub email: Option<String>,
    pub first_name: Option<String>,
    pub last_name: Option<String>,
}

/// What an [`UpdateAccount`] holds.
pub ghost struct UpdateAccountView {
    pub id: Option<Seq<u8>>,
    pub email: Option<Seq<char>>,
    pub first_name: Option<Seq<char>>,
    pub last_name: Option<Seq<char>>,
}

impl View for UpdateAccount {
    type V = UpdateAccountView;

    open spec fn view(&self) -> UpdateAccountView {
        UpdateAccountView {
            id: id_view(self.id),
            email: text_view(self.email),
            first_name: text_view(self.first_name),
            last_name: text_view(self.last_name),
        }
    }
}

impl UpdateAccountView {
    /// The partial account that holds no field.
    pub open spec fn empty() -> UpdateAccountView {
        UpdateAccountView { id: None, email: None, first_name: None, last_name: None }
    }

    /// The stored account after the fields held here are written over it.
    /// The identifier is never written.
    pub open spec fn merged_into(self, stored: AccountView) -> AccountView {
        AccountView {
            id: stored.id,
            email: match self.email {
                Some(email) => email,
                None => stored.email,
            },
            first_name: match self.first_name {
                Some(first_name) => first_name,
                None => stored.first_name,
            },
            last_name: match self.last_name {
                Some(last_name) => last_name,
                None => stored.last_name,
            },
        }
    }
}

impl UpdateAccount {
    /// The partial account that holds no field.
    pub fn empty() -> (update: UpdateAccount)
        ensures
            update@ == UpdateAccountView::empty(),
    {
        UpdateAccount { id: None, email: None, first_name: None, last_name: None }
    }

    /// Writes the fields held here over `stored`, and leaves the others, and
    /// the identifier, as they are.
    pub fn merge_into(self, stored: Account) -> (account: Account)
        ensures
            account@ == self@.merged_into(stored@),
    {
        Account {
            id: stored.id,
            email: match self.email {
                Some(email) => email,
                None => stored.email,
            },
            first_name: match self.first_name {
                Some(first_name) => first_name,
                None => stored.first_name,
            },
            last_name: match self.last_name {
                Some(last_name) => last_name,
                None => stored.last_name,
            },
        }
    }
}

} // verus!

//! What each request comes to when its steps are run against a store that
//! does what the service relies on, and the laws of the service, stated of
//! that and proved.

use crate::account::{AccountView, UpdateAccountView};
use crate::id::{id_bytes, id_text, is_id_text, lemma_text_round_trip};
use crate::response::{invalid_request_error, not_found_error, ResponseView};
use crate::service::{
    create_document, create_response, read_plan, read_response, update_plan, ReadStepView,
    UpdateStepView,
};
use crate::store::{find_one, insert_one, update_one, well_formed, Accounts};
use vstd::prelude::*;

verus! {

/// A creation run against `accounts`, where the store assigns `id`: the
/// store afterwards, and the response.
pub open spec fn create_served(accounts: Accounts, account: AccountView, id: Seq<u8>) -> (
    Accounts,
    ResponseView,
) {
    let document = create_document(account);
    (insert_one(accounts, id, document), create_response(document, id))
}

/// A read run against `accounts`: the response.
pub open spec fn read_served(accounts: Accounts, id: Seq<char>) -> ResponseView {
    match read_plan(id) {
        ReadStepView::Find(key) => read_response(find_one(accounts, key)),
        ReadStepView::Respond(response) => response,
    }
}

/// An update run against `accounts`: the store afterwards, and the
/// response, which is that of a read after the write.
pub open spec fn update_served(accounts: Accounts, id: Seq<char>, account: UpdateAccountView) -> (
    Accounts,
    ResponseView,
) {
    match update_plan(id, account) {
        UpdateStepView::Write(key, fields) => {
            let written = update_one(accounts, key, fields);
            (written, read_served(written, id))
        },
        UpdateStepView::Respond(response) => (accounts, response),
    }
}

/// Creations and updates keep a store well formed: what is stored always
/// carries the identifier it is stored under, and an update neither adds
/// an account nor takes one away.
pub proof fn lemma_requests_keep_well_formed(
    accounts: Accounts,
    account: AccountView,
    assigned: Seq<u8>,
    id: Seq<char>,
    update: UpdateAccountView,
)
    requires
        well_formed(accounts),
        assigned.len() == 12,
    ensures
        well_formed(create_served(accounts, account, assigned).0),
        well_formed(update_served(accounts, id, update).0),
        update_served(accounts, id, update).0.dom() == accounts.dom(),
{
    let after = update_served(accounts, id, update).0;
    assert(after.dom() =~= accounts.dom());
}

/// Two creations, one after the other, answer with different identifiers,
/// also where the two bodies are the same; each is the one that the store
/// assigned, and the text that names it is not empty.
pub proof fn lemma_created_ids_differ(
    accounts: Accounts,
    first: AccountView,
    second: AccountView,
    first_id: Seq<u8>,
    second_id: Seq<u8>,
)
    requires
        first_id.len() == 12,
        second_id.len() == 12,
        !accounts.contains_key(first_id),
        !create_served(accounts, first, first_id).0.contains_key(second_id),
    ensures
        ({
            let (after, first_response) = create_served(accounts, first, first_id);
            let (_, second_response) = create_served(after, second, second_id);
            &&& first_response matches ResponseView::Success(one)
            &&& second_response matches ResponseView::Success(other)
            &&& one.id == Some(first_id)
            &&& other.id == Some(second_id)
            &&& one.id != other.id
            &&& id_text(first_id).len() > 0
            &&& id_text(second_id).len() > 0
            &&& id_text(first_id) != id_text(second_id)
        }),
{
    lemma_text_round_trip(first_id);
    lemma_text_round_trip(second_id);
}

/// An identifier sent with a creation has no part in it: the store and the
/// response come out as for the same body without one, and the account is
/// stored and returned under the identifier that the store assigned, which
/// is not the one sent unless the store assigned that very value.
pub proof fn lemma_sent_id_is_ignored(
    accounts: Accounts,
    account: AccountView,
    sent: Seq<u8>,
    assigned: Seq<u8>,
)
    requires
        account.id == Some(sent),
        sent != assigned,
    ensures
        create_served(accounts, account, assigned) == create_served(
            accounts,
            account.without_id(),
            assigned,
        ),
        ({
            let (after, response) = create_served(accounts, account, assigned);
            &&& response matches ResponseView::Success(created)
            &&& created.id == Some(assigned)
            &&& created.id != Some(sent)
            &&& created.same_fields(account)
            &&& after[assigned] == created
        }),
{
}

/// A read of the identifier that a creation returned answers with the
/// account created: the fields that were sent, under that identifier.
pub proof fn lemma_create_then_read(accounts: Accounts, account: AccountView, assigned: Seq<u8>)
    requires
        assigned.len() == 12,
    ensures
        ({
            let (after, response) = create_served(accounts, account, assigned);
            &&& read_served(after, id_text(assigned)) == response
            &&& response matches ResponseView::Success(created)
            &&& created.id == Some(assigned)
            &&& created.same_fields(account)
        }),
{
    lemma_text_round_trip(assigned);
}

/// An update that holds no field changes nothing: the store stays as it
/// was, the response is that of a read, and a read afterwards answers as a
/// read before.
pub proof fn lemma_empty_update_changes_nothing(accounts: Accounts, id: Seq<char>)
    ensures
        ({
            let (after, response) = update_served(accounts, id, UpdateAccountView::empty());
            &&& after == accounts
            &&& response == read_served(accounts, id)
            &&& read_served(after, id) == read_served(accounts, id)
        }),
{
    let after = update_served(accounts, id, UpdateAccountView::empty()).0;
    assert(after =~= accounts);
}

/// An update of a stored account writes the fields it holds and no other:
/// the response is the account with each field sent in place of the stored
/// one, every field not sent and the identifier as before; a read
/// afterwards answers the same; and no other account changes.
pub proof fn lemma_update_merges(accounts: Accounts, id: Seq<char>, update: UpdateAccountView)
    requires
        update.id is None,
        is_id_text(id),
        accounts.contains_key(id_bytes(id)),
    ensures
        ({
            let stored = accounts[id_bytes(id)];
            let (after, response) = update_served(accounts, id, update);
            &&& response matches ResponseView::Success(updated)
            &&& updated == update.merged_into(stored)
            &&& updated.id == stored.id
            &&& updated.email == match update.email {
                Some(email) => email,
                None => stored.email,
            }
            &&& updated.first_name == match update.first_name {
                Some(first_name) => first_name,
                None => stored.first_name,
            }
            &&& updated.last_name == match update.last_name {
                Some(last_name) => last_name,
                None => stored.last_name,
            }
            &&& read_served(after, id) == response
            &&& forall|other: Seq<u8>|
                other != id_bytes(id) ==> (#[trigger] after.contains_key(other))
                    == accounts.contains_key(other) && after[other] == accounts[other]
        }),
{
}

/// An update that holds only an email address changes the email address
/// and leaves both names as they were.
pub proof fn lemma_update_of_email_keeps_names(
    accounts: Accounts,
    id: Seq<char>,
    email: Seq<char>,
)
    requires
        is_id_text(id),
        accounts.contains_key(id_bytes(id)),
    ensures
        ({
            let update = UpdateAccountView { email: Some(email), ..UpdateAccountView::empty() };
            let stored = accounts[id_bytes(id)];
            update_served(accounts, id, update).1 == ResponseView::Success(
                AccountView { email, ..stored },
            )
        }),
{
}

/// An update that carries an identifier in its body is refused with status
/// 400, whatever the path names, and nothing is written: the store stays
/// as it was, so a read afterwards answers as a read before.
pub proof fn lemma_update_with_id_refused(
    accounts: Accounts,
    id: Seq<char>,
    update: UpdateAccountView,
    read: Seq<char>,
)
    requires
        update.id is Some,
    ensures
        ({
            let (after, response) = update_served(accounts, id, update);
            &&& response == ResponseView::InvalidRequest(invalid_request_error())
            &&& response.status() == 400
            &&& after == accounts
            &&& read_served(after, read) == read_served(accounts, read)
        }),
{
}

/// A read answers with status 404 and the code `NOT_FOUND` both for text
/// that names no identifier and for an identifier under which the store
/// holds nothing.
pub proof fn lemma_read_of_unknown_not_found(accounts: Accounts, id: Seq<char>)
    requires
        !is_id_text(id) || !accounts.contains_key(id_bytes(id)),
    ensures
        read_served(accounts, id) == ResponseView::NotFound(not_found_error()),
        read_served(accounts, id).status() == 404,
        not_found_error().error_code == "NOT_FOUND"@,
{
}

/// An update of an account that the store does not hold answers with
/// status 404 and creates nothing: the store stays as it was.
pub proof fn lemma_update_of_unknown_not_found(
    accounts: Accounts,
    id: Seq<char>,
    update: UpdateAccountView,
)
    requires
        update.id is None,
        !is_id_text(id) || !accounts.contains_key(id_bytes(id)),
    ensures
        ({
            let (after, response) = update_served(accounts, id, update);
            &&& response == ResponseView::NotFound(not_found_error())
            &&& response.status() == 404
            &&& after == accounts
        }),
{
}

} // verus!

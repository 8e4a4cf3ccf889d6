//! The three requests of the service. Each is cut at its calls to the
//! store: a function here decides what to ask of the store, the caller asks
//! it, and the next function decides on the store's answer.

use crate::account::{Account, AccountView, UpdateAccount, UpdateAccountView};
use crate::id::{id_bytes, is_id_text, AccountId};
use crate::response::{
    internal_error, invalid_request_error, not_found_error, CreateAccountResponse, ErrorResponse,
    ReadAccountResponse, ResponseView, UpdateAccountResponse,
};
use crate::store::StoreFault;
use vstd::prelude::*;

verus! {

/// What a read asks for next.
#[derive(Clone, Debug, PartialEq, Eq)]
pub enum ReadStep {
    /// Look up the account under this identifier.
    Find(AccountId),
    /// Answer at once.
    Respond(ReadAccountResponse),
}

/// What a [`ReadStep`] holds.
pub ghost enum ReadStepView {
    Find(Seq<u8>),
    Respond(ResponseView),
}

impl View for ReadStep {
    type V = ReadStepView;

    open spec fn view(&self) -> ReadStepView {
        match self {
            ReadStep::Find(id) => ReadStepView::Find(id@),
            ReadStep::Respond(response) => ReadStepView::Respond(response@),
        }
    }
}

/// What an update asks for next.
#[derive(Clone, Debug, PartialEq, Eq)]
pub enum UpdateStep {
    /// Write these fields over the account under this identifier, if the
    /// store holds one.
    Write(AccountId, UpdateAccount),
    /// Answer at once.
    Respond(UpdateAccountResponse),
}

/// What an [`UpdateStep`] holds.
pub ghost enum UpdateStepView {
    Write(Seq<u8>, UpdateAccountView),
    Respond(ResponseView),
}

impl View for UpdateStep {
    type V = UpdateStepView;

    open spec fn view(&self) -> UpdateStepView {
        match self {
            UpdateStep::Write(id, fields) => UpdateStepView::Write(id@, fields@),
            UpdateStep::Respond(response) => UpdateStepView::Respond(response@),
        }
    }
}

/// The document that a creation inserts: the account sent, without the
/// identifier that may have come with it.
pub open spec fn create_document(account: AccountView) -> AccountView {
    account.without_id()
}

/// The response to a creation whose document the store took in under `id`.
pub open spec fn create_response(document: AccountView, id: Seq<u8>) -> ResponseView {
    ResponseView::Success(document.with_id(id))
}

/// The first step of a read: text that names an identifier is looked up,
/// other text names no account.
pub open spec fn read_plan(id: Seq<char>) -> ReadStepView {
    if is_id_text(id) {
        ReadStepView::Find(id_bytes(id))
    } else {
        ReadStepView::Respond(ResponseView::NotFound(not_found_error()))
    }
}

/// The response to a read, given what the store found.
pub open spec fn read_response(found: Option<AccountView>) -> ResponseView {
    match found {
        Some(account) => ResponseView::Success(account),
        None => ResponseView::NotFound(not_found_error()),
    }
}

/// The first step of an update. An identifier in the body is refused
/// before the path is looked at; then text that names no identifier names
/// no account; else the fields are written.
pub open spec fn update_plan(id: Seq<char>, account: UpdateAccountView) -> UpdateStepView {
    if account.id is Some {
        UpdateStepView::Respond(ResponseView::InvalidRequest(invalid_request_error()))
    } else if !is_id_text(id) {
        UpdateStepView::Respond(ResponseView::NotFound(not_found_error()))
    } else {
        UpdateStepView::Write(id_bytes(id), account)
    }
}

/// Begins a creation: gives the document to insert.
pub fn create_account(account: Account) -> (document: Account)
    ensures
        document@ == create_document(account@),
{
    account.without_id()
}

/// Ends a creation, on the store's answer to the insertion of `document`:
/// the identifier it assigned, or its failure.
pub fn account_created(document: Account, inserted: Result<AccountId, StoreFault>) -> (response:
    CreateAccountResponse)
    ensures
        response@ == (match inserted {
            Ok(id) => create_response(document@, id@),
            Err(_) => ResponseView::InternalError(internal_error()),
        }),
{
    match inserted {
        Ok(id) => CreateAccountResponse::Success(document.with_id(id)),
        Err(_) => CreateAccountResponse::InternalError(ErrorResponse::internal()),
    }
}

/// Begins a read of the account that `id` names.
pub fn read_account(id: &str) -> (step: ReadStep)
    ensures
        step@ == read_plan(id@),
{
    match AccountId::parse(id) {
        Some(id) => ReadStep::Find(id),
        None => ReadStep::Respond(ReadAccountResponse::NotFound(ErrorResponse::not_found())),
    }
}

/// Ends a read, on the store's answer to the lookup: the account it found,
/// if any, or its failure.
pub fn account_read(found: Result<Option<Account>, StoreFault>) -> (response: ReadAccountResponse)
    ensures
        response@ == (match found {
            Ok(Some(account)) => read_response(Some(account@)),
            Ok(None) => read_response(None),
            Err(_) => ResponseView::InternalError(internal_error()),
        }),
{
    match found {
        Ok(Some(account)) => ReadAccountResponse::Success(account),
        Ok(None) => ReadAccountResponse::NotFound(ErrorResponse::not_found()),
        Err(_) => ReadAccountResponse::InternalError(ErrorResponse::internal()),
    }
}

/// Begins an update of the account that `id` names with the fields of
/// `account`.
pub fn update_account(id: &str, account: UpdateAccount) -> (step: UpdateStep)
    ensures
        step@ == update_plan(id@, account@),
        step matches UpdateStep::Write(_, fields) ==> fields.id is None,
{
    if account.id.is_some() {
        return UpdateStep::Respond(
            UpdateAccountResponse::InvalidRequest(ErrorResponse::invalid_request()),
        );
    }
    match AccountId::parse(id) {
        Some(id) => UpdateStep::Write(id, account),
        None => UpdateStep::Respond(UpdateAccountResponse::NotFound(ErrorResponse::not_found())),
    }
}

/// Goes on with an update, on the store's answer to the write: once the
/// store has taken the write, whether or not it met an account, the account
/// that `id` names is read again.
pub fn account_written(id: &str, written: Result<(), StoreFault>) -> (step: ReadStep)
    ensures
        step@ == (match written {
            Ok(_) => read_plan(id@),
            Err(_) => ReadStepView::Respond(ResponseView::InternalError(internal_error())),
        }),
{
    match written {
        Ok(_) => read_account(id),
        Err(_) => ReadStep::Respond(ReadAccountResponse::InternalError(ErrorResponse::internal())),
    }
}

/// Ends an update: the response to the read that followed the write is the
/// response to the update.
pub fn account_updated(read: ReadAccountResponse) -> (response: UpdateAccountResponse)
    ensures
        response@ == read@,
{
    match read {
        ReadAccountResponse::Success(account) => UpdateAccountResponse::Success(account),
        ReadAccountResponse::NotFound(error) => UpdateAccountResponse::NotFound(error),
        ReadAccountResponse::InternalError(error) => UpdateAccountResponse::InternalError(error),
    }
}

} // verus!

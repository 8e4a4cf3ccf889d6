//! The request handling of an account service, apart from its transport and
//! its database: accounts and partial accounts, their identifiers, the
//! responses, and the decisions each request takes around the calls to the
//! document store that keeps the accounts.

pub mod account;
pub mod id;
pub mod model;
pub mod response;
pub mod service;
pub mod store;

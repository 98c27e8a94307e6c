//! Request handling rules of a small demonstration web service: a login that
//! hands out signed bearer tokens, a route guarded by such a token, HTML pages
//! rendered from templates and a table listed as JSON.
//!
//! The crate holds the decisions only. Sockets, the database and the template
//! engine belong to the program that embeds it.

pub mod claims;
pub mod error;
pub mod login;
pub mod reply;
pub mod status;
pub mod token;

//! Parse, query, and modify SteamIds.
//!
//! A SteamId is a single packed 64-bit unsigned integer, divided into five
//! adjacent bit fields (least significant first): a 1-bit authentication
//! server flag, a 31-bit account number, a 20-bit instance, a 4-bit account
//! type and an 8-bit universe.  The crate offers a [`SteamIdBuilder`] to
//! construct and modify identifiers field by field, a [`SteamId`] wrapper
//! with read accessors, a parser for the three textual grammars
//! (SteamId64, SteamId2, SteamId3) and a formatter ([`IdFormat`]) that
//! renders an identifier in any of those grammars or as a profile URL.

pub mod errors;
pub mod layout;

mod account_type;
mod chat_type;
mod format;
mod instance;
mod parse;
mod steam_id;
mod text;
mod universe;

pub use account_type::AccountType;
pub use chat_type::ChatType;
pub use format::IdFormat;
pub use instance::Instance;
pub use steam_id::SteamId;
pub use steam_id::SteamIdBuilder;
pub use universe::Universe;

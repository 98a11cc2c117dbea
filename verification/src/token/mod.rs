//! The token data model: token kinds, the keyword table, and tokens.

pub mod token;
pub mod types;

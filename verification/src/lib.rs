//! Core logic of a small paste service: paste identifiers, the extended
//! attributes that carry a paste's metadata, expiry rules, upload replies and
//! the token set that guards uploads.

pub mod clock;
pub mod config;
pub mod dict;
pub mod error;
pub mod id;
pub mod paste;
pub mod paths;
pub mod text;
pub mod tokens;
pub mod upload;
pub mod util;
pub mod xattr;
pub mod recognize;

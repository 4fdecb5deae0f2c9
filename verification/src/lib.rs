//! The decisions of two small on-chain programs, stated and proved.
//!
//! The `accounts` program reports the key and the signer and writable flags of
//! the first two accounts it is given. The `data` program reads its
//! instruction's first byte as a selector and reports the bytes that follow.
//! Neither program touches the runtime here: each appends the lines it would
//! log to a `Vec<String>` and returns the program's result, so that a caller
//! can send the lines to the log and hand the result back to the runtime.

pub mod account_info;
pub mod accounts;
pub mod data;
pub mod error;
pub mod pubkey;
pub mod render;

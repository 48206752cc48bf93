//! A small verified account library: a fixed address-to-balance directory,
//! a transfer engine with explicit error variants, and a single-shot
//! instruction dispatcher, together with the string and shape utilities
//! that its callers use.

pub mod accounts;
pub mod directory;
pub mod dispatcher;
pub mod ledger;
pub mod operations;
pub mod shapes;
pub mod text;

//! Addresses as base58 strings: a list of them, and one that may be absent.

pub mod option;
pub mod vec;

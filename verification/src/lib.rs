//! Typed bindings for the Jupiter aggregator's HTTP API.
//!
//! The library builds the URLs of the requests, holds the types of requests
//! and responses, and decodes the fields that the service writes in a form
//! of its own: amounts as decimal strings, addresses as base58 strings,
//! instruction data and transactions as base64, the route map as indices
//! into a table of mints. It sends nothing: a client hands it what it
//! received, as plain values.
//!
//! - [`url`]: the URLs of the endpoints.
//! - [`quote`], [`swap`], [`instruction`], [`route_map`]: requests and
//!   responses.
//! - [`field_instruction`], [`field_pubkey`], [`field_option_pubkey`],
//!   [`field_prioritization_fee`]: the wire form of single fields.
//! - [`response`]: what an answer of the service becomes.
//! - [`text`], [`pubkey`], [`codec`], [`json`]: decimal text, addresses,
//!   base64 and binary payloads, JSON values.
//! - [`collect`]: how a list of fields fails: with its first error.
//! - [`error`]: the error type.

pub mod codec;
pub mod collect;
pub mod error;
pub mod field_instruction;
pub mod field_option_pubkey;
pub mod field_prioritization_fee;
pub mod field_pubkey;
pub mod instruction;
pub mod json;
pub mod pubkey;
pub mod quote;
pub mod response;
pub mod route_map;
pub mod swap;
pub mod text;
pub mod url;

pub use crate::codec::DecodeError;
pub use crate::error::ClientError;
pub use crate::instruction::{AccountMeta, Instruction};
pub use crate::json::JsonValue;
pub use crate::pubkey::{ParsePubkeyError, Pubkey};
pub use crate::quote::{
    FeeInfo, PlatformFee, Quote, QuoteConfig, RoutePlan, SwapInfo, SwapMode,
};
pub use crate::response::{
    maybe_jupiter_api_error, price_entry_of, program_id_to_label_from_entries,
    tokens_from_strings,
};
pub use crate::route_map::{route_map_from_response, IndexedRoute, Route};
pub use crate::swap::{
    swap_from_response, DynamicSlippage, PrioritizationFeeLamports, PriorityLevel, Swap,
    SwapInstructions, SwapRequest, SwapResponse,
};
pub use crate::url::{
    price_api_url, price_url, program_id_to_label_url, quote_api_url, quote_url, route_map_url,
    swap_instructions_url, swap_url, tokens_url,
};

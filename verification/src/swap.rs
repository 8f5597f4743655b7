//! Swaps: the request that turns a quote into a transaction, and the answer.

use vstd::prelude::*;
use crate::codec::{
    base64_decode, base64_decoded, bincode_deserialize_transaction, bincode_transaction,
};
use crate::error::ClientError;
use crate::instruction::Instruction;
use crate::pubkey::Pubkey;
use crate::quote::Quote;

verus! {

/// How the priority fee of the transaction is set.
#[derive(Clone, Copy, Debug, PartialEq, Eq, Structural)]
pub enum PrioritizationFeeLamports {
    /// The service picks the fee, capped at 5,000,000 lamports.
    Auto,
    /// This many lamports.
    Exact { lamports: u64 },
    /// The fee that the service would pick, times this factor.
    AutoMultiplier { multiplier: u64 },
    /// A tip to Jito of this many lamports.
    JitoTipLamports { lamports: u64 },
    /// The fee that fits the given level, up to the given cap.
    PriorityLevelWithMaxLamports { priority_level: PriorityLevel, max_lamports: u64 },
}

/// The levels that a priority fee can be asked at.
#[derive(Clone, Copy, Debug, PartialEq, Eq, Structural)]
pub enum PriorityLevel {
    Medium,
    High,
    VeryHigh,
}

impl PriorityLevel {
    /// The name of the level, as the service reads it.
    pub open spec fn text(self) -> Seq<char> {
        match self {
            PriorityLevel::Medium => "medium"@,
            PriorityLevel::High => "high"@,
            PriorityLevel::VeryHigh => "veryHigh"@,
        }
    }

    /// The name of the level.
    pub fn as_str(&self) -> (s: &'static str)
        ensures
            s@ == self.text(),
    {
        match self {
            PriorityLevel::Medium => "medium",
            PriorityLevel::High => "high",
            PriorityLevel::VeryHigh => "veryHigh",
        }
    }
}

/// The range in which the service may choose the slippage.
#[derive(Clone, Copy, Debug, PartialEq, Eq, Structural)]
pub struct DynamicSlippage {
    pub min_bps: u64,
    pub max_bps: u64,
}

/// A request for the transaction that carries out a quote.
#[derive(Clone, Debug)]
pub struct SwapRequest {
    pub user_public_key: Pubkey,
    pub wrap_and_unwrap_sol: Option<bool>,
    pub use_shared_accounts: Option<bool>,
    pub fee_account: Option<Pubkey>,
    pub tracking_account: Option<Pubkey>,
    /// No longer in use: set `prioritization_fee_lamports` in its place.
    pub compute_unit_price_micro_lamports: Option<u64>,
    pub prioritization_fee_lamports: PrioritizationFeeLamports,
    pub as_legacy_transaction: Option<bool>,
    pub use_token_ledger: Option<bool>,
    pub destination_token_account: Option<Pubkey>,
    pub dynamic_compute_unit_limit: Option<bool>,
    pub skip_user_accounts_rpc_calls: Option<bool>,
    pub dynamic_slippage: Option<DynamicSlippage>,
    pub quote_response: Quote,
}

impl SwapRequest {
    /// The request for `quote_response` on behalf of `user_public_key`, with
    /// every other field at its default: SOL is wrapped and unwrapped, shared
    /// accounts are used, the priority fee is left to the service, and
    /// nothing else is asked for.
    pub fn new(user_public_key: Pubkey, quote_response: Quote) -> (request: SwapRequest)
        ensures
            request == (SwapRequest {
                user_public_key,
                wrap_and_unwrap_sol: Some(true),
                use_shared_accounts: Some(true),
                fee_account: None,
                tracking_account: None,
                compute_unit_price_micro_lamports: None,
                prioritization_fee_lamports: PrioritizationFeeLamports::Auto,
                as_legacy_transaction: Some(false),
                use_token_ledger: Some(false),
                destination_token_account: None,
                dynamic_compute_unit_limit: Some(false),
                skip_user_accounts_rpc_calls: Some(false),
                dynamic_slippage: None,
                quote_response,
            }),
    {
        SwapRequest {
            user_public_key,
            wrap_and_unwrap_sol: Some(true),
            use_shared_accounts: Some(true),
            fee_account: None,
            tracking_account: None,
            compute_unit_price_micro_lamports: None,
            prioritization_fee_lamports: PrioritizationFeeLamports::Auto,
            as_legacy_transaction: Some(false),
            use_token_ledger: Some(false),
            destination_token_account: None,
            dynamic_compute_unit_limit: Some(false),
            skip_user_accounts_rpc_calls: Some(false),
            dynamic_slippage: None,
            quote_response,
        }
    }
}

/// The service's answer to a swap request, before the transaction is decoded.
#[derive(Clone, Debug)]
pub struct SwapResponse {
    /// The transaction: its binary form, in base64.
    pub swap_transaction: String,
    pub last_valid_block_height: u64,
}

/// The transaction that carries out a swap, signed in part, and the last
/// block height at which it is valid.
#[derive(Clone, Debug)]
pub struct Swap {
    pub swap_transaction: solana_sdk::transaction::VersionedTransaction,
    pub last_valid_block_height: u64,
}

/// The instructions that carry out a swap.
#[derive(Clone, Debug)]
pub struct SwapInstructions {
    pub token_ledger_instruction: Option<Instruction>,
    pub compute_budget_instructions: Vec<Instruction>,
    pub setup_instructions: Vec<Instruction>,
    pub swap_instruction: Instruction,
    pub cleanup_instruction: Option<Instruction>,
    pub address_lookup_table_addresses: Vec<Pubkey>,
    pub prioritization_fee_lamports: u64,
}

/// What becomes of the decoder's verdict on the bytes of a transaction: the
/// transaction, or the decoder's error as an error of this crate.
pub fn transaction_from_decoded(
    decoded: Result<solana_sdk::transaction::VersionedTransaction, Box<bincode::ErrorKind>>,
) -> (r: Result<solana_sdk::transaction::VersionedTransaction, ClientError>)
    ensures
        r == match decoded {
            Ok(transaction) => Ok::<
                solana_sdk::transaction::VersionedTransaction,
                ClientError,
            >(transaction),
            Err(e) => Err(ClientError::Bincode(e)),
        },
{
    match decoded {
        Ok(transaction) => Ok(transaction),
        Err(e) => Err(ClientError::Bincode(e)),
    }
}

/// What decoding a transaction from the base64 text of its binary form
/// gives: text that is no base64 gives `Base64Decode` with the decoder's
/// error; bytes that are no transaction give `Bincode` with the decoder's
/// error; else the result is the transaction that the bytes stand for.
pub open spec fn decoded_transaction(text: Seq<char>) -> Result<
    solana_sdk::transaction::VersionedTransaction,
    ClientError,
> {
    match base64_decoded(text) {
        Err(e) => Err(ClientError::Base64Decode(e)),
        Ok(bytes) => match bincode_transaction(bytes) {
            Ok(transaction) => Ok(transaction),
            Err(e) => Err(ClientError::Bincode(e)),
        },
    }
}

/// Decodes a transaction from the base64 text of its binary form, as
/// `decoded_transaction` says.
pub fn decode(base64_transaction: &str) -> (r: Result<
    solana_sdk::transaction::VersionedTransaction,
    ClientError,
>)
    ensures
        r == decoded_transaction(base64_transaction@),
{
    match base64_decode(base64_transaction) {
        Ok(bytes) => transaction_from_decoded(bincode_deserialize_transaction(bytes.as_slice())),
        Err(e) => Err(ClientError::Base64Decode(e)),
    }
}

/// The swap that a decoded transaction and a block height make.
pub fn swap_from_decoded(
    transaction: Result<solana_sdk::transaction::VersionedTransaction, ClientError>,
    last_valid_block_height: u64,
) -> (r: Result<Swap, ClientError>)
    ensures
        r == match transaction {
            Ok(swap_transaction) => Ok::<Swap, ClientError>(
                Swap { swap_transaction, last_valid_block_height },
            ),
            Err(e) => Err(e),
        },
{
    match transaction {
        Ok(swap_transaction) => Ok(Swap { swap_transaction, last_valid_block_height }),
        Err(e) => Err(e),
    }
}

/// Turns the service's answer into a swap: the transaction that its text
/// decodes to, with the block height of the answer; or the error of the
/// decoding.
pub fn swap_from_response(response: &SwapResponse) -> (r: Result<Swap, ClientError>)
    ensures
        r == match decoded_transaction(response.swap_transaction@) {
            Ok(swap_transaction) => Ok::<Swap, ClientError>(
                Swap {
                    swap_transaction,
                    last_valid_block_height: response.last_valid_block_height,
                },
            ),
            Err(e) => Err(e),
        },
{
    swap_from_decoded(
        decode(response.swap_transaction.as_str()),
        response.last_valid_block_height,
    )
}

} // verus!

//! Quotes: what is asked of the service, and what it answers.

use vstd::prelude::*;
use crate::error::ClientError;
use crate::pubkey::Pubkey;
use crate::text::str_eq;

verus! {

/// Whether a quote fixes the amount paid in or the amount received.
#[derive(Clone, Copy, Debug, PartialEq, Eq, Structural)]
pub enum SwapMode {
    ExactIn,
    ExactOut,
}

impl Default for SwapMode {
    fn default() -> (mode: SwapMode)
        ensures
            mode == SwapMode::ExactIn,
    {
        SwapMode::ExactIn
    }
}

/// The swap mode that `s` names, if it names one.
pub open spec fn parsed_swap_mode(s: Seq<char>) -> Option<SwapMode> {
    if s == "ExactIn"@ {
        Some(SwapMode::ExactIn)
    } else if s == "ExactOut"@ {
        Some(SwapMode::ExactOut)
    } else {
        None
    }
}

impl SwapMode {
    /// The name of the mode, as the service writes it.
    pub open spec fn text(self) -> Seq<char> {
        match self {
            SwapMode::ExactIn => "ExactIn"@,
            SwapMode::ExactOut => "ExactOut"@,
        }
    }

    /// Reads the name of a mode. Any other text is an error that holds the
    /// text.
    pub fn from_str(s: &str) -> (r: Result<SwapMode, ClientError>)
        ensures
            match parsed_swap_mode(s@) {
                Some(mode) => r matches Ok(m) && m == mode,
                None => r matches Err(ClientError::ParseSwapMode { value }) && value@ == s@,
            },
    {
        if str_eq(s, "ExactIn") {
            Ok(SwapMode::ExactIn)
        } else if str_eq(s, "ExactOut") {
            Ok(SwapMode::ExactOut)
        } else {
            Err(ClientError::ParseSwapMode { value: String::from_str(s) })
        }
    }

    /// The name of the mode.
    pub fn to_string(&self) -> (s: String)
        ensures
            s@ == self.text(),
    {
        match self {
            SwapMode::ExactIn => String::from_str("ExactIn"),
            SwapMode::ExactOut => String::from_str("ExactOut"),
        }
    }
}

/// Reading the name of a mode gives the mode back.
pub proof fn lemma_swap_mode_round_trip(mode: SwapMode)
    ensures
        parsed_swap_mode(mode.text()) == Some(mode),
{
    reveal_strlit("ExactIn");
    reveal_strlit("ExactOut");
    assert("ExactIn"@.len() != "ExactOut"@.len());
}

/// What a quote request may ask for besides the two mints and the amount.
/// A field that is `None` leaves its parameter out of the request.
pub struct QuoteConfig {
    pub slippage_bps: Option<u64>,
    pub swap_mode: Option<SwapMode>,
    pub dexes: Option<Vec<String>>,
    pub exclude_dexes: Option<Vec<String>>,
    pub restrict_intermediate_tokens: Option<bool>,
    pub only_direct_routes: bool,
    pub as_legacy_transaction: Option<bool>,
    pub platform_fee_bps: Option<u64>,
    pub max_accounts: Option<u64>,
    pub auto_slippage: Option<bool>,
    pub max_auto_slippage_bps: Option<u64>,
    pub auto_slippage_collision_usd_value: Option<u64>,
}

impl QuoteConfig {
    /// Whether the configuration asks for nothing: every optional field is
    /// `None`, and routes need not be direct.
    pub open spec fn is_default(&self) -> bool {
        &&& self.slippage_bps is None
        &&& self.swap_mode is None
        &&& self.dexes is None
        &&& self.exclude_dexes is None
        &&& self.restrict_intermediate_tokens is None
        &&& !self.only_direct_routes
        &&& self.as_legacy_transaction is None
        &&& self.platform_fee_bps is None
        &&& self.max_accounts is None
        &&& self.auto_slippage is None
        &&& self.max_auto_slippage_bps is None
        &&& self.auto_slippage_collision_usd_value is None
    }
}

impl Default for QuoteConfig {
    fn default() -> (config: QuoteConfig)
        ensures
            config.is_default(),
    {
        QuoteConfig {
            slippage_bps: None,
            swap_mode: None,
            dexes: None,
            exclude_dexes: None,
            restrict_intermediate_tokens: None,
            only_direct_routes: false,
            as_legacy_transaction: None,
            platform_fee_bps: None,
            max_accounts: None,
            auto_slippage: None,
            max_auto_slippage_bps: None,
            auto_slippage_collision_usd_value: None,
        }
    }
}

/// The fee that a platform takes from a swap.
#[derive(Clone, Debug)]
pub struct PlatformFee {
    pub amount: u64,
    pub fee_bps: u64,
}

/// One step of a route, and the share of the amount that takes it.
#[derive(Clone, Debug)]
pub struct RoutePlan {
    pub swap_info: SwapInfo,
    pub percent: u8,
}

/// The venue of one step of a route, and what goes in and comes out there.
#[derive(Clone, Debug)]
pub struct SwapInfo {
    pub amm_key: Pubkey,
    pub label: Option<String>,
    pub input_mint: Pubkey,
    pub output_mint: Pubkey,
    pub in_amount: u64,
    pub out_amount: u64,
    pub fee_amount: u64,
    pub fee_mint: Pubkey,
}

/// A fee, the mint it is paid in, and its rate.
#[derive(Clone, Debug)]
pub struct FeeInfo {
    pub amount: u64,
    pub mint: Pubkey,
    /// The rate in percent, in the decimal text that the service wrote.
    pub pct: String,
}

/// A priced route from one mint to another.
#[derive(Clone, Debug)]
pub struct Quote {
    pub input_mint: Pubkey,
    pub in_amount: u64,
    pub output_mint: Pubkey,
    pub out_amount: u64,
    pub other_amount_threshold: u64,
    pub swap_mode: String,
    pub slippage_bps: u64,
    pub platform_fee: Option<PlatformFee>,
    /// The price impact in percent, in the decimal text that the service
    /// wrote.
    pub price_impact_pct: String,
    pub route_plan: Vec<RoutePlan>,
    pub context_slot: Option<u64>,
    /// The seconds that the service took, in decimal text.
    pub time_taken: Option<String>,
}

} // verus!

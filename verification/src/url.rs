//! The URLs of the service's endpoints.

use vstd::prelude::*;
use crate::pubkey::{pubkey_text, Pubkey};
use crate::quote::{QuoteConfig, SwapMode};
use crate::text::{bool_text, decimal, join, joined, push_bool, push_decimal, texts};

verus! {

/// Where quotes and swaps are asked for, unless the caller says otherwise.
pub open spec fn default_quote_api_url() -> Seq<char> {
    "https://quote-api.jup.ag/v6"@
}

/// Where prices are asked for, unless the caller says otherwise.
pub open spec fn default_price_api_url() -> Seq<char> {
    "https://api.jup.ag/price/v2"@
}

/// The base URL of the quote API: `configured` where it is given, else the
/// default.
pub fn quote_api_url(configured: Option<String>) -> (url: String)
    ensures
        url@ == match configured {
            Some(given) => given@,
            None => default_quote_api_url(),
        },
{
    match configured {
        Some(given) => given,
        None => String::from_str("https://quote-api.jup.ag/v6"),
    }
}

/// The base URL of the price API: `configured` where it is given, else the
/// default.
pub fn price_api_url(configured: Option<String>) -> (url: String)
    ensures
        url@ == match configured {
            Some(given) => given@,
            None => default_price_api_url(),
        },
{
    match configured {
        Some(given) => given,
        None => String::from_str("https://api.jup.ag/price/v2"),
    }
}

/// `url`, followed by `prefix` and the value where there is one.
pub open spec fn with_param(url: Seq<char>, prefix: Seq<char>, value: Option<Seq<char>>) -> Seq<
    char,
> {
    match value {
        Some(text) => url + prefix + text,
        None => url,
    }
}

/// The text of an optional boolean.
pub open spec fn opt_bool_text(value: Option<bool>) -> Option<Seq<char>> {
    match value {
        Some(b) => Some(bool_text(b)),
        None => None,
    }
}

/// The decimal text of an optional number.
pub open spec fn opt_u64_text(value: Option<u64>) -> Option<Seq<char>> {
    match value {
        Some(n) => Some(decimal(n as nat)),
        None => None,
    }
}

/// The name of an optional swap mode.
pub open spec fn opt_mode_text(value: Option<SwapMode>) -> Option<Seq<char>> {
    match value {
        Some(mode) => Some(mode.text()),
        None => None,
    }
}

/// The items of an optional list, separated by commas.
pub open spec fn opt_list_text(value: Option<Vec<String>>) -> Option<Seq<char>> {
    match value {
        Some(items) => Some(joined(texts(items@), ","@)),
        None => None,
    }
}

/// The URL of a quote request, given the two mints as text. After the
/// parameter `onlyDirectRoutes` stands a `&` of its own, and each optional
/// parameter brings another.
pub open spec fn quote_url_text(
    base_url: Seq<char>,
    input_mint: Seq<char>,
    output_mint: Seq<char>,
    amount: u64,
    config: QuoteConfig,
) -> Seq<char> {
    let head = base_url + "/quote?inputMint="@ + input_mint + "&outputMint="@ + output_mint
        + "&amount="@ + decimal(amount as nat) + "&onlyDirectRoutes="@ + bool_text(
        config.only_direct_routes,
    ) + "&"@;
    let u1 = with_param(
        head,
        "&asLegacyTransaction="@,
        opt_bool_text(config.as_legacy_transaction),
    );
    let u2 = with_param(u1, "&swapMode="@, opt_mode_text(config.swap_mode));
    let u3 = with_param(u2, "&slippageBps="@, opt_u64_text(config.slippage_bps));
    let u4 = with_param(u3, "&feeBps="@, opt_u64_text(config.platform_fee_bps));
    let u5 = with_param(u4, "&dexes="@, opt_list_text(config.dexes));
    let u6 = with_param(u5, "&excludeDexes="@, opt_list_text(config.exclude_dexes));
    let u7 = with_param(
        u6,
        "&restrictIntermediateTokens="@,
        opt_bool_text(config.restrict_intermediate_tokens),
    );
    let u8 = with_param(u7, "&maxAccounts="@, opt_u64_text(config.max_accounts));
    let u9 = with_param(u8, "&autoSlippage="@, opt_bool_text(config.auto_slippage));
    let u10 = with_param(u9, "&maxAutoSlippageBps="@, opt_u64_text(config.max_auto_slippage_bps));
    with_param(
        u10,
        "&autoSlippageCollisionUsdValue="@,
        opt_u64_text(config.auto_slippage_collision_usd_value),
    )
}

/// A request that asks for nothing optional ends with the `&` that follows
/// `onlyDirectRoutes=false`.
pub proof fn lemma_quote_url_of_default(
    base_url: Seq<char>,
    input_mint: Seq<char>,
    output_mint: Seq<char>,
    amount: u64,
    config: QuoteConfig,
)
    requires
        config.is_default(),
    ensures
        quote_url_text(base_url, input_mint, output_mint, amount, config) == base_url
            + "/quote?inputMint="@ + input_mint + "&outputMint="@ + output_mint + "&amount="@
            + decimal(amount as nat) + "&onlyDirectRoutes=false&"@,
{
    reveal_strlit("&onlyDirectRoutes=");
    reveal_strlit("false");
    reveal_strlit("&");
    reveal_strlit("&onlyDirectRoutes=false&");
    let front = base_url + "/quote?inputMint="@ + input_mint + "&outputMint="@ + output_mint
        + "&amount="@ + decimal(amount as nat);
    assert(front + "&onlyDirectRoutes="@ + "false"@ + "&"@ =~= front + ("&onlyDirectRoutes="@
        + "false"@ + "&"@));
}

/// The URL of a price request, given the two mints and the amount as text.
pub open spec fn price_url_text(
    base_url: Seq<char>,
    input_mint: Seq<char>,
    output_mint: Seq<char>,
    ui_amount: Seq<char>,
) -> Seq<char> {
    base_url + "?ids="@ + input_mint + "&vsToken="@ + output_mint + "&amount="@ + ui_amount
}

fn push_opt_bool(out: &mut String, prefix: &str, value: Option<bool>)
    ensures
        final(out)@ == with_param(old(out)@, prefix@, opt_bool_text(value)),
{
    if let Some(b) = value {
        out.append(prefix);
        push_bool(out, b);
    }
}

fn push_opt_u64(out: &mut String, prefix: &str, value: Option<u64>)
    ensures
        final(out)@ == with_param(old(out)@, prefix@, opt_u64_text(value)),
{
    if let Some(n) = value {
        out.append(prefix);
        push_decimal(out, n);
    }
}

fn push_opt_mode(out: &mut String, prefix: &str, value: Option<SwapMode>)
    ensures
        final(out)@ == with_param(old(out)@, prefix@, opt_mode_text(value)),
{
    if let Some(mode) = value {
        out.append(prefix);
        out.append(mode.to_string().as_str());
    }
}

fn push_opt_list(out: &mut String, prefix: &str, value: &Option<Vec<String>>)
    ensures
        final(out)@ == with_param(old(out)@, prefix@, opt_list_text(*value)),
{
    if let Some(items) = value {
        out.append(prefix);
        out.append(join(items, ",").as_str());
    }
}

/// The URL of a quote request for mints that are given as text.
pub fn quote_url_from_text(
    base_url: &str,
    input_mint: &str,
    output_mint: &str,
    amount: u64,
    config: &QuoteConfig,
) -> (url: String)
    ensures
        url@ == quote_url_text(base_url@, input_mint@, output_mint@, amount, *config),
{
    let mut url = String::from_str(base_url);
    url.append("/quote?inputMint=");
    url.append(input_mint);
    url.append("&outputMint=");
    url.append(output_mint);
    url.append("&amount=");
    push_decimal(&mut url, amount);
    url.append("&onlyDirectRoutes=");
    push_bool(&mut url, config.only_direct_routes);
    url.append("&");
    push_opt_bool(&mut url, "&asLegacyTransaction=", config.as_legacy_transaction);
    push_opt_mode(&mut url, "&swapMode=", config.swap_mode);
    push_opt_u64(&mut url, "&slippageBps=", config.slippage_bps);
    push_opt_u64(&mut url, "&feeBps=", config.platform_fee_bps);
    push_opt_list(&mut url, "&dexes=", &config.dexes);
    push_opt_list(&mut url, "&excludeDexes=", &config.exclude_dexes);
    push_opt_bool(&mut url, "&restrictIntermediateTokens=", config.restrict_intermediate_tokens);
    push_opt_u64(&mut url, "&maxAccounts=", config.max_accounts);
    push_opt_bool(&mut url, "&autoSlippage=", config.auto_slippage);
    push_opt_u64(&mut url, "&maxAutoSlippageBps=", config.max_auto_slippage_bps);
    push_opt_u64(
        &mut url,
        "&autoSlippageCollisionUsdValue=",
        config.auto_slippage_collision_usd_value,
    );
    url
}

/// The URL that asks for a quote for swapping `amount` of `input_mint` into
/// `output_mint`.
pub fn quote_url(
    base_url: &str,
    input_mint: &Pubkey,
    output_mint: &Pubkey,
    amount: u64,
    config: &QuoteConfig,
) -> (url: String)
    ensures
        url@ == quote_url_text(
            base_url@,
            pubkey_text(input_mint@),
            pubkey_text(output_mint@),
            amount,
            *config,
        ),
{
    let input = input_mint.to_string();
    let output = output_mint.to_string();
    quote_url_from_text(base_url, input.as_str(), output.as_str(), amount, config)
}

/// The URL of a price request for mints that are given as text.
pub fn price_url_from_text(base_url: &str, input_mint: &str, output_mint: &str, ui_amount: &str) -> (url:
    String)
    ensures
        url@ == price_url_text(base_url@, input_mint@, output_mint@, ui_amount@),
{
    let mut url = String::from_str(base_url);
    url.append("?ids=");
    url.append(input_mint);
    url.append("&vsToken=");
    url.append(output_mint);
    url.append("&amount=");
    url.append(ui_amount);
    url
}

/// The URL that asks for the price of `input_mint` in `output_mint`.
/// `ui_amount` is the amount in the text that goes into the request.
pub fn price_url(base_url: &str, input_mint: &Pubkey, output_mint: &Pubkey, ui_amount: &str) -> (url:
    String)
    ensures
        url@ == price_url_text(
            base_url@,
            pubkey_text(input_mint@),
            pubkey_text(output_mint@),
            ui_amount@,
        ),
{
    let input = input_mint.to_string();
    let output = output_mint.to_string();
    price_url_from_text(base_url, input.as_str(), output.as_str(), ui_amount)
}

/// The URL that swap transactions are asked from.
pub fn swap_url(base_url: &str) -> (url: String)
    ensures
        url@ == base_url@ + "/swap"@,
{
    String::from_str(base_url).concat("/swap")
}

/// The URL that swap instructions are asked from.
pub fn swap_instructions_url(base_url: &str) -> (url: String)
    ensures
        url@ == base_url@ + "/swap-instructions"@,
{
    String::from_str(base_url).concat("/swap-instructions")
}

/// The URL that the labels of the programs are asked from.
pub fn program_id_to_label_url(base_url: &str) -> (url: String)
    ensures
        url@ == base_url@ + "/program-id-to-label"@,
{
    String::from_str(base_url).concat("/program-id-to-label")
}

/// The URL that the route map is asked from, with the routes that go
/// through other mints included.
pub fn route_map_url(base_url: &str) -> (url: String)
    ensures
        url@ == base_url@ + "/indexed-route-map?onlyDirectRoutes=false"@,
{
    String::from_str(base_url).concat("/indexed-route-map?onlyDirectRoutes=false")
}

/// The URL that the list of tradable mints is asked from.
pub fn tokens_url(base_url: &str) -> (url: String)
    ensures
        url@ == base_url@ + "/tokens"@,
{
    String::from_str(base_url).concat("/tokens")
}

} // verus!

use base64::Engine;
use jup_ag::field_prioritization_fee;
use jup_ag::swap::{decode, swap_from_decoded, transaction_from_decoded};
use jup_ag::{
    swap_from_response, ClientError, DynamicSlippage, JsonValue, PrioritizationFeeLamports,
    PriorityLevel, Pubkey, Quote, SwapRequest, SwapResponse,
};
use solana_sdk::transaction::VersionedTransaction;

fn quote() -> Quote {
    Quote {
        input_mint: Pubkey::new_from_array([1; 32]),
        in_amount: 1_000,
        output_mint: Pubkey::new_from_array([2; 32]),
        out_amount: 2_000,
        other_amount_threshold: 1_980,
        swap_mode: "ExactIn".to_string(),
        slippage_bps: 100,
        platform_fee: None,
        price_impact_pct: "0.01".to_string(),
        route_plan: vec![],
        context_slot: Some(5),
        time_taken: None,
    }
}

fn encoded(transaction: &VersionedTransaction) -> String {
    base64::engine::general_purpose::STANDARD.encode(bincode::serialize(transaction).unwrap())
}

#[test]
fn swap_request_starts_from_the_defaults() {
    let user = Pubkey::new_from_array([9; 32]);
    let request = SwapRequest::new(user, quote());
    assert_eq!(request.user_public_key, user);
    assert_eq!(request.wrap_and_unwrap_sol, Some(true));
    assert_eq!(request.use_shared_accounts, Some(true));
    assert_eq!(request.fee_account, None);
    assert_eq!(request.tracking_account, None);
    assert_eq!(request.compute_unit_price_micro_lamports, None);
    assert_eq!(request.prioritization_fee_lamports, PrioritizationFeeLamports::Auto);
    assert_eq!(request.as_legacy_transaction, Some(false));
    assert_eq!(request.use_token_ledger, Some(false));
    assert_eq!(request.destination_token_account, None);
    assert_eq!(request.dynamic_compute_unit_limit, Some(false));
    assert_eq!(request.skip_user_accounts_rpc_calls, Some(false));
    assert_eq!(request.dynamic_slippage, None);
}

#[test]
fn swap_request_keeps_the_quote() {
    let request = SwapRequest::new(Pubkey::new_from_array([9; 32]), quote());
    assert_eq!(request.quote_response.in_amount, 1_000);
    assert_eq!(request.quote_response.out_amount, 2_000);
    assert_eq!(request.quote_response.other_amount_threshold, 1_980);
    assert_eq!(request.quote_response.swap_mode, "ExactIn");
    assert_eq!(request.quote_response.price_impact_pct, "0.01");
    assert_eq!(request.quote_response.input_mint, Pubkey::new_from_array([1; 32]));
    assert_eq!(request.quote_response.context_slot, Some(5));
}

#[test]
fn dynamic_slippage_holds_its_range() {
    let range = DynamicSlippage { min_bps: 10, max_bps: 300 };
    assert_eq!(range.min_bps, 10);
    assert_eq!(range.max_bps, 300);
}

#[test]
fn priority_level_names() {
    assert_eq!(PriorityLevel::Medium.as_str(), "medium");
    assert_eq!(PriorityLevel::High.as_str(), "high");
    assert_eq!(PriorityLevel::VeryHigh.as_str(), "veryHigh");
}

#[test]
fn fee_auto_is_the_string_auto() {
    assert_eq!(
        field_prioritization_fee::serialize(&PrioritizationFeeLamports::Auto),
        JsonValue::String("auto".to_string())
    );
}

#[test]
fn fee_exact_is_a_bare_number() {
    assert_eq!(
        field_prioritization_fee::serialize(&PrioritizationFeeLamports::Exact { lamports: 5_000 }),
        JsonValue::Number(5_000)
    );
}

#[test]
fn fee_auto_multiplier_is_an_object() {
    assert_eq!(
        field_prioritization_fee::serialize(&PrioritizationFeeLamports::AutoMultiplier {
            multiplier: 3
        }),
        JsonValue::Object(vec![("autoMultiplier".to_string(), JsonValue::Number(3))])
    );
}

#[test]
fn fee_jito_tip_is_an_object() {
    assert_eq!(
        field_prioritization_fee::serialize(&PrioritizationFeeLamports::JitoTipLamports {
            lamports: 10_000
        }),
        JsonValue::Object(vec![("jitoTipLamports".to_string(), JsonValue::Number(10_000))])
    );
}

#[test]
fn fee_priority_level_is_a_nested_object() {
    assert_eq!(
        field_prioritization_fee::serialize(
            &PrioritizationFeeLamports::PriorityLevelWithMaxLamports {
                priority_level: PriorityLevel::VeryHigh,
                max_lamports: 4_000_000,
            }
        ),
        JsonValue::Object(vec![(
            "priorityLevelWithMaxLamports".to_string(),
            JsonValue::Object(vec![
                ("priorityLevel".to_string(), JsonValue::String("veryHigh".to_string())),
                ("maxLamports".to_string(), JsonValue::Number(4_000_000)),
            ])
        )])
    );
}

#[test]
fn swap_decodes_the_transaction() {
    let transaction = VersionedTransaction::default();
    let response =
        SwapResponse { swap_transaction: encoded(&transaction), last_valid_block_height: 123_456 };
    let swap = swap_from_response(&response).unwrap();
    assert_eq!(swap.swap_transaction, transaction);
    assert_eq!(swap.last_valid_block_height, 123_456);
}

#[test]
fn swap_decodes_a_transaction_with_a_signature() {
    let mut transaction = VersionedTransaction::default();
    transaction.signatures.push(solana_sdk::signature::Signature::from([7u8; 64]));
    let decoded = decode(&encoded(&transaction)).unwrap();
    assert_eq!(decoded.signatures.len(), 1);
    assert_eq!(decoded, transaction);
    assert_ne!(decoded, VersionedTransaction::default());
}

#[test]
fn swap_with_text_that_is_no_base64() {
    let response =
        SwapResponse { swap_transaction: "not base64!".to_string(), last_valid_block_height: 1 };
    assert!(matches!(
        swap_from_response(&response),
        Err(ClientError::Base64Decode(jup_ag::codec::DecodeError::InvalidByte(3, 32)))
    ));
    assert!(matches!(decode("A"), Err(ClientError::Base64Decode(_))));
}

#[test]
fn swap_with_bytes_that_are_no_transaction() {
    let response = SwapResponse { swap_transaction: "AQ==".to_string(), last_valid_block_height: 1 };
    assert!(matches!(swap_from_response(&response), Err(ClientError::Bincode(_))));
    assert!(matches!(decode(""), Err(ClientError::Bincode(_))));
}

#[test]
fn decoder_verdict_becomes_the_result() {
    let transaction = VersionedTransaction::default();
    assert_eq!(transaction_from_decoded(Ok(transaction.clone())).unwrap(), transaction);
    let failure = bincode::deserialize::<VersionedTransaction>(&[1]).unwrap_err();
    assert!(matches!(transaction_from_decoded(Err(failure)), Err(ClientError::Bincode(_))));
}

#[test]
fn swap_is_made_of_transaction_and_height() {
    let swap = swap_from_decoded(Ok(VersionedTransaction::default()), 77).unwrap();
    assert_eq!(swap.last_valid_block_height, 77);
    assert_eq!(swap.swap_transaction, VersionedTransaction::default());
    let error = swap_from_decoded(Err(ClientError::JupiterApi("down".to_string())), 77).unwrap_err();
    assert!(matches!(error, ClientError::JupiterApi(message) if message == "down"));
}

#[test]
fn swap_can_be_cloned() {
    let swap = swap_from_decoded(Ok(VersionedTransaction::default()), 3).unwrap();
    let copy = swap.clone();
    assert_eq!(copy.swap_transaction, swap.swap_transaction);
    assert_eq!(copy.last_valid_block_height, 3);
}

#[test]
fn swap_returns_the_transaction_as_it_was_sent() {
    let mut transaction = VersionedTransaction::default();
    transaction.signatures.push(solana_sdk::signature::Signature::from([3u8; 64]));
    transaction.signatures.push(solana_sdk::signature::Signature::from([0u8; 64]));
    let response = SwapResponse {
        swap_transaction: encoded(&transaction),
        last_valid_block_height: u64::MAX,
    };
    let swap = swap_from_response(&response).unwrap();
    assert_eq!(swap.swap_transaction, transaction);
    assert_eq!(swap.swap_transaction.signatures, transaction.signatures);
    assert_eq!(swap.swap_transaction.message, transaction.message);
    assert_eq!(swap.last_valid_block_height, u64::MAX);
}

#[test]
fn swap_is_never_made_of_bytes_that_are_no_transaction() {
    for bytes in [vec![1u8], vec![2u8; 10], vec![255u8; 3], vec![1u8; 64]] {
        let response = SwapResponse {
            swap_transaction: base64::engine::general_purpose::STANDARD.encode(&bytes),
            last_valid_block_height: 9,
        };
        assert!(matches!(swap_from_response(&response), Err(ClientError::Bincode(_))));
    }
}

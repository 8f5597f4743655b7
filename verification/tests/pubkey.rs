use jup_ag::pubkey::ParsePubkeyError;
use jup_ag::Pubkey;

const WRAPPED_SOL: &str = "So11111111111111111111111111111111111111112";

const WRAPPED_SOL_BYTES: [u8; 32] = [
    6, 155, 136, 87, 254, 171, 129, 132, 251, 104, 127, 99, 70, 24, 192, 53, 218, 196, 57, 220,
    26, 235, 59, 85, 152, 160, 240, 0, 0, 0, 0, 1,
];

#[test]
fn pubkey_keeps_its_bytes() {
    let key = Pubkey::new_from_array(WRAPPED_SOL_BYTES);
    assert_eq!(key.to_bytes(), WRAPPED_SOL_BYTES);
}

#[test]
fn pubkey_parses_base58() {
    assert_eq!(Pubkey::from_str(WRAPPED_SOL).unwrap().to_bytes(), WRAPPED_SOL_BYTES);
    assert_eq!(
        Pubkey::from_str("11111111111111111111111111111111").unwrap().to_bytes(),
        [0u8; 32]
    );
}

#[test]
fn pubkey_prints_base58() {
    assert_eq!(Pubkey::new_from_array(WRAPPED_SOL_BYTES).to_string(), WRAPPED_SOL);
    assert_eq!(Pubkey::new_from_array([0u8; 32]).to_string(), "11111111111111111111111111111111");
}

#[test]
fn pubkey_agrees_with_the_sdk() {
    let mut bytes = [0u8; 32];
    for (i, b) in bytes.iter_mut().enumerate() {
        *b = (i * 7 + 3) as u8;
    }
    let theirs = solana_sdk::pubkey::Pubkey::new_from_array(bytes);
    let ours = Pubkey::new_from_array(bytes);
    assert_eq!(ours.to_string(), theirs.to_string());
    assert_eq!(Pubkey::from_str(&theirs.to_string()).unwrap(), ours);
}

#[test]
fn pubkey_rejects_text_of_the_wrong_size() {
    assert_eq!(
        Pubkey::from_str("").unwrap_err(),
        ParsePubkeyError::WrongSize
    );
    assert_eq!(
        Pubkey::from_str("So1111111111111111111111111111111111111111234567").unwrap_err(),
        ParsePubkeyError::WrongSize
    );
    assert_eq!(
        Pubkey::from_str("abc").unwrap_err(),
        ParsePubkeyError::WrongSize
    );
}

#[test]
fn pubkey_rejects_what_is_no_base58() {
    assert_eq!(
        Pubkey::from_str("So1111111111111111111111111111111111111111O").unwrap_err(),
        ParsePubkeyError::Invalid
    );
    assert_eq!(
        Pubkey::from_str("not a pubkey").unwrap_err(),
        ParsePubkeyError::Invalid
    );
}

#[test]
fn pubkey_text_reads_back_as_the_same_key() {
    for seed in [0u8, 1, 77, 200, 255] {
        let key = Pubkey::new_from_array([seed; 32]);
        assert_eq!(Pubkey::from_str(&key.to_string()).unwrap(), key);
    }
}

#[test]
fn parse_error_has_the_message_of_the_sdk() {
    assert_eq!(ParsePubkeyError::WrongSize.to_string(), "String is the wrong size");
    assert_eq!(ParsePubkeyError::Invalid.to_string(), "Invalid Base58 string");
    assert_eq!(
        ParsePubkeyError::WrongSize.to_string(),
        solana_sdk::pubkey::ParsePubkeyError::WrongSize.to_string()
    );
    assert_eq!(
        ParsePubkeyError::Invalid.to_string(),
        solana_sdk::pubkey::ParsePubkeyError::Invalid.to_string()
    );
}

#[test]
fn parse_error_is_that_of_the_sdk() {
    for text in ["", "abc", "0", "So1111111111111111111111111111111111111111O", WRAPPED_SOL] {
        let ours = Pubkey::from_str(text).map(|key| key.to_bytes());
        let theirs = text.parse::<solana_sdk::pubkey::Pubkey>().map(|key| key.to_bytes());
        match (ours, theirs) {
            (Ok(a), Ok(b)) => assert_eq!(a, b),
            (Err(a), Err(b)) => assert_eq!(a.to_string(), b.to_string()),
            other => panic!("results differ for {:?}: {:?}", text, other),
        }
    }
}

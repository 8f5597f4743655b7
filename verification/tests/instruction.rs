use jup_ag::field_instruction::instruction::{
    deserialize, from_parts, parse_accounts, AccountMetaFields, InstructionError,
    InstructionFields,
};
use jup_ag::field_instruction::{option_instruction, vec_instruction};
use jup_ag::codec::DecodeError;
use jup_ag::pubkey::ParsePubkeyError;
use jup_ag::{AccountMeta, Instruction, Pubkey};

const PROGRAM: &str = "JUP6LkbZbjS1jKKwapdHNy74zcZ3tLUZoi5QNyVTaV4";
const USER: &str = "So11111111111111111111111111111111111111112";
const TOKEN: &str = "TokenkegQfeZyiNwAJbNbGKPFXCWuBvf9Ss623VQ5DA";

fn account(pubkey: &str, is_signer: bool, is_writable: bool) -> AccountMetaFields {
    AccountMetaFields { pubkey: pubkey.to_string(), is_signer, is_writable }
}

fn fields(program_id: &str, accounts: Vec<AccountMetaFields>, data: &str) -> InstructionFields {
    InstructionFields { accounts, data: data.to_string(), program_id: program_id.to_string() }
}

fn sample() -> InstructionFields {
    fields(PROGRAM, vec![account(USER, true, true), account(TOKEN, false, false)], "AQIDBAU=")
}

#[test]
fn instruction_decodes_every_field() {
    let instruction = deserialize(&sample()).unwrap();
    assert_eq!(
        instruction,
        Instruction {
            program_id: Pubkey::from_str(PROGRAM).unwrap(),
            accounts: vec![
                AccountMeta {
                    pubkey: Pubkey::from_str(USER).unwrap(),
                    is_signer: true,
                    is_writable: true,
                },
                AccountMeta {
                    pubkey: Pubkey::from_str(TOKEN).unwrap(),
                    is_signer: false,
                    is_writable: false,
                },
            ],
            data: vec![1, 2, 3, 4, 5],
        }
    );
}

#[test]
fn instruction_without_accounts_or_data() {
    let instruction = deserialize(&fields(PROGRAM, vec![], "")).unwrap();
    assert_eq!(instruction.accounts, vec![]);
    assert_eq!(instruction.data, Vec::<u8>::new());
}

#[test]
fn instruction_keeps_the_flags_of_each_account() {
    let instruction = deserialize(&fields(
        PROGRAM,
        vec![account(USER, false, true), account(USER, true, false)],
        "",
    ))
    .unwrap();
    assert!(!instruction.accounts[0].is_signer);
    assert!(instruction.accounts[0].is_writable);
    assert!(instruction.accounts[1].is_signer);
    assert!(!instruction.accounts[1].is_writable);
}

#[test]
fn instruction_data_is_decoded_from_base64() {
    let instruction = deserialize(&fields(PROGRAM, vec![], "aGVsbG8gd29ybGQ=")).unwrap();
    assert_eq!(instruction.data, b"hello world".to_vec());
    assert_ne!(instruction.data, b"aGVsbG8gd29ybGQ=".to_vec());
}

#[test]
fn instruction_with_a_bad_program_id() {
    let error = deserialize(&fields("not-an-address", vec![], "")).unwrap_err();
    assert_eq!(error, InstructionError::ProgramId(ParsePubkeyError::Invalid));
    assert_eq!(error.to_string(), "Error parsing programId: Invalid Base58 string");
}

#[test]
fn instruction_with_a_bad_account_key() {
    let error = deserialize(&fields(
        PROGRAM,
        vec![account(USER, true, true), account("short", false, false)],
        "",
    ))
    .unwrap_err();
    assert_eq!(error, InstructionError::Pubkey(ParsePubkeyError::WrongSize));
    assert_eq!(error.to_string(), "Error parsing pubkey: String is the wrong size");
}

#[test]
fn instruction_with_bad_data() {
    let error = deserialize(&fields(PROGRAM, vec![account(USER, true, true)], "AQID!")).unwrap_err();
    assert!(matches!(error, InstructionError::Data(_)));
    assert!(error.to_string().starts_with("Error decoding data: "));
    assert_eq!(
        error.to_string(),
        format!(
            "Error decoding data: {}",
            base64::Engine::decode(&base64::engine::general_purpose::STANDARD, "AQID!").unwrap_err()
        )
    );
}

#[test]
fn instruction_reports_the_first_field_that_fails() {
    let all_bad = fields("bad id", vec![account("bad key", false, false)], "!!");
    assert!(matches!(deserialize(&all_bad).unwrap_err(), InstructionError::ProgramId(_)));
    let keys_and_data_bad = fields(PROGRAM, vec![account("bad key", false, false)], "!!");
    assert!(matches!(deserialize(&keys_and_data_bad).unwrap_err(), InstructionError::Pubkey(_)));
    let data_bad = fields(PROGRAM, vec![account(USER, false, false)], "!!");
    assert!(matches!(deserialize(&data_bad).unwrap_err(), InstructionError::Data(_)));
}

#[test]
fn accounts_stop_at_the_first_bad_key() {
    let error = parse_accounts(&vec![
        account(USER, false, false),
        account("0OIl", false, false),
        account("", false, false),
    ])
    .unwrap_err();
    assert_eq!(error, ParsePubkeyError::Invalid);
    assert_eq!(parse_accounts(&vec![]).unwrap(), vec![]);
}

#[test]
fn parts_are_put_together_in_order_of_precedence() {
    let key = Pubkey::from_str(PROGRAM).unwrap();
    let bad_key = || Pubkey::from_str("").unwrap_err();
    let bad_data = || DecodeError::InvalidPadding;
    assert_eq!(
        from_parts(Ok(key), Ok(vec![]), Ok(vec![9])).unwrap(),
        Instruction { program_id: key, accounts: vec![], data: vec![9] }
    );
    assert_eq!(
        from_parts(Err(bad_key()), Err(ParsePubkeyError::Invalid), Err(bad_data())),
        Err(InstructionError::ProgramId(ParsePubkeyError::WrongSize))
    );
    assert_eq!(
        from_parts(Ok(key), Err(ParsePubkeyError::Invalid), Err(bad_data())),
        Err(InstructionError::Pubkey(ParsePubkeyError::Invalid))
    );
    assert_eq!(
        from_parts(Ok(key), Ok(vec![]), Err(bad_data())),
        Err(InstructionError::Data(DecodeError::InvalidPadding))
    );
}

#[test]
fn optional_instruction_that_is_absent() {
    assert_eq!(option_instruction::deserialize(None).unwrap(), None);
}

#[test]
fn optional_instruction_that_is_present() {
    let wire = sample();
    assert_eq!(
        option_instruction::deserialize(Some(&wire)).unwrap(),
        Some(deserialize(&wire).unwrap())
    );
}

#[test]
fn optional_instruction_that_fails() {
    let wire = fields("bad", vec![], "");
    let error = option_instruction::deserialize(Some(&wire)).unwrap_err();
    assert_eq!(error, InstructionError::ProgramId(ParsePubkeyError::WrongSize));
    assert_eq!(
        option_instruction::error_message(&error),
        "Error deserialize optional instruction: Error parsing programId: String is the wrong size"
    );
}

#[test]
fn list_of_instructions_in_order() {
    let first = sample();
    let second = fields(TOKEN, vec![], "/w==");
    let decoded = vec_instruction::deserialize(&vec![first.clone(), second.clone()]).unwrap();
    assert_eq!(decoded, vec![deserialize(&first).unwrap(), deserialize(&second).unwrap()]);
    assert_eq!(decoded[1].data, vec![255]);
    assert_eq!(vec_instruction::deserialize(&vec![]).unwrap(), vec![]);
}

#[test]
fn list_of_instructions_stops_at_the_first_that_fails() {
    let error = vec_instruction::deserialize(&vec![
        sample(),
        fields(PROGRAM, vec![], "%%%"),
        fields("bad id", vec![], ""),
    ])
    .unwrap_err();
    assert!(matches!(error, InstructionError::Data(_)));
    assert!(vec_instruction::error_message(&error)
        .starts_with("Error deserialize vec instruction: Error decoding data: "));
}

#[test]
fn data_error_is_that_of_the_decoder() {
    for text in ["AQID!", "!!!!", "A", "AQ", "AQ=", "AQ==", "AR==", "AQID=", "=AQI", "AQ==AQ=="] {
        let ours = deserialize(&fields(PROGRAM, vec![], text)).map(|instruction| instruction.data);
        let theirs = base64::Engine::decode(&base64::engine::general_purpose::STANDARD, text);
        match (ours, theirs) {
            (Ok(a), Ok(b)) => assert_eq!(a, b),
            (Err(InstructionError::Data(a)), Err(b)) => assert_eq!(a.to_string(), b.to_string()),
            other => panic!("results differ for {:?}: {:?}", text, other),
        }
    }
}

#[test]
fn decode_error_messages() {
    assert_eq!(DecodeError::InvalidByte(3, 61).to_string(), "Invalid symbol 61, offset 3.");
    assert_eq!(DecodeError::InvalidLength(5).to_string(), "Invalid input length: 5");
    assert_eq!(
        DecodeError::InvalidLastSymbol(1, 82).to_string(),
        "Invalid last symbol 82, offset 1."
    );
    assert_eq!(DecodeError::InvalidPadding.to_string(), "Invalid padding");
    assert_eq!(
        DecodeError::InvalidByte(1_000_000, 255).to_string(),
        base64::DecodeError::InvalidByte(1_000_000, 255).to_string()
    );
    assert_eq!(
        DecodeError::InvalidLength(0).to_string(),
        base64::DecodeError::InvalidLength(0).to_string()
    );
}

#[test]
fn instruction_error_names_the_symbol_that_is_wrong() {
    let error = deserialize(&fields(PROGRAM, vec![], "!!!!")).unwrap_err();
    assert_eq!(error, InstructionError::Data(DecodeError::InvalidByte(0, 33)));
    assert_eq!(error.to_string(), "Error decoding data: Invalid symbol 33, offset 0.");
}

fn data_error(text: &str) -> DecodeError {
    match deserialize(&fields(PROGRAM, vec![], text)).unwrap_err() {
        InstructionError::Data(e) => e,
        other => panic!("unexpected error for {:?}: {:?}", text, other),
    }
}

#[test]
fn each_kind_of_data_error() {
    assert_eq!(data_error("!!!!"), DecodeError::InvalidByte(0, 33));
    assert_eq!(data_error("AQID="), DecodeError::InvalidByte(4, 61));
    assert_eq!(data_error("A"), DecodeError::InvalidLength(1));
    assert_eq!(data_error("AR=="), DecodeError::InvalidLastSymbol(1, 82));
    assert_eq!(data_error("AQ"), DecodeError::InvalidPadding);
    assert_eq!(data_error("AQ="), DecodeError::InvalidPadding);
}

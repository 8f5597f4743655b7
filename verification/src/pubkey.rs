//! Account addresses: 32 bytes, written on the wire as base58 text.

use vstd::prelude::*;

verus! {

/// Why a text is no address.
#[derive(Clone, Copy, Debug, PartialEq, Eq, Structural)]
pub enum ParsePubkeyError {
    /// The text does not stand for 32 bytes.
    WrongSize,
    /// The text holds a character that base58 does not have.
    Invalid,
}

impl ParsePubkeyError {
    /// The message of the error.
    pub open spec fn text(self) -> Seq<char> {
        match self {
            ParsePubkeyError::WrongSize => "String is the wrong size"@,
            ParsePubkeyError::Invalid => "Invalid Base58 string"@,
        }
    }

    /// The message of the error.
    pub fn to_string(&self) -> (s: String)
        ensures
            s@ == self.text(),
    {
        parse_error_text(*self)
    }
}

/// What `str::parse` for `solana_sdk::pubkey::Pubkey` gives on `text`: the
/// 32 bytes that the text stands for in base58, or the parser's reason for
/// rejecting the text.
pub uninterp spec fn parsed_pubkey(text: Seq<char>) -> Result<Seq<u8>, ParsePubkeyError>;

/// What `to_string` of `solana_sdk::pubkey::Pubkey` gives for the address
/// made of `bytes`: its base58 text.
pub uninterp spec fn pubkey_text(bytes: Seq<u8>) -> Seq<char>;

/// Calls `str::parse` for `solana_sdk::pubkey::Pubkey`. Nothing is proved of
/// the parser: the contract only names its verdict `parsed_pubkey`, a
/// function of the text alone, and says that an accepted text gives the
/// address's bytes and a rejected one the variant of the parser's
/// `ParsePubkeyError`.
#[verifier::external_body]
fn parse_base58(s: &str) -> (r: Result<[u8; 32], ParsePubkeyError>)
    ensures
        r matches Ok(bytes) ==> parsed_pubkey(s@) is Ok && parsed_pubkey(s@)->Ok_0 == bytes@,
        r matches Err(e) ==> parsed_pubkey(s@) is Err && parsed_pubkey(s@)->Err_0 == e,
{
    match s.parse::<solana_sdk::pubkey::Pubkey>() {
        Ok(key) => Ok(key.to_bytes()),
        Err(solana_sdk::pubkey::ParsePubkeyError::WrongSize) => Err(ParsePubkeyError::WrongSize),
        Err(solana_sdk::pubkey::ParsePubkeyError::Invalid) => Err(ParsePubkeyError::Invalid),
    }
}

/// Calls `to_string` of `solana_sdk::pubkey::ParsePubkeyError`. The contract
/// states the two messages that its `Display` writes.
#[verifier::external_body]
fn parse_error_text(e: ParsePubkeyError) -> (s: String)
    ensures
        s@ == e.text(),
{
    let cause = match e {
        ParsePubkeyError::WrongSize => solana_sdk::pubkey::ParsePubkeyError::WrongSize,
        ParsePubkeyError::Invalid => solana_sdk::pubkey::ParsePubkeyError::Invalid,
    };
    cause.to_string()
}

/// Calls `to_string` of `solana_sdk::pubkey::Pubkey`, which writes the
/// address in base58. Nothing is proved of the encoder: the contract names
/// the text `pubkey_text`, a function of the bytes alone.
#[verifier::external_body]
fn base58_text(bytes: &[u8; 32]) -> (s: String)
    ensures
        s@ == pubkey_text(bytes@),
{
    solana_sdk::pubkey::Pubkey::new_from_array(*bytes).to_string()
}

/// The address of an account, a mint or a program.
#[derive(Clone, Copy, Debug, PartialEq, Eq, Hash)]
pub struct Pubkey {
    bytes: [u8; 32],
}

impl View for Pubkey {
    type V = Seq<u8>;

    closed spec fn view(&self) -> Seq<u8> {
        self.bytes@
    }
}

impl Pubkey {
    /// The address with the given bytes.
    pub fn new_from_array(bytes: [u8; 32]) -> (key: Pubkey)
        ensures
            key@ == bytes@,
    {
        Pubkey { bytes }
    }

    /// The bytes of the address.
    pub fn to_bytes(&self) -> (bytes: [u8; 32])
        ensures
            bytes@ == self@,
    {
        self.bytes
    }

    /// Parses base58 text: the address that the text stands for, or the
    /// parser's reason for rejecting it.
    pub fn from_str(s: &str) -> (r: Result<Pubkey, ParsePubkeyError>)
        ensures
            match parsed_pubkey(s@) {
                Ok(bytes) => r matches Ok(key) && key@ == bytes,
                Err(e) => r == Err::<Pubkey, ParsePubkeyError>(e),
            },
    {
        match parse_base58(s) {
            Ok(bytes) => Ok(Pubkey { bytes }),
            Err(e) => Err(e),
        }
    }

    /// The base58 text of the address.
    pub fn to_string(&self) -> (s: String)
        ensures
            s@ == pubkey_text(self@),
    {
        base58_text(&self.bytes)
    }
}

/// Every address holds 32 bytes.
pub proof fn lemma_pubkey_len(key: Pubkey)
    ensures
        key@.len() == 32,
{
}

/// Two addresses with the same bytes are the same address.
pub proof fn lemma_pubkey_ext(a: Pubkey, b: Pubkey)
    requires
        a@ == b@,
    ensures
        a == b,
{
    assert(a.bytes =~= b.bytes);
}

} // verus!

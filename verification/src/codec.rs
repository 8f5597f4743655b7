//! The byte encodings that the service wraps its payloads in: base64 text
//! around binary data, and the binary form of a transaction.

use vstd::prelude::*;
use base64::Engine;
use crate::text::decimal;

verus! {

/// Why a text is no base64.
#[derive(Clone, Copy, Debug, PartialEq, Eq, Structural)]
pub enum DecodeError {
    /// A byte that base64 does not have, or padding in the wrong place: the
    /// offset and the byte.
    InvalidByte(usize, u8),
    /// The number of symbols is not that of any encoding.
    InvalidLength(usize),
    /// The last symbol holds bits that would be thrown away: the offset and
    /// the byte.
    InvalidLastSymbol(usize, u8),
    /// The padding is missing or is not the shortest.
    InvalidPadding,
}

impl DecodeError {
    /// The message of the error.
    pub open spec fn text(self) -> Seq<char> {
        match self {
            DecodeError::InvalidByte(index, byte) => "Invalid symbol "@ + decimal(byte as nat)
                + ", offset "@ + decimal(index as nat) + "."@,
            DecodeError::InvalidLength(len) => "Invalid input length: "@ + decimal(len as nat),
            DecodeError::InvalidLastSymbol(index, byte) => "Invalid last symbol "@ + decimal(
                byte as nat,
            ) + ", offset "@ + decimal(index as nat) + "."@,
            DecodeError::InvalidPadding => "Invalid padding"@,
        }
    }

    /// The message of the error.
    pub fn to_string(&self) -> (s: String)
        ensures
            s@ == self.text(),
    {
        decode_error_text(*self)
    }
}

/// `bincode::ErrorKind`: why bytes are no transaction. The library hands it
/// on, boxed as `bincode::Error` has it, and looks at nothing inside.
#[verifier::external_type_specification]
#[verifier::external_body]
pub struct ExBincodeErrorKind(bincode::ErrorKind);

/// `solana_sdk::transaction::VersionedTransaction`: a decoded transaction.
/// The library hands it on and looks at nothing inside.
#[verifier::external_type_specification]
#[verifier::external_body]
pub struct ExVersionedTransaction(solana_sdk::transaction::VersionedTransaction);

/// `clone` of `VersionedTransaction`, which `Swap` derives its own from.
/// Nothing is claimed of the copy.
pub assume_specification[ <solana_sdk::transaction::VersionedTransaction as Clone>::clone ](
    transaction: &solana_sdk::transaction::VersionedTransaction,
) -> (copy: solana_sdk::transaction::VersionedTransaction)
;

/// What `decode` of `base64::engine::general_purpose::STANDARD` gives on
/// `text`: the bytes that the text stands for in standard, padded base64, or
/// the decoder's reason for rejecting the text.
pub uninterp spec fn base64_decoded(text: Seq<char>) -> Result<Seq<u8>, DecodeError>;

/// Calls `decode` of `base64::engine::general_purpose::STANDARD`. Nothing is
/// proved of the decoder: the contract only names its verdict
/// `base64_decoded`, a function of the text alone, and says that an accepted
/// text gives its bytes and a rejected one the variant and the fields of
/// the decoder's `DecodeError`.
#[verifier::external_body]
pub(crate) fn base64_decode(text: &str) -> (r: Result<Vec<u8>, DecodeError>)
    ensures
        r matches Ok(bytes) ==> base64_decoded(text@) is Ok && base64_decoded(text@)->Ok_0
            == bytes@,
        r matches Err(e) ==> base64_decoded(text@) is Err && base64_decoded(text@)->Err_0 == e,
{
    match base64::engine::general_purpose::STANDARD.decode(text) {
        Ok(bytes) => Ok(bytes),
        Err(base64::DecodeError::InvalidByte(i, b)) => Err(DecodeError::InvalidByte(i, b)),
        Err(base64::DecodeError::InvalidLength(n)) => Err(DecodeError::InvalidLength(n)),
        Err(base64::DecodeError::InvalidLastSymbol(i, b)) => Err(DecodeError::InvalidLastSymbol(i, b)),
        Err(base64::DecodeError::InvalidPadding) => Err(DecodeError::InvalidPadding),
    }
}

/// Calls `to_string` of `base64::DecodeError`. The contract states the four
/// messages that its `Display` writes, with the numbers in decimal.
#[verifier::external_body]
fn decode_error_text(e: DecodeError) -> (s: String)
    ensures
        s@ == e.text(),
{
    let cause = match e {
        DecodeError::InvalidByte(i, b) => base64::DecodeError::InvalidByte(i, b),
        DecodeError::InvalidLength(n) => base64::DecodeError::InvalidLength(n),
        DecodeError::InvalidLastSymbol(i, b) => base64::DecodeError::InvalidLastSymbol(i, b),
        DecodeError::InvalidPadding => base64::DecodeError::InvalidPadding,
    };
    cause.to_string()
}

/// What `bincode::deserialize` for a `VersionedTransaction` gives on
/// `bytes`: the transaction that the bytes are the binary form of, or the
/// decoder's reason for rejecting them.
pub uninterp spec fn bincode_transaction(bytes: Seq<u8>) -> Result<
    solana_sdk::transaction::VersionedTransaction,
    Box<bincode::ErrorKind>,
>;

/// Calls `bincode::deserialize` for a `VersionedTransaction`. Nothing is
/// proved of the decoder: the contract only names its verdict
/// `bincode_transaction`, a function of the bytes alone.
#[verifier::external_body]
pub(crate) fn bincode_deserialize_transaction(bytes: &[u8]) -> (r: Result<
    solana_sdk::transaction::VersionedTransaction,
    Box<bincode::ErrorKind>,
>)
    ensures
        r == bincode_transaction(bytes@),
{
    bincode::deserialize(bytes)
}

} // verus!

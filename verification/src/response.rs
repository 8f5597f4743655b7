//! What the answers of the service become: its own error messages, lists of
//! mints, labels of programs.

use vstd::prelude::*;
use crate::collect::{collected, lemma_collected_failure_stays, lemma_collected_next};
use crate::error::ClientError;
use crate::field_pubkey::vec::{parsed_pubkeys, pubkey_views, pubkeys_of};
use crate::pubkey::{parsed_pubkey, pubkey_text, ParsePubkeyError, Pubkey};
use crate::text::texts;

verus! {

/// Tells an error that the service reports from the answer that was asked
/// for. `error` is the message where the answer is an error payload: it then
/// wins. Else the decoded answer is handed on, and a failure to decode it
/// becomes `SerdeJson`.
pub fn maybe_jupiter_api_error<T>(error: Option<String>, value: Result<T, serde_json::Error>) -> (r:
    Result<T, ClientError>)
    ensures
        r == match error {
            Some(message) => Err::<T, ClientError>(ClientError::JupiterApi(message)),
            None => match value {
                Ok(decoded) => Ok(decoded),
                Err(e) => Err(ClientError::SerdeJson(e)),
            },
        },
{
    match error {
        Some(message) => Err(ClientError::JupiterApi(message)),
        None => match value {
            Ok(decoded) => Ok(decoded),
            Err(e) => Err(ClientError::SerdeJson(e)),
        },
    }
}

/// The message that says that an address in a response is invalid, and why.
pub open spec fn invalid_pubkey_message(e: ParsePubkeyError) -> Seq<char> {
    "Invalid Pubkey in response: "@ + e.text()
}

/// The error for an address in a response that is none.
pub fn invalid_pubkey(e: ParsePubkeyError) -> (error: ClientError)
    ensures
        error matches ClientError::JupiterApi(message) && message@ == invalid_pubkey_message(e),
{
    ClientError::JupiterApi(
        String::from_str("Invalid Pubkey in response: ").concat(e.to_string().as_str()),
    )
}

/// What becomes of a parsed list of mints: the list, or the parser's error
/// as an error of the service.
pub fn tokens_from_parsed(parsed: Result<Vec<Pubkey>, ParsePubkeyError>) -> (r: Result<
    Vec<Pubkey>,
    ClientError,
>)
    ensures
        match parsed {
            Ok(tokens) => r == Ok::<Vec<Pubkey>, ClientError>(tokens),
            Err(e) => r matches Err(ClientError::JupiterApi(message)) && message@
                == invalid_pubkey_message(e),
        },
{
    match parsed {
        Ok(tokens) => Ok(tokens),
        Err(e) => Err(invalid_pubkey(e)),
    }
}

/// The tradable mints, from the strings that the service lists. Every
/// string must be an address; else the result is a `JupiterApi` error that
/// says why the first of them is none.
pub fn tokens_from_strings(tokens_string: &Vec<String>) -> (r: Result<Vec<Pubkey>, ClientError>)
    ensures
        match pubkeys_of(texts(tokens_string@)) {
            Ok(keys) => r matches Ok(tokens) && pubkey_views(tokens@) == keys,
            Err(e) => r matches Err(ClientError::JupiterApi(message)) && message@
                == invalid_pubkey_message(e),
        },
{
    tokens_from_parsed(crate::field_pubkey::vec::deserialize(tokens_string))
}

/// The keys of the entries of a map from text to text.
pub open spec fn entry_keys(entries: Seq<(String, String)>) -> Seq<Seq<char>> {
    entries.map_values(|entry: (String, String)| entry.0@)
}

/// Whether `labels` holds, for each entry in order, the address that its key
/// stands for, and its label.
pub open spec fn are_labels_of(labels: Seq<(Pubkey, String)>, entries: Seq<(String, String)>) -> bool {
    &&& labels.len() == entries.len()
    &&& forall|j: int|
        0 <= j < entries.len() ==> parsed_pubkey(entries[j].0@) == Ok::<Seq<u8>, ParsePubkeyError>(
            (#[trigger] labels[j]).0@,
        ) && labels[j].1@ == entries[j].1@
}

/// The labels of the programs, from the entries that the service sends: the
/// key of each entry is parsed as an address. Every key must be one; else
/// the result is a `JupiterApi` error that says why the first of them is
/// none.
pub fn program_id_to_label_from_entries(entries: &Vec<(String, String)>) -> (r: Result<
    Vec<(Pubkey, String)>,
    ClientError,
>)
    ensures
        match pubkeys_of(entry_keys(entries@)) {
            Ok(_) => r matches Ok(labels) && are_labels_of(labels@, entries@),
            Err(e) => r matches Err(ClientError::JupiterApi(message)) && message@
                == invalid_pubkey_message(e),
        },
{
    let ghost results = parsed_pubkeys(entry_keys(entries@));
    let mut labels: Vec<(Pubkey, String)> = Vec::new();
    let mut i: usize = 0;
    while i < entries.len()
        invariant
            0 <= i <= entries@.len(),
            results == parsed_pubkeys(entry_keys(entries@)),
            collected(results.take(i as int)) is Ok,
            labels@.len() == i,
            forall|j: int|
                0 <= j < i ==> parsed_pubkey(entries@[j].0@) == Ok::<Seq<u8>, ParsePubkeyError>(
                    (#[trigger] labels@[j]).0@,
                ) && labels@[j].1@ == entries@[j].1@,
        decreases entries@.len() - i,
    {
        proof {
            lemma_collected_next(results, i as int);
        }
        let entry = &entries[i];
        match Pubkey::from_str(entry.0.as_str()) {
            Ok(pubkey) => {
                labels.push((pubkey, entry.1.clone()));
            },
            Err(e) => {
                proof {
                    lemma_collected_failure_stays(results, i + 1);
                }
                return Err(invalid_pubkey(e));
            },
        }
        i = i + 1;
    }
    assert(results.take(i as int) =~= results);
    Ok(labels)
}

/// The message for a price response that lacks the input mint.
pub open spec fn missing_input_mint_message(input_mint: Seq<char>) -> Seq<char> {
    "Input mint "@ + input_mint + " not found in response data"@
}

/// The price entry of the input mint, where the response holds one, else the
/// error that says it holds none. `found` is what looking up the mint's
/// base58 text in the response gave.
pub fn price_entry_of<T>(found: Option<T>, input_mint: &Pubkey) -> (r: Result<T, ClientError>)
    ensures
        match found {
            Some(entry) => r == Ok::<T, ClientError>(entry),
            None => r matches Err(ClientError::JupiterApi(message)) && message@
                == missing_input_mint_message(pubkey_text(input_mint@)),
        },
{
    match found {
        Some(entry) => Ok(entry),
        None => {
            let mut message = String::from_str("Input mint ");
            message.append(input_mint.to_string().as_str());
            message.append(" not found in response data");
            Err(ClientError::JupiterApi(message))
        },
    }
}

} // verus!

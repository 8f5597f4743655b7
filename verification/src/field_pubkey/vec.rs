//! A list of addresses, each written as a base58 string.

use vstd::prelude::*;
use crate::collect::{collected, lemma_collected_failure_stays, lemma_collected_next};
use crate::json::JsonValue;
use crate::pubkey::{parsed_pubkey, pubkey_text, ParsePubkeyError, Pubkey};
use crate::text::texts;

verus! {

/// The bytes of each address of a sequence.
pub open spec fn pubkey_views(keys: Seq<Pubkey>) -> Seq<Seq<u8>> {
    keys.map_values(|key: Pubkey| key@)
}

/// What parsing each text as an address gives.
pub open spec fn parsed_pubkeys(items: Seq<Seq<char>>) -> Seq<Result<Seq<u8>, ParsePubkeyError>> {
    items.map_values(|item: Seq<char>| parsed_pubkey(item))
}

/// The addresses that the texts stand for, where each of them is one; else
/// the error of the first that is none.
pub open spec fn pubkeys_of(items: Seq<Seq<char>>) -> Result<Seq<Seq<u8>>, ParsePubkeyError> {
    collected(parsed_pubkeys(items))
}

/// The base58 text of each address of a sequence.
pub open spec fn pubkey_texts(keys: Seq<Seq<u8>>) -> Seq<Seq<char>> {
    keys.map_values(|key: Seq<u8>| pubkey_text(key))
}

/// Where the text of each address reads back as the address, the texts of a
/// list read back as the list.
pub proof fn lemma_pubkeys_round_trip(keys: Seq<Seq<u8>>)
    requires
        forall|j: int|
            0 <= j < keys.len() ==> parsed_pubkey(pubkey_text(#[trigger] keys[j])) == Ok::<
                Seq<u8>,
                ParsePubkeyError,
            >(keys[j]),
    ensures
        pubkeys_of(pubkey_texts(keys)) == Ok::<Seq<Seq<u8>>, ParsePubkeyError>(keys),
    decreases keys.len(),
{
    let results = parsed_pubkeys(pubkey_texts(keys));
    if keys.len() > 0 {
        let front = keys.drop_last();
        assert forall|j: int| 0 <= j < front.len() implies parsed_pubkey(
            pubkey_text(#[trigger] front[j]),
        ) == Ok::<Seq<u8>, ParsePubkeyError>(front[j]) by {
            assert(front[j] == keys[j]);
        }
        lemma_pubkeys_round_trip(front);
        assert(results.drop_last() =~= parsed_pubkeys(pubkey_texts(front)));
        assert(front.push(keys.last()) =~= keys);
    } else {
        assert(keys =~= Seq::<Seq<u8>>::empty());
    }
}

/// Parses each string as an address, in order: all the addresses, or the
/// error of the first string that is none.
pub fn deserialize(vec_str: &Vec<String>) -> (r: Result<Vec<Pubkey>, ParsePubkeyError>)
    ensures
        match pubkeys_of(texts(vec_str@)) {
            Ok(keys) => r matches Ok(vec_pubkey) && pubkey_views(vec_pubkey@) == keys,
            Err(e) => r == Err::<Vec<Pubkey>, ParsePubkeyError>(e),
        },
{
    let ghost results = parsed_pubkeys(texts(vec_str@));
    let mut vec_pubkey: Vec<Pubkey> = Vec::new();
    let mut i: usize = 0;
    assert(pubkey_views(vec_pubkey@) =~= Seq::<Seq<u8>>::empty());
    while i < vec_str.len()
        invariant
            0 <= i <= vec_str@.len(),
            results == parsed_pubkeys(texts(vec_str@)),
            collected(results.take(i as int)) == Ok::<Seq<Seq<u8>>, ParsePubkeyError>(
                pubkey_views(vec_pubkey@),
            ),
        decreases vec_str@.len() - i,
    {
        proof {
            lemma_collected_next(results, i as int);
        }
        match Pubkey::from_str(vec_str[i].as_str()) {
            Ok(pubkey) => {
                assert(pubkey_views(vec_pubkey@.push(pubkey)) =~= pubkey_views(vec_pubkey@).push(
                    pubkey@,
                ));
                vec_pubkey.push(pubkey);
            },
            Err(e) => {
                proof {
                    lemma_collected_failure_stays(results, i + 1);
                }
                return Err(e);
            },
        }
        i = i + 1;
    }
    assert(results.take(i as int) =~= results);
    Ok(vec_pubkey)
}

/// Whether `value` is the wire form of `keys`: an array of as many strings,
/// each the base58 text of its address.
pub open spec fn is_wire_form(keys: Seq<Pubkey>, value: JsonValue) -> bool {
    &&& value matches JsonValue::Array(items)
    &&& items@.len() == keys.len()
    &&& forall|j: int| 0 <= j < keys.len() ==> (#[trigger] items@[j]).is_string(pubkey_text(keys[j]@))
}

/// The wire form of a list of addresses.
pub fn serialize(vec_pubkey: &[Pubkey]) -> (value: JsonValue)
    ensures
        is_wire_form(vec_pubkey@, value),
{
    let mut items: Vec<JsonValue> = Vec::new();
    let mut i: usize = 0;
    while i < vec_pubkey.len()
        invariant
            0 <= i <= vec_pubkey@.len(),
            items@.len() == i,
            forall|j: int|
                0 <= j < i ==> (#[trigger] items@[j]).is_string(pubkey_text(vec_pubkey@[j]@)),
        decreases vec_pubkey@.len() - i,
    {
        items.push(JsonValue::String(vec_pubkey[i].to_string()));
        i = i + 1;
    }
    JsonValue::Array(items)
}

} // verus!

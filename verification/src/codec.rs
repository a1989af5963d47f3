//! Raw contract state at the wire boundary: sequences of base64-encoded
//! (key, value) pairs, decoded into UTF-8 keys and raw byte values.

use vstd::prelude::*;
use vstd::string::StrSliceExecFns;
use vstd::utf8::{
    decode_utf8, encode_utf8, encode_utf8_decode_utf8, encode_utf8_valid_utf8, valid_utf8,
};
use crate::Error;

verus! {

/// What `base64::encode` returns for the given bytes (standard alphabet,
/// padded).
pub uninterp spec fn b64_enc(bytes: Seq<u8>) -> Seq<char>;

/// What `base64::decode` returns for the given text: the decoded bytes, or
/// nothing when the text is not valid base64.
pub uninterp spec fn b64_dec(text: Seq<char>) -> Option<Seq<u8>>;

/// Relies on `base64::encode`: the result is a pure function of the input
/// bytes, and `base64::decode` of the result yields the input bytes again.
#[verifier::external_body]
pub(crate) fn b64_encode(bytes: &Vec<u8>) -> (r: String)
    ensures
        r@ == b64_enc(bytes@),
        b64_dec(r@) == Some(bytes@),
{
    base64::encode(bytes)
}

#[verifier::external_type_specification]
#[verifier::external_body]
pub struct ExDecodeError(base64::DecodeError);

/// Relies on `base64::decode`: a pure function of the input text that
/// succeeds exactly on valid standard-alphabet base64.
#[verifier::external_body]
pub(crate) fn b64_decode(text: &str) -> (r: Result<Vec<u8>, base64::DecodeError>)
    ensures
        match r {
            Ok(bytes) => b64_dec(text@) == Some(bytes@),
            Err(_) => b64_dec(text@) is None,
        },
{
    base64::decode(text)
}

#[verifier::external_type_specification]
#[verifier::external_body]
pub struct ExFromUtf8Error(std::string::FromUtf8Error);

/// Relies on `String::from_utf8`: succeeds exactly on valid UTF-8, and the
/// resulting string holds the characters the bytes encode.
#[verifier::external_body]
pub(crate) fn string_from_utf8(bytes: Vec<u8>) -> (r: Result<String, std::string::FromUtf8Error>)
    ensures
        match r {
            Ok(s) => valid_utf8(bytes@) && s@ == decode_utf8(bytes@),
            Err(_) => !valid_utf8(bytes@),
        },
{
    String::from_utf8(bytes)
}

/// One raw storage entry as it appears on the wire: key and value both
/// base64-encoded.
pub struct StateItem {
    pub key: String,
    pub value: String,
}

/// Whether a wire entry decodes: both halves are valid base64 and the
/// decoded key is valid UTF-8.
pub open spec fn state_item_ok(item: StateItem) -> bool {
    &&& b64_dec(item.key@) is Some
    &&& valid_utf8(b64_dec(item.key@).unwrap())
    &&& b64_dec(item.value@) is Some
}

/// The decoded UTF-8 key of a wire entry.
pub open spec fn state_item_key(item: StateItem) -> Seq<char>
    recommends
        state_item_ok(item),
{
    decode_utf8(b64_dec(item.key@).unwrap())
}

/// The decoded value bytes of a wire entry.
pub open spec fn state_item_value(item: StateItem) -> Seq<u8>
    recommends
        state_item_ok(item),
{
    b64_dec(item.value@).unwrap()
}

/// The error an undecodable wire entry produces: the key is decoded as
/// base64 and then as UTF-8, then the value as base64; the first failure
/// decides.
pub open spec fn state_item_error(item: StateItem) -> Error {
    if b64_dec(item.key@) is None {
        Error::InvalidBase64
    } else if !valid_utf8(b64_dec(item.key@).unwrap()) {
        Error::InvalidUtf8
    } else {
        Error::InvalidBase64
    }
}

/// Decodes raw wire entries into (UTF-8 key, value bytes) pairs. A single
/// undecodable entry fails the whole operation: no partial results.
pub fn into_state_map(items: &Vec<StateItem>) -> (r: Result<Vec<(String, Vec<u8>)>, Error>)
    ensures
        match r {
            Ok(pairs) => {
                &&& forall|i: int| 0 <= i < items@.len() ==> state_item_ok(#[trigger] items@[i])
                &&& pairs@.len() == items@.len()
                &&& forall|i: int|
                    0 <= i < items@.len() ==> (#[trigger] pairs@[i]).0@ == state_item_key(
                        items@[i],
                    ) && pairs@[i].1@ == state_item_value(items@[i])
            },
            Err(e) => exists|i: int|
                0 <= i < items@.len() && !state_item_ok(#[trigger] items@[i]) && (forall|j: int|
                    0 <= j < i ==> state_item_ok(#[trigger] items@[j])) && e == state_item_error(
                    items@[i],
                ),
        },
{
    let mut pairs: Vec<(String, Vec<u8>)> = Vec::new();
    let n = items.len();
    let mut i: usize = 0;
    while i < n
        invariant
            n == items@.len(),
            0 <= i <= n,
            pairs@.len() == i,
            forall|j: int| 0 <= j < i ==> state_item_ok(#[trigger] items@[j]),
            forall|j: int|
                0 <= j < i ==> (#[trigger] pairs@[j]).0@ == state_item_key(items@[j])
                    && pairs@[j].1@ == state_item_value(items@[j]),
        decreases n - i,
    {
        let key_bytes = match b64_decode(items[i].key.as_str()) {
            Ok(bytes) => bytes,
            Err(_) => {
                return Err(Error::InvalidBase64);
            },
        };
        let key = match string_from_utf8(key_bytes) {
            Ok(key) => key,
            Err(_) => {
                return Err(Error::InvalidUtf8);
            },
        };
        let value = match b64_decode(items[i].value.as_str()) {
            Ok(bytes) => bytes,
            Err(_) => {
                return Err(Error::InvalidBase64);
            },
        };
        pairs.push((key, value));
        i += 1;
    }
    Ok(pairs)
}

/// Encodes (UTF-8 key, value bytes) pairs into wire entries. Each produced
/// entry decodes back to exactly the pair it came from, so decoding the
/// result of this function round-trips.
pub fn encode_state_items(pairs: &Vec<(String, Vec<u8>)>) -> (r: Vec<StateItem>)
    ensures
        r@.len() == pairs@.len(),
        forall|i: int|
            0 <= i < pairs@.len() ==> {
                &&& (#[trigger] r@[i]).key@ == b64_enc(encode_utf8(pairs@[i].0@))
                &&& r@[i].value@ == b64_enc(pairs@[i].1@)
                &&& state_item_ok(r@[i])
                &&& state_item_key(r@[i]) == pairs@[i].0@
                &&& state_item_value(r@[i]) == pairs@[i].1@
            },
{
    let mut items: Vec<StateItem> = Vec::new();
    let n = pairs.len();
    let mut i: usize = 0;
    while i < n
        invariant
            n == pairs@.len(),
            0 <= i <= n,
            items@.len() == i,
            forall|j: int|
                0 <= j < i ==> {
                    &&& (#[trigger] items@[j]).key@ == b64_enc(encode_utf8(pairs@[j].0@))
                    &&& items@[j].value@ == b64_enc(pairs@[j].1@)
                    &&& state_item_ok(items@[j])
                    &&& state_item_key(items@[j]) == pairs@[j].0@
                    &&& state_item_value(items@[j]) == pairs@[j].1@
                },
        decreases n - i,
    {
        let key_bytes = pairs[i].0.as_str().as_bytes_vec();
        let key = b64_encode(&key_bytes);
        let value = b64_encode(&pairs[i].1);
        proof {
            encode_utf8_valid_utf8(pairs@[i as int].0@);
            encode_utf8_decode_utf8(pairs@[i as int].0@);
        }
        items.push(StateItem { key, value });
        i += 1;
    }
    items
}

/// Law: state decoding round-trips. Encoding any mapping of UTF-8 keys to
/// byte values into base64 pairs and decoding the pairs back yields exactly
/// the original mapping.
pub fn state_round_trip(pairs: &Vec<(String, Vec<u8>)>) -> (r: Result<
    Vec<(String, Vec<u8>)>,
    Error,
>)
    ensures
        r is Ok,
        r.unwrap()@.len() == pairs@.len(),
        forall|i: int|
            0 <= i < pairs@.len() ==> (#[trigger] r.unwrap()@[i]).0@ == pairs@[i].0@
                && r.unwrap()@[i].1@ == pairs@[i].1@,
{
    let items = encode_state_items(pairs);
    into_state_map(&items)
}

} // verus!

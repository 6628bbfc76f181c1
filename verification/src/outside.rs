//! The calls that leave this library, each behind a contract that is taken on
//! trust: text rendering by `web3`, calendar time by `chrono`, JSON by
//! `serde_json`, and the standard library's debug formatting.

use std::collections::BTreeMap;
use vstd::prelude::*;
use crate::hex::hex_text;
use crate::table::SignatureEntry;
use crate::uint::{decimal_text, limbs_value};

verus! {

/// How a 20-byte address is printed: quoted, prefixed, all forty digits.
pub open spec fn address_text(bytes: Seq<u8>) -> Seq<char> {
    seq!['"', '0', 'x'] + hex_text(bytes) + seq!['"']
}

/// How a 32-byte hash is printed: prefixed, its first two and last two bytes
/// around an ellipsis.
pub open spec fn hash_text(bytes: Seq<u8>) -> Seq<char> {
    seq!['0', 'x'] + hex_text(bytes.subrange(0, 2)) + seq!['\u{2026}'] + hex_text(
        bytes.subrange(30, 32),
    )
}

/// The calendar time in UTC of a number of seconds since 1970, written as
/// `YYYY-MM-DD HH:MM:SS`; `None` for an instant that the calendar cannot hold.
pub uninterp spec fn utc_calendar_text(secs: i64) -> Option<Seq<char>>;

/// The last second of the year 9999.
pub const LAST_FOUR_DIGIT_SECOND: i64 = 253_402_300_799;

/// How the standard library's debug formatting writes a list of strings.
pub uninterp spec fn debug_list_text(items: Seq<Seq<char>>) -> Seq<char>;

/// What `text` holds when it is read as a JSON object from keys to lists of
/// strings: its entries in ascending order of their keys, each key once;
/// `None` where `text` is no such object.
pub uninterp spec fn json_signature_entries(text: Seq<char>) -> Option<
    Seq<(Seq<char>, Seq<Seq<char>>)>,
>;

/// The error with which `serde_json` refuses a text.
#[verifier::external_type_specification]
#[verifier::external_body]
pub struct ExJsonError(serde_json::Error);

/// `web3::types::U256`'s `Display`, reached through `to_string`: the number
/// in decimal. The limbs are handed over as the outside type holds them.
#[verifier::external_body]
pub(crate) fn u256_decimal_string(limbs: &[u64; 4]) -> (s: String)
    ensures
        s@ == decimal_text(limbs_value(limbs@)),
{
    web3::types::U256(*limbs).to_string()
}

/// `web3::helpers::to_string` on a `web3::types::H160`: the address as a
/// JSON string, that is in double quotes, with `0x` and forty lower-case digits.
#[verifier::external_body]
pub(crate) fn address_string(bytes: &[u8; 20]) -> (s: String)
    ensures
        s@ == address_text(bytes@),
{
    web3::helpers::to_string(&web3::types::H160(*bytes))
}

/// `web3::types::H256`'s `Display`, reached through `to_string`: `0x`, the
/// first two bytes, an ellipsis and the last two bytes, in lower-case digits.
#[verifier::external_body]
pub(crate) fn hash_string(bytes: &[u8; 32]) -> (s: String)
    ensures
        s@ == hash_text(bytes@),
{
    web3::types::H256(*bytes).to_string()
}

/// `chrono::DateTime::from_timestamp` and the instant's `format`: the
/// calendar time of `secs`, which exists at least through the year 9999.
#[verifier::external_body]
pub(crate) fn utc_calendar_string(secs: i64) -> (r: Option<String>)
    ensures
        match r {
            Some(s) => utc_calendar_text(secs) == Some(s@),
            None => utc_calendar_text(secs) is None,
        },
        0 <= secs <= LAST_FOUR_DIGIT_SECOND ==> r is Some,
{
    match chrono::DateTime::from_timestamp(secs, 0) {
        Some(instant) => Some(instant.format("%Y-%m-%d %H:%M:%S").to_string()),
        None => None,
    }
}

/// The standard library's `Debug` of a `Vec<String>`, reached through `format!`.
#[verifier::external_body]
pub(crate) fn debug_list_string(items: &Vec<String>) -> (s: String)
    ensures
        s@ == debug_list_text(items.deep_view()),
{
    format!("{:?}", items)
}

/// `serde_json::from_str` into a `BTreeMap<String, Vec<String>>`, whose
/// entries are handed on in the map's own order.
#[verifier::external_body]
pub(crate) fn parse_signature_json(text: &str) -> (r: Result<
    Vec<SignatureEntry>,
    serde_json::Error,
>)
    ensures
        match r {
            Ok(entries) => json_signature_entries(text@) == Some(entries.deep_view()),
            Err(_) => json_signature_entries(text@) is None,
        },
{
    let parsed: Result<BTreeMap<String, Vec<String>>, serde_json::Error> = serde_json::from_str(
        text,
    );
    match parsed {
        Ok(map) => Ok(
            map.into_iter().map(
                |(selector, signatures)| SignatureEntry { selector, signatures },
            ).collect(),
        ),
        Err(error) => Err(error),
    }
}

/// `serde_json::Error`'s `Display`, reached through `to_string`: the error
/// in words. Nothing is claimed of the words.
#[verifier::external_body]
pub(crate) fn json_error_string(error: &serde_json::Error) -> (s: String) {
    error.to_string()
}

} // verus!

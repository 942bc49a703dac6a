//! Helpers on dynamic DNS domain names and on values taken from a URL.

use crate::text::{opt_text, text_or};
use vstd::prelude::*;
use vstd::utf8::{
    decode_utf8, encode_utf8, encode_utf8_decode_utf8, encode_utf8_valid_utf8, is_ascii_chars,
    is_ascii_chars_encode_utf8, valid_utf8,
};

verus! {

/// The suffix that every dynamic DNS domain of the service ends in.
pub open spec fn dyndns_suffix() -> Seq<char> {
    ".dyn.peachcloud.org"@
}

/// The regular expression that takes a dynamic DNS domain apart: group 1 is
/// the subdomain.
pub open spec fn dyndns_pattern() -> Seq<char> {
    "(.*)\\.dyn\\.peachcloud\\.org"@
}

/// What the `regex` crate finds when it searches `text` for `pattern`:
/// `None` where `pattern` is no regular expression that it accepts, or matches
/// nowhere in `text`; else `Some` of the text that group number `group` of the
/// leftmost match took, `None` inside where that group took no part in the
/// match.
pub uninterp spec fn regex_capture(pattern: Seq<char>, text: Seq<char>, group: nat) -> Option<
    Option<Seq<char>>,
>;

/// The characters of what a search handed back.
pub open spec fn capture_text(found: Option<Option<String>>) -> Option<Option<Seq<char>>> {
    match found {
        Some(group) => Some(opt_text(group)),
        None => None,
    }
}

/// Compiles `pattern` with `regex::Regex::new`, searches `text` with
/// `Regex::captures` and reads group `group` of the match with
/// `Captures::get` and `Match::as_str`. The contract only gives the outcome
/// its name, `regex_capture`: a failed compilation and a failed search are
/// both `None`.
#[verifier::external_body]
fn capture(pattern: &str, text: &str, group: usize) -> (found: Option<Option<String>>)
    ensures
        capture_text(found) == regex_capture(pattern@, text@, group as nat),
{
    let regex = match regex::Regex::new(pattern) {
        Ok(regex) => regex,
        Err(_) => return None,
    };
    match regex.captures(text) {
        Some(captures) => match captures.get(group) {
            Some(found) => Some(Some(found.as_str().to_string())),
            None => Some(None),
        },
        None => None,
    }
}

/// The subdomain that a captured group gives: its text, or the empty text
/// where the group took no part in the match.
pub fn captured_subdomain(group: Option<String>) -> (subdomain: String)
    ensures
        subdomain@ == text_or(group, Seq::<char>::empty()),
{
    match group {
        Some(text) => text,
        None => String::new(),
    }
}

/// The subdomain of a full dynamic DNS domain, where the domain has the
/// shape of one.
pub open spec fn subdomain_of(dyndns_full_domain: Seq<char>) -> Option<Seq<char>> {
    match regex_capture(dyndns_pattern(), dyndns_full_domain, 1) {
        Some(Some(text)) => Some(text),
        Some(None) => Some(Seq::<char>::empty()),
        None => None,
    }
}

/// Builds a full dynamic DNS domain from a subdomain.
pub fn get_full_dynamic_domain(subdomain: &str) -> (domain: String)
    ensures
        domain@ == subdomain@ + dyndns_suffix(),
{
    let mut domain = subdomain.to_string();
    domain.append(".dyn.peachcloud.org");
    domain
}

/// Gets the subdomain from a full dynamic DNS domain. The domain must have
/// the shape of one: `find_dyndns_subdomain` tells.
pub fn get_dyndns_subdomain(dyndns_full_domain: &str) -> (subdomain: String)
    requires
        subdomain_of(dyndns_full_domain@) is Some,
    ensures
        Some(subdomain@) == subdomain_of(dyndns_full_domain@),
{
    match capture("(.*)\\.dyn\\.peachcloud\\.org", dyndns_full_domain, 1) {
        Some(group) => captured_subdomain(group),
        None => vstd::pervasive::unreached(),
    }
}

/// The subdomain of a full dynamic DNS domain, or `None` where the domain
/// has not the shape of one.
pub fn find_dyndns_subdomain(dyndns_full_domain: &str) -> (subdomain: Option<String>)
    ensures
        opt_text(subdomain) == subdomain_of(dyndns_full_domain@),
{
    match capture("(.*)\\.dyn\\.peachcloud\\.org", dyndns_full_domain, 1) {
        Some(_) => Some(get_dyndns_subdomain(dyndns_full_domain)),
        None => None,
    }
}

/// Whether two texts are the same.
pub fn same_text(left: &str, right: &str) -> (same: bool)
    ensures
        same == (left@ == right@),
{
    let left = left.to_string();
    let right = right.to_string();
    left == right
}

/// Whether a dynamic DNS domain is new: it is not the one configured before.
pub fn check_is_new_dyndns_domain(dyndns_full_domain: &str, previous_dyndns_domain: &str) -> (new:
    bool)
    ensures
        new == (dyndns_full_domain@ != previous_dyndns_domain@),
{
    !same_text(dyndns_full_domain, previous_dyndns_domain)
}

/// The value of a hexadecimal digit, given as a byte of text.
pub open spec fn hex_value(byte: u8) -> Option<u8> {
    if 0x30 <= byte <= 0x39 {
        Some((byte - 0x30) as u8)
    } else if 0x41 <= byte <= 0x46 {
        Some((byte - 0x41 + 10) as u8)
    } else if 0x61 <= byte <= 0x66 {
        Some((byte - 0x61 + 10) as u8)
    } else {
        None
    }
}

/// Percent-decoding: every `%` that two hexadecimal digits follow stands,
/// with them, for the byte that they write; every other byte stands for
/// itself.
pub open spec fn percent_decoded(bytes: Seq<u8>) -> Seq<u8>
    decreases bytes.len(),
{
    if bytes.len() == 0 {
        bytes
    } else if bytes[0] == 0x25 && bytes.len() >= 3 && hex_value(bytes[1]) is Some && hex_value(
        bytes[2],
    ) is Some {
        seq![(hex_value(bytes[1]).unwrap() * 16 + hex_value(bytes[2]).unwrap()) as u8]
            + percent_decoded(bytes.skip(3))
    } else {
        seq![bytes[0]] + percent_decoded(bytes.skip(1))
    }
}

/// The text that a percent-encoded value of a URL stands for, where its
/// decoded bytes are UTF-8.
pub open spec fn url_decoded(raw: Seq<char>) -> Option<Seq<char>> {
    let bytes = percent_decoded(encode_utf8(raw));
    if valid_utf8(bytes) {
        Some(decode_utf8(bytes))
    } else {
        None
    }
}

/// Calls `percent_encoding::percent_decode` on the bytes of `raw`, then
/// `PercentDecode::decode_utf8`. The contract says what the crate documents:
/// each `%` with two hexadecimal digits behind it is decoded, and the outcome
/// is the text that the decoded bytes encode, or nothing where they are not
/// well-formed UTF-8.
#[verifier::external_body]
fn percent_decode_utf8(raw: &str) -> (decoded: Option<String>)
    ensures
        opt_text(decoded) == url_decoded(raw@),
{
    match percent_encoding::percent_decode(raw.as_bytes()).decode_utf8() {
        Ok(text) => Some(text.into_owned()),
        Err(_) => None,
    }
}

/// Decodes a value taken from a URL, such as an SSID.
pub fn decode_url_value(raw: &str) -> (decoded: Option<String>)
    ensures
        opt_text(decoded) == url_decoded(raw@),
{
    percent_decode_utf8(raw)
}

/// Bytes without a percent sign decode to themselves.
pub proof fn lemma_percent_decoded_plain(bytes: Seq<u8>)
    requires
        forall|i: int| 0 <= i < bytes.len() ==> bytes[i] != 0x25,
    ensures
        percent_decoded(bytes) == bytes,
    decreases bytes.len(),
{
    if bytes.len() > 0 {
        let rest = bytes.skip(1);
        assert forall|i: int| 0 <= i < rest.len() implies rest[i] != 0x25 by {
            assert(rest[i] == bytes[i + 1]);
        }
        lemma_percent_decoded_plain(rest);
        assert(seq![bytes[0]] + rest =~= bytes);
    }
}

/// A value of a URL that is ASCII and holds no percent sign stands for
/// itself.
pub proof fn lemma_plain_value_is_itself(raw: Seq<char>)
    requires
        is_ascii_chars(raw),
        forall|i: int| 0 <= i < raw.len() ==> raw[i] != '%',
    ensures
        url_decoded(raw) == Some(raw),
{
    let bytes = encode_utf8(raw);
    is_ascii_chars_encode_utf8(raw);
    assert forall|i: int| 0 <= i < bytes.len() implies bytes[i] != 0x25 by {
        assert(raw[i] as u8 == bytes[i]);
        assert(raw[i] != '%');
        assert('\0' <= raw[i] <= '\u{7f}');
        assert('%' as u8 == 0x25u8);
    }
    lemma_percent_decoded_plain(bytes);
    encode_utf8_valid_utf8(raw);
    encode_utf8_decode_utf8(raw);
}

} // verus!

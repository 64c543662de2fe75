//! MAC addresses as colon-separated text, as the `macaddr` crate reads and writes them.
use vstd::prelude::*;

verus! {

/// A six-byte MAC address.
#[derive(Clone, Copy, Debug)]
pub struct MacAddr(pub [u8; 6]);

/// The uppercase hexadecimal digit of `d < 16`.
pub open spec fn hex_digit_upper(d: int) -> char {
    if d < 10 {
        ((48 + d) as u32) as char
    } else {
        ((55 + d) as u32) as char
    }
}

/// A byte as two uppercase hexadecimal digits.
pub open spec fn byte_text(b: u8) -> Seq<char> {
    seq![hex_digit_upper(b as int / 16), hex_digit_upper(b as int % 16)]
}

/// The text `{:02X}:{:02X}:{:02X}:{:02X}:{:02X}:{:02X}` of six bytes.
pub open spec fn mac_text(b: Seq<u8>) -> Seq<char> {
    byte_text(b[0]) + seq![':'] + byte_text(b[1]) + seq![':'] + byte_text(b[2]) + seq![':'] + byte_text(b[3])
        + seq![':'] + byte_text(b[4]) + seq![':'] + byte_text(b[5])
}

/// The six bytes `macaddr` reads from `s` (colon-, hyphen- or dot-separated hexadecimal,
/// upper or lower case), if it reads any.
pub uninterp spec fn parsed_mac(s: Seq<char>) -> Option<Seq<u8>>;

/// Writes `bytes` with `MacAddr6`'s `Display` (no flags): six uppercase two-digit
/// hexadecimal bytes separated by colons, as `mac_text` states.
#[verifier::external_body]
fn format_mac(bytes: [u8; 6]) -> (s: String)
    ensures
        s@ == mac_text(bytes@),
{
    macaddr::MacAddr6::from(bytes).to_string()
}

/// Reads `s` with `<MacAddr6 as FromStr>::from_str`. The contract names the result, and
/// states one fact the parser's source shows: the text `Display` writes (twelve uppercase
/// hexadecimal digits, two per byte, colon-separated) reads back as the same six bytes.
#[verifier::external_body]
fn parse_mac(s: &str) -> (r: Option<[u8; 6]>)
    ensures
        match r {
            Some(b) => parsed_mac(s@) == Some(b@),
            None => parsed_mac(s@) is None,
        },
        forall|b: Seq<u8>| b.len() == 6 && #[trigger] mac_text(b) == s@ ==> (r is Some && r->0@ == b),
{
    match s.parse::<macaddr::MacAddr6>() {
        Ok(mac) => Some(mac.into_array()),
        Err(_) => None,
    }
}

/// Why a text is not a MAC address.
#[derive(Clone, Copy, Debug, PartialEq, Eq, Structural)]
pub enum MacAddressError {
    /// The text does not read as a MAC address
    Invalid,
}

/// The colon-separated uppercase text of `mac`.
pub fn serialize(mac: &MacAddr) -> (s: String)
    ensures
        s@ == mac_text(mac.0@),
{
    format_mac(mac.0)
}

/// Reads a MAC address from text; what `serialize` writes reads back as the same address.
pub fn deserialize(s: &str) -> (r: Result<MacAddr, MacAddressError>)
    ensures
        match r {
            Ok(mac) => parsed_mac(s@) == Some(mac.0@),
            Err(e) => parsed_mac(s@) is None && e == MacAddressError::Invalid,
        },
        forall|b: [u8; 6]| #[trigger] mac_text(b@) == s@ ==> (r matches Ok(mac) && mac.0@ == b@),
{
    match parse_mac(s) {
        Some(bytes) => Ok(MacAddr(bytes)),
        None => Err(MacAddressError::Invalid),
    }
}

} // verus!

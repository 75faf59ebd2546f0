//! Reading single settings out of an environment snapshot: a value or its
//! default, parsed and checked, or the error message the node reports.
use vstd::prelude::*;

use crate::env::{EnvVars, env_lookup};
use crate::parse::{
    IntErrorKind, unsigned_from_str, parse_u64, parse_u16, parse_u128, parse_bool, bool_from_str,
    bool_error_message, bool_error_text, parse_ipv4, ipv4_from_str, ipv4_error_message, ipv4_error_text,
};
use crate::text::{decimal, append_decimal};

verus! {

/// A configuration error: the message the node reports.
#[derive(Debug)]
pub struct ConfigError {
    pub message: String,
}

impl ConfigError {
    /// The error's text.
    pub fn message(&self) -> (r: String)
        ensures
            r@ == self.message@,
    {
        self.message.clone()
    }
}

pub type Entries = Seq<(String, String)>;

/// What alloy's `Address::from_str` gives for `input`: the 20 address bytes,
/// or the text of the hex decoding error.
pub uninterp spec fn address_from_str(input: Seq<char>) -> Result<Seq<u8>, Seq<char>>;

/// Parses an address with `alloy::primitives::Address::from_str` (hex, with an
/// optional `0x` prefix). The contract claims only that the outcome is the one
/// named `address_from_str(input)`: the address bytes, or the display text of
/// the decoding error; the hex rules are not restated.
#[verifier::external_body]
fn parse_address(input: &str) -> (r: Result<[u8; 20], String>)
    ensures
        match r {
            Ok(a) => address_from_str(input@) == Ok::<Seq<u8>, Seq<char>>(a@),
            Err(e) => address_from_str(input@) == Err::<Seq<u8>, Seq<char>>(e@),
        },
{
    match <alloy::primitives::Address as std::str::FromStr>::from_str(input) {
        Ok(address) => Ok(address.0.0),
        Err(error) => Err(error.to_string()),
    }
}

/// The message for an address that does not parse: the setting's name, the
/// parser's error, the value and its length in bytes.
pub open spec fn address_error_message(env_var: Seq<char>, error: Seq<char>, value: Seq<char>) -> Seq<char> {
    "Failed to parse "@ + env_var + ": "@ + error
        + ". Address must be exactly 42 characters (0x followed by 40 hex characters). Got: '"@
        + value + "' (length: "@ + decimal((vstd::utf8::encode_utf8(value).len() as usize) as nat) + ")"@
}

/// Creates the message for an address parsing failure.
pub fn address_parse_error(env_var: &str, error: &str, value: &str) -> (r: ConfigError)
    ensures
        r.message@ == address_error_message(env_var@, error@, value@),
{
    let mut m = String::from_str("Failed to parse ");
    m.append(env_var);
    m.append(": ");
    m.append(error);
    m.append(". Address must be exactly 42 characters (0x followed by 40 hex characters). Got: '");
    m.append(value);
    m.append("' (length: ");
    let len = value.len();
    append_decimal(&mut m, len as u64);
    m.append(")");
    ConfigError { message: m }
}

/// The message for a setting whose value is not a number.
pub open spec fn not_a_number_message(key: Seq<char>, kind: IntErrorKind) -> Seq<char> {
    key + " must be a number: "@ + kind.message_spec()
}

fn not_a_number(key: &str, kind: IntErrorKind) -> (r: ConfigError)
    ensures
        r.message@ == not_a_number_message(key@, kind),
{
    let mut m = String::from_str(key);
    m.append(" must be a number: ");
    let detail = kind.message();
    m.append(detail.as_str());
    ConfigError { message: m }
}

/// A `u64` setting: the variable's value parsed as a number, or `default`
/// when it is not set.
pub open spec fn u64_setting(env: Entries, key: Seq<char>, default: u64) -> Result<u64, Seq<char>> {
    match env_lookup(env, key) {
        None => Ok(default),
        Some(v) => match unsigned_from_str(v, u64::MAX as nat) {
            Ok(n) => Ok(n as u64),
            Err(k) => Err(not_a_number_message(key, k)),
        },
    }
}

pub fn read_u64(env: &EnvVars, key: &str, default: u64) -> (r: Result<u64, ConfigError>)
    ensures
        match r {
            Ok(v) => u64_setting(env.entries@, key@, default) == Ok::<u64, Seq<char>>(v),
            Err(e) => u64_setting(env.entries@, key@, default) == Err::<u64, Seq<char>>(e.message@),
        },
{
    match env.get(key) {
        None => Ok(default),
        Some(v) => match parse_u64(v.as_str()) {
            Ok(n) => Ok(n),
            Err(k) => Err(not_a_number(key, k)),
        },
    }
}

/// The message for a setting that must be positive.
pub open spec fn not_positive_message(key: Seq<char>) -> Seq<char> {
    key + " must be a positive number"@
}

/// A `u64` setting that must not be zero.
pub open spec fn positive_u64_setting(env: Entries, key: Seq<char>, default: u64) -> Result<u64, Seq<char>> {
    match u64_setting(env, key, default) {
        Ok(v) => if v == 0 { Err(not_positive_message(key)) } else { Ok(v) },
        Err(e) => Err(e),
    }
}

pub fn read_positive_u64(env: &EnvVars, key: &str, default: u64) -> (r: Result<u64, ConfigError>)
    ensures
        match r {
            Ok(v) => positive_u64_setting(env.entries@, key@, default) == Ok::<u64, Seq<char>>(v),
            Err(e) => positive_u64_setting(env.entries@, key@, default) == Err::<u64, Seq<char>>(e.message@),
        },
{
    let v = read_u64(env, key, default)?;
    if v == 0 {
        let mut m = String::from_str(key);
        m.append(" must be a positive number");
        return Err(ConfigError { message: m });
    }
    Ok(v)
}

/// A `u16` setting.
pub open spec fn u16_setting(env: Entries, key: Seq<char>, default: u16) -> Result<u16, Seq<char>> {
    match env_lookup(env, key) {
        None => Ok(default),
        Some(v) => match unsigned_from_str(v, u16::MAX as nat) {
            Ok(n) => Ok(n as u16),
            Err(k) => Err(not_a_number_message(key, k)),
        },
    }
}

pub fn read_u16(env: &EnvVars, key: &str, default: u16) -> (r: Result<u16, ConfigError>)
    ensures
        match r {
            Ok(v) => u16_setting(env.entries@, key@, default) == Ok::<u16, Seq<char>>(v),
            Err(e) => u16_setting(env.entries@, key@, default) == Err::<u16, Seq<char>>(e.message@),
        },
{
    match env.get(key) {
        None => Ok(default),
        Some(v) => match parse_u16(v.as_str()) {
            Ok(n) => Ok(n),
            Err(k) => Err(not_a_number(key, k)),
        },
    }
}

/// The message for a setting that has no default and is not set.
pub open spec fn missing_message(key: Seq<char>) -> Seq<char> {
    key + " must be set: environment variable not found"@
}

/// A `u16` setting without a default.
pub open spec fn required_u16_setting(env: Entries, key: Seq<char>) -> Result<u16, Seq<char>> {
    match env_lookup(env, key) {
        None => Err(missing_message(key)),
        Some(v) => match unsigned_from_str(v, u16::MAX as nat) {
            Ok(n) => Ok(n as u16),
            Err(k) => Err(not_a_number_message(key, k)),
        },
    }
}

pub fn read_required_u16(env: &EnvVars, key: &str) -> (r: Result<u16, ConfigError>)
    ensures
        match r {
            Ok(v) => required_u16_setting(env.entries@, key@) == Ok::<u16, Seq<char>>(v),
            Err(e) => required_u16_setting(env.entries@, key@) == Err::<u16, Seq<char>>(e.message@),
        },
{
    match env.get(key) {
        None => {
            let mut m = String::from_str(key);
            m.append(" must be set: environment variable not found");
            Err(ConfigError { message: m })
        },
        Some(v) => match parse_u16(v.as_str()) {
            Ok(n) => Ok(n),
            Err(k) => Err(not_a_number(key, k)),
        },
    }
}

/// A `u128` setting.
pub open spec fn u128_setting(env: Entries, key: Seq<char>, default: u128) -> Result<u128, Seq<char>> {
    match env_lookup(env, key) {
        None => Ok(default),
        Some(v) => match unsigned_from_str(v, u128::MAX as nat) {
            Ok(n) => Ok(n as u128),
            Err(k) => Err(not_a_number_message(key, k)),
        },
    }
}

pub fn read_u128(env: &EnvVars, key: &str, default: u128) -> (r: Result<u128, ConfigError>)
    ensures
        match r {
            Ok(v) => u128_setting(env.entries@, key@, default) == Ok::<u128, Seq<char>>(v),
            Err(e) => u128_setting(env.entries@, key@, default) == Err::<u128, Seq<char>>(e.message@),
        },
{
    match env.get(key) {
        None => Ok(default),
        Some(v) => match parse_u128(v.as_str()) {
            Ok(n) => Ok(n),
            Err(k) => Err(not_a_number(key, k)),
        },
    }
}

/// A boolean setting.
pub open spec fn bool_setting(env: Entries, key: Seq<char>, default: bool) -> Result<bool, Seq<char>> {
    match env_lookup(env, key) {
        None => Ok(default),
        Some(v) => match bool_from_str(v) {
            Some(b) => Ok(b),
            None => Err(key + " must be a boolean: "@ + bool_error_message()),
        },
    }
}

pub fn read_bool(env: &EnvVars, key: &str, default: bool) -> (r: Result<bool, ConfigError>)
    ensures
        match r {
            Ok(v) => bool_setting(env.entries@, key@, default) == Ok::<bool, Seq<char>>(v),
            Err(e) => bool_setting(env.entries@, key@, default) == Err::<bool, Seq<char>>(e.message@),
        },
{
    match env.get(key) {
        None => Ok(default),
        Some(v) => match parse_bool(v.as_str()) {
            Some(b) => Ok(b),
            None => {
                let mut m = String::from_str(key);
                m.append(" must be a boolean: ");
                let detail = bool_error_text();
                m.append(detail.as_str());
                Err(ConfigError { message: m })
            },
        },
    }
}

/// An IPv4 address setting; `default` is the octets used when it is not set.
pub open spec fn ipv4_setting(env: Entries, key: Seq<char>, default: Seq<u8>) -> Result<Seq<u8>, Seq<char>> {
    match env_lookup(env, key) {
        None => Ok(default),
        Some(v) => match ipv4_from_str(v) {
            Some(a) => Ok(a),
            None => Err(key + " must be a valid IPv4 address: "@ + ipv4_error_message()),
        },
    }
}

pub fn read_ipv4(env: &EnvVars, key: &str, default: [u8; 4]) -> (r: Result<[u8; 4], ConfigError>)
    ensures
        match r {
            Ok(v) => ipv4_setting(env.entries@, key@, default@) == Ok::<Seq<u8>, Seq<char>>(v@),
            Err(e) => ipv4_setting(env.entries@, key@, default@) == Err::<Seq<u8>, Seq<char>>(e.message@),
        },
{
    match env.get(key) {
        None => Ok(default),
        Some(v) => match parse_ipv4(v.as_str()) {
            Some(a) => Ok(a),
            None => {
                let mut m = String::from_str(key);
                m.append(" must be a valid IPv4 address: ");
                let detail = ipv4_error_text();
                m.append(detail.as_str());
                Err(ConfigError { message: m })
            },
        },
    }
}

/// A text setting with a default.
pub open spec fn string_setting(env: Entries, key: Seq<char>, default: Seq<char>) -> Seq<char> {
    match env_lookup(env, key) {
        Some(v) => v,
        None => default,
    }
}

pub fn read_string(env: &EnvVars, key: &str, default: &str) -> (r: String)
    ensures
        r@ == string_setting(env.entries@, key@, default@),
{
    match env.get(key) {
        Some(v) => v,
        None => String::from_str(default),
    }
}

/// An address given as text: its bytes, or the address error for `key`.
pub open spec fn address_value(key: Seq<char>, text: Seq<char>) -> Result<Seq<u8>, Seq<char>> {
    match address_from_str(text) {
        Ok(b) => Ok(b),
        Err(e) => Err(address_error_message(key, e, text)),
    }
}

pub fn address_from_text(key: &str, text: &str) -> (r: Result<[u8; 20], ConfigError>)
    ensures
        match r {
            Ok(a) => address_value(key@, text@) == Ok::<Seq<u8>, Seq<char>>(a@),
            Err(e) => address_value(key@, text@) == Err::<Seq<u8>, Seq<char>>(e.message@),
        },
{
    match parse_address(text) {
        Ok(a) => Ok(a),
        Err(detail) => Err(address_parse_error(key, detail.as_str(), text)),
    }
}

} // verus!

//! Network credentials and their bounded representation.
//!
//! The radio configuration holds the SSID and the passphrase in fixed-capacity
//! buffers. Credentials are accepted only if both texts fit; the error names
//! the field that did not.

use vstd::prelude::*;

verus! {

/// Largest SSID, in bytes, that the radio configuration can hold.
pub const SSID_MAX_BYTES: usize = 32;

/// Largest passphrase, in bytes, that the radio configuration can hold.
pub const PASSPHRASE_MAX_BYTES: usize = 64;

/// The fixed-capacity string of `heapless`. Its contents are opaque to the
/// verifier; `ssid_text` and `passphrase_text` name them.
#[verifier::external_type_specification]
#[verifier::external_body]
pub struct ExBoundedString<const N: usize>(heapless::String<N>);

/// The text that an SSID buffer holds.
pub uninterp spec fn ssid_text(buffer: heapless::String<32>) -> Seq<char>;

/// The text that a passphrase buffer holds.
pub uninterp spec fn passphrase_text(buffer: heapless::String<64>) -> Seq<char>;

/// Number of bytes that `text` occupies in UTF-8, the encoding of the buffers.
pub open spec fn byte_len(text: Seq<char>) -> nat {
    vstd::utf8::encode_utf8(text).len()
}

/// `heapless::String::<32>::try_from`: the conversion starts from an empty
/// buffer and appends the text, which succeeds exactly when the text's bytes
/// do not exceed the capacity of 32; the buffer then holds the text unchanged.
#[verifier::external_body]
fn bounded_ssid(text: &str) -> (r: Result<heapless::String<32>, ()>)
    ensures
        r is Ok <==> byte_len(text@) <= 32,
        r matches Ok(buffer) ==> ssid_text(buffer) == text@,
{
    heapless::String::<32>::try_from(text)
}

/// `heapless::String::<64>::try_from`: as for the SSID, with a capacity of 64
/// bytes.
#[verifier::external_body]
fn bounded_passphrase(text: &str) -> (r: Result<heapless::String<64>, ()>)
    ensures
        r is Ok <==> byte_len(text@) <= 64,
        r matches Ok(buffer) ==> passphrase_text(buffer) == text@,
{
    heapless::String::<64>::try_from(text)
}

/// `heapless::String::as_str` on an SSID buffer: the text it holds.
#[verifier::external_body]
fn ssid_str(buffer: &heapless::String<32>) -> (r: &str)
    ensures
        r@ == ssid_text(*buffer),
{
    buffer.as_str()
}

/// `heapless::String::as_str` on a passphrase buffer: the text it holds.
#[verifier::external_body]
fn passphrase_str(buffer: &heapless::String<64>) -> (r: &str)
    ensures
        r@ == passphrase_text(*buffer),
{
    buffer.as_str()
}

/// The credential that a `ConfigError` is about.
#[derive(Clone, Copy, Debug, PartialEq, Eq, Structural)]
pub enum CredentialField {
    Ssid,
    Passphrase,
}

/// A credential does not fit the buffer that the radio configuration has for
/// it. Fatal, and raised before any network activity.
#[derive(Clone, Copy, Debug, PartialEq, Eq, Structural)]
pub struct ConfigError {
    /// The field that could not be converted.
    pub field: CredentialField,
}

impl ConfigError {
    /// What the error says, as text.
    pub open spec fn message_text(self) -> Seq<char> {
        match self.field {
            CredentialField::Ssid => "invalid ssid"@,
            CredentialField::Passphrase => "invalid password"@,
        }
    }

    /// A message that names the credential that did not fit.
    pub fn message(&self) -> (r: &'static str)
        ensures
            r@ == self.message_text(),
    {
        match self.field {
            CredentialField::Ssid => "invalid ssid",
            CredentialField::Passphrase => "invalid password",
        }
    }
}

/// An SSID and a passphrase, each held in the bounded buffer of its field.
#[derive(Debug, PartialEq, Eq)]
pub struct Credentials {
    pub ssid: heapless::String<32>,
    pub passphrase: heapless::String<64>,
}

/// The outcome that is owed for a pair of credential texts: the SSID is
/// judged first, so a pair in which both are too long is refused for its SSID.
pub open spec fn credentials_verdict(ssid: Seq<char>, passphrase: Seq<char>) -> Option<
    CredentialField,
> {
    if byte_len(ssid) > SSID_MAX_BYTES {
        Some(CredentialField::Ssid)
    } else if byte_len(passphrase) > PASSPHRASE_MAX_BYTES {
        Some(CredentialField::Passphrase)
    } else {
        None
    }
}

impl Credentials {
    /// The SSID, as text.
    pub open spec fn ssid_view(self) -> Seq<char> {
        ssid_text(self.ssid)
    }

    /// The passphrase, as text.
    pub open spec fn passphrase_view(self) -> Seq<char> {
        passphrase_text(self.passphrase)
    }

    /// Converts both texts into their bounded buffers. Succeeds exactly when
    /// the SSID has at most 32 bytes and the passphrase at most 64; the
    /// credentials then hold both texts unchanged. Otherwise the error names
    /// the first field that is too long.
    pub fn new(ssid: &str, passphrase: &str) -> (r: Result<Credentials, ConfigError>)
        ensures
            match r {
                Ok(credentials) => {
                    &&& credentials_verdict(ssid@, passphrase@) is None
                    &&& credentials.ssid_view() == ssid@
                    &&& credentials.passphrase_view() == passphrase@
                },
                Err(error) => credentials_verdict(ssid@, passphrase@) == Some(error.field),
            },
    {
        let ssid_buffer = match bounded_ssid(ssid) {
            Ok(buffer) => buffer,
            Err(_) => {
                return Err(ConfigError { field: CredentialField::Ssid });
            },
        };
        let passphrase_buffer = match bounded_passphrase(passphrase) {
            Ok(buffer) => buffer,
            Err(_) => {
                return Err(ConfigError { field: CredentialField::Passphrase });
            },
        };
        Ok(Credentials { ssid: ssid_buffer, passphrase: passphrase_buffer })
    }

    /// The SSID.
    pub fn ssid(&self) -> (r: &str)
        ensures
            r@ == self.ssid_view(),
    {
        ssid_str(&self.ssid)
    }

    /// The passphrase.
    pub fn passphrase(&self) -> (r: &str)
        ensures
            r@ == self.passphrase_view(),
    {
        passphrase_str(&self.passphrase)
    }
}

} // verus!

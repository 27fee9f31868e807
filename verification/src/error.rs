//! The error type of the decoder.

use crate::addr::IpAddress;
use crate::text::append_decimal;
use crate::text::decimal_text;
use vstd::prelude::*;
use vstd::std_specs::convert::FromSpecImpl;
use vstd::string::to_string_from_display_ensures;

verus! {

#[verifier::external_type_specification]
#[verifier::external_body]
pub struct ExIoError(std::io::Error);

/// A failure that a collaborator reported, kept as text: what it said, and
/// what each error below it in its chain of sources said, nearest first.
#[derive(Debug)]
pub struct OpaqueError {
    /// What the error itself said.
    pub message: String,
    /// What its sources said, nearest first.
    pub chain: Vec<String>,
}

/// Why decoding failed.
#[derive(Debug)]
pub enum Error {
    /// A BMP message is malformed; the text says how.
    DecodeError(String),
    /// An I/O error, from the byte source or from the BGP parser.
    WireError(std::io::Error),
    /// Any other failure of a collaborator.
    Unknown(OpaqueError),
}

/// What an [`Error`] says, without the payload of an I/O error.
pub enum Failure {
    /// A malformed message, with the error's text.
    Decode(Seq<char>),
    /// An I/O error.
    Wire,
    /// A collaborator's failure, with its message.
    Unknown(Seq<char>),
}

/// The I/O error of kind `Other` that carries the message `msg`.
pub uninterp spec fn other_io_error(msg: Seq<char>) -> std::io::Error;

/// `std::io::Error::new` with `ErrorKind::Other`: an I/O error that carries
/// `msg` as its message. Equal messages give equal errors.
#[verifier::external_body]
fn new_other_io_error(msg: &str) -> (e: std::io::Error)
    ensures
        e == other_io_error(msg@),
{
    std::io::Error::new(std::io::ErrorKind::Other, msg)
}

/// The message of the error for a message that ends before a field does.
pub open spec fn truncated_text() -> Seq<char> {
    "unexpected end of BMP message"@
}

/// The message of the error for a number that stands for no value of the
/// enumeration `what`.
pub open spec fn invalid_value_text(what: Seq<char>, value: nat) -> Seq<char> {
    "invalid value for BMP "@ + what + ": "@ + decimal_text(value)
}

/// The message of the error for a value that is not well-formed UTF-8.
pub open spec fn invalid_utf8_text() -> Seq<char> {
    "invalid UTF-8 in BMP Information TLV"@
}

/// The message of the error for a BGP message that stands where an OPEN
/// message is due and is of another type.
pub open spec fn unexpected_record_text(record_type: nat) -> Seq<char> {
    "unexpected BGP record type in BMP Peer Up: "@ + decimal_text(record_type)
}

/// The message of the error for a common header whose length is less than the
/// header's own.
pub open spec fn invalid_length_text(length: nat) -> Seq<char> {
    "invalid BMP message length: "@ + decimal_text(length)
}

/// The message of the error for a Route Monitoring message of a peer whose
/// session is not known to be up.
pub open spec fn no_capabilities_text(addr: IpAddress) -> Seq<char> {
    "No capabilities found for neighbor "@ + addr.text()
}

impl Error {
    /// What this error says.
    pub open spec fn failure(&self) -> Failure {
        match self {
            Error::DecodeError(m) => Failure::Decode(m@),
            Error::WireError(_) => Failure::Wire,
            Error::Unknown(e) => Failure::Unknown(e.message@),
        }
    }

    /// A decode error with the given message.
    pub fn decode(msg: &str) -> (e: Error)
        ensures
            e.failure() == Failure::Decode(msg@),
    {
        Error::DecodeError(msg.to_owned())
    }

    /// The error for a message that ends before a field does.
    pub fn truncated() -> (e: Error)
        ensures
            e.failure() == Failure::Decode(truncated_text()),
    {
        Error::decode("unexpected end of BMP message")
    }

    /// The error for a number that stands for no value of the enumeration
    /// `what`.
    pub fn invalid_value(what: &str, value: u32) -> (e: Error)
        ensures
            e.failure() == Failure::Decode(invalid_value_text(what@, value as nat)),
    {
        let mut msg = String::from_str("invalid value for BMP ");
        msg.append(what);
        msg.append(": ");
        append_decimal(&mut msg, value);
        Error::DecodeError(msg)
    }

    /// The error for a value that is not well-formed UTF-8.
    pub fn invalid_utf8() -> (e: Error)
        ensures
            e.failure() == Failure::Decode(invalid_utf8_text()),
    {
        Error::decode("invalid UTF-8 in BMP Information TLV")
    }

    /// The error for a BGP message that stands where an OPEN message is due
    /// and is of another type.
    pub fn unexpected_record(record_type: u8) -> (e: Error)
        ensures
            e.failure() == Failure::Decode(unexpected_record_text(record_type as nat)),
    {
        let mut msg = String::from_str("unexpected BGP record type in BMP Peer Up: ");
        append_decimal(&mut msg, record_type as u32);
        Error::DecodeError(msg)
    }

    /// The error for a common header whose length is less than the header's
    /// own.
    pub fn invalid_length(length: u32) -> (e: Error)
        ensures
            e.failure() == Failure::Decode(invalid_length_text(length as nat)),
    {
        let mut msg = String::from_str("invalid BMP message length: ");
        append_decimal(&mut msg, length);
        Error::DecodeError(msg)
    }

    /// The error for a Route Monitoring message of a peer whose session is
    /// not known to be up.
    pub fn no_capabilities(addr: &IpAddress) -> (e: Error)
        ensures
            e.failure() == Failure::Decode(no_capabilities_text(*addr)),
    {
        let mut msg = String::from_str("No capabilities found for neighbor ");
        addr.append_to(&mut msg);
        Error::DecodeError(msg)
    }

    /// The text of this error as it is shown to a reader: a prefix that names
    /// the variant, then the message.
    pub open spec fn shown(&self, text: Seq<char>) -> bool {
        match self {
            Error::DecodeError(m) => text == "Decoding error: "@ + m@,
            Error::WireError(e) => exists|t: String|
                to_string_from_display_ensures::<std::io::Error>(e, t) && text == "IO error: "@
                    + t@,
            Error::Unknown(e) => text == "Unknown error: "@ + e.message@,
        }
    }

    /// The text of this error.
    pub fn to_string(&self) -> (s: String)
        ensures
            self.shown(s@),
    {
        match self {
            Error::DecodeError(m) => {
                let mut s = String::from_str("Decoding error: ");
                s.append(m.as_str());
                s
            },
            Error::WireError(e) => {
                let t = e.to_string();
                let mut s = String::from_str("IO error: ");
                s.append(t.as_str());
                s
            },
            Error::Unknown(e) => {
                let mut s = String::from_str("Unknown error: ");
                s.append(e.message.as_str());
                s
            },
        }
    }
}

impl From<std::io::Error> for Error {
    fn from(error: std::io::Error) -> (e: Error) {
        Error::WireError(error)
    }
}

impl FromSpecImpl<std::io::Error> for Error {
    open spec fn obeys_from_spec() -> bool {
        true
    }

    open spec fn from_spec(error: std::io::Error) -> Error {
        Error::WireError(error)
    }
}

impl From<OpaqueError> for Error {
    fn from(error: OpaqueError) -> (e: Error) {
        Error::Unknown(error)
    }
}

impl FromSpecImpl<OpaqueError> for Error {
    open spec fn obeys_from_spec() -> bool {
        true
    }

    open spec fn from_spec(error: OpaqueError) -> Error {
        Error::Unknown(error)
    }
}

impl From<Error> for std::io::Error {
    fn from(err: Error) -> (e: std::io::Error) {
        match err {
            Error::WireError(e) => e,
            Error::DecodeError(m) => new_other_io_error(m.as_str()),
            Error::Unknown(u) => new_other_io_error(u.message.as_str()),
        }
    }
}

impl FromSpecImpl<Error> for std::io::Error {
    open spec fn obeys_from_spec() -> bool {
        true
    }

    open spec fn from_spec(err: Error) -> std::io::Error {
        match err {
            Error::WireError(e) => e,
            Error::DecodeError(m) => other_io_error(m@),
            Error::Unknown(u) => other_io_error(u.message@),
        }
    }
}

} // verus!

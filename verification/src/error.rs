//! The failures that a request to the server can end in.
//!
//! [`Error`] has one variant for each origin of a failure.  A failure of the
//! transport, of the operating system or of a parser is kept as the value
//! that reported it; nothing is turned into text before it is shown.
//! [`ApiError`] is the set of failures that the server itself reports, each
//! under a fixed numeric code.

use vstd::prelude::*;
use vstd::std_specs::convert::FromSpecImpl;
use crate::json::{member, member_of, Member, MemberView};
use hyper::Error as TransportError;
use hyper::error::UriError as TransportUriError;
use serde_json::Error as JsonError;

verus! {

/// `std::io::Error`, carried as it is; nothing is known of what it holds.
#[verifier::external_type_specification]
#[verifier::external_body]
pub struct ExIoError(std::io::Error);

/// `std::num::ParseIntError`, carried as it is.
#[verifier::external_type_specification]
#[verifier::external_body]
pub struct ExParseIntError(std::num::ParseIntError);

/// `serde_json::Error`, carried as it is.
#[verifier::external_type_specification]
#[verifier::external_body]
pub struct ExJsonError(JsonError);

/// `hyper::Error`, carried as it is.
#[verifier::external_type_specification]
#[verifier::external_body]
pub struct ExTransportError(TransportError);

/// `hyper::error::UriError`, carried as it is.
#[verifier::external_type_specification]
#[verifier::external_body]
pub struct ExTransportUriError(TransportUriError);

/// `hyper::StatusCode`, carried as it is.
#[verifier::external_type_specification]
#[verifier::external_body]
pub struct ExStatusCode(hyper::StatusCode);

/// Any failure of the client.
#[derive(Debug)]
pub enum Error {
    /// A state that the client should never reach.
    UnknownError(&'static str),
    /// The address of the server is malformed or incomplete.
    Uri(UriError),
    /// Reading or writing failed.
    Io(std::io::Error),
    /// The server reported a failure in words that fit no [`ApiError`].
    ServerError(String),
    /// The transport failed.
    HyperError(hyper::Error),
    /// The named field of a response is missing or cannot be read.
    ParseError(&'static str),
    /// The server reported a failure by code.
    Api(ApiError),
    /// Fetching content broke off.
    StreamError(&'static str),
    /// The body of a response is not JSON, or not of the expected shape.
    JsonError(String),
    /// A number could not be parsed.
    ParError(std::num::ParseIntError),
    /// Serialising or deserialising failed.
    SerdeError(serde_json::Error),
    /// The server answered with a status other than success.
    ConnectionError(hyper::StatusCode),
    /// Anything else.
    Other(&'static str),
}

/// What is wrong with the address of a server.
#[derive(Debug)]
pub enum UriError {
    /// The transport could not parse it.
    Hyper(hyper::error::UriError),
    /// It names no scheme.
    Scheme,
    /// It names no host.
    Address,
}

/// A failure that the server reports in a response, under a numeric code.
#[derive(Debug)]
pub enum ApiError {
    /// Code 0, with the server's message.
    Generic(String),
    /// Code 10.
    MissingParameter,
    /// Code 20.
    ClientMustUpgrade,
    /// Code 30.
    ServerMustUpgrade,
    /// Code 40.
    WrongAuth,
    /// Code 41.
    Ldap,
    /// Code 50, with the server's message.
    NotAuthorized(String),
    /// Code 60.
    TrialExpired,
    /// Code 70.
    NotFound,
}

/// The mathematical image of an [`ApiError`]: the same variants, the message
/// as a sequence of characters.
pub enum ApiErrorView {
    Generic(Seq<char>),
    MissingParameter,
    ClientMustUpgrade,
    ServerMustUpgrade,
    WrongAuth,
    Ldap,
    NotAuthorized(Seq<char>),
    TrialExpired,
    NotFound,
}

impl View for ApiError {
    type V = ApiErrorView;

    open spec fn view(&self) -> ApiErrorView {
        match self {
            ApiError::Generic(message) => ApiErrorView::Generic(message@),
            ApiError::MissingParameter => ApiErrorView::MissingParameter,
            ApiError::ClientMustUpgrade => ApiErrorView::ClientMustUpgrade,
            ApiError::ServerMustUpgrade => ApiErrorView::ServerMustUpgrade,
            ApiError::WrongAuth => ApiErrorView::WrongAuth,
            ApiError::Ldap => ApiErrorView::Ldap,
            ApiError::NotAuthorized(message) => ApiErrorView::NotAuthorized(message@),
            ApiError::TrialExpired => ApiErrorView::TrialExpired,
            ApiError::NotFound => ApiErrorView::NotFound,
        }
    }
}

impl Clone for ApiError {
    /// A copy of the failure, with a copy of its message.
    fn clone(&self) -> (copy: ApiError)
        ensures
            copy@ == self@,
    {
        match self {
            ApiError::Generic(message) => ApiError::Generic(message.clone()),
            ApiError::MissingParameter => ApiError::MissingParameter,
            ApiError::ClientMustUpgrade => ApiError::ClientMustUpgrade,
            ApiError::ServerMustUpgrade => ApiError::ServerMustUpgrade,
            ApiError::WrongAuth => ApiError::WrongAuth,
            ApiError::Ldap => ApiError::Ldap,
            ApiError::NotAuthorized(message) => ApiError::NotAuthorized(message.clone()),
            ApiError::TrialExpired => ApiError::TrialExpired,
            ApiError::NotFound => ApiError::NotFound,
        }
    }
}

impl ApiErrorView {
    /// The code that stands for this failure on the wire.
    pub open spec fn code(self) -> u16 {
        match self {
            ApiErrorView::Generic(_) => 0,
            ApiErrorView::MissingParameter => 10,
            ApiErrorView::ClientMustUpgrade => 20,
            ApiErrorView::ServerMustUpgrade => 30,
            ApiErrorView::WrongAuth => 40,
            ApiErrorView::Ldap => 41,
            ApiErrorView::NotAuthorized(_) => 50,
            ApiErrorView::TrialExpired => 60,
            ApiErrorView::NotFound => 70,
        }
    }

    /// The server's message, for the two failures that keep it.
    pub open spec fn message(self) -> Option<Seq<char>> {
        match self {
            ApiErrorView::Generic(message) => Some(message),
            ApiErrorView::NotAuthorized(message) => Some(message),
            _ => None,
        }
    }

    /// The failure that `code` and `message` stand for in an error payload.
    /// The message is kept under the codes 0 and 50 and dropped under the
    /// others; a code outside the table stands for nothing.
    pub open spec fn from_wire(code: u64, message: Seq<char>) -> Option<ApiErrorView> {
        if code == 0 {
            Some(ApiErrorView::Generic(message))
        } else if code == 10 {
            Some(ApiErrorView::MissingParameter)
        } else if code == 20 {
            Some(ApiErrorView::ClientMustUpgrade)
        } else if code == 30 {
            Some(ApiErrorView::ServerMustUpgrade)
        } else if code == 40 {
            Some(ApiErrorView::WrongAuth)
        } else if code == 41 {
            Some(ApiErrorView::Ldap)
        } else if code == 50 {
            Some(ApiErrorView::NotAuthorized(message))
        } else if code == 60 {
            Some(ApiErrorView::TrialExpired)
        } else if code == 70 {
            Some(ApiErrorView::NotFound)
        } else {
            None
        }
    }

    /// The failure that a bare code stands for.  Five codes are taken
    /// without anything beside them: 10, 40, 41, 60 and 70.
    pub open spec fn from_code(code: u16) -> Option<ApiErrorView> {
        if code == 10 {
            Some(ApiErrorView::MissingParameter)
        } else if code == 40 {
            Some(ApiErrorView::WrongAuth)
        } else if code == 41 {
            Some(ApiErrorView::Ldap)
        } else if code == 60 {
            Some(ApiErrorView::TrialExpired)
        } else if code == 70 {
            Some(ApiErrorView::NotFound)
        } else {
            None
        }
    }

    /// What decoding makes of the two members of an error payload.  `Ok` is
    /// the failure that the payload reports; `Err` is the reason why it
    /// reports none: the name of the member that is missing or of the wrong
    /// type (`code` is looked at first), or that the code is not in the
    /// table.
    pub open spec fn from_members(code: MemberView, message: MemberView) -> Result<
        ApiErrorView,
        Seq<char>,
    > {
        match code {
            MemberView::Number(n) => match message {
                MemberView::Text(m) => match Self::from_wire(n, m) {
                    Some(e) => Ok(e),
                    None => Err("unable to match error code"@),
                },
                _ => Err("message"@),
            },
            _ => Err("code"@),
        }
    }
}

impl Error {
    /// This is a [`Error::ParseError`] that names `field`.
    pub open spec fn is_parse_error(self, field: Seq<char>) -> bool {
        self matches Error::ParseError(name) && name@ == field
    }

    /// This is a [`Error::UnknownError`] that gives `reason`.
    pub open spec fn is_unknown_error(self, reason: Seq<char>) -> bool {
        self matches Error::UnknownError(given) && given@ == reason
    }
}

impl ApiError {
    /// The code that stands for this failure on the wire.
    pub fn as_u16(&self) -> (code: u16)
        ensures
            code == self@.code(),
    {
        match self {
            ApiError::Generic(_) => 0,
            ApiError::MissingParameter => 10,
            ApiError::ClientMustUpgrade => 20,
            ApiError::ServerMustUpgrade => 30,
            ApiError::WrongAuth => 40,
            ApiError::Ldap => 41,
            ApiError::NotAuthorized(_) => 50,
            ApiError::TrialExpired => 60,
            ApiError::NotFound => 70,
        }
    }

    /// Decodes the error payload `json`: an object with a numeric member
    /// `code` and a string member `message`.
    ///
    /// Fails with [`Error::ParseError`] where a member is missing or of
    /// another type, and where the code is not in the table.
    pub fn try_from(json: &serde_json::Value) -> (r: Result<ApiError, Error>)
        ensures
            match ApiErrorView::from_members(member_of(*json, "code"@), member_of(*json, "message"@)) {
                Ok(e) => r matches Ok(a) && a@ == e,
                Err(field) => r matches Err(e) && e.is_parse_error(field),
            },
    {
        let code = member(json, "code");
        let message = member(json, "message");
        ApiError::from_members(code, message)
    }

    /// Decodes an error payload from its two members as they were found.
    ///
    /// `code` has to be a number and `message` a string; the message is
    /// required whether or not the failure keeps it.
    pub fn from_members(code: Member, message: Member) -> (r: Result<ApiError, Error>)
        ensures
            match ApiErrorView::from_members(code@, message@) {
                Ok(e) => r matches Ok(a) && a@ == e,
                Err(field) => r matches Err(e) && e.is_parse_error(field),
            },
    {
        let n = match code {
            Member::Number(n) => n,
            _ => return Err(Error::ParseError("code")),
        };
        let text = match message {
            Member::Text(text) => text,
            _ => return Err(Error::ParseError("message")),
        };
        match n {
            0 => Ok(ApiError::Generic(text.to_owned())),
            10 => Ok(ApiError::MissingParameter),
            20 => Ok(ApiError::ClientMustUpgrade),
            30 => Ok(ApiError::ServerMustUpgrade),
            40 => Ok(ApiError::WrongAuth),
            41 => Ok(ApiError::Ldap),
            50 => Ok(ApiError::NotAuthorized(text.to_owned())),
            60 => Ok(ApiError::TrialExpired),
            70 => Ok(ApiError::NotFound),
            _ => Err(Error::ParseError("unable to match error code")),
        }
    }

    /// The failure that the bare code `n` stands for.
    ///
    /// Fails with [`Error::UnknownError`] for every code but 10, 40, 41, 60
    /// and 70; the other codes of the table are decoded from a payload, by
    /// [`ApiError::try_from`].
    pub fn from_u16(n: u16) -> (r: Result<ApiError, Error>)
        ensures
            match ApiErrorView::from_code(n) {
                Some(e) => r matches Ok(a) && a@ == e,
                None => r matches Err(e) && e.is_unknown_error(
                    "can't make error from u16; requires other arguments"@,
                ),
            },
    {
        match n {
            10 => Ok(ApiError::MissingParameter),
            40 => Ok(ApiError::WrongAuth),
            41 => Ok(ApiError::Ldap),
            60 => Ok(ApiError::TrialExpired),
            70 => Ok(ApiError::NotFound),
            _ => Err(Error::UnknownError("can't make error from u16; requires other arguments")),
        }
    }
}

/// `code` is one of the nine codes of the table.
pub open spec fn is_wire_code(code: u64) -> bool {
    code == 0 || code == 10 || code == 20 || code == 30 || code == 40 || code == 41 || code == 50
        || code == 60 || code == 70
}

/// A payload with a code of the table and a message decodes, whatever the
/// message, and gives a failure whose code is the payload's code.  A payload
/// with any other code does not decode.
pub proof fn lemma_wire_code_kept(code: u64, message: Seq<char>)
    ensures
        is_wire_code(code) ==> (ApiErrorView::from_members(
            MemberView::Number(code),
            MemberView::Text(message),
        ) matches Ok(e) && e.code() == code),
        !is_wire_code(code) ==> ApiErrorView::from_members(
            MemberView::Number(code),
            MemberView::Text(message),
        ) is Err,
        ApiErrorView::from_wire(code, message) is Some <==> is_wire_code(code),
{
}

/// Decoding keeps the message under the codes 0 and 50 and nowhere else.
pub proof fn lemma_wire_message_kept(code: u64, message: Seq<char>)
    ensures
        ApiErrorView::from_wire(code, message) matches Some(e) ==> e.message() == (if code == 0
            || code == 50 {
            Some(message)
        } else {
            None
        }),
{
}

/// Every failure is what decoding makes of its own code, together with its
/// own message where it keeps one and with any message where it keeps none.
pub proof fn lemma_wire_round_trip(e: ApiErrorView, message: Seq<char>)
    ensures
        ApiErrorView::from_wire(
            e.code() as u64,
            match e.message() {
                Some(own) => own,
                None => message,
            },
        ) == Some(e),
{
}

/// Where a bare code stands for a failure, it is the failure's code, and the
/// failure is the one that a payload with that code reports.
pub proof fn lemma_bare_code_agrees(code: u16, message: Seq<char>)
    ensures
        ApiErrorView::from_code(code) matches Some(e) ==> e.code() == code && e.message() is None
            && ApiErrorView::from_wire(code as u64, message) == Some(e),
{
}

/// A failure of the transport becomes [`Error::HyperError`] and is kept whole.
impl From<hyper::Error> for Error {
    fn from(err: hyper::Error) -> (e: Error) {
        Error::HyperError(err)
    }
}

impl FromSpecImpl<hyper::Error> for Error {
    open spec fn obeys_from_spec() -> bool {
        true
    }

    open spec fn from_spec(err: hyper::Error) -> Error {
        Error::HyperError(err)
    }
}

/// A failure of reading or writing becomes [`Error::Io`] and is kept whole.
impl From<std::io::Error> for Error {
    fn from(err: std::io::Error) -> (e: Error) {
        Error::Io(err)
    }
}

impl FromSpecImpl<std::io::Error> for Error {
    open spec fn obeys_from_spec() -> bool {
        true
    }

    open spec fn from_spec(err: std::io::Error) -> Error {
        Error::Io(err)
    }
}

/// A failure of parsing a number becomes [`Error::ParError`] and is kept whole.
impl From<std::num::ParseIntError> for Error {
    fn from(err: std::num::ParseIntError) -> (e: Error) {
        Error::ParError(err)
    }
}

impl FromSpecImpl<std::num::ParseIntError> for Error {
    open spec fn obeys_from_spec() -> bool {
        true
    }

    open spec fn from_spec(err: std::num::ParseIntError) -> Error {
        Error::ParError(err)
    }
}

/// A failure of the serialiser becomes [`Error::SerdeError`] and is kept whole.
impl From<serde_json::Error> for Error {
    fn from(err: serde_json::Error) -> (e: Error) {
        Error::SerdeError(err)
    }
}

impl FromSpecImpl<serde_json::Error> for Error {
    open spec fn obeys_from_spec() -> bool {
        true
    }

    open spec fn from_spec(err: serde_json::Error) -> Error {
        Error::SerdeError(err)
    }
}

/// A failure of parsing an address becomes [`Error::Uri`] and is kept whole.
impl From<hyper::error::UriError> for Error {
    fn from(err: hyper::error::UriError) -> (e: Error) {
        Error::Uri(UriError::Hyper(err))
    }
}

impl FromSpecImpl<hyper::error::UriError> for Error {
    open spec fn obeys_from_spec() -> bool {
        true
    }

    open spec fn from_spec(err: hyper::error::UriError) -> Error {
        Error::Uri(UriError::Hyper(err))
    }
}

/// A failure of parsing an address becomes [`UriError::Hyper`] and is kept whole.
impl From<hyper::error::UriError> for UriError {
    fn from(err: hyper::error::UriError) -> (e: UriError) {
        UriError::Hyper(err)
    }
}

impl FromSpecImpl<hyper::error::UriError> for UriError {
    open spec fn obeys_from_spec() -> bool {
        true
    }

    open spec fn from_spec(err: hyper::error::UriError) -> UriError {
        UriError::Hyper(err)
    }
}

} // verus!

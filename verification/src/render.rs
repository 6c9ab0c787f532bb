//! The sentence that each failure is shown as.
//!
//! A failure of the server is shown as a fixed sentence, followed by the
//! server's message where the failure keeps one.  A failure of the client is
//! shown as fixed opening words followed by the detail.  Where the detail is
//! an outside value (an I/O error, a transport error, a status), it is the
//! text that the value's own `Display` writes; of that text nothing more is
//! known here.

use vstd::prelude::*;
use vstd::string::{to_string_from_display_ensures, StringExecFns};
use crate::error::{ApiError, ApiErrorView, Error, UriError};

verus! {

/// `text` is what `Display` writes for `value`, as `to_string` hands it out.
pub open spec fn displays_as<T: std::fmt::Display>(value: &T, text: Seq<char>) -> bool {
    exists|written: String| #[trigger]
        to_string_from_display_ensures::<T>(value, written) && written@ == text
}

impl ApiErrorView {
    /// The sentence that this failure is shown as.
    pub open spec fn rendering(self) -> Seq<char> {
        match self {
            ApiErrorView::Generic(message) => "Generic error: "@ + message,
            ApiErrorView::MissingParameter => "Missing a required parameter"@,
            ApiErrorView::ClientMustUpgrade => "Incompatible protocol; client must upgrade"@,
            ApiErrorView::ServerMustUpgrade => "Incompatible protocol; server must upgrade"@,
            ApiErrorView::WrongAuth => "Wrong username or password"@,
            ApiErrorView::Ldap => "Token authentication not supported for LDAP users"@,
            ApiErrorView::NotAuthorized(message) => "Not authorized: "@ + message,
            ApiErrorView::TrialExpired => "Subsonic trial period has expired"@,
            ApiErrorView::NotFound => "Requested data not found"@,
        }
    }
}

impl UriError {
    /// `text` is a text that this failure is shown as: its fixed sentence,
    /// or what a failure of the transport writes of itself.
    pub open spec fn renders_as(&self, text: Seq<char>) -> bool {
        match self {
            UriError::Hyper(e) => displays_as(e, text),
            UriError::Scheme => text == "Unable to determine scheme"@,
            UriError::Address => text == "Missing server address"@,
        }
    }
}

impl Error {
    /// The words that open the text of this failure.
    pub open spec fn lead(&self) -> Seq<char> {
        match self {
            Error::UnknownError(_) => "Unknown error: "@,
            Error::Uri(_) => "Invalid URL: "@,
            Error::Io(_) => "IO error: "@,
            Error::ServerError(_) => "API error: "@,
            Error::HyperError(_) => "Connection error: "@,
            Error::ParseError(_) => "Bad field: "@,
            Error::Api(_) => Seq::empty(),
            Error::StreamError(_) => "Unable to fetch content: "@,
            Error::JsonError(_) => "Error parsing JSON: "@,
            Error::ParError(_) => "Failed to parse value: "@,
            Error::SerdeError(_) => "Error serialising: "@,
            Error::ConnectionError(_) => "Unable to connect to server: received "@,
            Error::Other(_) => Seq::empty(),
        }
    }

    /// `detail` is a text that follows the opening words: what the failure
    /// carries, or what the value that it wraps writes of itself.
    pub open spec fn has_detail(&self, detail: Seq<char>) -> bool {
        match self {
            Error::UnknownError(reason) => detail == reason@,
            Error::Uri(e) => e.renders_as(detail),
            Error::Io(e) => displays_as(e, detail),
            Error::ServerError(message) => detail == message@,
            Error::HyperError(e) => displays_as(e, detail),
            Error::ParseError(field) => detail == field@,
            Error::Api(e) => detail == e@.rendering(),
            Error::StreamError(reason) => detail == reason@,
            Error::JsonError(message) => detail == message@,
            Error::ParError(e) => displays_as(e, detail),
            Error::SerdeError(e) => displays_as(e, detail),
            Error::ConnectionError(status) => displays_as(status, detail),
            Error::Other(reason) => detail == reason@,
        }
    }

    /// `text` is a text that this failure is shown as: the opening words of
    /// its variant, and behind them a detail of the failure.
    pub open spec fn renders_as(&self, text: Seq<char>) -> bool {
        self.lead().is_prefix_of(text) && self.has_detail(text.skip(self.lead().len() as int))
    }

    /// The two failures are of one variant.
    pub open spec fn same_variant(&self, other: &Error) -> bool {
        match (self, other) {
            (Error::UnknownError(_), Error::UnknownError(_)) => true,
            (Error::Uri(_), Error::Uri(_)) => true,
            (Error::Io(_), Error::Io(_)) => true,
            (Error::ServerError(_), Error::ServerError(_)) => true,
            (Error::HyperError(_), Error::HyperError(_)) => true,
            (Error::ParseError(_), Error::ParseError(_)) => true,
            (Error::Api(_), Error::Api(_)) => true,
            (Error::StreamError(_), Error::StreamError(_)) => true,
            (Error::JsonError(_), Error::JsonError(_)) => true,
            (Error::ParError(_), Error::ParError(_)) => true,
            (Error::SerdeError(_), Error::SerdeError(_)) => true,
            (Error::ConnectionError(_), Error::ConnectionError(_)) => true,
            (Error::Other(_), Error::Other(_)) => true,
            _ => false,
        }
    }
}

/// `lead` followed by `detail`.
pub fn join(lead: &str, detail: &str) -> (text: String)
    ensures
        text@ == lead@ + detail@,
        lead@.is_prefix_of(text@),
        text@.skip(lead@.len() as int) == detail@,
{
    let mut text = lead.to_owned();
    text.append(detail);
    assert(text@.subrange(0, lead@.len() as int) =~= lead@);
    assert(text@.skip(lead@.len() as int) =~= detail@);
    text
}

/// The text that `Display` writes for `value`.
fn written<T: std::fmt::Display>(value: &T) -> (text: String)
    ensures
        displays_as(value, text@),
{
    value.to_string()
}

impl ApiError {
    /// The sentence that this failure is shown as.  The server's message,
    /// where the failure keeps one, follows the fixed words unchanged.
    pub fn to_string(&self) -> (text: String)
        ensures
            text@ == self@.rendering(),
    {
        match self {
            ApiError::Generic(message) => join("Generic error: ", message.as_str()),
            ApiError::MissingParameter => "Missing a required parameter".to_owned(),
            ApiError::ClientMustUpgrade => "Incompatible protocol; client must upgrade".to_owned(),
            ApiError::ServerMustUpgrade => "Incompatible protocol; server must upgrade".to_owned(),
            ApiError::WrongAuth => "Wrong username or password".to_owned(),
            ApiError::Ldap => "Token authentication not supported for LDAP users".to_owned(),
            ApiError::NotAuthorized(message) => join("Not authorized: ", message.as_str()),
            ApiError::TrialExpired => "Subsonic trial period has expired".to_owned(),
            ApiError::NotFound => "Requested data not found".to_owned(),
        }
    }
}

impl UriError {
    /// The text that this failure is shown as.  A failure of the transport
    /// writes its own.
    pub fn to_string(&self) -> (text: String)
        ensures
            self.renders_as(text@),
    {
        match self {
            UriError::Hyper(e) => written(e),
            UriError::Scheme => "Unable to determine scheme".to_owned(),
            UriError::Address => "Missing server address".to_owned(),
        }
    }
}

impl Error {
    /// The text that this failure is shown as: the opening words of its
    /// variant, then the detail.  A value from outside writes its own detail.
    pub fn to_string(&self) -> (text: String)
        ensures
            self.renders_as(text@),
    {
        match self {
            Error::UnknownError(reason) => join("Unknown error: ", reason),
            Error::Uri(e) => join("Invalid URL: ", e.to_string().as_str()),
            Error::Io(e) => join("IO error: ", written(e).as_str()),
            Error::ServerError(message) => join("API error: ", message.as_str()),
            Error::HyperError(e) => join("Connection error: ", written(e).as_str()),
            Error::ParseError(field) => join("Bad field: ", field),
            Error::Api(e) => {
                let text = e.to_string();
                assert(text@.skip(0) =~= text@);
                text
            },
            Error::StreamError(reason) => join("Unable to fetch content: ", reason),
            Error::JsonError(message) => join("Error parsing JSON: ", message.as_str()),
            Error::ParError(e) => join("Failed to parse value: ", written(e).as_str()),
            Error::SerdeError(e) => join("Error serialising: ", written(e).as_str()),
            Error::ConnectionError(status) => join(
                "Unable to connect to server: received ",
                written(status).as_str(),
            ),
            Error::Other(reason) => {
                let text = (*reason).to_owned();
                assert(text@.skip(0) =~= text@);
                text
            },
        }
    }
}

/// The characters by which the sentence of a server failure is told from
/// every other opening: the first always, the next two and the one at place
/// 23 where the first is an `I`.
proof fn lemma_api_marks(e: ApiErrorView)
    ensures
        e.rendering().len() >= 15,
        match e {
            ApiErrorView::Generic(_) => e.rendering()[0] == 'G',
            ApiErrorView::MissingParameter => e.rendering()[0] == 'M',
            ApiErrorView::ClientMustUpgrade => e.rendering().len() == 42 && e.rendering()[0] == 'I'
                && e.rendering()[1] == 'n' && e.rendering()[2] == 'c' && e.rendering()[23] == 'c',
            ApiErrorView::ServerMustUpgrade => e.rendering().len() == 42 && e.rendering()[0] == 'I'
                && e.rendering()[1] == 'n' && e.rendering()[2] == 'c' && e.rendering()[23] == 's',
            ApiErrorView::WrongAuth => e.rendering()[0] == 'W',
            ApiErrorView::Ldap => e.rendering()[0] == 'T',
            ApiErrorView::NotAuthorized(_) => e.rendering()[0] == 'N',
            ApiErrorView::TrialExpired => e.rendering()[0] == 'S',
            ApiErrorView::NotFound => e.rendering()[0] == 'R',
        },
{
    reveal_strlit("Generic error: ");
    reveal_strlit("Missing a required parameter");
    reveal_strlit("Incompatible protocol; client must upgrade");
    reveal_strlit("Incompatible protocol; server must upgrade");
    reveal_strlit("Wrong username or password");
    reveal_strlit("Token authentication not supported for LDAP users");
    reveal_strlit("Not authorized: ");
    reveal_strlit("Subsonic trial period has expired");
    reveal_strlit("Requested data not found");
}

/// The sentence of a server failure is never empty, and it ends with the
/// server's message where the failure keeps one.
pub proof fn lemma_api_rendering_embeds_message(e: ApiErrorView)
    ensures
        e.rendering().len() > 0,
        e.message() matches Some(message) ==> message.is_suffix_of(e.rendering()),
{
    lemma_api_marks(e);
    match e {
        ApiErrorView::Generic(message) => {
            assert(e.rendering().subrange(
                e.rendering().len() - message.len(),
                e.rendering().len() as int,
            ) =~= message);
        },
        ApiErrorView::NotAuthorized(message) => {
            assert(e.rendering().subrange(
                e.rendering().len() - message.len(),
                e.rendering().len() as int,
            ) =~= message);
        },
        _ => {},
    }
}

/// Two server failures that are shown alike are the same failure: the
/// sentences of different variants differ, and under one sentence different
/// messages give different texts.
pub proof fn lemma_api_rendering_tells_apart(a: ApiErrorView, b: ApiErrorView)
    requires
        a.rendering() == b.rendering(),
    ensures
        a == b,
{
    lemma_api_marks(a);
    lemma_api_marks(b);
    match (a, b) {
        (ApiErrorView::Generic(m), ApiErrorView::Generic(n)) => {
            let lead = "Generic error: "@;
            assert((lead + m).subrange(lead.len() as int, (lead + m).len() as int) =~= m);
            assert((lead + n).subrange(lead.len() as int, (lead + n).len() as int) =~= n);
        },
        (ApiErrorView::NotAuthorized(m), ApiErrorView::NotAuthorized(n)) => {
            let lead = "Not authorized: "@;
            assert((lead + m).subrange(lead.len() as int, (lead + m).len() as int) =~= m);
            assert((lead + n).subrange(lead.len() as int, (lead + n).len() as int) =~= n);
        },
        _ => {},
    }
}

/// The characters by which the text of a failure is told from the texts of
/// the other variants.
proof fn lemma_error_marks(e: Error, text: Seq<char>)
    requires
        e.renders_as(text),
        !(e is Other),
    ensures
        text.len() >= 10,
        match e {
            Error::UnknownError(_) => text[0] == 'U' && text[2] == 'k',
            Error::Uri(_) => text[0] == 'I' && text[1] == 'n' && text[2] == 'v',
            Error::Io(_) => text[0] == 'I' && text[1] == 'O',
            Error::ServerError(_) => text[0] == 'A',
            Error::HyperError(_) => text[0] == 'C',
            Error::ParseError(_) => text[0] == 'B',
            Error::Api(_) => text[0] == 'G' || text[0] == 'M' || text[0] == 'W' || text[0] == 'T'
                || text[0] == 'N' || text[0] == 'S' || text[0] == 'R' || (text[0] == 'I' && text[1]
                == 'n' && text[2] == 'c'),
            Error::StreamError(_) => text.len() >= 11 && text[0] == 'U' && text[2] == 'a'
                && text[10] == 'f',
            Error::JsonError(_) => text[0] == 'E' && text[6] == 'p',
            Error::ParError(_) => text[0] == 'F',
            Error::SerdeError(_) => text[0] == 'E' && text[6] == 's',
            Error::ConnectionError(_) => text.len() >= 11 && text[0] == 'U' && text[2] == 'a'
                && text[10] == 'c',
            Error::Other(_) => true,
        },
{
    reveal_strlit("Unknown error: ");
    reveal_strlit("Invalid URL: ");
    reveal_strlit("IO error: ");
    reveal_strlit("API error: ");
    reveal_strlit("Connection error: ");
    reveal_strlit("Bad field: ");
    reveal_strlit("Unable to fetch content: ");
    reveal_strlit("Error parsing JSON: ");
    reveal_strlit("Failed to parse value: ");
    reveal_strlit("Error serialising: ");
    reveal_strlit("Unable to connect to server: received ");
    let lead = e.lead();
    if let Error::Api(api) = e {
        lemma_api_marks(api@);
        assert(text =~= text.skip(0));
    } else {
        assert(lead.len() >= 10);
        assert forall|k: int| 0 <= k < lead.len() implies text[k] == lead[k] by {
            assert(text.subrange(0, lead.len() as int)[k] == lead[k]);
        }
    }
}

/// The text of a failure is never empty, but for [`Error::Other`] with an
/// empty reason, whose text is the reason alone.
pub proof fn lemma_rendering_not_empty(e: Error, text: Seq<char>)
    requires
        e.renders_as(text),
        !(e matches Error::Other(reason) && reason@.len() == 0),
    ensures
        text.len() > 0,
{
    if let Error::Other(reason) = e {
        assert(text =~= text.skip(0));
    } else {
        lemma_error_marks(e, text);
    }
}

/// Failures of two different variants are never shown alike, whatever the
/// outside values among them write.  [`Error::Other`] stands apart: it is
/// shown as its reason alone, which may be any text.
pub proof fn lemma_renderings_differ(a: Error, shown_a: Seq<char>, b: Error, shown_b: Seq<char>)
    requires
        a.renders_as(shown_a),
        b.renders_as(shown_b),
        !a.same_variant(&b),
        !(a is Other),
        !(b is Other),
    ensures
        shown_a != shown_b,
{
    lemma_error_marks(a, shown_a);
    lemma_error_marks(b, shown_b);
}

} // verus!

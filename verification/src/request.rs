//! The request line and the URL it holds.

use vstd::prelude::*;
use vstd::string::*;
use vstd::utf8::encode_utf8;

verus! {

/// The longest request line that is accepted, in bytes of UTF-8.
pub const MAX_REQUEST_BYTES: usize = 1024;

/// The byte order mark, U+FEFF, with which no request line may begin.
pub const BYTE_ORDER_MARK: char = '\u{feff}';

/// The components of a parsed absolute URL that the server decides on.
#[derive(Debug, PartialEq, Eq)]
pub struct RequestUrl {
    /// The scheme in lower case, without the colon.
    pub scheme: String,
    /// Whether the URL is opaque: its scheme is not followed by a slash, as
    /// in `mailto:` URLs.
    pub cannot_be_a_base: bool,
    /// The host as the URL spells it, if the URL has one.
    pub host: Option<String>,
    /// The port, if the URL names one.
    pub port: Option<u16>,
    /// The path, percent-encoded, without query and fragment.
    pub path: String,
}

/// A URL as contracts see it.
pub struct UrlView {
    pub scheme: Seq<char>,
    pub cannot_be_a_base: bool,
    pub host: Option<Seq<char>>,
    pub port: Option<u16>,
    pub path: Seq<char>,
}

impl View for RequestUrl {
    type V = UrlView;

    open spec fn view(&self) -> UrlView {
        UrlView {
            scheme: self.scheme@,
            cannot_be_a_base: self.cannot_be_a_base,
            host: match self.host {
                Some(host) => Some(host@),
                None => None,
            },
            port: self.port,
            path: self.path@,
        }
    }
}

/// The error of the URL parser.  Nothing is read from it.
#[verifier::external_type_specification]
#[verifier::external_body]
pub struct ExParseError(url::ParseError);

/// The components of the absolute URL that `line` parses to under the URL
/// Standard as the `url` crate implements it; `None` where `line` does not
/// parse as an absolute URL.
pub uninterp spec fn parsed_url(line: Seq<char>) -> Option<UrlView>;

/// Calls `url::Url::parse` and, on success, copies out what the accessors
/// `scheme`, `cannot_be_a_base`, `host_str`, `port` and `path` of the parsed
/// URL return.
///
/// Trusted: that the outcome depends on `line` alone, which is all that the
/// contract claims by naming it `parsed_url(line@)`.
#[verifier::external_body]
fn parse_url(line: &str) -> (parsed: Result<RequestUrl, url::ParseError>)
    ensures
        match parsed {
            Ok(url) => parsed_url(line@) == Some(url@),
            Err(_) => parsed_url(line@) is None,
        },
{
    let url = url::Url::parse(line)?;
    Ok(
        RequestUrl {
            scheme: url.scheme().to_owned(),
            cannot_be_a_base: url.cannot_be_a_base(),
            host: url.host_str().map(str::to_owned),
            port: url.port(),
            path: url.path().to_owned(),
        },
    )
}

/// Why a request line with a byte order mark is rejected.
pub open spec fn byte_order_mark_reason() -> Seq<char> {
    "The request MUST NOT begin with a U+FEFF byte order mark."@
}

/// Why an overlong request line is rejected.
pub open spec fn too_long_reason() -> Seq<char> {
    "URL is too long. Maximum length is 1024 bytes."@
}

/// Why a request line that is no absolute URL is rejected.
pub open spec fn unparseable_reason() -> Seq<char> {
    "Error parsing the url"@
}

/// Whether the first character of `line` is the byte order mark.
pub open spec fn begins_with_byte_order_mark(line: Seq<char>) -> bool {
    line.len() > 0 && line[0] == BYTE_ORDER_MARK
}

/// The length of `line` in bytes of UTF-8.
pub open spec fn byte_length(line: Seq<char>) -> nat {
    encode_utf8(line).len()
}

/// What parsing makes of a request line, given what the URL parser makes of
/// it: the checks in the order in which they are made.
pub open spec fn parse_outcome(line: Seq<char>, parsed: Option<UrlView>) -> Result<
    UrlView,
    Seq<char>,
> {
    if begins_with_byte_order_mark(line) {
        Err(byte_order_mark_reason())
    } else if byte_length(line) > MAX_REQUEST_BYTES {
        Err(too_long_reason())
    } else {
        match parsed {
            Some(url) => Ok(url),
            None => Err(unparseable_reason()),
        }
    }
}

/// Whether `outcome` is what `expected` says, an error by its text.
pub open spec fn outcome_matches(
    outcome: Result<RequestUrl, &'static str>,
    expected: Result<UrlView, Seq<char>>,
) -> bool {
    match outcome {
        Ok(url) => expected == Ok::<UrlView, Seq<char>>(url@),
        Err(reason) => expected == Err::<UrlView, Seq<char>>(reason@),
    }
}

/// Validates a request line and parses it as an absolute URL.
///
/// A line that begins with a byte order mark is rejected whatever else it
/// holds; then a line of more than `MAX_REQUEST_BYTES` bytes; then a line
/// that the URL parser rejects.  Every error is the reason to give to the
/// client with `Status::BadRequest`.
pub fn parse_request(request_line: String) -> (outcome: Result<RequestUrl, &'static str>)
    ensures
        outcome_matches(outcome, parse_outcome(request_line@, parsed_url(request_line@))),
{
    let line = request_line.as_str();
    if !line.is_empty() && line.get_char(0) == BYTE_ORDER_MARK {
        Err("The request MUST NOT begin with a U+FEFF byte order mark.")
    } else if line.as_bytes().len() > MAX_REQUEST_BYTES {
        Err("URL is too long. Maximum length is 1024 bytes.")
    } else {
        match parse_url(line) {
            Ok(url) => Ok(url),
            Err(_) => Err("Error parsing the url"),
        }
    }
}

} // verus!

//! Why a feed could not be had.

use vstd::prelude::*;
use vstd::string::*;

verus! {

/// What is wrong with a body that does not hold a weather document.
#[derive(Debug, Clone, Copy, PartialEq, Eq, Structural)]
pub enum ParseFault {
    /// The body is not JSON.
    Syntax,
    /// The document is not an object.
    NotAnObject,
    /// The value under a key of the document is not an object.
    EntryNotAnObject,
    /// An entry lacks one of its members.
    MissingField,
    /// A member of an entry is not a text.
    FieldNotText,
    /// The key of an entry does not begin with the report-type marker.
    MissingPrefix,
    /// The key of an entry is the report-type marker alone.
    EmptyIdentifier,
    /// A coordinate of an entry is not a decimal number.
    NotANumber,
    /// The body is not of the schema of the traffic feed.
    Schema,
}

/// Why a feed could not be had.
#[derive(Debug, Clone, PartialEq, Eq)]
pub enum FetchError {
    /// The service answered with a status other than success.
    Http(u16),
    /// The request could not be sent or its answer could not be read.
    Network(String),
    /// The body does not hold what is expected.
    Parse(ParseFault),
}

/// Whether a status of the service tells success: one of the two hundreds.
pub open spec fn spec_is_success(status: u16) -> bool {
    200 <= status < 300
}

/// Takes the status of an answer in: success lets the body be read, any
/// other status fails the feed with that status.
pub fn status_outcome(status: u16) -> (r: Result<(), FetchError>)
    ensures
        match r {
            Ok(_) => spec_is_success(status),
            Err(error) => !spec_is_success(status) && error == FetchError::Http(status),
        },
{
    if 200 <= status && status < 300 {
        Ok(())
    } else {
        Err(FetchError::Http(status))
    }
}

/// One of the two feeds.
#[derive(Debug, Clone, Copy, PartialEq, Eq, Structural)]
pub enum Feed {
    /// The airport weather reports.
    Weather,
    /// The positions of the traffic.
    Traffic,
}

/// The character of a decimal digit.
pub open spec fn spec_digit(d: nat) -> char {
    ((48 + d) as u8) as char
}

/// The decimal digits of a number, without leading zeros.
pub open spec fn spec_decimal(n: nat) -> Seq<char>
    decreases n,
{
    if n < 10 {
        seq![spec_digit(n)]
    } else {
        spec_decimal(n / 10).push(spec_digit(n % 10))
    }
}

/// Calls `u16::to_string`. The contract claims that the text is the number
/// in decimal digits without leading zeros.
#[verifier::external_body]
pub(crate) fn decimal(n: u16) -> (r: String)
    ensures
        r@ == spec_decimal(n as nat),
{
    n.to_string()
}

/// The name of a feed in a message.
pub open spec fn spec_feed_name(feed: Feed) -> Seq<char> {
    match feed {
        Feed::Weather => "METAR"@,
        Feed::Traffic => "VATSIM"@,
    }
}

/// What is wrong with a body, in words.
pub open spec fn spec_fault_text(fault: ParseFault) -> Seq<char> {
    match fault {
        ParseFault::Syntax => "the body is not JSON"@,
        ParseFault::NotAnObject => "the document is not an object"@,
        ParseFault::EntryNotAnObject => "an entry is not an object"@,
        ParseFault::MissingField => "an entry lacks a member"@,
        ParseFault::FieldNotText => "a member of an entry is not a text"@,
        ParseFault::MissingPrefix => "a key lacks the report marker"@,
        ParseFault::EmptyIdentifier => "a key names no airport"@,
        ParseFault::NotANumber => "a coordinate is not a number"@,
        ParseFault::Schema => "the body is not of the schema"@,
    }
}

/// The text that opens the message of a feed that could not be fetched.
pub open spec fn spec_fetch_prefix(feed: Feed) -> Seq<char> {
    "Failed to fetch "@ + spec_feed_name(feed) + " data: "@
}

/// The text that opens the message of a feed that could not be parsed.
pub open spec fn spec_parse_prefix(feed: Feed) -> Seq<char> {
    "Failed to parse "@ + spec_feed_name(feed) + " data: "@
}

/// The message for a feed that could not be had.
pub open spec fn spec_describe(feed: Feed, error: FetchError) -> Seq<char> {
    spec_fetch_prefix(feed) + match error {
        FetchError::Http(status) => spec_fetch_prefix(feed) + spec_decimal(status as nat),
        FetchError::Network(cause) => cause@,
        FetchError::Parse(fault) => spec_parse_prefix(feed) + spec_fault_text(fault),
    }
}

/// The name of a feed in a message.
pub fn feed_name(feed: Feed) -> (r: &'static str)
    ensures
        r@ == spec_feed_name(feed),
{
    match feed {
        Feed::Weather => "METAR",
        Feed::Traffic => "VATSIM",
    }
}

/// What is wrong with a body, in words.
pub fn fault_text(fault: ParseFault) -> (r: &'static str)
    ensures
        r@ == spec_fault_text(fault),
{
    match fault {
        ParseFault::Syntax => "the body is not JSON",
        ParseFault::NotAnObject => "the document is not an object",
        ParseFault::EntryNotAnObject => "an entry is not an object",
        ParseFault::MissingField => "an entry lacks a member",
        ParseFault::FieldNotText => "a member of an entry is not a text",
        ParseFault::MissingPrefix => "a key lacks the report marker",
        ParseFault::EmptyIdentifier => "a key names no airport",
        ParseFault::NotANumber => "a coordinate is not a number",
        ParseFault::Schema => "the body is not of the schema",
    }
}

/// The one message that the caller of a cycle gets for a feed that could
/// not be had: which feed it was, then what went wrong. A refusal by the
/// service gives its status, a fault of the body is put in words, and a
/// failure of the network gives its cause as it came.
pub fn describe(feed: Feed, error: &FetchError) -> (r: String)
    ensures
        r@ == spec_describe(feed, *error),
{
    let name = feed_name(feed);
    let fetch = "Failed to fetch ".to_owned().concat(name).concat(" data: ");
    match error {
        FetchError::Http(status) => {
            let inner = fetch.clone().concat(decimal(*status).as_str());
            let out = fetch.concat(inner.as_str());
            proof {
                assert(out@ =~= spec_describe(feed, *error));
            }
            out
        },
        FetchError::Network(cause) => fetch.concat(cause.as_str()),
        FetchError::Parse(fault) => {
            let inner = "Failed to parse ".to_owned().concat(name).concat(" data: ").concat(
                fault_text(*fault),
            );
            let out = fetch.concat(inner.as_str());
            proof {
                assert(out@ =~= spec_describe(feed, *error));
            }
            out
        },
    }
}

} // verus!

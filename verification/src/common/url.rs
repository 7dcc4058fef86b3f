//! URLs, taken apart by the `url` crate into the parts that connection
//! settings are read from.

use crate::common::command::{optional_text, texts};
use vstd::prelude::*;

verus! {

/// The parts of a parsed URL.
#[derive(Clone, Debug, PartialEq, Eq)]
pub struct UrlParts {
    /// The URL as the parser writes it back.
    pub text: String,
    pub host: Option<String>,
    /// The port, if one is given that is not the scheme's default.
    pub port: Option<u16>,
    /// The user name, empty if there is none.
    pub username: String,
    pub password: Option<String>,
    /// The segments of the path, if the URL can have any.
    pub path_segments: Option<Vec<String>>,
}

/// The mathematical content of `UrlParts`.
pub struct UrlPartsView {
    pub text: Seq<char>,
    pub host: Option<Seq<char>>,
    pub port: Option<u16>,
    pub username: Seq<char>,
    pub password: Option<Seq<char>>,
    pub path_segments: Option<Seq<Seq<char>>>,
}

impl View for UrlParts {
    type V = UrlPartsView;

    open spec fn view(&self) -> UrlPartsView {
        UrlPartsView {
            text: self.text@,
            host: optional_text(self.host),
            port: self.port,
            username: self.username@,
            password: optional_text(self.password),
            path_segments: match self.path_segments {
                Some(segments) => Some(texts(segments@)),
                None => None,
            },
        }
    }
}

/// The parts into which `url::Url::parse` takes `input` apart, or `None`
/// where it refuses `input`.
pub uninterp spec fn parsed_url(input: Seq<char>) -> Option<UrlPartsView>;

/// The `url` crate's reason for refusing an input. It is carried through
/// unread.
#[verifier::external_type_specification]
#[verifier::external_body]
pub struct ExUrlParseError(url::ParseError);

/// Calls `url::Url::parse` and copies out of the parsed URL what its
/// accessors `as_str`, `host`, `port`, `username`, `password` and
/// `path_segments` return. Trusted: the parts are a function of the input
/// text alone, and the call fails exactly where there are none.
#[verifier::external_body]
pub(crate) fn parse_url(input: &str) -> (parts: Result<UrlParts, url::ParseError>)
    ensures
        match parts {
            Ok(found) => parsed_url(input@) == Some(found@),
            Err(_) => parsed_url(input@) is None,
        },
{
    url::Url::parse(input).map(
        |url| UrlParts {
            text: url.as_str().to_string(),
            host: url.host().map(|host| host.to_string()),
            port: url.port(),
            username: url.username().to_string(),
            password: url.password().map(|password| password.to_string()),
            path_segments: url.path_segments().map(
                |segments| segments.map(|segment| segment.to_string()).collect(),
            ),
        },
    )
}

} // verus!

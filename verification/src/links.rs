//! Web addresses, as the `url` crate parses them, held as plain values.
use crate::text::string_views;
use vstd::prelude::*;

verus! {

/// The error `url::Url::parse` reports for a text that is no URL.
#[verifier::external_type_specification]
#[verifier::external_body]
pub struct ExUrlParseError(::url::ParseError);

/// What `url::Url::parse` makes of a text, when it accepts it: the URL's
/// serialization, its host (`Url::host_str`) and its path segments
/// (`Url::path_segments`, `None` for a URL that cannot be a base).
pub uninterp spec fn parsed_url(input: Seq<char>) -> Option<
    (Seq<char>, Option<Seq<char>>, Option<Seq<Seq<char>>>),
>;

/// A parsed URL: its serialization, its host and its path segments.
#[derive(Debug, Clone)]
pub struct Url {
    text: String,
    host: Option<String>,
    segments: Option<Vec<String>>,
}

impl View for Url {
    type V = (Seq<char>, Option<Seq<char>>, Option<Seq<Seq<char>>>);

    closed spec fn view(&self) -> Self::V {
        (
            self.text@,
            match self.host {
                Some(h) => Some(h@),
                None => None,
            },
            match self.segments {
                Some(s) => Some(string_views(s@)),
                None => None,
            },
        )
    }
}

impl Url {
    /// Parses an absolute URL with `url::Url::parse`, and keeps its
    /// serialization, host and path segments. The result is a function of the
    /// text alone: the contract names it (`parsed_url`) and says nothing more.
    #[verifier::external_body]
    pub fn parse(input: &str) -> (r: Result<Url, ::url::ParseError>)
        ensures
            match r {
                Ok(u) => parsed_url(input@) == Some(u@),
                Err(_) => parsed_url(input@) is None,
            },
    {
        match ::url::Url::parse(input) {
            Ok(u) => Ok(Url {
                text: u.as_str().to_string(),
                host: u.host_str().map(|h| h.to_string()),
                segments: u.path_segments().map(|s| s.map(|p| p.to_string()).collect()),
            }),
            Err(e) => Err(e),
        }
    }

    /// The serialization of the URL.
    pub fn as_str(&self) -> (r: &str)
        ensures
            r@ == self@.0,
    {
        self.text.as_str()
    }

    /// The host of the URL, if it has one.
    pub fn host_str(&self) -> (r: Option<&str>)
        ensures
            match r {
                Some(h) => self@.1 == Some(h@),
                None => self@.1 is None,
            },
    {
        match &self.host {
            Some(h) => Some(h.as_str()),
            None => None,
        }
    }

    /// The path segments of the URL, or `None` for a URL that cannot be a base.
    pub fn path_segments(&self) -> (r: Option<&Vec<String>>)
        ensures
            match r {
                Some(s) => self@.2 == Some(string_views(s@)),
                None => self@.2 is None,
            },
    {
        match &self.segments {
            Some(s) => Some(s),
            None => None,
        }
    }
}

} // verus!

//! Absolute URLs, kept as the text the `url` crate normalises them to.
use vstd::prelude::*;

use crate::json::{quote, quoted, ToJson};

verus! {

/// The serialization that `url::Url::parse` gives to a text, or `None` where it
/// refuses the text.
pub uninterp spec fn parsed_url(s: Seq<char>) -> Option<Seq<char>>;

#[verifier::external_type_specification]
#[verifier::external_body]
pub struct ExParseError(url::ParseError);

/// Relies on `url::Url::parse`, read back through `Url::as_str`: what comes out
/// depends on the input text alone.
#[verifier::external_body]
fn parse_url_text(s: &str) -> (r: Result<String, url::ParseError>)
    ensures
        r is Ok <==> parsed_url(s@) is Some,
        r matches Ok(t) ==> parsed_url(s@) == Some(t@),
{
    url::Url::parse(s).map(|u| u.as_str().to_string())
}

/// Why a text was refused as a URL.
#[derive(Debug)]
pub struct UrlError {
    pub reason: url::ParseError,
}

/// An absolute URL in its normalised form.
#[derive(Debug)]
pub struct Url {
    serialization: String,
}

impl View for Url {
    type V = Seq<char>;

    closed spec fn view(&self) -> Seq<char> {
        self.serialization@
    }
}

impl Url {
    /// Parses an absolute URL.
    pub fn parse(input: &str) -> (r: Result<Url, UrlError>)
        ensures
            r is Ok <==> parsed_url(input@) is Some,
            r matches Ok(u) ==> parsed_url(input@) == Some(u@),
    {
        match parse_url_text(input) {
            Ok(serialization) => Ok(Url { serialization }),
            Err(reason) => Err(UrlError { reason }),
        }
    }

    /// The normalised text of the URL.
    pub fn as_str(&self) -> (r: &str)
        ensures
            r@ == self@,
    {
        self.serialization.as_str()
    }
}

impl ToJson for Url {
    open spec fn json(&self) -> Seq<char> {
        quoted(self@)
    }

    fn to_json(&self) -> (r: String) {
        quote(self.serialization.as_str())
    }
}

} // verus!

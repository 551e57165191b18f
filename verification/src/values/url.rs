//! URLs stored as values: a URL is written as its serialization.
//!
//! A URL is handled here as its serialization, the text `url::Url` displays and
//! compares URLs by.
use vstd::prelude::*;
use url::Url;
use crate::builder::columns::opt_view;
use crate::error::Error;
use crate::text::owned;
use super::value::{Value, ValueView, value_text};

verus! {

/// The serialization of the URL that `url::Url::parse` reads from a text, when it
/// accepts the text.
pub uninterp spec fn url_serialization(s: Seq<char>) -> Option<Seq<char>>;

/// `url::Url::parse(s)`, as the serialization of the URL; `None` where the crate
/// returns an error.
#[verifier::external_body]
fn parse_url(s: &str) -> (res: Option<String>)
    ensures
        opt_view(res) == url_serialization(s@),
{
    match Url::parse(s) {
        Ok(u) => Some(u.to_string()),
        Err(_) => None,
    }
}

/// The value of a URL: the text of its serialization.
pub fn url_to_value(url: &str) -> (res: Value)
    ensures
        res@ == ValueView::Text(url@),
{
    Value::Text(owned(url))
}

/// The error of a value that is no URL.
pub open spec fn is_url_error(e: Error) -> bool {
    e matches Error::TryFromValueError { field } && field@ == "url"@
}

/// The URL, as its serialization, that the text of a value parses as.
pub fn url_from_value(value: &Value) -> (res: Result<String, Error>)
    ensures
        match url_serialization(value_text(value@)) {
            Some(u) => (res matches Ok(s) && s@ == u),
            None => (res matches Err(e) && is_url_error(e)),
        },
{
    let text = value.to_sql_text();
    match parse_url(text.as_str()) {
        Some(u) => Ok(u),
        None => Err(Error::TryFromValueError { field: owned("url") }),
    }
}

} // verus!

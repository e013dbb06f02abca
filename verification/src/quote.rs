//! Quote extraction: turning a quote-service response body into the one
//! line the bot sends back.
//!
//! The service answers with a JSON array whose first element carries the
//! quote text under `q` and the author under `a`. A missing or non-string
//! field falls back to a fixed placeholder; a body that is not JSON at
//! all counts as a failed fetch.

use vstd::prelude::*;
use vstd::string::StringExecFns;

verus! {

/// The two string fields read out of the first element of a quote-service
/// response: the quote text under `q` and the author under `a`. A field
/// is `None` when the element is absent or the field is not a string.
pub struct QuoteFields {
    pub text: Option<String>,
    pub author: Option<String>,
}

/// The mathematical model of [`QuoteFields`]: each field as a sequence of
/// characters, where present.
pub struct QuoteFieldsModel {
    pub text: Option<Seq<char>>,
    pub author: Option<Seq<char>>,
}

impl View for QuoteFields {
    type V = QuoteFieldsModel;

    open spec fn view(&self) -> QuoteFieldsModel {
        QuoteFieldsModel {
            text: match self.text {
                Some(t) => Some(t@),
                None => None,
            },
            author: match self.author {
                Some(a) => Some(a@),
                None => None,
            },
        }
    }
}

/// What the quote service's JSON reading yields on a given body: `None`
/// when the body is not JSON, otherwise the `q` and `a` string fields of
/// the first array element, each absent when it is not there or not a
/// string. The value is fixed by the body alone; only the trusted reader
/// below says anything about it.
pub uninterp spec fn quote_fields_of(body: Seq<char>) -> Option<QuoteFieldsModel>;

/// Reads the two quote fields out of a JSON response body.
///
/// Relies on serde_json::from_str to parse the body, on serde_json::Value's
/// read index, which yields Null when the array element or key is absent
/// or the value has another shape, and on serde_json::Value::as_str, which
/// yields the string exactly when the value is a JSON string.
#[verifier::external_body]
fn read_quote_fields(body: &str) -> (r: Option<QuoteFields>)
    ensures
        r is Some <==> quote_fields_of(body@) is Some,
        r matches Some(f) ==> quote_fields_of(body@) == Some(f@),
{
    match serde_json::from_str::<serde_json::Value>(body) {
        Ok(v) => Some(QuoteFields {
            text: v[0]["q"].as_str().map(|s| s.to_string()),
            author: v[0]["a"].as_str().map(|s| s.to_string()),
        }),
        Err(_) => None,
    }
}

/// The placeholder that stands in for a missing quote text.
pub open spec fn no_quote_placeholder() -> Seq<char> {
    "No quote available"@
}

/// The placeholder that stands in for a missing author.
pub open spec fn unknown_author_placeholder() -> Seq<char> {
    "Unknown"@
}

/// A field's text where it is present, the given placeholder where not.
pub open spec fn field_or(field: Option<Seq<char>>, placeholder: Seq<char>) -> Seq<char> {
    match field {
        Some(s) => s,
        None => placeholder,
    }
}

/// The shape of every formatted quote line: the quote text in double
/// quotes, then a dash, then the author.
pub open spec fn quote_line_shape(q: Seq<char>, a: Seq<char>) -> Seq<char> {
    "\""@ + q + "\" - "@ + a
}

/// The line formatted for a given pair of fields: each missing field is
/// replaced by its fixed placeholder.
pub open spec fn spec_quote_line(f: QuoteFieldsModel) -> Seq<char> {
    quote_line_shape(
        field_or(f.text, no_quote_placeholder()),
        field_or(f.author, unknown_author_placeholder()),
    )
}

/// Format one quote line from the fields read out of a response body:
/// the quote text in double quotes, a dash, the author, with a fixed
/// placeholder for each missing field.
pub fn render_quote_line(fields: QuoteFields) -> (r: String)
    ensures
        r@ == spec_quote_line(fields@),
{
    let quote_text = match fields.text {
        Some(t) => t,
        None => "No quote available".to_owned(),
    };
    let author = match fields.author {
        Some(a) => a,
        None => "Unknown".to_owned(),
    };
    let line = "\"".to_owned();
    let line = line.concat(quote_text.as_str());
    let line = line.concat("\" - ");
    line.concat(author.as_str())
}

/// The formatted line a body yields, where it parses as JSON at all.
pub open spec fn spec_extract_quote(body: Seq<char>) -> Option<Seq<char>> {
    match quote_fields_of(body) {
        Some(f) => Some(spec_quote_line(f)),
        None => None,
    }
}

/// Parse a quote-service response body and format its first quote.
/// Yields `None` exactly when the body is not JSON; a well-formed body
/// always yields a line, with placeholders for missing fields.
pub fn extract_quote(body: &str) -> (r: Option<String>)
    ensures
        r is Some <==> spec_extract_quote(body@) is Some,
        r matches Some(line) ==> spec_extract_quote(body@) == Some(line@),
{
    match read_quote_fields(body) {
        Some(f) => Some(render_quote_line(f)),
        None => None,
    }
}

} // verus!

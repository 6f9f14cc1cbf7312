//! The error values: full HTTP-exchange detail, and the two-variant error.

use vstd::prelude::*;

use crate::digits::{dec_str, u16_string};
use crate::extract::{extract_message, extract_spec, opt_text_view};

verus! {

/// Detailed HTTP error information for better error reporting.
#[derive(Clone, Debug)]
pub struct HttpErrorDetails {
    /// HTTP status code (e.g., 400, 401, 404, 500).
    pub status_code: u16,
    /// HTTP status text (e.g., "Bad Request", "Unauthorized").
    pub status_text: String,
    /// The request URL that failed.
    pub url: String,
    /// The HTTP method used (GET, POST, etc.).
    pub method: String,
    /// The response body content (if available).
    pub body: Option<String>,
    /// A user-friendly error message derived from the response.
    pub message: String,
}

/// The summary line: `"HTTP <code> - <message>"`.
pub open spec fn summary_of(code: u16, message: Seq<char>) -> Seq<char> {
    "HTTP "@ + dec_str(code as nat) + " - "@ + message
}

/// A body as `details` shows it: cut to its first 500 characters, with a
/// marker where a cut actually happened.
pub open spec fn truncated_body(b: Seq<char>) -> Seq<char> {
    if b.len() > 500 {
        b.subrange(0, 500) + "... (truncated)"@
    } else {
        b
    }
}

impl HttpErrorDetails {
    /// Well-formedness: the stored message is exactly what the extraction
    /// heuristic yields for the stored body, status text and status code.
    pub open spec fn wf(&self) -> bool {
        self.message@ == extract_spec(
            opt_text_view(self.body),
            self.status_text@,
            self.status_code,
        )
    }

    /// The multi-line diagnostic block `details` returns.
    pub open spec fn details_of(&self) -> Seq<char> {
        let head = "HTTP Error:\n  Status: "@ + dec_str(self.status_code as nat) + " "@
            + self.status_text@ + "\n  URL: "@ + self.url@ + "\n  Method: "@ + self.method@;
        match self.body {
            Option::Some(b) => head + "\n  Response: "@ + truncated_body(b@),
            Option::None => head,
        }
    }

    /// Records one failed exchange and derives its message, which is
    /// computed here once and never recomputed.
    pub fn new(
        status_code: u16,
        status_text: &str,
        url: &str,
        method: &str,
        body: Option<&str>,
    ) -> (r: Self)
        ensures
            r.status_code == status_code,
            r.status_text@ == status_text@,
            r.url@ == url@,
            r.method@ == method@,
            match body {
                Option::Some(b) => r.body matches Option::Some(rb) && rb@ == b@,
                Option::None => r.body is None,
            },
            r.wf(),
    {
        let owned_body: Option<String> = match body {
            Option::Some(b) => Option::Some(String::from_str(b)),
            Option::None => Option::None,
        };
        let message = extract_message(&owned_body, status_text, status_code);
        Self {
            status_code,
            status_text: String::from_str(status_text),
            url: String::from_str(url),
            method: String::from_str(method),
            body: owned_body,
            message,
        }
    }

    /// A formatted summary for user display: always exactly
    /// `"HTTP <status code> - <message>"`, the same value on every call.
    pub fn summary(&self) -> (r: String)
        ensures
            r@ == summary_of(self.status_code, self.message@),
    {
        let mut r = String::from_str("HTTP ");
        let num = u16_string(self.status_code);
        r.append(num.as_str());
        r.append(" - ");
        r.append(self.message.as_str());
        proof {
            assert(r@ =~= summary_of(self.status_code, self.message@));
        }
        r
    }

    /// Detailed information for debugging and logging: status, URL and
    /// method, and the response body cut to its first 500 characters, with a
    /// truncation marker only where a cut actually happened.
    pub fn details(&self) -> (r: String)
        ensures
            r@ == self.details_of(),
    {
        let mut r = String::from_str("HTTP Error:\n  Status: ");
        let num = u16_string(self.status_code);
        r.append(num.as_str());
        r.append(" ");
        r.append(self.status_text.as_str());
        r.append("\n  URL: ");
        r.append(self.url.as_str());
        r.append("\n  Method: ");
        r.append(self.method.as_str());
        match &self.body {
            Option::Some(b) => {
                r.append("\n  Response: ");
                let n = b.as_str().unicode_len();
                if n > 500 {
                    r.append(b.as_str().substring_char(0, 500));
                    r.append("... (truncated)");
                } else {
                    r.append(b.as_str());
                }
            },
            Option::None => {},
        }
        proof {
            assert(r@ =~= self.details_of());
        }
        r
    }
}

/// Whether two optional bodies hold the same text.
pub open spec fn opt_text_eq(a: Option<String>, b: Option<String>) -> bool {
    match (a, b) {
        (Option::Some(x), Option::Some(y)) => x@ == y@,
        (Option::None, Option::None) => true,
        _ => false,
    }
}

/// Whether two details agree field by field (strings by content).
pub open spec fn details_eq(a: &HttpErrorDetails, b: &HttpErrorDetails) -> bool {
    &&& a.status_code == b.status_code
    &&& a.status_text@ == b.status_text@
    &&& a.url@ == b.url@
    &&& a.method@ == b.method@
    &&& opt_text_eq(a.body, b.body)
    &&& a.message@ == b.message@
}

/// Compares two optional bodies by content.
fn opt_text_equal(a: &Option<String>, b: &Option<String>) -> (r: bool)
    ensures
        r == opt_text_eq(*a, *b),
{
    match (a, b) {
        (Option::Some(x), Option::Some(y)) => *x == *y,
        (Option::None, Option::None) => true,
        _ => false,
    }
}

impl PartialEq for HttpErrorDetails {
    /// Structural equality: field by field, strings by content.
    fn eq(&self, other: &HttpErrorDetails) -> (r: bool) {
        self.status_code == other.status_code && self.status_text == other.status_text
            && self.url == other.url && self.method == other.method && opt_text_equal(
            &self.body,
            &other.body,
        ) && self.message == other.message
    }
}

impl vstd::std_specs::cmp::PartialEqSpecImpl for HttpErrorDetails {
    open spec fn obeys_eq_spec() -> bool {
        true
    }

    open spec fn eq_spec(&self, other: &HttpErrorDetails) -> bool {
        details_eq(self, other)
    }
}

/// The error taxonomy: a bare displayable failure, or a failure with full
/// HTTP context.
#[derive(Clone, Debug)]
pub enum Error {
    /// A simple error with just a message string.
    WebApiError(String),
    /// A detailed HTTP error with status code, response body, etc.
    HttpError(HttpErrorDetails),
}

/// Whether two errors agree: same variant, same content (strings by
/// content, details field by field).
pub open spec fn error_eq(a: &Error, b: &Error) -> bool {
    match (a, b) {
        (Error::WebApiError(x), Error::WebApiError(y)) => x@ == y@,
        (Error::HttpError(x), Error::HttpError(y)) => details_eq(x, y),
        _ => false,
    }
}

impl PartialEq for Error {
    /// Structural equality: same variant, same content.
    fn eq(&self, other: &Error) -> (r: bool) {
        match (self, other) {
            (Error::WebApiError(x), Error::WebApiError(y)) => *x == *y,
            (Error::HttpError(x), Error::HttpError(y)) => x == y,
            _ => false,
        }
    }
}

impl vstd::std_specs::cmp::PartialEqSpecImpl for Error {
    open spec fn obeys_eq_spec() -> bool {
        true
    }

    open spec fn eq_spec(&self, other: &Error) -> bool {
        error_eq(self, other)
    }
}

impl Error {
    /// The one-line rendering: a bare message verbatim, or the wrapped
    /// detail's summary line.
    pub open spec fn render_of(&self) -> Seq<char> {
        match self {
            Error::WebApiError(m) => m@,
            Error::HttpError(d) => summary_of(d.status_code, d.message@),
        }
    }

    /// Creates a simple `WebApiError` from an already rendered failure text.
    pub fn web_api(message: &str) -> (r: Self)
        ensures
            r matches Error::WebApiError(m) && m@ == message@,
    {
        Error::WebApiError(String::from_str(message))
    }

    /// Creates a detailed HTTP error.
    pub fn http(
        status_code: u16,
        status_text: &str,
        url: &str,
        method: &str,
        body: Option<&str>,
    ) -> (r: Self)
        ensures
            r matches Error::HttpError(d) && {
                &&& d.status_code == status_code
                &&& d.status_text@ == status_text@
                &&& d.url@ == url@
                &&& d.method@ == method@
                &&& match body {
                    Option::Some(b) => d.body matches Option::Some(db) && db@ == b@,
                    Option::None => d.body is None,
                }
                &&& d.wf()
            },
    {
        Error::HttpError(HttpErrorDetails::new(status_code, status_text, url, method, body))
    }

    /// The one-line textual rendering: the stored message verbatim for a
    /// `WebApiError`, the detail's summary for an `HttpError`.
    pub fn render(&self) -> (r: String)
        ensures
            r@ == self.render_of(),
    {
        match self {
            Error::WebApiError(m) => m.clone(),
            Error::HttpError(d) => d.summary(),
        }
    }
}

} // verus!

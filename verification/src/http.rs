//! An HTTP request as plain data.
//!
//! Nothing here touches the network. A caller posts an [`HttpRequest`] with
//! the transport of its choice and hands back the status and the body that
//! it got.

use crate::text::{decimal, format_u64};
use vstd::prelude::*;
use vstd::string::*;

verus! {

/// Media type of a sysbus call.
pub const APPLICATION_SAH_WS_CALL: &'static str = "application/x-sah-ws-4-call+json";

/// Media type that a JSON body travels under when no other is asked for.
pub const APPLICATION_JSON: &'static str = "application/json";

/// Authorization marker of the login call.
pub const X_SAH_LOGIN: &'static str = "X-Sah-Login";

/// Authorization marker of the logout call; the context token follows it.
pub const X_SAH_LOGOUT: &'static str = "X-Sah-Logout";

/// Name of the header that carries the context token.
pub const X_CONTEXT: &'static str = "x-context";

pub const CONTENT_TYPE: &'static str = "content-type";

pub const ACCEPT: &'static str = "accept";

pub const AUTHORIZATION: &'static str = "authorization";

/// One header line of a request.
#[derive(Debug, PartialEq, Eq)]
pub struct Header {
    pub name: String,
    pub value: String,
}

impl View for Header {
    type V = (Seq<char>, Seq<char>);

    open spec fn view(&self) -> (Seq<char>, Seq<char>) {
        (self.name@, self.value@)
    }
}

impl Header {
    pub fn new(name: &str, value: &str) -> (h: Header)
        ensures
            h@ == (name@, value@),
    {
        Header { name: name.to_owned(), value: value.to_owned() }
    }
}

/// A POST that is to be sent: where to, under which headers, with which body.
#[derive(Debug, PartialEq, Eq)]
pub struct HttpRequest {
    pub url: String,
    pub headers: Vec<Header>,
    pub body: String,
}

pub struct HttpRequestView {
    pub url: Seq<char>,
    pub headers: Seq<(Seq<char>, Seq<char>)>,
    pub body: Seq<char>,
}

/// The header lines of a list, in order.
pub open spec fn header_lines(headers: Seq<Header>) -> Seq<(Seq<char>, Seq<char>)> {
    Seq::new(headers.len(), |i: int| headers[i]@)
}

impl View for HttpRequest {
    type V = HttpRequestView;

    open spec fn view(&self) -> HttpRequestView {
        HttpRequestView { url: self.url@, headers: header_lines(self.headers@), body: self.body@ }
    }
}

impl HttpRequestView {
    /// True when the request carries the header `name` with the value `value`.
    pub open spec fn has_header(self, name: Seq<char>, value: Seq<char>) -> bool {
        self.headers.contains((name, value))
    }
}

impl HttpRequest {
    /// The value of the first header called `name`, if there is one.
    pub fn header(&self, name: &str) -> (found: Option<&String>)
        ensures
            match found {
                Some(value) => exists|i: int|
                    0 <= i < self@.headers.len() && self@.headers[i] == (name@, value@) && (forall|
                        j: int,
                    | 0 <= j < i ==> (#[trigger] self@.headers[j]).0 != name@),
                None => forall|j: int|
                    0 <= j < self@.headers.len() ==> (#[trigger] self@.headers[j]).0 != name@,
            },
    {
        let wanted = name.to_owned();
        let mut i: usize = 0;
        while i < self.headers.len()
            invariant
                i <= self.headers.len(),
                wanted@ == name@,
                forall|j: int| 0 <= j < i ==> (#[trigger] self@.headers[j]).0 != name@,
            decreases self.headers.len() - i,
        {
            if self.headers[i].name == wanted {
                assert(self@.headers[i as int] == (name@, self.headers[i as int].value@));
                return Some(&self.headers[i].value);
            }
            i = i + 1;
        }
        None
    }
}

/// A status code of the 2xx class.
pub open spec fn is_success(status: int) -> bool {
    200 <= status < 300
}

/// The reason that `reqwest::StatusCode` displays after a code from 100 to
/// 999: the canonical reason phrase of the code, or a note that it has none.
pub uninterp spec fn reason_phrase(status: int) -> Seq<char>;

/// A status code as it is shown: the number, and for a code from 100 to 999
/// a space and its reason.
pub open spec fn displayed_status(status: int) -> Seq<char> {
    if 100 <= status <= 999 {
        decimal(status) + " "@ + reason_phrase(status)
    } else {
        decimal(status)
    }
}

/// Calls `reqwest::StatusCode::from_u16` and displays the code it gives.
/// The display is the number in decimal, a space and the reason; the
/// contract names the reason and claims nothing else of it. `from_u16` takes
/// the codes from 100 to 999 and no others.
#[verifier::external_body]
fn display_status(status: u16) -> (text: String)
    requires
        100 <= status <= 999,
    ensures
        text@ == decimal(status as int) + " "@ + reason_phrase(status as int),
{
    reqwest::StatusCode::from_u16(status).map(|code| code.to_string()).unwrap_or_default()
}

/// A status code as it is shown.
pub fn status_text(status: u16) -> (text: String)
    ensures
        text@ == displayed_status(status as int),
{
    if 100 <= status && status <= 999 {
        display_status(status)
    } else {
        format_u64(status as u64)
    }
}

} // verus!

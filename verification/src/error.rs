//! What can go wrong, and how each failure reads.

use crate::json::{optional_view, Json, JsonView};
use crate::http::{displayed_status, status_text};
use crate::text::{decimal, format_u64, join};
use vstd::prelude::*;
use vstd::string::*;

verus! {

/// The line that introduces the body of a response in a message.
pub open spec fn body_note(body: Seq<char>) -> Seq<char> {
    "\nResponse body: "@ + body
}

fn with_body_note(message: String, body: &str) -> (r: String)
    ensures
        r@ == message@ + body_note(body@),
{
    let mut r = message;
    r.append("\nResponse body: ");
    r.append(body);
    assert(r@ =~= message@ + body_note(body@));
    r
}

/// A client cannot be built.
#[derive(Debug, PartialEq, Eq)]
pub enum ConfigError {
    /// No credentials were given.
    MissingCredentials,
}

impl ConfigError {
    pub open spec fn spec_message(self) -> Seq<char> {
        "missing credentials"@
    }

    /// The failure in words.
    pub fn message(&self) -> (r: String)
        ensures
            r@ == self.spec_message(),
    {
        "missing credentials".to_owned()
    }
}

/// The login did not open a session.
#[derive(Debug, PartialEq, Eq)]
pub enum AuthError {
    /// The gateway answered with a status outside the 2xx class.
    Rejected { status: u16, body: String },
    /// The gateway answered with a body that is no login response.
    Malformed { body: String },
}

pub enum AuthErrorView {
    Rejected { status: int, body: Seq<char> },
    Malformed { body: Seq<char> },
}

impl View for AuthError {
    type V = AuthErrorView;

    open spec fn view(&self) -> AuthErrorView {
        match self {
            AuthError::Rejected { status, body } => AuthErrorView::Rejected {
                status: *status as int,
                body: body@,
            },
            AuthError::Malformed { body } => AuthErrorView::Malformed { body: body@ },
        }
    }
}

impl AuthErrorView {
    pub open spec fn message(self) -> Seq<char> {
        match self {
            AuthErrorView::Rejected { status, body } => "Authentication failed: "@
                + displayed_status(status) + body_note(body),
            AuthErrorView::Malformed { body } => "Authentication failed: malformed response"@
                + body_note(body),
        }
    }
}

impl AuthError {
    /// The failure in words, with the status and its reason where there is
    /// one, and the body of the response.
    pub fn message(&self) -> (r: String)
        ensures
            r@ == self@.message(),
    {
        match self {
            AuthError::Rejected { status, body } => {
                let code = status_text(*status);
                let head = join("Authentication failed: ", code.as_str());
                with_body_note(head, body.as_str())
            },
            AuthError::Malformed { body } => {
                with_body_note("Authentication failed: malformed response".to_owned(), body.as_str())
            },
        }
    }
}

/// A call did not yield a response envelope.
#[derive(Debug, PartialEq, Eq)]
pub enum RpcError {
    /// The gateway answered with a status outside the 2xx class.
    Failed { status: u16, body: String },
    /// The gateway answered with a body that is not what the call returns.
    Malformed { body: String },
}

pub enum RpcErrorView {
    Failed { status: int, body: Seq<char> },
    Malformed { body: Seq<char> },
}

impl View for RpcError {
    type V = RpcErrorView;

    open spec fn view(&self) -> RpcErrorView {
        match self {
            RpcError::Failed { status, body } => RpcErrorView::Failed {
                status: *status as int,
                body: body@,
            },
            RpcError::Malformed { body } => RpcErrorView::Malformed { body: body@ },
        }
    }
}

impl RpcErrorView {
    pub open spec fn message(self) -> Seq<char> {
        match self {
            RpcErrorView::Failed { status, body } => "Execution failed: "@ + displayed_status(
                status,
            ) + body_note(body),
            RpcErrorView::Malformed { body } => "Execution failed: malformed response"@
                + body_note(body),
        }
    }
}

impl RpcError {
    /// The failure in words, with the status and its reason where there is
    /// one, and the body of the response.
    pub fn message(&self) -> (r: String)
        ensures
            r@ == self@.message(),
    {
        match self {
            RpcError::Failed { status, body } => {
                let code = status_text(*status);
                let head = join("Execution failed: ", code.as_str());
                with_body_note(head, body.as_str())
            },
            RpcError::Malformed { body } => {
                with_body_note("Execution failed: malformed response".to_owned(), body.as_str())
            },
        }
    }
}

/// A change to a port-forwarding rule did not go through. The variant tells
/// how far it got.
#[derive(Debug, PartialEq, Eq)]
pub enum NatError {
    /// The rules could not be listed. Nothing was changed.
    Resolve(RpcError),
    /// No listed rule has the id. Nothing was sent after the listing.
    RuleNotFound(String),
    /// The gateway did not take the change. Nothing was changed.
    Mutation(RpcError),
    /// The gateway took the change, and answered it with `applied`, but did
    /// not commit it: the change is pending on the gateway.
    Commit { applied: Option<Json>, error: RpcError },
}

pub enum NatErrorView {
    Resolve(RpcErrorView),
    RuleNotFound(Seq<char>),
    Mutation(RpcErrorView),
    Commit { applied: Option<JsonView>, error: RpcErrorView },
}

impl View for NatError {
    type V = NatErrorView;

    open spec fn view(&self) -> NatErrorView {
        match self {
            NatError::Resolve(error) => NatErrorView::Resolve(error@),
            NatError::RuleNotFound(id) => NatErrorView::RuleNotFound(id@),
            NatError::Mutation(error) => NatErrorView::Mutation(error@),
            NatError::Commit { applied, error } => NatErrorView::Commit {
                applied: optional_view(*applied),
                error: error@,
            },
        }
    }
}

impl NatErrorView {
    pub open spec fn message(self) -> Seq<char> {
        match self {
            NatErrorView::Resolve(error) => "Listing the rules failed: "@ + error.message(),
            NatErrorView::RuleNotFound(id) => "Rule not found: "@ + id,
            NatErrorView::Mutation(error) => "Nothing was changed: "@ + error.message(),
            NatErrorView::Commit { applied, error } => "The change was made but not committed: "@
                + error.message(),
        }
    }
}

impl NatError {
    /// The failure in words: the stage that failed, then the cause.
    pub fn message(&self) -> (r: String)
        ensures
            r@ == self@.message(),
    {
        match self {
            NatError::Resolve(error) => {
                let cause = error.message();
                join("Listing the rules failed: ", cause.as_str())
            },
            NatError::RuleNotFound(id) => join("Rule not found: ", id.as_str()),
            NatError::Mutation(error) => {
                let cause = error.message();
                join("Nothing was changed: ", cause.as_str())
            },
            NatError::Commit { applied, error } => {
                let cause = error.message();
                join("The change was made but not committed: ", cause.as_str())
            },
        }
    }
}

/// An output filter did not select one node.
#[derive(Debug, PartialEq, Eq)]
pub enum QueryError {
    /// The expression is not JSONPath.
    InvalidPath,
    /// The expression selects nothing.
    NoMatch,
    /// The expression selects `count` nodes, which is more than one.
    Ambiguous { count: usize },
}

impl QueryError {
    pub open spec fn spec_message(self) -> Seq<char> {
        match self {
            QueryError::InvalidPath => "Invalid JsonPath"@,
            QueryError::NoMatch => "No match for given JsonPath"@,
            QueryError::Ambiguous { count } => "No single match for given JsonPath: "@ + decimal(
                count as int,
            ),
        }
    }

    /// The failure in words.
    pub fn message(&self) -> (r: String)
        ensures
            r@ == self.spec_message(),
    {
        match self {
            QueryError::InvalidPath => "Invalid JsonPath".to_owned(),
            QueryError::NoMatch => "No match for given JsonPath".to_owned(),
            QueryError::Ambiguous { count } => {
                let n = format_u64(*count as u64);
                join("No single match for given JsonPath: ", n.as_str())
            },
        }
    }
}

} // verus!

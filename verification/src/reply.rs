//! What the gateway answers: the raw reply, and the shapes read from it.

use crate::error::{RpcError, RpcErrorView};
use crate::http::is_success;
use crate::codec::parsed_text;
use crate::json::{optional_view, Json, JsonView};
use vstd::prelude::*;
use vstd::string::*;

verus! {

/// The answer to one POST: the status code, the body as it came, and the
/// body read as JSON where it is JSON.
#[derive(Debug, PartialEq, Eq)]
pub struct Reply {
    pub status: u16,
    pub body: String,
    pub document: Option<Json>,
}

pub struct ReplyView {
    pub status: int,
    pub body: Seq<char>,
    pub document: Option<JsonView>,
}

impl View for Reply {
    type V = ReplyView;

    open spec fn view(&self) -> ReplyView {
        ReplyView {
            status: self.status as int,
            body: self.body@,
            document: optional_view(self.document),
        }
    }
}

impl Reply {
    /// Takes a status code and a body as they came, and reads the body as
    /// JSON.
    pub fn read(status: u16, body: &str) -> (reply: Reply)
        ensures
            reply@ == (ReplyView {
                status: status as int,
                body: body@,
                document: parsed_text(body@),
            }),
    {
        let document = Json::parse(body);
        Reply { status, body: body.to_owned(), document }
    }

    /// True for a status code of the 2xx class.
    pub fn is_success(&self) -> (b: bool)
        ensures
            b == is_success(self@.status),
    {
        200 <= self.status && self.status < 300
    }
}

/// The response envelope: a status, whose meaning depends on the call, and
/// the data, if the gateway sent any. `data: None` says that the envelope
/// has no `data` member; a `data` member that is `null` is `Some(Json::Null)`.
#[derive(Debug, PartialEq, Eq)]
pub struct GenericResponse {
    pub status: Json,
    pub data: Option<Json>,
}

pub struct GenericResponseView {
    pub status: JsonView,
    pub data: Option<JsonView>,
}

impl View for GenericResponse {
    type V = GenericResponseView;

    open spec fn view(&self) -> GenericResponseView {
        GenericResponseView { status: self.status@, data: optional_view(self.data) }
    }
}

/// The envelope that a document is: an object with a `status` member, and
/// with or without a `data` member.
pub open spec fn generic_response_of(doc: JsonView) -> Option<GenericResponseView> {
    match doc.member("status"@) {
        Some(status) => Some(GenericResponseView { status, data: doc.member("data"@) }),
        None => None,
    }
}

impl GenericResponse {
    /// Reads the envelope from a document.
    pub fn from_json(doc: &Json) -> (envelope: Option<GenericResponse>)
        ensures
            match envelope {
                Some(e) => generic_response_of(doc@) == Some(e@),
                None => generic_response_of(doc@) is None,
            },
    {
        match doc.get("status") {
            Some(status) => {
                let data = match doc.get("data") {
                    Some(data) => Some(data.duplicate()),
                    None => None,
                };
                Some(GenericResponse { status: status.duplicate(), data })
            },
            None => None,
        }
    }
}

/// The session context that a login opens.
#[derive(Debug, PartialEq, Eq)]
pub struct LoginContext {
    pub context_id: String,
    pub groups: String,
    pub username: String,
}

/// The response to a login.
#[derive(Debug, PartialEq, Eq)]
pub struct LoginResponse {
    pub data: LoginContext,
    pub status: i64,
}

pub struct LoginResponseView {
    pub context_id: Seq<char>,
    pub groups: Seq<char>,
    pub username: Seq<char>,
    pub status: int,
}

impl View for LoginResponse {
    type V = LoginResponseView;

    open spec fn view(&self) -> LoginResponseView {
        LoginResponseView {
            context_id: self.data.context_id@,
            groups: self.data.groups@,
            username: self.data.username@,
            status: self.status as int,
        }
    }
}

/// The login response that a document is: an object with an integer
/// `status` and a `data` object that holds the strings `contextID`, `groups`
/// and `username`.
pub open spec fn login_response_of(doc: JsonView) -> Option<LoginResponseView> {
    match (doc.integer_member("status"@), doc.member("data"@)) {
        (Some(status), Some(data)) => match (
            data.text_member("contextID"@),
            data.text_member("groups"@),
            data.text_member("username"@),
        ) {
            (Some(context_id), Some(groups), Some(username)) => Some(
                LoginResponseView { context_id, groups, username, status },
            ),
            _ => None,
        },
        _ => None,
    }
}

impl LoginResponse {
    /// Reads the login response from a document.
    pub fn from_json(doc: &Json) -> (response: Option<LoginResponse>)
        ensures
            match response {
                Some(r) => login_response_of(doc@) == Some(r@),
                None => login_response_of(doc@) is None,
            },
    {
        let status = match doc.get("status") {
            Some(value) => match value.as_int() {
                Some(status) => status,
                None => {
                    return None;
                },
            },
            None => {
                return None;
            },
        };
        let data = match doc.get("data") {
            Some(data) => data,
            None => {
                return None;
            },
        };
        let context_id = match data.text_of("contextID") {
            Some(text) => text,
            None => {
                return None;
            },
        };
        let groups = match data.text_of("groups") {
            Some(text) => text,
            None => {
                return None;
            },
        };
        let username = match data.text_of("username") {
            Some(text) => text,
            None => {
                return None;
            },
        };
        Some(LoginResponse { data: LoginContext { context_id, groups, username }, status })
    }
}

/// The data that a reply carries: the `data` of its envelope, where the
/// status is of the 2xx class and the body is an envelope.
pub open spec fn reply_payload(reply: ReplyView) -> Result<Option<JsonView>, RpcErrorView> {
    if !is_success(reply.status) {
        Err(RpcErrorView::Failed { status: reply.status, body: reply.body })
    } else {
        match reply.document {
            Some(doc) => match generic_response_of(doc) {
                Some(envelope) => Ok(envelope.data),
                None => Err(RpcErrorView::Malformed { body: reply.body }),
            },
            None => Err(RpcErrorView::Malformed { body: reply.body }),
        }
    }
}

impl Reply {
    /// The data that the reply carries, or why it carries none: a status
    /// outside the 2xx class, or a body that is no envelope.
    pub fn payload(&self) -> (payload: Result<Option<Json>, RpcError>)
        ensures
            match payload {
                Ok(data) => reply_payload(self@) == Ok::<Option<JsonView>, RpcErrorView>(
                    optional_view(data),
                ),
                Err(error) => reply_payload(self@) == Err::<Option<JsonView>, RpcErrorView>(error@),
            },
    {
        if !self.is_success() {
            return Err(RpcError::Failed { status: self.status, body: self.body.clone() });
        }
        match &self.document {
            Some(doc) => match GenericResponse::from_json(doc) {
                Some(envelope) => Ok(envelope.data),
                None => Err(RpcError::Malformed { body: self.body.clone() }),
            },
            None => Err(RpcError::Malformed { body: self.body.clone() }),
        }
    }
}

} // verus!

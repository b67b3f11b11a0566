//! A session with the gateway: logging in, calling, logging out.
//!
//! Every operation comes in two halves. One builds the [`HttpRequest`] to
//! post; the other takes the [`Reply`] that came back and decides what it
//! means. Posting is the caller's part.

use crate::codec::compact_text;
use crate::envelope::{
    envelope_document, login_document, logout_document, logout_request, parameters_document,
    GenericRequest, LoginRequest,
};
use crate::error::{AuthError, AuthErrorView};
use crate::http::{
    header_lines, is_success, Header, HttpRequest, HttpRequestView, ACCEPT, APPLICATION_JSON,
    APPLICATION_SAH_WS_CALL, AUTHORIZATION, CONTENT_TYPE, X_CONTEXT, X_SAH_LOGIN, X_SAH_LOGOUT,
};
use crate::json::{Json, JsonView};
use crate::reply::{login_response_of, LoginResponse, Reply, ReplyView};
use crate::text::join;
use vstd::prelude::*;
use vstd::string::*;

verus! {

/// The request that logs in at `base_url`: the login marker stands in the
/// authorization header, and no context token is sent.
pub open spec fn login_request_view(
    base_url: Seq<char>,
    username: Seq<char>,
    password: Seq<char>,
) -> HttpRequestView {
    HttpRequestView {
        url: base_url,
        headers: seq![
            (CONTENT_TYPE@, APPLICATION_SAH_WS_CALL@),
            (AUTHORIZATION@, X_SAH_LOGIN@),
        ],
        body: compact_text(login_document(username, password)),
    }
}

/// The headers that every request of a session carries: the media type that
/// is accepted, and the context token.
pub open spec fn session_headers(context_id: Seq<char>) -> Seq<(Seq<char>, Seq<char>)> {
    seq![(ACCEPT@, APPLICATION_SAH_WS_CALL@), (X_CONTEXT@, context_id)]
}

/// The value of the authorization header of a logout: the logout marker, a
/// space, the context token.
pub open spec fn logout_authorization(context_id: Seq<char>) -> Seq<char> {
    X_SAH_LOGOUT@ + " "@ + context_id
}

/// Credentials and an endpoint, ready for a login.
#[derive(Debug, PartialEq, Eq)]
pub struct LoginAttempt {
    pub base_url_ws: String,
    pub username: String,
    pub password: String,
    /// Whether the transport of the session may accept a TLS certificate
    /// that it cannot verify.
    pub allow_insecure_tls: bool,
}

impl LoginAttempt {
    /// The request that logs in.
    pub fn request(&self) -> (request: HttpRequest)
        ensures
            request@ == login_request_view(self.base_url_ws@, self.username@, self.password@),
    {
        let call = LoginRequest::new(self.username.clone(), self.password.clone());
        let body = call.to_json().to_compact();
        let mut headers: Vec<Header> = Vec::new();
        headers.push(Header::new(CONTENT_TYPE, APPLICATION_SAH_WS_CALL));
        headers.push(Header::new(AUTHORIZATION, X_SAH_LOGIN));
        let request = HttpRequest { url: self.base_url_ws.clone(), headers, body };
        assert(request@.headers =~= login_request_view(
            self.base_url_ws@,
            self.username@,
            self.password@,
        ).headers);
        request
    }
}

/// An open session: the endpoint, and the context token that the login
/// returned. Neither changes while the session lasts. The cookies of the
/// session are the transport's to keep.
#[derive(Debug, PartialEq, Eq)]
pub struct Client {
    base_url_ws: String,
    context_id: String,
}

pub struct ClientView {
    pub base_url_ws: Seq<char>,
    pub context_id: Seq<char>,
}

impl View for Client {
    type V = ClientView;

    closed spec fn view(&self) -> ClientView {
        ClientView { base_url_ws: self.base_url_ws@, context_id: self.context_id@ }
    }
}

/// What a login at `base_url` comes to, given the reply: a session under the
/// context token of the reply; a rejection for a status outside the 2xx
/// class; a malformed response for a body that is no login response.
pub open spec fn login_outcome(base_url: Seq<char>, reply: ReplyView) -> Result<
    ClientView,
    AuthErrorView,
> {
    if !is_success(reply.status) {
        Err(AuthErrorView::Rejected { status: reply.status, body: reply.body })
    } else {
        match reply.document {
            Some(doc) => match login_response_of(doc) {
                Some(response) => Ok(
                    ClientView { base_url_ws: base_url, context_id: response.context_id },
                ),
                None => Err(AuthErrorView::Malformed { body: reply.body }),
            },
            None => Err(AuthErrorView::Malformed { body: reply.body }),
        }
    }
}

/// How a logout ended. None of the three is a failure.
#[derive(Clone, Copy, Debug, PartialEq, Eq, Structural)]
pub enum LogoutOutcome {
    /// The gateway confirmed the release: its status is 1.
    Released,
    /// The gateway answered 401: the session was gone already.
    Expired,
    /// Neither of the two, or no answer at all: worth a warning, and no
    /// more.
    Unconfirmed,
}

/// True when the body is an object whose `status` is the integer 1.
pub open spec fn acknowledged(document: Option<JsonView>) -> bool {
    match document {
        Some(doc) => doc.integer_member("status"@) == Some(1int),
        None => false,
    }
}

/// How a logout ended, given the reply. Only a reply that is neither a 401
/// nor a status of 1 is unconfirmed.
pub open spec fn logout_outcome(reply: ReplyView) -> LogoutOutcome {
    if reply.status == 401 {
        LogoutOutcome::Expired
    } else if acknowledged(reply.document) {
        LogoutOutcome::Released
    } else {
        LogoutOutcome::Unconfirmed
    }
}

impl ClientView {
    /// The request that posts a call's document within the session.
    pub open spec fn call(self, document: JsonView) -> HttpRequestView {
        HttpRequestView {
            url: self.base_url_ws,
            headers: session_headers(self.context_id).push(
                (CONTENT_TYPE@, APPLICATION_SAH_WS_CALL@),
            ),
            body: compact_text(document),
        }
    }

    /// The request that logs out: the logout marker and the context token
    /// stand in the authorization header.
    pub open spec fn logout(self) -> HttpRequestView {
        HttpRequestView {
            url: self.base_url_ws,
            headers: session_headers(self.context_id).push((CONTENT_TYPE@, APPLICATION_JSON@)).push(
                (AUTHORIZATION@, logout_authorization(self.context_id)),
            ),
            body: compact_text(logout_document()),
        }
    }
}

impl Client {
    /// Opens the session that the reply to a login grants. The context token
    /// is taken as it is, whatever characters it holds: whether it can
    /// stand in a header is for the transport to say when a request is sent.
    pub fn login(base_url: String, reply: &Reply) -> (outcome: Result<Client, AuthError>)
        ensures
            match outcome {
                Ok(client) => login_outcome(base_url@, reply@) == Ok::<ClientView, AuthErrorView>(
                    client@,
                ),
                Err(error) => login_outcome(base_url@, reply@) == Err::<ClientView, AuthErrorView>(
                    error@,
                ),
            },
    {
        if !reply.is_success() {
            return Err(AuthError::Rejected { status: reply.status, body: reply.body.clone() });
        }
        match &reply.document {
            Some(doc) => match LoginResponse::from_json(doc) {
                Some(response) => Ok(
                    Client { base_url_ws: base_url, context_id: response.data.context_id },
                ),
                None => Err(AuthError::Malformed { body: reply.body.clone() }),
            },
            None => Err(AuthError::Malformed { body: reply.body.clone() }),
        }
    }

    /// The endpoint that the session posts to.
    pub fn base_url_ws(&self) -> (url: &String)
        ensures
            url@ == self@.base_url_ws,
    {
        &self.base_url_ws
    }

    /// The context token of the session.
    pub fn context_id(&self) -> (token: &String)
        ensures
            token@ == self@.context_id,
    {
        &self.context_id
    }

    fn session_headers(&self) -> (headers: Vec<Header>)
        ensures
            header_lines(headers@) == session_headers(self@.context_id),
    {
        let mut headers: Vec<Header> = Vec::new();
        headers.push(Header::new(ACCEPT, APPLICATION_SAH_WS_CALL));
        headers.push(Header::new(X_CONTEXT, self.context_id.as_str()));
        assert(header_lines(headers@) =~= session_headers(self@.context_id));
        headers
    }

    /// The request that posts a call's document within the session.
    pub fn call(&self, document: &Json) -> (request: HttpRequest)
        ensures
            request@ == self@.call(document@),
    {
        let mut headers = self.session_headers();
        let ghost before = header_lines(headers@);
        headers.push(Header::new(CONTENT_TYPE, APPLICATION_SAH_WS_CALL));
        let request = HttpRequest {
            url: self.base_url_ws.clone(),
            headers,
            body: document.to_compact(),
        };
        assert(request@.headers =~= before.push((CONTENT_TYPE@, APPLICATION_SAH_WS_CALL@)));
        request
    }

    /// The request that invokes a method of a service with string
    /// parameters.
    pub fn invoke(&self, call: &GenericRequest) -> (request: HttpRequest)
        ensures
            request@ == self@.call(call@.document()),
    {
        let document = call.to_json();
        self.call(&document)
    }

    /// The request that invokes `method` of `service` without parameters.
    /// [`Reply::payload`] reads the reply.
    pub fn execute(&self, service: String, method: String) -> (request: HttpRequest)
        ensures
            request@ == self@.call(
                envelope_document(service@, method@, parameters_document(Seq::empty())),
            ),
    {
        let body = GenericRequest::new(service.as_str(), method.as_str());
        self.invoke(&body)
    }

    /// The request that logs out.
    pub fn logout(&self) -> (request: HttpRequest)
        ensures
            request@ == self@.logout(),
    {
        let document = logout_request().to_json();
        let mut authorization = join(X_SAH_LOGOUT, " ");
        authorization.append(self.context_id.as_str());
        let mut headers = self.session_headers();
        let ghost before = header_lines(headers@);
        headers.push(Header::new(CONTENT_TYPE, APPLICATION_JSON));
        headers.push(Header::new(AUTHORIZATION, authorization.as_str()));
        let request = HttpRequest {
            url: self.base_url_ws.clone(),
            headers,
            body: document.to_compact(),
        };
        assert(request@.headers =~= before.push((CONTENT_TYPE@, APPLICATION_JSON@)).push(
            (AUTHORIZATION@, logout_authorization(self@.context_id)),
        ));
        request
    }

    /// How a logout ended, given the reply. A logout does not fail: a reply
    /// that does not confirm it is reported as unconfirmed.
    pub fn logout_outcome(reply: &Reply) -> (outcome: LogoutOutcome)
        ensures
            outcome == logout_outcome(reply@),
            reply@.status == 401 ==> outcome == LogoutOutcome::Expired,
            outcome == LogoutOutcome::Unconfirmed <==> reply@.status != 401 && !acknowledged(
                reply@.document,
            ),
    {
        if reply.status == 401 {
            return LogoutOutcome::Expired;
        }
        let confirmed = match &reply.document {
            Some(doc) => match doc.get("status") {
                Some(status) => match status.as_int() {
                    Some(code) => code == 1,
                    None => false,
                },
                None => false,
            },
            None => false,
        };
        if confirmed {
            LogoutOutcome::Released
        } else {
            LogoutOutcome::Unconfirmed
        }
    }
}

} // verus!

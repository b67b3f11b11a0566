//! Configuration of a client before it logs in.

use crate::client::LoginAttempt;
use crate::error::ConfigError;
use crate::text::{join, strip_trailing_slash, without_trailing_slash};
use vstd::prelude::*;
use vstd::string::*;

verus! {

/// Where a gateway answers when nothing else is configured.
pub const LIVEBOX_BASE_URL: &'static str = "http://livebox.home";

/// Path of the one endpoint that takes every call.
pub const WS_PATH: &'static str = "/ws";

/// The endpoint that belongs to a base URL: the base URL without one
/// trailing `/`, followed by `/ws`.
pub open spec fn endpoint_of(base_url: Seq<char>) -> Seq<char> {
    without_trailing_slash(base_url) + WS_PATH@
}

/// Collects the endpoint and the credentials of a session.
pub struct ClientBuilder {
    base_url_ws: String,
    credentials: Option<(String, String)>,
    allow_insecure_tls: bool,
}

pub struct ClientBuilderView {
    pub base_url_ws: Seq<char>,
    pub credentials: Option<(Seq<char>, Seq<char>)>,
    pub allow_insecure_tls: bool,
}

impl View for ClientBuilder {
    type V = ClientBuilderView;

    closed spec fn view(&self) -> ClientBuilderView {
        ClientBuilderView {
            base_url_ws: self.base_url_ws@,
            credentials: match self.credentials {
                Some((username, password)) => Some((username@, password@)),
                None => None,
            },
            allow_insecure_tls: self.allow_insecure_tls,
        }
    }
}

impl Default for ClientBuilder {
    /// A builder that points at [`LIVEBOX_BASE_URL`] as it stands, holds no
    /// credentials and insists on a valid TLS certificate.
    fn default() -> (builder: ClientBuilder)
        ensures
            builder@ == (ClientBuilderView {
                base_url_ws: LIVEBOX_BASE_URL@,
                credentials: None,
                allow_insecure_tls: false,
            }),
    {
        ClientBuilder {
            base_url_ws: LIVEBOX_BASE_URL.to_owned(),
            credentials: None,
            allow_insecure_tls: false,
        }
    }
}

impl ClientBuilder {
    /// Points the builder at the endpoint of `base_url`.
    pub fn with_base_url(self, base_url: String) -> (builder: ClientBuilder)
        ensures
            builder@ == (ClientBuilderView { base_url_ws: endpoint_of(base_url@), ..self@ }),
    {
        let base_url_no_trailing_slash = strip_trailing_slash(base_url.as_str());
        ClientBuilder {
            base_url_ws: join(base_url_no_trailing_slash, WS_PATH),
            credentials: self.credentials,
            allow_insecure_tls: self.allow_insecure_tls,
        }
    }

    /// Sets the credentials to log in with.
    pub fn with_credentials(self, username: String, password: String) -> (builder: ClientBuilder)
        ensures
            builder@ == (ClientBuilderView {
                credentials: Some((username@, password@)),
                ..self@
            }),
    {
        ClientBuilder {
            base_url_ws: self.base_url_ws,
            credentials: Some((username, password)),
            allow_insecure_tls: self.allow_insecure_tls,
        }
    }

    /// Says whether the transport may accept a TLS certificate that it
    /// cannot verify.
    pub fn with_insecure_tls(self, allow: bool) -> (builder: ClientBuilder)
        ensures
            builder@ == (ClientBuilderView { allow_insecure_tls: allow, ..self@ }),
    {
        ClientBuilder {
            base_url_ws: self.base_url_ws,
            credentials: self.credentials,
            allow_insecure_tls: allow,
        }
    }

    /// The login that the builder describes. Credentials are needed for it.
    pub fn build(self) -> (attempt: Result<LoginAttempt, ConfigError>)
        ensures
            match attempt {
                Ok(login) => self@.credentials == Some((login.username@, login.password@))
                    && login.base_url_ws@ == self@.base_url_ws && login.allow_insecure_tls
                    == self@.allow_insecure_tls,
                Err(error) => self@.credentials is None && error == ConfigError::MissingCredentials,
            },
    {
        match self.credentials {
            Some((username, password)) => Ok(
                LoginAttempt {
                    base_url_ws: self.base_url_ws,
                    username,
                    password,
                    allow_insecure_tls: self.allow_insecure_tls,
                },
            ),
            None => Err(ConfigError::MissingCredentials),
        }
    }

    /// The endpoint that calls will be posted to.
    pub fn base_url_ws(&self) -> (url: &String)
        ensures
            url@ == self@.base_url_ws,
    {
        &self.base_url_ws
    }
}

} // verus!

//! Builder for `Client`: endpoint, credential, and transport security,
//! with explicit defaults and no ambient state.

use vstd::prelude::*;

verus! {

use vstd::string::StringExecFns;
use vstd::utf8::encode_utf8;
use crate::auth::{basic_auth_value, spec_basic_auth};

/// The endpoint a client connects to when none is set.
pub open spec fn spec_default_endpoint() -> Seq<char> {
    "app.superchain.network"@
}

/// Configuration of a client: where to connect and as whom.
#[derive(Debug)]
pub struct ClientBuilder {
    /// Host (and optional port) of the service.
    pub endpoint: String,
    /// Whether to use TLS transports (`https`/`wss`).
    pub is_secure: bool,
    /// Username of the credential, when one is set.
    pub username: Option<String>,
    /// Password of the credential, when one is set.
    pub password: Option<String>,
}

impl Default for ClientBuilder {
    /// The default configuration: the public endpoint, secure transport,
    /// no credential.
    fn default() -> (r: Self)
        ensures
            r.endpoint@ == spec_default_endpoint(),
            r.is_secure == true,
            r.username is None,
            r.password is None,
    {
        ClientBuilder {
            endpoint: "app.superchain.network".to_owned(),
            is_secure: true,
            username: None,
            password: None,
        }
    }
}

impl ClientBuilder {
    /// Sets the endpoint of the client.
    pub fn endpoint(self, endpoint: &str) -> (r: Self)
        ensures
            r.endpoint@ == endpoint@,
            r.is_secure == self.is_secure,
            r.username == self.username,
            r.password == self.password,
    {
        ClientBuilder { endpoint: endpoint.to_owned(), ..self }
    }

    /// Sets the credential of the client.
    pub fn credential(self, username: &str, password: &str) -> (r: Self)
        ensures
            r.username matches Some(u) && u@ == username@,
            r.password matches Some(p) && p@ == password@,
            r.endpoint == self.endpoint,
            r.is_secure == self.is_secure,
    {
        ClientBuilder {
            username: Some(username.to_owned()),
            password: Some(password.to_owned()),
            ..self
        }
    }

    /// Sets whether the client uses secure transports. When false, the
    /// client speaks `http`/`ws` instead of `https`/`wss`. Default is
    /// true.
    pub fn secure(self, is_secure: bool) -> (r: Self)
        ensures
            r.is_secure == is_secure,
            r.endpoint == self.endpoint,
            r.username == self.username,
            r.password == self.password,
    {
        ClientBuilder { is_secure, ..self }
    }

    /// The URL of the multiplexed socket for this configuration.
    pub fn ws_url(&self) -> (r: String)
        ensures
            r@ == (if self.is_secure {
                "wss://"@
            } else {
                "ws://"@
            }) + self.endpoint@ + "/v1/websocket"@,
    {
        let mut url = if self.is_secure {
            String::from_str("wss://")
        } else {
            String::from_str("ws://")
        };
        url.append(self.endpoint.as_str());
        url.append("/v1/websocket");
        url
    }

    /// The base URL of the request-per-call interface for this
    /// configuration.
    pub fn http_url(&self) -> (r: String)
        ensures
            r@ == (if self.is_secure {
                "https://"@
            } else {
                "http://"@
            }) + self.endpoint@ + "/v1/api/"@,
    {
        let mut url = if self.is_secure {
            String::from_str("https://")
        } else {
            String::from_str("http://")
        };
        url.append(self.endpoint.as_str());
        url.append("/v1/api/");
        url
    }

    /// The authorization header value for this configuration: present
    /// exactly when both halves of the credential are set.
    pub fn auth_header(&self) -> (r: Option<Vec<u8>>)
        ensures
            r is Some <==> self.username is Some && self.password is Some,
            r matches Some(v) ==> v@ == spec_basic_auth(
                encode_utf8(self.username->Some_0@),
                encode_utf8(self.password->Some_0@),
            ),
    {
        match (&self.username, &self.password) {
            (Some(u), Some(p)) => Some(basic_auth_value(u.as_str(), p.as_str())),
            _ => None,
        }
    }
}

} // verus!

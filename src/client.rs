//! The session: the one authorization record of a client, the only code that
//! attaches credentials to requests, and the classification of replies.
use crate::config::Config;
use crate::errors::{B2Error, B2ErrorResponse, Result};
use crate::models::Authorization;
use crate::request::{ApiRequest, Credential, CredentialView, HttpMethod, Payload, PayloadView, RequestView};
use vstd::prelude::*;

verus! {

/// The version prefix of every API path.
pub const API_PREFIX: &'static str = "/b2api/v3/";

/// The endpoint that authorizes an account.
pub const AUTHORIZE_ENDPOINT: &'static str = "b2_authorize_account";

/// A reply as the transport received it: the status, and the body decoded
/// both as the expected success shape and as the canonical error payload
/// (each either the value or the decoder's message).
#[derive(Debug)]
pub struct HttpReply<T> {
    pub status: u16,
    pub body: core::result::Result<T, String>,
    pub error_body: core::result::Result<B2ErrorResponse, String>,
}

/// A status in the success range.
pub open spec fn is_success_status(status: u16) -> bool {
    200 <= status && status < 300
}

/// What a reply means: its success body on a success status (or a malformed
/// response), else the API error it carries (or a decoding failure).
pub open spec fn reply_outcome<T>(reply: HttpReply<T>) -> Result<T> {
    if is_success_status(reply.status) {
        match reply.body {
            Ok(v) => Ok(v),
            Err(m) => Err(B2Error::InvalidResponse(m)),
        }
    } else {
        match reply.error_body {
            Ok(e) => Err(B2Error::ApiError(e)),
            Err(m) => Err(B2Error::HttpError(m)),
        }
    }
}

/// The URL of an endpoint under an API base URL.
pub open spec fn endpoint_url(base: Seq<char>, endpoint: Seq<char>) -> Seq<char> {
    base + API_PREFIX@ + endpoint
}

/// The request that authorizes the account of `config`.
pub open spec fn authorize_request_view(config: Config) -> RequestView {
    RequestView {
        method: HttpMethod::Get,
        url: endpoint_url(config.api_base_url@, AUTHORIZE_ENDPOINT@),
        credential: CredentialView::Basic {
            user: config.application_key_id@,
            password: config.application_key@,
        },
        payload: PayloadView::Empty,
    }
}

/// An authenticated request to `endpoint` under the session `auth`.
pub open spec fn authed_request(
    method: HttpMethod,
    auth: Authorization,
    endpoint: Seq<char>,
    payload: PayloadView,
) -> RequestView {
    RequestView {
        method,
        url: endpoint_url(auth.api_url@, endpoint),
        credential: CredentialView::Bearer { token: auth.authorization_token@ },
        payload,
    }
}

/// The session after an authorization reply: the decoded record on success,
/// the prior session otherwise.
pub open spec fn session_after(prior: Option<Authorization>, reply: HttpReply<Authorization>) -> Option<
    Authorization,
> {
    match reply_outcome(reply) {
        Ok(a) => Some(a),
        Err(_) => prior,
    }
}

/// What reading the session gives.
pub open spec fn auth_lookup(session: Option<Authorization>) -> Result<Authorization> {
    match session {
        Some(a) => Ok(a),
        None => Err(B2Error::NotAuthorized),
    }
}

/// Authorization round trip: after a successful authorization reply, reading
/// the session gives exactly the record the server sent, whatever session
/// was in force before.
pub proof fn lemma_authorize_then_get_auth(prior: Option<Authorization>, reply: HttpReply<Authorization>)
    requires
        is_success_status(reply.status),
        reply.body is Ok,
    ensures
        auth_lookup(session_after(prior, reply)) == Ok::<Authorization, B2Error>(reply.body->Ok_0),
{
}

/// A failed authorization leaves an unauthenticated session
/// unauthenticated: reading it still fails with `NotAuthorized`.
pub proof fn lemma_failed_authorize_stays_unauthenticated(reply: HttpReply<Authorization>)
    requires
        reply_outcome(reply) is Err,
    ensures
        session_after(None, reply) is None,
        auth_lookup(session_after(None, reply)) == Err::<Authorization, B2Error>(B2Error::NotAuthorized),
{
}

/// A reply with a status outside the success range whose body is an error
/// payload surfaces as an API error carrying exactly that payload.
pub proof fn lemma_error_status_surfaces_payload<T>(reply: HttpReply<T>)
    requires
        !is_success_status(reply.status),
        reply.error_body is Ok,
    ensures
        reply_outcome(reply) == Err::<T, B2Error>(B2Error::ApiError(reply.error_body->Ok_0)),
{
}

/// The URL of `endpoint` under `base`.
pub fn make_endpoint_url(base: &str, endpoint: &str) -> (r: String)
    ensures
        r@ == endpoint_url(base@, endpoint@),
{
    let mut url = String::from_str(base);
    url.append(API_PREFIX);
    url.append(endpoint);
    url
}

/// A client of the API: its configuration and at most one authorization
/// record. Requests read the record current when they are built.
pub struct B2Client {
    config: Config,
    auth: Option<Authorization>,
}

impl B2Client {
    /// The authorization record in force, if any.
    pub closed spec fn session(&self) -> Option<Authorization> {
        self.auth
    }

    /// The configuration the client was made with.
    pub closed spec fn configuration(&self) -> Config {
        self.config
    }

    /// A client that is not yet authorized.
    pub fn new(config: Config) -> (r: Self)
        ensures
            r.configuration() == config,
            r.session() is None,
    {
        B2Client { config, auth: None }
    }

    /// The configuration the client was made with.
    pub fn get_config(&self) -> (r: &Config)
        ensures
            *r == self.configuration(),
    {
        &self.config
    }

    /// The request that authorizes the account: a GET of the authorization
    /// endpoint under the configured base URL, with the key id and key as
    /// Basic credentials.
    pub fn authorize_request(&self) -> (r: ApiRequest)
        ensures
            r@ == authorize_request_view(self.configuration()),
    {
        ApiRequest {
            method: HttpMethod::Get,
            url: make_endpoint_url(self.config.api_base_url.as_str(), AUTHORIZE_ENDPOINT),
            credential: Credential::Basic {
                user: self.config.application_key_id.clone(),
                password: self.config.application_key.clone(),
            },
            payload: Payload::Empty,
        }
    }

    /// Takes the reply to the authorization request. On success the decoded
    /// record replaces the session; on failure the session is unchanged.
    pub fn authorize(&mut self, reply: HttpReply<Authorization>) -> (r: Result<()>)
        ensures
            final(self).configuration() == old(self).configuration(),
            final(self).session() == session_after(old(self).session(), reply),
            r is Ok <==> reply_outcome(reply) is Ok,
            reply_outcome(reply) matches Err(e) ==> r == Err::<(), B2Error>(e),
    {
        match self.handle_response(reply) {
            Ok(a) => {
                self.auth = Some(a);
                Ok(())
            },
            Err(e) => Err(e),
        }
    }

    /// The authorization record, or `NotAuthorized` before any successful
    /// authorization.
    pub fn get_auth(&self) -> (r: Result<&Authorization>)
        ensures
            match auth_lookup(self.session()) {
                Ok(a) => r matches Ok(x) && *x == a,
                Err(e) => r == Err::<&Authorization, B2Error>(e),
            },
    {
        match &self.auth {
            Some(a) => Ok(a),
            None => Err(B2Error::NotAuthorized),
        }
    }

    /// An authenticated GET of `endpoint`.
    pub fn get(&self, endpoint: &str) -> (r: Result<ApiRequest>)
        ensures
            match self.session() {
                Some(a) => r matches Ok(q) && q@ == authed_request(
                    HttpMethod::Get,
                    a,
                    endpoint@,
                    PayloadView::Empty,
                ),
                None => r == Err::<ApiRequest, B2Error>(B2Error::NotAuthorized),
            },
    {
        let auth = self.get_auth()?;
        Ok(
            ApiRequest {
                method: HttpMethod::Get,
                url: make_endpoint_url(auth.api_url.as_str(), endpoint),
                credential: Credential::Bearer { token: auth.authorization_token.clone() },
                payload: Payload::Empty,
            },
        )
    }

    /// An authenticated POST of `body` to `endpoint`.
    pub fn post(&self, endpoint: &str, body: Payload) -> (r: Result<ApiRequest>)
        ensures
            match self.session() {
                Some(a) => r matches Ok(q) && q@ == authed_request(
                    HttpMethod::Post,
                    a,
                    endpoint@,
                    body@,
                ),
                None => r == Err::<ApiRequest, B2Error>(B2Error::NotAuthorized),
            },
    {
        let auth = self.get_auth()?;
        Ok(
            ApiRequest {
                method: HttpMethod::Post,
                url: make_endpoint_url(auth.api_url.as_str(), endpoint),
                credential: Credential::Bearer { token: auth.authorization_token.clone() },
                payload: body,
            },
        )
    }

    /// Classifies a reply: the only place where a status is interpreted.
    pub fn handle_response<T>(&self, reply: HttpReply<T>) -> (r: Result<T>)
        ensures
            r == reply_outcome(reply),
    {
        if reply.status >= 200 && reply.status < 300 {
            match reply.body {
                Ok(v) => Ok(v),
                Err(m) => Err(B2Error::InvalidResponse(m)),
            }
        } else {
            match reply.error_body {
                Ok(e) => Err(B2Error::ApiError(e)),
                Err(m) => Err(B2Error::HttpError(m)),
            }
        }
    }
}

} // verus!

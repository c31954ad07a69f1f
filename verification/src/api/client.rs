//! Session state of a Pi-hole v6 API node, and the rules of each API exchange.
//!
//! The HTTP exchange itself is performed by the caller. This module derives
//! what is sent (endpoint, session id, body) and decides what a reply means.
//! Points in time are nanoseconds on the caller's monotonic clock.
use vstd::prelude::*;
use vstd::string::*;

use crate::api::error::ApiError;
use crate::api::types::{
    opt_view, ApiAuthPayload, ApiErrorPayload, ApiResult, ApiSessionPayload, SessionDetails,
    TeleporterImportOptions, clone_opt_string,
};
use crate::api::web_url::{self, spec_api_base, spec_base_fits, url_host, url_join};

verus! {

/// The primary Pi-hole node.
pub struct Primary;

/// A replica Pi-hole node.
pub struct Replica;

/// Message of the error for a client that never authenticated.
pub const NOT_AUTHENTICATED: &'static str =
    "Client session is not authenticated. Please authenticate before making API calls.";

/// Message of the error for a session without a session id.
pub const MISSING_SID: &'static str =
    "Authenticated session is missing a valid session ID (SID). Please re-authenticate to obtain a valid session.";

/// Message of the error for a gravity stream that ended early.
pub const GRAVITY_STREAM_CLOSED: &'static str = "Gravity stream closed prematurely";

/// Seconds by which a session is treated as expired before the node says so,
/// for network latency and processing time before the next call.
pub const SESSION_SAFETY_BUFFER_SECONDS: u64 = 5u64;

/// Nanoseconds in a second.
pub const NANOS_PER_SECOND: u128 = 1_000_000_000u128;

/// A client's state as the contracts see it.
pub struct ClientView {
    /// Serialization of the API base URL (the node URL joined with `api/`).
    pub base_url: Seq<char>,
    pub label: Option<Seq<char>>,
    pub session: Option<SessionDetails>,
    /// Monotonic instant, in nanoseconds, from which the session counts as expired.
    pub expires_at: Option<u128>,
}

/// A client for one node's Pi-hole v6 REST API session.
pub struct ApiClient<Role> {
    base_url: String,
    label: Option<String>,
    session: Option<SessionDetails>,
    token_expires_at: Option<u128>,
    _marker: core::marker::PhantomData<Role>,
}

/// What an authentication exchange sends: the endpoint and the JSON body.
pub struct AuthRequest {
    pub endpoint: String,
    pub payload: ApiAuthPayload,
}

/// An exchange that carries the session id in the `X-FTL-SID` header.
pub struct SessionRequest {
    pub endpoint: String,
    pub sid: String,
}

/// A Teleporter upload: endpoint, session id, and the import options sent next to the archive.
pub struct UploadRequest {
    pub endpoint: String,
    pub sid: String,
    pub options: TeleporterImportOptions,
}

impl<Role> View for ApiClient<Role> {
    type V = ClientView;

    closed spec fn view(&self) -> ClientView {
        ClientView {
            base_url: self.base_url@,
            label: opt_view(self.label),
            session: self.session,
            expires_at: self.token_expires_at,
        }
    }
}

/// A client created for the node URL `raw` with label `label`: on success
/// its API base is `spec_api_base(raw)`, it carries the label and no session;
/// the URL error otherwise.
pub open spec fn spec_created<Role>(
    raw: Seq<char>,
    label: Option<Seq<char>>,
    r: Result<ApiClient<Role>, ApiError>,
) -> bool {
    match r {
        Ok(c) => {
            &&& spec_api_base(raw) == Ok::<Seq<char>, url::ParseError>(c@.base_url)
            &&& c@.label == label
            &&& c@.session is None
            &&& c@.expires_at is None
        },
        Err(e) => spec_api_base(raw) matches Err(pe) && e == ApiError::UrlParseError(pe),
    }
}

/// Whether an HTTP status is a success (2xx).
pub open spec fn status_is_success(status: u16) -> bool {
    200 <= status <= 299
}

/// Whether an HTTP status is a client or server error (4xx or 5xx).
pub open spec fn status_is_error(status: u16) -> bool {
    400 <= status <= 599
}

/// Session lifetime granted for a validity of `validity` seconds, in nanoseconds.
pub open spec fn session_lifetime(validity: u64) -> int {
    (if validity >= SESSION_SAFETY_BUFFER_SECONDS {
        validity - SESSION_SAFETY_BUFFER_SECONDS
    } else {
        0int
    }) * NANOS_PER_SECOND
}

/// The error an error document stands for: `unauthorized` keys mean a refused
/// session, other failure documents carry their message, and a success
/// document in place of an error means the status was unexpected.
pub open spec fn spec_document_error(status: u16, resp: ApiResult<ApiErrorPayload>) -> ApiError {
    match resp {
        ApiResult::Failure(p) => if p.error.key@ == "unauthorized"@ {
            ApiError::Unauthorized(p.error.message)
        } else {
            ApiError::Error(p.error.message)
        },
        ApiResult::Success(_) => ApiError::UnexpectedStatusCode(status),
    }
}

/// The error of a failed exchange without a usable body: the error of its
/// error document, or the bare status where there is none.
pub open spec fn spec_status_error(status: u16, document: Option<ApiResult<ApiErrorPayload>>) -> ApiError {
    match document {
        Some(d) => spec_document_error(status, d),
        None => ApiError::UnexpectedStatusCode(status),
    }
}

/// The result of an upload: success on a 2xx status, else the status error.
pub open spec fn spec_transfer_outcome(
    status: u16,
    document: Option<ApiResult<ApiErrorPayload>>,
) -> Result<(), ApiError> {
    if status_is_success(status) {
        Ok(())
    } else {
        Err(spec_status_error(status, document))
    }
}

/// The result of a download: the body on a 2xx status (or the transport error
/// met reading it), else the status error.
pub open spec fn spec_download_outcome(
    status: u16,
    body: Result<Vec<u8>, String>,
    document: Option<ApiResult<ApiErrorPayload>>,
) -> Result<Vec<u8>, ApiError> {
    if status_is_success(status) {
        match body {
            Ok(b) => Ok(b),
            Err(m) => Err(ApiError::Transport(m)),
        }
    } else {
        Err(spec_status_error(status, document))
    }
}

/// The error of an authentication refused with `status` and an error document.
pub open spec fn spec_auth_failure(status: u16, p: ApiErrorPayload) -> ApiError {
    if status == 400 {
        ApiError::BadRequest(p.error.message)
    } else if status == 401 {
        ApiError::Unauthorized(p.error.message)
    } else if status == 429 {
        ApiError::TooManyRequests(p.error.message)
    } else {
        ApiError::UnexpectedStatusCode(status)
    }
}

/// The client after a successful authentication at `now`.
pub open spec fn spec_authenticated(c: ClientView, session: SessionDetails, now: u128) -> ClientView {
    ClientView {
        session: Some(session),
        expires_at: Some((now + session_lifetime(session.validity)) as u128),
        ..c
    }
}

/// The node's name in diagnostics: its label, else the API URL's host, else the API URL.
pub open spec fn spec_identifier(c: ClientView) -> Seq<char> {
    match c.label {
        Some(l) => l,
        None => match url_host(c.base_url) {
            Some(h) => h,
            None => c.base_url,
        },
    }
}

/// Whether the session of a client counts as expired at `now`.
pub open spec fn spec_expired(c: ClientView, now: u128) -> bool {
    match c.expires_at {
        Some(deadline) => now >= deadline,
        None => true,
    }
}

/// Checks whether an HTTP status is a success (2xx).
pub fn is_success(status: u16) -> (r: bool)
    ensures
        r == status_is_success(status),
{
    200 <= status && status <= 299
}

/// Converts a URL error into the API error that carries it.
fn url_error<T>(r: Result<String, url::ParseError>) -> (out: Result<String, ApiError>)
    ensures
        match r {
            Ok(s) => out == Ok::<String, ApiError>(s),
            Err(e) => out == Err::<String, ApiError>(ApiError::UrlParseError(e)),
        },
{
    match r {
        Ok(s) => Ok(s),
        Err(e) => Err(ApiError::UrlParseError(e)),
    }
}

impl<Role> ApiClient<Role> {
    /// Creates a client for the node at `raw_url`, with an optional label and no session.
    /// The API base is the node URL with a trailing `/` on its path, joined with `api/`.
    pub fn new(raw_url: &str, label: Option<String>) -> (r: Result<Self, ApiError>)
        requires
            spec_base_fits(raw_url@),
        ensures
            spec_created(raw_url@, opt_view(label), r),
    {
        match web_url::api_base(raw_url) {
            Ok(base_url) => Ok(ApiClient {
                base_url,
                label,
                session: None,
                token_expires_at: None,
                _marker: core::marker::PhantomData,
            }),
            Err(e) => Err(ApiError::UrlParseError(e)),
        }
    }

    /// Creates a client as `new` does, where the node URL stays within the sizes
    /// that the `url` crate handles; `None` where it does not.
    pub fn try_new(raw_url: &str, label: Option<String>) -> (r: Option<Result<Self, ApiError>>)
        ensures
            match r {
                None => !spec_base_fits(raw_url@),
                Some(created) => spec_base_fits(raw_url@) && spec_created(raw_url@, opt_view(label), created),
            },
    {
        if web_url::api_base_fits(raw_url) {
            Some(Self::new(raw_url, label))
        } else {
            None
        }
    }

    /// The session id of the current session. Fails as unauthorized when the client
    /// never authenticated, or when the session carries no session id.
    pub fn get_sid(&self) -> (r: Result<String, ApiError>)
        ensures
            match self@.session {
                None => r matches Err(ApiError::Unauthorized(m)) && m@ == NOT_AUTHENTICATED@,
                Some(s) => match s.sid {
                    None => r matches Err(ApiError::Unauthorized(m)) && m@ == MISSING_SID@,
                    Some(sid) => r == Ok::<String, ApiError>(sid),
                },
            },
    {
        match &self.session {
            None => Err(ApiError::Unauthorized(String::from_str(NOT_AUTHENTICATED))),
            Some(session) => match &session.sid {
                None => Err(ApiError::Unauthorized(String::from_str(MISSING_SID))),
                Some(sid) => Ok(sid.clone()),
            },
        }
    }

    /// Maps an error document received with `status` into an API error.
    pub fn map_error_response(status: u16, resp: ApiResult<ApiErrorPayload>) -> (e: ApiError)
        ensures
            e == spec_document_error(status, resp),
    {
        match resp {
            ApiResult::Failure(payload) => {
                let unauthorized = String::from_str("unauthorized");
                if payload.error.key == unauthorized {
                    ApiError::Unauthorized(payload.error.message)
                } else {
                    ApiError::Error(payload.error.message)
                }
            },
            ApiResult::Success(_) => ApiError::UnexpectedStatusCode(status),
        }
    }

    /// The node's name in diagnostics: its label, else the API URL's host, else the API URL.
    pub fn identifier(&self) -> (r: String)
        ensures
            r@ == spec_identifier(self@),
    {
        match &self.label {
            Some(l) => l.clone(),
            None => match web_url::host(self.base_url.as_str()) {
                Some(h) => h,
                None => self.base_url.clone(),
            },
        }
    }

    /// What authenticating with `password` sends: `POST auth/` with the password.
    pub fn auth_request(&self, password: &str) -> (r: Result<AuthRequest, ApiError>)
        ensures
            match url_join(self@.base_url, "auth/"@) {
                Ok(ep) => r matches Ok(req) && req.endpoint@ == ep && req.payload.password@ == password@,
                Err(pe) => r == Err::<AuthRequest, ApiError>(ApiError::UrlParseError(pe)),
            },
    {
        let endpoint = url_error::<()>(web_url::join(self.base_url.as_str(), "auth/"))?;
        Ok(AuthRequest { endpoint, payload: ApiAuthPayload { password: String::from_str(password) } })
    }

    /// Takes in the reply to an authentication exchange received at `now`. A success
    /// document installs its session, expiring after its validity less the safety
    /// buffer; a failure document maps its status to an error and leaves the client as it was.
    pub fn complete_authentication(
        &mut self,
        status: u16,
        response: ApiResult<ApiSessionPayload>,
        now: u128,
    ) -> (r: Result<(), ApiError>)
        requires
            response matches ApiResult::Success(p) ==> now + session_lifetime(p.session.validity)
                <= u128::MAX,
        ensures
            match response {
                ApiResult::Success(p) => {
                    &&& r is Ok
                    &&& final(self)@ == spec_authenticated(old(self)@, p.session, now)
                },
                ApiResult::Failure(p) => {
                    &&& final(self)@ == old(self)@
                    &&& r == Err::<(), ApiError>(spec_auth_failure(status, p))
                },
            },
    {
        match response {
            ApiResult::Success(payload) => {
                let lifetime_secs = payload.session.validity.saturating_sub(SESSION_SAFETY_BUFFER_SECONDS);
                let lifetime = (lifetime_secs as u128) * NANOS_PER_SECOND;
                self.session = Some(payload.session);
                self.token_expires_at = Some(now + lifetime);
                Ok(())
            },
            ApiResult::Failure(payload) => {
                if status == 400 {
                    Err(ApiError::BadRequest(payload.error.message))
                } else if status == 401 {
                    Err(ApiError::Unauthorized(payload.error.message))
                } else if status == 429 {
                    Err(ApiError::TooManyRequests(payload.error.message))
                } else {
                    Err(ApiError::UnexpectedStatusCode(status))
                }
            },
        }
    }

    /// Whether the session counts as expired at `now`: always without a session deadline.
    pub fn is_session_expired(&self, now: u128) -> (r: bool)
        ensures
            r == spec_expired(self@, now),
    {
        match self.token_expires_at {
            Some(deadline) => now >= deadline,
            None => true,
        }
    }

    /// What ending the session sends: `DELETE auth/` with the session id.
    pub fn invalidate_session_request(&self) -> (r: Result<SessionRequest, ApiError>)
        ensures
            spec_session_request(self@, "auth/"@, r),
    {
        let endpoint = url_error::<()>(web_url::join(self.base_url.as_str(), "auth/"))?;
        let sid = self.get_sid()?;
        Ok(SessionRequest { endpoint, sid })
    }
}

/// A request to `endpoint` (already resolved) that carries the client's session id:
/// fails as `get_sid` fails, else carries the endpoint and the id.
pub open spec fn spec_sid_request(
    c: ClientView,
    endpoint: Result<Seq<char>, url::ParseError>,
    r: Result<SessionRequest, ApiError>,
) -> bool {
    match endpoint {
        Err(pe) => r == Err::<SessionRequest, ApiError>(ApiError::UrlParseError(pe)),
        Ok(ep) => match c.session {
            None => r matches Err(ApiError::Unauthorized(m)) && m@ == NOT_AUTHENTICATED@,
            Some(s) => match s.sid {
                None => r matches Err(ApiError::Unauthorized(m)) && m@ == MISSING_SID@,
                Some(sid) => r matches Ok(req) && req.endpoint@ == ep && req.sid == sid,
            },
        },
    }
}

/// Whether a request to `endpoint` carrying the session id can be formed:
/// the endpoint resolved and the session has an id.
pub open spec fn spec_request_ready(c: ClientView, endpoint: Result<Seq<char>, url::ParseError>) -> bool {
    &&& endpoint is Ok
    &&& match c.session {
        Some(s) => s.sid is Some,
        None => false,
    }
}

/// A formed request carries the resolved endpoint and the session's id.
pub open spec fn spec_request_fields(
    c: ClientView,
    endpoint: Result<Seq<char>, url::ParseError>,
    req_endpoint: Seq<char>,
    req_sid: String,
) -> bool {
    &&& endpoint == Ok::<Seq<char>, url::ParseError>(req_endpoint)
    &&& match c.session {
        Some(s) => s.sid == Some(req_sid),
        None => false,
    }
}

/// A session request to `rel` relative to the API base URL.
pub open spec fn spec_session_request(
    c: ClientView,
    rel: Seq<char>,
    r: Result<SessionRequest, ApiError>,
) -> bool {
    spec_sid_request(c, url_join(c.base_url, rel), r)
}

/// The gravity endpoint: `action/` then `gravity/` under the API base.
pub open spec fn spec_gravity_endpoint(base: Seq<char>) -> Result<Seq<char>, url::ParseError> {
    match url_join(base, "action/"@) {
        Ok(a) => url_join(a, "gravity/"@),
        Err(e) => Err(e),
    }
}

impl ApiClient<Primary> {
    /// What downloading the Teleporter archive sends: `GET teleporter/` with the session id.
    pub fn download_request(&self) -> (r: Result<SessionRequest, ApiError>)
        ensures
            spec_session_request(self@, "teleporter/"@, r),
    {
        let endpoint = url_error::<()>(web_url::join(self.base_url.as_str(), "teleporter/"))?;
        let sid = self.get_sid()?;
        Ok(SessionRequest { endpoint, sid })
    }

    /// The result of a download exchange: the body on a 2xx status (or the error
    /// met reading it); otherwise the error of the error document, or the bare status.
    pub fn download_outcome(
        status: u16,
        body: Result<Vec<u8>, String>,
        document: Option<ApiResult<ApiErrorPayload>>,
    ) -> (r: Result<Vec<u8>, ApiError>)
        ensures
            r == spec_download_outcome(status, body, document),
    {
        if is_success(status) {
            return match body {
                Ok(b) => Ok(b),
                Err(m) => Err(ApiError::Transport(m)),
            };
        }
        match document {
            Some(d) => Err(Self::map_error_response(status, d)),
            None => Err(ApiError::UnexpectedStatusCode(status)),
        }
    }
}

impl ApiClient<Replica> {
    /// What uploading a Teleporter archive sends: `POST teleporter/` with the session id,
    /// the archive and the import options.
    pub fn upload_request(&self, options: TeleporterImportOptions) -> (r: Result<UploadRequest, ApiError>)
        ensures
            match r {
                Err(e) => spec_sid_request(self@, url_join(self@.base_url, "teleporter/"@), Err(e)),
                Ok(req) => {
                    &&& spec_request_ready(self@, url_join(self@.base_url, "teleporter/"@))
                    &&& spec_request_fields(
                        self@,
                        url_join(self@.base_url, "teleporter/"@),
                        req.endpoint@,
                        req.sid,
                    )
                    &&& req.options == options
                },
            },
    {
        let endpoint = url_error::<()>(web_url::join(self.base_url.as_str(), "teleporter/"))?;
        let sid = self.get_sid()?;
        Ok(UploadRequest { endpoint, sid, options })
    }

    /// The result of an upload exchange.
    pub fn upload_outcome(status: u16, document: Option<ApiResult<ApiErrorPayload>>) -> (r: Result<(), ApiError>)
        ensures
            r == spec_transfer_outcome(status, document),
    {
        if is_success(status) {
            return Ok(());
        }
        match document {
            Some(d) => Err(Self::map_error_response(status, d)),
            None => Err(ApiError::UnexpectedStatusCode(status)),
        }
    }

    /// What triggering a gravity rebuild sends: `POST action/gravity/?color=false` with the session id.
    pub fn gravity_request(&self) -> (r: Result<SessionRequest, ApiError>)
        ensures
            spec_sid_request(self@, spec_gravity_endpoint(self@.base_url), r),
    {
        let action = url_error::<()>(web_url::join(self.base_url.as_str(), "action/"))?;
        let endpoint = url_error::<()>(web_url::join(action.as_str(), "gravity/"))?;
        let sid = self.get_sid()?;
        Ok(SessionRequest { endpoint, sid })
    }

    /// The result of the status of a gravity rebuild: a 4xx or 5xx status fails
    /// with that status; any other lets the rebuild's output stream be read.
    pub fn gravity_status_outcome(status: u16) -> (r: Result<(), ApiError>)
        ensures
            r == (if status_is_error(status) {
                Err::<(), ApiError>(ApiError::UnexpectedStatusCode(status))
            } else {
                Ok::<(), ApiError>(())
            }),
    {
        if 400 <= status && status <= 599 {
            Err(ApiError::UnexpectedStatusCode(status))
        } else {
            Ok(())
        }
    }

    /// The result of reading a gravity rebuild's output stream: the rebuild
    /// succeeded iff the stream ran to its end.
    pub fn gravity_stream_outcome(stream: Result<(), String>) -> (r: Result<(), ApiError>)
        ensures
            match stream {
                Ok(()) => r is Ok,
                Err(_) => r matches Err(ApiError::Error(m)) && m@ == GRAVITY_STREAM_CLOSED@,
            },
    {
        match stream {
            Ok(()) => Ok(()),
            Err(_) => Err(ApiError::Error(String::from_str(GRAVITY_STREAM_CLOSED))),
        }
    }
}

/// A session authenticated at `now` stays fresh until its validity, less the
/// safety buffer, has passed, and counts as expired from then on.
pub proof fn lemma_session_fresh_until_deadline(c: ClientView, session: SessionDetails, now: u128, t: u128)
    requires
        now + session_lifetime(session.validity) <= u128::MAX,
    ensures
        spec_expired(spec_authenticated(c, session, now), t) <==> t >= now + session_lifetime(
            session.validity,
        ),
        session.validity <= SESSION_SAFETY_BUFFER_SECONDS ==> spec_expired(
            spec_authenticated(c, session, now),
            now,
        ),
{
}

/// A client that never authenticated counts as expired at every instant.
pub proof fn lemma_unauthenticated_client_expired(c: ClientView, t: u128)
    requires
        c.expires_at is None,
    ensures
        spec_expired(c, t),
{
}

/// Authentication keeps the node's identity: its base URL, its label and so its name.
pub proof fn lemma_authentication_keeps_identity(c: ClientView, session: SessionDetails, now: u128)
    ensures
        spec_authenticated(c, session, now).base_url == c.base_url,
        spec_authenticated(c, session, now).label == c.label,
        spec_identifier(spec_authenticated(c, session, now)) == spec_identifier(c),
{
}

/// Once a session with an id is installed, every request to a resolved
/// endpoint can be formed and carries that id.
pub proof fn lemma_requests_carry_session_id(
    c: ClientView,
    session: SessionDetails,
    now: u128,
    endpoint: Seq<char>,
    sid: String,
)
    requires
        session.sid == Some(sid),
    ensures
        spec_request_ready(
            spec_authenticated(c, session, now),
            Ok::<Seq<char>, url::ParseError>(endpoint),
        ),
        spec_request_fields(
            spec_authenticated(c, session, now),
            Ok::<Seq<char>, url::ParseError>(endpoint),
            endpoint,
            sid,
        ),
{
}

} // verus!

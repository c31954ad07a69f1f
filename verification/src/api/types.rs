//! Request and response structures of the Pi-hole v6 API, and Teleporter import options.
//!
//! See the Pi-hole API documentation for the wire schemas. A response is a
//! payload next to a `took` timing field; the payload is either the success
//! document of the endpoint or an error document.
use vstd::prelude::*;

verus! {

/// The result of a REST API call: the endpoint's success document, or an error document.
#[derive(Debug)]
pub enum ApiResult<T> {
    Success(T),
    Failure(ApiErrorPayload),
}

/// A Pi-hole v6 error document.
#[derive(Debug)]
pub struct ApiErrorPayload {
    pub error: ErrorDetails,
}

/// The details of an error document.
#[derive(Debug)]
pub struct ErrorDetails {
    pub key: String,
    pub message: String,
    pub hint: Option<String>,
}

/// The request body for authenticating against the `/auth` endpoint.
pub struct ApiAuthPayload {
    pub password: String,
}

/// The success document of the `/auth` endpoint.
pub struct ApiSessionPayload {
    pub session: SessionDetails,
}

/// An authenticated session: validity, tokens and metadata.
pub struct SessionDetails {
    pub valid: bool,
    pub totp: bool,
    pub sid: Option<String>,
    pub csrf: Option<String>,
    /// Seconds for which the session stays valid.
    pub validity: u64,
    pub message: Option<String>,
}

/// The success document of `GET /info/database`.
#[derive(Debug)]
pub struct DatabaseInfo {
    /// The size of the database file in bytes.
    pub size: u64,
    /// Unix timestamp of the database file's last modification.
    pub mtime: i64,
    /// The total query count of the engine index.
    pub queries: u64,
}

/// Which gravity tables a Teleporter import restores.
#[derive(Clone, Copy)]
pub struct GravityImportOptions {
    pub group: bool,
    pub adlist: bool,
    pub adlist_by_group: bool,
    pub domainlist: bool,
    pub domainlist_by_group: bool,
    pub client: bool,
    pub client_by_group: bool,
}

/// The `import` field of a Teleporter upload: what the replica restores from the archive.
#[derive(Clone, Copy)]
pub struct TeleporterImportOptions {
    pub config: bool,
    pub dhcp_leases: bool,
    pub gravity: GravityImportOptions,
}

impl GravityImportOptions {
    /// Every gravity table is selected.
    pub open spec fn all_selected(self) -> bool {
        &&& self.group
        &&& self.adlist
        &&& self.adlist_by_group
        &&& self.domainlist
        &&& self.domainlist_by_group
        &&& self.client
        &&& self.client_by_group
    }
}

impl Default for GravityImportOptions {
    /// All gravity tables are imported by default.
    fn default() -> (r: Self)
        ensures
            r.all_selected(),
    {
        GravityImportOptions {
            group: true,
            adlist: true,
            adlist_by_group: true,
            domainlist: true,
            domainlist_by_group: true,
            client: true,
            client_by_group: true,
        }
    }
}

/// The character view of an optional string.
pub open spec fn opt_view(s: Option<String>) -> Option<Seq<char>> {
    match s {
        Some(v) => Some(v@),
        None => None,
    }
}

/// Copies an optional string.
pub fn clone_opt_string(s: &Option<String>) -> (r: Option<String>)
    ensures
        r == *s,
{
    match s {
        Some(v) => Some(v.clone()),
        None => None,
    }
}

impl Clone for ErrorDetails {
    fn clone(&self) -> (r: Self)
        ensures
            r == *self,
    {
        ErrorDetails {
            key: self.key.clone(),
            message: self.message.clone(),
            hint: clone_opt_string(&self.hint),
        }
    }
}

impl Clone for ApiErrorPayload {
    fn clone(&self) -> (r: Self)
        ensures
            r == *self,
    {
        ApiErrorPayload { error: self.error.clone() }
    }
}

impl Clone for SessionDetails {
    fn clone(&self) -> (r: Self)
        ensures
            r == *self,
    {
        SessionDetails {
            valid: self.valid,
            totp: self.totp,
            sid: clone_opt_string(&self.sid),
            csrf: clone_opt_string(&self.csrf),
            validity: self.validity,
            message: clone_opt_string(&self.message),
        }
    }
}

impl Clone for ApiSessionPayload {
    fn clone(&self) -> (r: Self)
        ensures
            r == *self,
    {
        ApiSessionPayload { session: self.session.clone() }
    }
}

impl Clone for ApiAuthPayload {
    fn clone(&self) -> (r: Self)
        ensures
            r == *self,
    {
        ApiAuthPayload { password: self.password.clone() }
    }
}

} // verus!

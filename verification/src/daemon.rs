//! The replication daemon as a state machine.
//!
//! The daemon links filesystem triggers to network executions. Each call of
//! [`Daemon::step`] takes the outcome of the last outside action (an HTTP
//! reply, the state token read from disk, a channel event, the end of a
//! debounce window) and returns the next action to perform. The caller runs the
//! actions: HTTP exchanges, file metadata reads, channel reception and sleeps.
//!
//! Nodes are numbered `0` (the primary) and `1..=n` (replica `k - 1`).
use vstd::prelude::*;

use crate::api::client::{
    spec_auth_failure, spec_authenticated, spec_download_outcome, spec_expired,
    spec_gravity_endpoint, spec_request_fields, spec_request_ready, spec_sid_request,
    spec_transfer_outcome, status_is_error, ApiClient, AuthRequest, ClientView, Primary, Replica,
    SessionRequest, UploadRequest, GRAVITY_STREAM_CLOSED,
};
use crate::api::error::ApiError;
use crate::api::types::{clone_opt_string, opt_view, ApiErrorPayload, ApiResult, ApiSessionPayload};
use crate::api::web_url::{api_base_fits, spec_api_base, spec_base_fits, url_join};
use crate::config::{spec_import_options, spec_normalized_sync, AppConfig};
use crate::watcher::DaemonEvent;

verus! {

/// How the binary runs the daemon.
#[derive(Clone, Copy, Debug)]
pub enum RunMode {
    /// One synchronization, then exit.
    Once,
    /// React to filesystem events until stopped.
    Daemon,
}

impl RunMode {
    /// The mode's name in diagnostics.
    pub fn as_str(&self) -> (r: &'static str)
        ensures
            r@ == match self {
                RunMode::Once => "once"@,
                RunMode::Daemon => "daemon"@,
            },
    {
        match self {
            RunMode::Once => "once",
            RunMode::Daemon => "daemon",
        }
    }
}

/// Whether a synchronization transfers everything or a selection.
#[derive(Clone, Copy, Debug)]
pub enum SyncMode {
    Full,
    Selective,
}

impl SyncMode {
    /// The sync mode that the configuration selects.
    pub fn of_config(config: &AppConfig) -> (r: SyncMode)
        ensures
            r == (if config.sync.full_sync { SyncMode::Full } else { SyncMode::Selective }),
    {
        if config.sync.full_sync {
            SyncMode::Full
        } else {
            SyncMode::Selective
        }
    }

    /// The sync mode's name in diagnostics.
    pub fn as_str(&self) -> (r: &'static str)
        ensures
            r@ == match self {
                SyncMode::Full => "full"@,
                SyncMode::Selective => "selective"@,
            },
    {
        match self {
            SyncMode::Full => "full",
            SyncMode::Selective => "selective",
        }
    }
}

/// A node of the setup.
#[derive(Clone, Copy, Debug)]
pub enum NodeRef {
    Primary,
    Replica(usize),
}

/// Why a run of the daemon failed.
#[derive(Debug)]
pub enum DaemonError {
    /// The primary's client could not be created from its URL.
    PrimaryClient(ApiError),
    /// The client of the replica at this index could not be created from its URL.
    ReplicaClient(usize, ApiError),
    /// The node could not be authenticated.
    Authentication(NodeRef, ApiError),
    /// The Teleporter archive could not be downloaded from the primary.
    Download(ApiError),
}

/// The procedure that a phase belongs to.
#[derive(Clone, Copy, Debug)]
pub enum Origin {
    /// A full synchronization that ignores the state token (`run_once`).
    RunOnce,
    /// The daemon's start without a forced synchronization: authenticate, record the token.
    Startup,
    /// A synchronization triggered by filesystem events, gated by the state token.
    Pipeline,
}

/// What follows once every node is authenticated.
#[derive(Clone, Copy)]
pub enum AfterAuth {
    /// Read the state token for this procedure.
    ReadToken(Origin),
    /// Download the archive for the pipeline that read this token.
    Download(i64),
}

/// Where a replica stands within a sync.
#[derive(Clone, Copy)]
pub enum Stage {
    /// Awaiting the upload reply.
    Uploading,
    /// Awaiting the status of the gravity rebuild.
    Triggering,
    /// Awaiting the end of the gravity rebuild's output stream.
    Streaming,
    /// Awaiting the acknowledgement of a reported failure at this replica.
    Reporting,
}

/// What follows a reported failure of a procedure.
#[derive(Clone, Copy)]
pub enum Resume {
    /// Go back to waiting for channel events.
    Listen,
    /// End the sessions and exit normally.
    Shutdown,
}

/// A failure that the daemon hands out for reporting before it goes on.
#[derive(Debug)]
pub enum Report {
    /// The procedure failed; the daemon goes on as `Resume` says.
    SyncFailed { origin: Origin, failure: DaemonError },
    /// The archive could not be uploaded to this replica; the sync goes on with the next one.
    UploadFailed { replica: usize, error: ApiError },
    /// This replica's gravity rebuild failed; the sync goes on with the next replica.
    GravityFailed { replica: usize, error: ApiError },
    /// The session of this node could not be ended; the shutdown goes on with the next node.
    InvalidateFailed { node: NodeRef, error: ApiError },
}

/// Where the daemon stands.
pub enum Phase {
    /// Neither `run` nor `run_once` has started.
    Idle,
    /// Awaiting the authentication reply of node `node`.
    Authenticating { node: usize, then: AfterAuth },
    /// Awaiting the state token.
    ReadingToken { origin: Origin },
    /// Awaiting the archive download from the primary.
    Downloading { token: i64, origin: Origin },
    /// Handling replica `replica` in the sync that read `token`, with the downloaded archive.
    Replicating { token: i64, origin: Origin, replica: usize, stage: Stage, archive: Vec<u8> },
    /// Awaiting the next channel event.
    Listening,
    /// In the debounce window: awaiting its end or the next channel event.
    Debouncing,
    /// Awaiting the acknowledgement of a reported failure.
    Reporting { resume: Resume },
    /// Ending the session of node `node` (with `reporting`, awaiting the
    /// acknowledgement of the failure to end it); the run ends with `outcome`.
    ShuttingDown { node: usize, outcome: Result<(), DaemonError>, reporting: bool },
    /// The run is over.
    Finished,
}

/// An HTTP reply as read by the caller.
pub struct HttpReply {
    pub status: u16,
    /// The whole body, or the message of the transport error met while reading it.
    pub body: Result<Vec<u8>, String>,
    /// The body read as a Pi-hole error response, where it reads as one.
    pub document: Option<ApiResult<ApiErrorPayload>>,
}

/// The outcome of the last action.
pub enum Input {
    /// Reply to `Authenticate`, received at `now`: the status and the decoded
    /// response, or the transport or decoding error.
    AuthReply { now: u128, reply: Result<(u16, ApiResult<ApiSessionPayload>), ApiError> },
    /// Reply to `ReadStateToken`: the modification times (Unix seconds, `0` where
    /// unreadable) of `pihole.toml` and `gravity.db`, read at `now`.
    StateToken { config_mtime: i64, gravity_mtime: i64, now: u128 },
    /// Reply to `Download`, or the transport error of the request.
    DownloadReply(Result<HttpReply, ApiError>),
    /// Reply to `Upload`, or the transport error of the request.
    UploadReply(Result<HttpReply, ApiError>),
    /// Reply to `TriggerGravity`: the status, or the transport error of the request.
    GravityStatus(Result<u16, ApiError>),
    /// Reply to `DrainGravity`: the stream ran to its end, or the message of the error that ended it.
    GravityStream(Result<(), String>),
    /// Reply to `AwaitEvent` or `AwaitDebounce`: the next channel event, `None` once the channel closed.
    Event(Option<DaemonEvent>),
    /// Reply to `AwaitDebounce`: the window passed without an event.
    DebounceElapsed,
    /// Reply to `InvalidateSession`, whatever its result.
    SessionClosed,
    /// Reply to `Report`: the failure was reported.
    Reported,
}

/// The next outside action.
pub enum Action {
    /// `POST` the password to the node's `auth/` endpoint.
    Authenticate { node: NodeRef, auth: AuthRequest },
    /// Read the modification times of `pihole.toml` and `gravity.db` in the watched directory.
    ReadStateToken,
    /// `GET` the Teleporter archive from the primary.
    Download(SessionRequest),
    /// `POST` the archive and import options to the replica's `teleporter/` endpoint.
    Upload { replica: usize, upload: UploadRequest, archive: Vec<u8> },
    /// `POST` a gravity rebuild to the replica and return the reply's status.
    TriggerGravity { replica: usize, request: SessionRequest },
    /// Read the output stream of the replica's gravity rebuild to its end.
    DrainGravity { replica: usize },
    /// Receive the next channel event.
    AwaitEvent,
    /// Sleep `seconds`, or receive the next channel event if one comes first.
    AwaitDebounce { seconds: u64 },
    /// `DELETE` the node's session.
    InvalidateSession { node: NodeRef, request: SessionRequest },
    /// Report a failure.
    Report(Report),
    /// The run is over with this outcome.
    Exit(Result<(), DaemonError>),
}

/// The daemon's state as the contracts see it.
pub struct DaemonView {
    pub config: AppConfig,
    pub last_known_timestamp: Option<i64>,
    pub primary: ClientView,
    pub replicas: Seq<ClientView>,
    pub mode: RunMode,
    pub phase: Phase,
}

/// The event consumer runtime: configuration, the last state token synchronized,
/// the node clients and the current phase.
pub struct Daemon {
    config: AppConfig,
    last_known_timestamp: Option<i64>,
    primary_client: ApiClient<Primary>,
    replica_clients: Vec<ApiClient<Replica>>,
    mode: RunMode,
    phase: Phase,
}

impl View for Daemon {
    type V = DaemonView;

    closed spec fn view(&self) -> DaemonView {
        DaemonView {
            config: self.config,
            last_known_timestamp: self.last_known_timestamp,
            primary: self.primary_client@,
            replicas: self.replica_clients@.map_values(|c: ApiClient<Replica>| c@),
            mode: self.mode,
            phase: self.phase,
        }
    }
}

/// The state token of the watched files: the sum of their modification times,
/// wrapping on overflow.
pub open spec fn spec_state_token(config_mtime: i64, gravity_mtime: i64) -> i64 {
    vstd::wrapping::i64_specs::wrapping_add(config_mtime, gravity_mtime)
}

/// The modification time that a watched file contributes to the state token:
/// its whole seconds since the Unix epoch, reinterpreted as a signed number;
/// `0` where the file, its modification time, or a time after the epoch is missing.
pub open spec fn spec_mtime_seconds(since_epoch_secs: Option<u64>) -> i64 {
    match since_epoch_secs {
        Some(secs) => secs as i64,
        None => 0,
    }
}

/// Number of nodes: the primary and the replicas.
pub open spec fn node_count(v: DaemonView) -> int {
    (v.replicas.len() + 1) as int
}

/// The client of node `k`.
pub open spec fn node_client(v: DaemonView, k: int) -> ClientView {
    if k == 0 {
        v.primary
    } else {
        v.replicas[k - 1]
    }
}

/// The configured password of node `k`.
pub open spec fn node_password(v: DaemonView, k: int) -> Seq<char> {
    if k == 0 {
        v.config.primary.password@
    } else {
        v.config.replicas@[k - 1].password@
    }
}

/// The name of node `k`.
pub open spec fn node_ref(k: int) -> NodeRef {
    if k == 0 {
        NodeRef::Primary
    } else {
        NodeRef::Replica((k - 1) as usize)
    }
}

/// The view with another phase.
pub open spec fn with_phase(v: DaemonView, p: Phase) -> DaemonView {
    DaemonView { phase: p, ..v }
}

/// The view with node `k`'s client replaced.
pub open spec fn with_node(v: DaemonView, k: int, c: ClientView) -> DaemonView {
    if k == 0 {
        DaemonView { primary: c, ..v }
    } else {
        DaemonView { replicas: v.replicas.update(k - 1, c), ..v }
    }
}

/// The procedure that an authentication round belongs to.
pub open spec fn auth_origin(then: AfterAuth) -> Origin {
    match then {
        AfterAuth::ReadToken(o) => o,
        AfterAuth::Download(_) => Origin::Pipeline,
    }
}

/// The state is consistent: one client per configured replica; the phase
/// names an existing node or replica; only a forced run or the start reads the
/// token after authenticating; only a `once` run ends with an error.
pub open spec fn spec_wf(v: DaemonView) -> bool {
    &&& v.replicas.len() == v.config.replicas@.len()
    &&& match v.phase {
        Phase::Authenticating { node, then } => node < node_count(v) && !(then matches AfterAuth::ReadToken(Origin::Pipeline)),
        Phase::Replicating { replica, .. } => replica < v.replicas.len(),
        Phase::ShuttingDown { node, outcome, .. } => node < node_count(v) && (outcome is Err ==> v.mode is Once),
        _ => true,
    }
}

/// Waiting for the next channel event.
pub open spec fn spec_listen(v: DaemonView, nv: DaemonView, a: Action) -> bool {
    nv == with_phase(v, Phase::Listening) && a is AwaitEvent
}

/// Ending the session of node `k` (or, past the last node, exiting with
/// `outcome`): a node whose session cannot be ended has that failure reported.
pub open spec fn spec_enter_shutdown(
    v: DaemonView,
    k: int,
    outcome: Result<(), DaemonError>,
    nv: DaemonView,
    a: Action,
) -> bool {
    if k >= node_count(v) {
        nv == with_phase(v, Phase::Finished) && a == Action::Exit(outcome)
    } else {
        let c = node_client(v, k);
        let ep = url_join(c.base_url, "auth/"@);
        if spec_request_ready(c, ep) {
            &&& nv == with_phase(v, Phase::ShuttingDown { node: k as usize, outcome, reporting: false })
            &&& a matches Action::InvalidateSession { node, request }
            &&& node == node_ref(k)
            &&& spec_request_fields(c, ep, request.endpoint@, request.sid)
        } else {
            &&& nv == with_phase(v, Phase::ShuttingDown { node: k as usize, outcome, reporting: true })
            &&& a matches Action::Report(Report::InvalidateFailed { node, error })
            &&& node == node_ref(k)
            &&& spec_sid_request(c, ep, Err(error))
        }
    }
}

/// After procedure `origin` failed with `err`: a failed run in `once` mode
/// ends the sessions and exits with the error; otherwise the failure is
/// reported, after which a failed daemon start ends the sessions and exits
/// normally, and anything else goes back to listening.
pub open spec fn spec_after_failure(
    v: DaemonView,
    origin: Origin,
    err: DaemonError,
    nv: DaemonView,
    a: Action,
) -> bool {
    if origin is RunOnce && v.mode is Once {
        spec_enter_shutdown(v, 0, Err(err), nv, a)
    } else {
        &&& nv == with_phase(
            v,
            Phase::Reporting { resume: if origin is Startup { Resume::Shutdown } else { Resume::Listen } },
        )
        &&& a == Action::Report(Report::SyncFailed { origin, failure: err })
    }
}

/// Downloading the archive for the sync that read `token`.
pub open spec fn spec_enter_download(
    v: DaemonView,
    token: i64,
    origin: Origin,
    nv: DaemonView,
    a: Action,
) -> bool {
    let ep = url_join(v.primary.base_url, "teleporter/"@);
    if spec_request_ready(v.primary, ep) {
        &&& nv == with_phase(v, Phase::Downloading { token, origin })
        &&& a matches Action::Download(req)
        &&& spec_request_fields(v.primary, ep, req.endpoint@, req.sid)
    } else {
        exists|e: ApiError|
            spec_sid_request(v.primary, ep, Err(e))
                && #[trigger] spec_after_failure(v, origin, DaemonError::Download(e), nv, a)
    }
}

/// Continuing after the authentication round.
pub open spec fn spec_after_auth(v: DaemonView, then: AfterAuth, nv: DaemonView, a: Action) -> bool {
    match then {
        AfterAuth::ReadToken(o) => nv == with_phase(v, Phase::ReadingToken { origin: o })
            && a is ReadStateToken,
        AfterAuth::Download(token) => spec_enter_download(v, token, Origin::Pipeline, nv, a),
    }
}

/// Authenticating nodes `k..` in order; a node whose `auth/` endpoint does not
/// resolve fails the round.
pub open spec fn spec_enter_auth(v: DaemonView, k: int, then: AfterAuth, nv: DaemonView, a: Action) -> bool {
    if k >= node_count(v) {
        spec_after_auth(v, then, nv, a)
    } else {
        match url_join(node_client(v, k).base_url, "auth/"@) {
            Err(pe) => spec_after_failure(
                v,
                auth_origin(then),
                DaemonError::Authentication(node_ref(k), ApiError::UrlParseError(pe)),
                nv,
                a,
            ),
            Ok(ep) => {
                &&& nv == with_phase(v, Phase::Authenticating { node: k as usize, then })
                &&& a matches Action::Authenticate { node, auth }
                &&& node == node_ref(k)
                &&& auth.endpoint@ == ep
                &&& auth.payload.password@ == node_password(v, k)
            },
        }
    }
}

/// The end of a sync that read `token`: the token becomes the last known one;
/// a `once` run then ends the sessions and exits, a daemon goes back to listening.
pub open spec fn spec_complete(v: DaemonView, token: i64, origin: Origin, nv: DaemonView, a: Action) -> bool {
    let v2 = DaemonView { last_known_timestamp: Some(token), ..v };
    if origin is RunOnce && v.mode is Once {
        spec_enter_shutdown(v2, 0, Ok(()), nv, a)
    } else {
        spec_listen(v2, nv, a)
    }
}

/// The replica phase of a sync at replica `i` and stage `stage`.
pub open spec fn replicating(token: i64, origin: Origin, i: int, stage: Stage, archive: Vec<u8>) -> Phase {
    Phase::Replicating { token, origin, replica: i as usize, stage, archive }
}

/// Handling replica `i` of the sync (past the last replica, the sync
/// completes): the archive is uploaded to it with the configured import
/// options, or, where no upload can be formed, that failure is reported.
pub open spec fn spec_enter_replicas(
    v: DaemonView,
    token: i64,
    origin: Origin,
    i: int,
    archive: Vec<u8>,
    nv: DaemonView,
    a: Action,
) -> bool {
    if i >= v.replicas.len() {
        spec_complete(v, token, origin, nv, a)
    } else {
        let c = v.replicas[i];
        let ep = url_join(c.base_url, "teleporter/"@);
        if spec_request_ready(c, ep) {
            &&& nv == with_phase(v, replicating(token, origin, i, Stage::Uploading, archive))
            &&& a matches Action::Upload { replica, upload, archive: sent }
            &&& replica == i
            &&& spec_request_fields(c, ep, upload.endpoint@, upload.sid)
            &&& upload.options == spec_import_options(spec_normalized_sync(v.config.sync))
            &&& sent@ == archive@
        } else {
            &&& nv == with_phase(v, replicating(token, origin, i, Stage::Reporting, archive))
            &&& a matches Action::Report(Report::UploadFailed { replica, error })
            &&& replica == i
            &&& spec_sid_request(c, ep, Err(error))
        }
    }
}

/// Whether some node's session counts as expired at `now`.
pub open spec fn spec_any_expired(v: DaemonView, now: u128) -> bool {
    spec_expired(v.primary, now) || exists|i: int|
        0 <= i < v.replicas.len() && spec_expired(#[trigger] v.replicas[i], now)
}

/// The result of an upload exchange: the transport error, or the outcome of the reply.
pub open spec fn spec_upload_result(r: Result<HttpReply, ApiError>) -> Result<(), ApiError> {
    match r {
        Ok(rep) => spec_transfer_outcome(rep.status, rep.document),
        Err(e) => Err(e),
    }
}

/// Whether `input` is the reply that the current phase awaits.
pub open spec fn spec_awaits(v: DaemonView, input: Input) -> bool {
    match v.phase {
        Phase::Authenticating { .. } => input is AuthReply,
        Phase::ReadingToken { .. } => input is StateToken,
        Phase::Downloading { .. } => input is DownloadReply,
        Phase::Replicating { stage, .. } => match stage {
            Stage::Uploading => input is UploadReply,
            Stage::Triggering => input is GravityStatus,
            Stage::Streaming => input is GravityStream,
            Stage::Reporting => input is Reported,
        },
        Phase::Listening => input is Event,
        Phase::Debouncing => input is Event || input is DebounceElapsed,
        Phase::Reporting { .. } => input is Reported,
        Phase::ShuttingDown { reporting, .. } => if reporting {
            input is Reported
        } else {
            input is SessionClosed
        },
        _ => false,
    }
}

/// On the authentication reply of node `node`: a success document installs the
/// session and moves on to the next node; a failure document or a transport
/// error fails the round.
pub open spec fn spec_on_auth_reply(
    v: DaemonView,
    node: usize,
    then: AfterAuth,
    now: u128,
    reply: Result<(u16, ApiResult<ApiSessionPayload>), ApiError>,
    nv: DaemonView,
    a: Action,
) -> bool {
    match reply {
        Err(e) => spec_after_failure(
            v,
            auth_origin(then),
            DaemonError::Authentication(node_ref(node as int), e),
            nv,
            a,
        ),
        Ok((status, doc)) => match doc {
            ApiResult::Success(p) => spec_enter_auth(
                with_node(v, node as int, spec_authenticated(node_client(v, node as int), p.session, now)),
                node + 1,
                then,
                nv,
                a,
            ),
            ApiResult::Failure(p) => spec_after_failure(
                v,
                auth_origin(then),
                DaemonError::Authentication(node_ref(node as int), spec_auth_failure(status, p)),
                nv,
                a,
            ),
        },
    }
}

/// On the state token: a forced run downloads; the daemon's start records the
/// token; the pipeline skips when the token equals the last known one, and
/// otherwise re-authenticates every node first when some session expired.
pub open spec fn spec_on_token(
    v: DaemonView,
    origin: Origin,
    config_mtime: i64,
    gravity_mtime: i64,
    now: u128,
    nv: DaemonView,
    a: Action,
) -> bool {
    let token = spec_state_token(config_mtime, gravity_mtime);
    match origin {
        Origin::RunOnce => spec_enter_download(v, token, origin, nv, a),
        Origin::Startup => spec_listen(DaemonView { last_known_timestamp: Some(token), ..v }, nv, a),
        Origin::Pipeline => if v.last_known_timestamp == Some(token) {
            spec_listen(v, nv, a)
        } else if spec_any_expired(v, now) {
            spec_enter_auth(v, 0, AfterAuth::Download(token), nv, a)
        } else {
            spec_enter_download(v, token, origin, nv, a)
        },
    }
}

/// On the download reply: the archive goes to the replicas; any failure fails the sync.
pub open spec fn spec_on_download(
    v: DaemonView,
    token: i64,
    origin: Origin,
    r: Result<HttpReply, ApiError>,
    nv: DaemonView,
    a: Action,
) -> bool {
    match r {
        Err(e) => spec_after_failure(v, origin, DaemonError::Download(e), nv, a),
        Ok(rep) => match spec_download_outcome(rep.status, rep.body, rep.document) {
            Ok(archive) => spec_enter_replicas(v, token, origin, 0, archive, nv, a),
            Err(e) => spec_after_failure(v, origin, DaemonError::Download(e), nv, a),
        },
    }
}

/// On the upload reply of replica `replica`: a failed upload is reported;
/// after a successful one, with `run_gravity` set, the replica's gravity is
/// rebuilt (or the failure to form that request reported); otherwise the
/// next replica follows.
pub open spec fn spec_on_upload(
    v: DaemonView,
    token: i64,
    origin: Origin,
    replica: usize,
    archive: Vec<u8>,
    r: Result<HttpReply, ApiError>,
    nv: DaemonView,
    a: Action,
) -> bool {
    let c = v.replicas[replica as int];
    let ep = spec_gravity_endpoint(c.base_url);
    match spec_upload_result(r) {
        Err(e) => nv == with_phase(v, replicating(token, origin, replica as int, Stage::Reporting, archive))
            && a == Action::Report(Report::UploadFailed { replica, error: e }),
        Ok(_) => if !v.config.sync.run_gravity {
            spec_enter_replicas(v, token, origin, replica + 1, archive, nv, a)
        } else if spec_request_ready(c, ep) {
            &&& nv == with_phase(v, replicating(token, origin, replica as int, Stage::Triggering, archive))
            &&& a matches Action::TriggerGravity { replica: gr, request }
            &&& gr == replica
            &&& spec_request_fields(c, ep, request.endpoint@, request.sid)
        } else {
            &&& nv == with_phase(v, replicating(token, origin, replica as int, Stage::Reporting, archive))
            &&& a matches Action::Report(Report::GravityFailed { replica: gr, error })
            &&& gr == replica
            &&& spec_sid_request(c, ep, Err(error))
        },
    }
}

/// On the status of a gravity rebuild: a transport error or a 4xx/5xx status
/// is reported; otherwise the rebuild's output stream is read.
pub open spec fn spec_on_gravity_status(
    v: DaemonView,
    token: i64,
    origin: Origin,
    replica: usize,
    archive: Vec<u8>,
    r: Result<u16, ApiError>,
    nv: DaemonView,
    a: Action,
) -> bool {
    let reporting = with_phase(v, replicating(token, origin, replica as int, Stage::Reporting, archive));
    match r {
        Err(e) => nv == reporting && a == Action::Report(Report::GravityFailed { replica, error: e }),
        Ok(status) => if status_is_error(status) {
            nv == reporting && a == Action::Report(
                Report::GravityFailed { replica, error: ApiError::UnexpectedStatusCode(status) },
            )
        } else {
            nv == with_phase(v, replicating(token, origin, replica as int, Stage::Streaming, archive))
                && a == Action::DrainGravity { replica }
        },
    }
}

/// On the end of a gravity rebuild's output stream: a complete stream moves
/// on to the next replica; an interrupted one is reported.
pub open spec fn spec_on_gravity_stream(
    v: DaemonView,
    token: i64,
    origin: Origin,
    replica: usize,
    archive: Vec<u8>,
    r: Result<(), String>,
    nv: DaemonView,
    a: Action,
) -> bool {
    match r {
        Ok(()) => spec_enter_replicas(v, token, origin, replica + 1, archive, nv, a),
        Err(_) => {
            &&& nv == with_phase(v, replicating(token, origin, replica as int, Stage::Reporting, archive))
            &&& a matches Action::Report(Report::GravityFailed { replica: gr, error: ApiError::Error(m) })
            &&& gr == replica
            &&& m@ == GRAVITY_STREAM_CLOSED@
        },
    }
}

/// On a channel event while listening: a state change opens the debounce
/// window; a watcher error or the closed channel ends the run.
pub open spec fn spec_on_listening_event(v: DaemonView, e: Option<DaemonEvent>, nv: DaemonView, a: Action) -> bool {
    match e {
        Some(DaemonEvent::StateChange(_)) => nv == with_phase(v, Phase::Debouncing)
            && a == Action::AwaitDebounce { seconds: v.config.daemon.debounce_seconds },
        _ => spec_enter_shutdown(v, 0, Ok(()), nv, a),
    }
}

/// Reading the state token for a triggered sync.
pub open spec fn spec_read_pipeline_token(v: DaemonView, nv: DaemonView, a: Action) -> bool {
    nv == with_phase(v, Phase::ReadingToken { origin: Origin::Pipeline }) && a is ReadStateToken
}

/// On a channel event in the debounce window: a further state change restarts
/// the window; a watcher error abandons it (the daemon goes back to listening);
/// the closed channel can bring no further change, so the window is over.
pub open spec fn spec_on_debouncing_event(v: DaemonView, e: Option<DaemonEvent>, nv: DaemonView, a: Action) -> bool {
    match e {
        Some(DaemonEvent::StateChange(_)) => nv == v && a == Action::AwaitDebounce {
            seconds: v.config.daemon.debounce_seconds,
        },
        Some(DaemonEvent::WatcherError(_)) => spec_listen(v, nv, a),
        None => spec_read_pipeline_token(v, nv, a),
    }
}

/// The transition on the reply `input` that the current phase awaits.
pub open spec fn spec_step(v: DaemonView, input: Input, nv: DaemonView, a: Action) -> bool {
    match v.phase {
        Phase::Authenticating { node, then } => match input {
            Input::AuthReply { now, reply } => spec_on_auth_reply(v, node, then, now, reply, nv, a),
            _ => false,
        },
        Phase::ReadingToken { origin } => match input {
            Input::StateToken { config_mtime, gravity_mtime, now } => spec_on_token(
                v,
                origin,
                config_mtime,
                gravity_mtime,
                now,
                nv,
                a,
            ),
            _ => false,
        },
        Phase::Downloading { token, origin } => match input {
            Input::DownloadReply(r) => spec_on_download(v, token, origin, r, nv, a),
            _ => false,
        },
        Phase::Replicating { token, origin, replica, stage, archive } => match (stage, input) {
            (Stage::Uploading, Input::UploadReply(r)) => spec_on_upload(v, token, origin, replica, archive, r, nv, a),
            (Stage::Triggering, Input::GravityStatus(r)) => spec_on_gravity_status(
                v,
                token,
                origin,
                replica,
                archive,
                r,
                nv,
                a,
            ),
            (Stage::Streaming, Input::GravityStream(r)) => spec_on_gravity_stream(
                v,
                token,
                origin,
                replica,
                archive,
                r,
                nv,
                a,
            ),
            (Stage::Reporting, Input::Reported) => spec_enter_replicas(v, token, origin, replica + 1, archive, nv, a),
            _ => false,
        },
        Phase::Listening => match input {
            Input::Event(e) => spec_on_listening_event(v, e, nv, a),
            _ => false,
        },
        Phase::Debouncing => match input {
            Input::Event(e) => spec_on_debouncing_event(v, e, nv, a),
            Input::DebounceElapsed => spec_read_pipeline_token(v, nv, a),
            _ => false,
        },
        Phase::Reporting { resume } => input is Reported && match resume {
            Resume::Listen => spec_listen(v, nv, a),
            Resume::Shutdown => spec_enter_shutdown(v, 0, Ok(()), nv, a),
        },
        Phase::ShuttingDown { node, outcome, reporting } => (if reporting {
            input is Reported
        } else {
            input is SessionClosed
        }) && spec_enter_shutdown(v, node + 1, outcome, nv, a),
        _ => false,
    }
}

/// What the reply to an authentication of node `node` makes of the round
/// after a successful reply: the round goes on with the next node.
pub proof fn lemma_auth_success_continues(v: DaemonView, input: Input, nv: DaemonView, a: Action)
    requires
        spec_step(v, input, nv, a),
        v.phase is Authenticating,
    ensures
        match input {
            Input::AuthReply { now, reply: Ok((_, ApiResult::Success(p))) } => spec_enter_auth(
                with_node(
                    v,
                    v.phase->Authenticating_node as int,
                    spec_authenticated(node_client(v, v.phase->Authenticating_node as int), p.session, now),
                ),
                v.phase->Authenticating_node + 1,
                v.phase->then,
                nv,
                a,
            ),
            _ => true,
        },
{
}

/// Phase changes that keep the last known token.
pub proof fn lemma_keeps_last_known(v: DaemonView, nv: DaemonView, a: Action)
    ensures
        forall|k: int, o: Result<(), DaemonError>|
            #[trigger] spec_enter_shutdown(v, k, o, nv, a) ==> nv.last_known_timestamp == v.last_known_timestamp,
        spec_listen(v, nv, a) ==> nv.last_known_timestamp == v.last_known_timestamp,
        forall|o: Origin, e: DaemonError|
            #[trigger] spec_after_failure(v, o, e, nv, a) ==> nv.last_known_timestamp == v.last_known_timestamp,
        forall|t: i64, o: Origin|
            #[trigger] spec_enter_download(v, t, o, nv, a) ==> nv.last_known_timestamp == v.last_known_timestamp,
        forall|k: int, then: AfterAuth|
            #[trigger] spec_enter_auth(v, k, then, nv, a) ==> nv.last_known_timestamp == v.last_known_timestamp,
        forall|t: i64, o: Origin, i: int, ar: Vec<u8>|
            #[trigger] spec_enter_replicas(v, t, o, i, ar, nv, a) ==> nv.last_known_timestamp
                == v.last_known_timestamp || nv.last_known_timestamp == Some(t),
{
}

/// An unchanged state token skips the sync: when the pipeline reads a token
/// equal to the last one synchronized, it goes back to listening and nothing else changes.
pub proof fn lemma_unchanged_state_skips_sync(
    v: DaemonView,
    config_mtime: i64,
    gravity_mtime: i64,
    now: u128,
    nv: DaemonView,
    a: Action,
)
    requires
        v.phase == (Phase::ReadingToken { origin: Origin::Pipeline }),
        v.last_known_timestamp == Some(spec_state_token(config_mtime, gravity_mtime)),
        spec_step(v, Input::StateToken { config_mtime, gravity_mtime, now }, nv, a),
    ensures
        nv == with_phase(v, Phase::Listening),
        a is AwaitEvent,
{
}

/// The last known state token changes only when the daemon starts (the token it
/// reads) or when a sync completes (the token that sync read before downloading).
pub proof fn lemma_last_known_changes_only_on_completion(v: DaemonView, input: Input, nv: DaemonView, a: Action)
    requires
        spec_wf(v),
        spec_step(v, input, nv, a),
        nv.last_known_timestamp != v.last_known_timestamp,
    ensures
        match v.phase {
            Phase::ReadingToken { origin } => origin is Startup && (input matches Input::StateToken {
                config_mtime,
                gravity_mtime,
                ..
            } && nv.last_known_timestamp == Some(spec_state_token(config_mtime, gravity_mtime))),
            Phase::Downloading { token, .. } => nv.last_known_timestamp == Some(token),
            Phase::Replicating { token, .. } => nv.last_known_timestamp == Some(token),
            _ => false,
        },
{
    lemma_keeps_last_known(v, nv, a);
    if let Phase::Authenticating { node, then } = v.phase {
        lemma_auth_success_continues(v, input, nv, a);
        if let Input::AuthReply { now, reply: Ok((_, ApiResult::Success(p))) } = input {
            let w = with_node(v, node as int, spec_authenticated(node_client(v, node as int), p.session, now));
            lemma_keeps_last_known(w, nv, a);
        }
    }
}

/// A triggered sync starts only after a quiet debounce window: the pipeline's
/// token read follows the end of a window in which no further change came
/// (the window elapsed, or the channel closed), and nothing else.
pub proof fn lemma_pipeline_starts_after_quiet_window(v: DaemonView, input: Input, nv: DaemonView, a: Action)
    requires
        spec_wf(v),
        spec_step(v, input, nv, a),
        nv.phase == (Phase::ReadingToken { origin: Origin::Pipeline }),
    ensures
        v.phase is Debouncing,
        input is DebounceElapsed || input == Input::Event(None),
{
    if v.phase is Authenticating {
        lemma_auth_success_continues(v, input, nv, a);
    }
}

/// A replica's gravity is rebuilt only when `run_gravity` is set, and only right
/// after the archive was uploaded to that replica successfully.
pub proof fn lemma_gravity_follows_successful_upload(v: DaemonView, input: Input, nv: DaemonView, a: Action)
    requires
        spec_wf(v),
        spec_step(v, input, nv, a),
        a is TriggerGravity,
    ensures
        v.config.sync.run_gravity,
        v.phase matches Phase::Replicating { replica, stage: Stage::Uploading, .. }
            && replica == a->TriggerGravity_replica,
        input matches Input::UploadReply(r) && spec_upload_result(r) is Ok,
{
    if v.phase is Authenticating {
        lemma_auth_success_continues(v, input, nv, a);
    }
}

/// Within a sync the replicas are handled one after the other in index order,
/// the first right after the download: the replica that receives the archive
/// (or whose upload failure is reported) is the one after the replica just handled.
pub proof fn lemma_replicas_handled_in_order(v: DaemonView, input: Input, nv: DaemonView, a: Action)
    requires
        spec_wf(v),
        spec_step(v, input, nv, a),
        a is Upload || a matches Action::Report(Report::UploadFailed { .. }),
        !(v.phase matches Phase::Replicating { stage: Stage::Uploading, .. }),
    ensures
        match v.phase {
            Phase::Replicating { replica, .. } => nv.phase->Replicating_replica == replica + 1,
            Phase::Downloading { .. } => nv.phase->Replicating_replica == 0,
            _ => false,
        },
        match a {
            Action::Upload { replica, .. } => replica == nv.phase->Replicating_replica,
            Action::Report(Report::UploadFailed { replica, .. }) => replica == nv.phase->Replicating_replica,
            _ => false,
        },
{
    if v.phase is Authenticating {
        lemma_auth_success_continues(v, input, nv, a);
    }
}

/// Every upload of a sync carries the archive downloaded from the primary for that sync.
pub proof fn lemma_uploads_carry_downloaded_archive(v: DaemonView, input: Input, nv: DaemonView, a: Action)
    requires
        spec_wf(v),
        spec_step(v, input, nv, a),
        a is Upload,
    ensures
        match v.phase {
            Phase::Downloading { .. } => input matches Input::DownloadReply(Ok(rep))
                && rep.body matches Ok(body) && a->Upload_archive@ == body@,
            Phase::Replicating { archive, .. } => a->Upload_archive@ == archive@,
            _ => false,
        },
{
    if v.phase is Authenticating {
        lemma_auth_success_continues(v, input, nv, a);
    }
}

/// A sync completes only after its last replica was handled: the token of a
/// sync becomes the last known one only at the step after the last replica,
/// or right after the download when there are no replicas.
pub proof fn lemma_sync_completes_after_last_replica(v: DaemonView, input: Input, nv: DaemonView, a: Action)
    requires
        spec_wf(v),
        spec_step(v, input, nv, a),
        v.phase is Replicating || v.phase is Downloading,
        nv.last_known_timestamp != v.last_known_timestamp,
    ensures
        match v.phase {
            Phase::Replicating { replica, .. } => replica + 1 == v.replicas.len(),
            _ => v.replicas.len() == 0,
        },
{
}

/// Shutting down ends the sessions node after node, the primary first: the
/// node after the last one handled is asked to end its session (or its failure
/// to is reported), and the run exits only after the last node.
pub proof fn lemma_shutdown_visits_nodes_in_order(v: DaemonView, input: Input, nv: DaemonView, a: Action)
    requires
        spec_wf(v),
        spec_step(v, input, nv, a),
        v.phase is ShuttingDown,
    ensures
        match a {
            Action::InvalidateSession { node, .. } => node == node_ref(v.phase->ShuttingDown_node + 1),
            Action::Report(Report::InvalidateFailed { node, .. }) => node == node_ref(
                v.phase->ShuttingDown_node + 1,
            ),
            Action::Exit(o) => o == v.phase->outcome && v.phase->ShuttingDown_node + 1 == node_count(v),
            _ => false,
        },
{
}

/// A step never changes the configuration, the run mode or the set of nodes,
/// and never changes a node's API base or label: only sessions and the
/// last known token evolve.
#[verifier::rlimit(40)]
pub proof fn lemma_step_keeps_configuration(v: DaemonView, input: Input, nv: DaemonView, a: Action)
    requires
        spec_wf(v),
        spec_step(v, input, nv, a),
    ensures
        nv.config == v.config,
        nv.mode == v.mode,
        nv.replicas.len() == v.replicas.len(),
        nv.primary.base_url == v.primary.base_url,
        nv.primary.label == v.primary.label,
        forall|i: int| 0 <= i < v.replicas.len() ==> (#[trigger] nv.replicas[i]).base_url
            == v.replicas[i].base_url && nv.replicas[i].label == v.replicas[i].label,
{
    if let Phase::Authenticating { node, then } = v.phase {
        lemma_auth_success_continues(v, input, nv, a);
        if let Input::AuthReply { now, reply: Ok((_, ApiResult::Success(p))) } = input {
            let w = with_node(v, node as int, spec_authenticated(node_client(v, node as int), p.session, now));
            assert forall|i: int| 0 <= i < v.replicas.len() implies (#[trigger] w.replicas[i]).base_url
                == v.replicas[i].base_url && w.replicas[i].label == v.replicas[i].label by {
                if node > 0 && i == node - 1 {
                }
            }
        }
    }
}

/// In daemon mode a failed procedure is handed out: the daemon moves to
/// reporting only with a report of that failure, and a failed triggered sync
/// (authentication or download) is reported before listening resumes.
pub proof fn lemma_failures_are_reported(v: DaemonView, input: Input, nv: DaemonView, a: Action)
    requires
        spec_wf(v),
        spec_step(v, input, nv, a),
        nv.phase is Reporting,
    ensures
        a matches Action::Report(Report::SyncFailed { .. }),
        nv.phase->resume is Listen <==> !(a->Report_0->SyncFailed_origin is Startup),
{
    if v.phase is Authenticating {
        lemma_auth_success_continues(v, input, nv, a);
    }
}

/// A triggered sync never ends the daemon through its re-authentication round:
/// every step of a round started by the pipeline (to download afterwards) goes
/// on with the round, downloads, or reports the failure with origin `Pipeline`
/// and then resumes listening; it never shuts down. A failed reply of node
/// `node` is reported as that node's authentication failure.
pub proof fn lemma_pipeline_reauth_failure_keeps_listening(v: DaemonView, input: Input, nv: DaemonView, a: Action)
    requires
        spec_wf(v),
        spec_step(v, input, nv, a),
        v.phase matches Phase::Authenticating { then: AfterAuth::Download(_), .. },
    ensures
        !(nv.phase is ShuttingDown),
        !(nv.phase is Finished),
        !(a is Exit),
        a is Report ==> (a matches Action::Report(Report::SyncFailed { origin: Origin::Pipeline, .. }))
            && nv.phase == (Phase::Reporting { resume: Resume::Listen }),
        input matches Input::AuthReply { reply: Err(e), .. } ==> a == Action::Report(
            Report::SyncFailed {
                origin: Origin::Pipeline,
                failure: DaemonError::Authentication(node_ref(v.phase->Authenticating_node as int), e),
            },
        ) && nv.phase == (Phase::Reporting { resume: Resume::Listen }),
{
    let node = v.phase->Authenticating_node;
    let then = v.phase->then;
    if let Input::AuthReply { now, reply: Ok((_, ApiResult::Success(p))) } = input {
        let w = with_node(v, node as int, spec_authenticated(node_client(v, node as int), p.session, now));
        lemma_auth_success_continues(v, input, nv, a);
        if node + 1 >= node_count(w) {
            let ep = url_join(w.primary.base_url, "teleporter/"@);
            if !spec_request_ready(w.primary, ep) {
                let e = choose|e: ApiError|
                    spec_sid_request(w.primary, ep, Err(e)) && #[trigger] spec_after_failure(
                        w,
                        Origin::Pipeline,
                        DaemonError::Download(e),
                        nv,
                        a,
                    );
            }
        }
    }
}

/// After a reported failure of a triggered sync, the acknowledgement brings the
/// daemon back to waiting for the next channel event.
pub proof fn lemma_reported_pipeline_failure_listens(v: DaemonView, nv: DaemonView, a: Action)
    requires
        spec_wf(v),
        v.phase == (Phase::Reporting { resume: Resume::Listen }),
        spec_step(v, Input::Reported, nv, a),
    ensures
        a is AwaitEvent,
        nv == with_phase(v, Phase::Listening),
{
}

/// Every debounce window waits exactly the configured `debounce_seconds`: any
/// step that opens or restarts a window asks for that many seconds, and a state
/// change while listening or in a window always does.
pub proof fn lemma_debounce_waits_configured_seconds(v: DaemonView, input: Input, nv: DaemonView, a: Action)
    requires
        spec_wf(v),
        spec_step(v, input, nv, a),
    ensures
        (a matches Action::AwaitDebounce { seconds } ==> seconds == v.config.daemon.debounce_seconds),
        ((v.phase is Listening || v.phase is Debouncing) && (input matches Input::Event(
            Some(DaemonEvent::StateChange(_)),
        )) ==> a == (Action::AwaitDebounce { seconds: v.config.daemon.debounce_seconds }) && nv.phase is Debouncing),
{
    if v.phase is Authenticating {
        lemma_auth_success_continues(v, input, nv, a);
    }
}

/// A triggered sync is skipped only when a last known token exists and equals
/// the token just read: the pipeline goes back to listening exactly then, and
/// with no last known token (nothing synchronized yet) it always goes on with
/// the sync (re-authenticating, downloading, or reporting why it cannot).
pub proof fn lemma_pipeline_skips_only_equal_known_token(
    v: DaemonView,
    config_mtime: i64,
    gravity_mtime: i64,
    now: u128,
    nv: DaemonView,
    a: Action,
)
    requires
        spec_wf(v),
        v.phase == (Phase::ReadingToken { origin: Origin::Pipeline }),
        spec_step(v, Input::StateToken { config_mtime, gravity_mtime, now }, nv, a),
    ensures
        a is AwaitEvent <==> v.last_known_timestamp == Some(
            vstd::wrapping::i64_specs::wrapping_add(config_mtime, gravity_mtime),
        ),
        v.last_known_timestamp is None ==> !(a is AwaitEvent) && !(nv.phase is Listening),
{
    let token = spec_state_token(config_mtime, gravity_mtime);
    if v.last_known_timestamp != Some(token) && !spec_any_expired(v, now) {
        let ep = url_join(v.primary.base_url, "teleporter/"@);
        if !spec_request_ready(v.primary, ep) {
            let e = choose|e: ApiError|
                spec_sid_request(v.primary, ep, Err(e)) && #[trigger] spec_after_failure(
                    v,
                    Origin::Pipeline,
                    DaemonError::Download(e),
                    nv,
                    a,
                );
        }
    }
}

/// A triggered sync with a new token re-authenticates every node first whenever
/// any node's session (the primary's or any replica's) counts as expired at the
/// time the token was read: it then asks the primary to authenticate (or
/// reports why it cannot) and never downloads at once; it downloads at once
/// only when every session is fresh.
pub proof fn lemma_any_expired_session_reauthenticates(
    v: DaemonView,
    config_mtime: i64,
    gravity_mtime: i64,
    now: u128,
    nv: DaemonView,
    a: Action,
)
    requires
        spec_wf(v),
        v.phase == (Phase::ReadingToken { origin: Origin::Pipeline }),
        v.last_known_timestamp != Some(spec_state_token(config_mtime, gravity_mtime)),
        spec_step(v, Input::StateToken { config_mtime, gravity_mtime, now }, nv, a),
    ensures
        (spec_expired(v.primary, now) || exists|i: int| 0 <= i < v.replicas.len() && spec_expired(
            #[trigger] v.replicas[i],
            now,
        )) ==> !(a is Download) && !(nv.phase is Downloading) && (a matches Action::Authenticate {
            node: NodeRef::Primary,
            ..
        } || a matches Action::Report(Report::SyncFailed { origin: Origin::Pipeline, .. })),
        nv.phase is Downloading ==> !spec_expired(v.primary, now) && forall|i: int|
            0 <= i < v.replicas.len() ==> !spec_expired(#[trigger] v.replicas[i], now),
{
    let token = spec_state_token(config_mtime, gravity_mtime);
    if !spec_any_expired(v, now) {
        let ep = url_join(v.primary.base_url, "teleporter/"@);
        if !spec_request_ready(v.primary, ep) {
            let e = choose|e: ApiError|
                spec_sid_request(v.primary, ep, Err(e)) && #[trigger] spec_after_failure(
                    v,
                    Origin::Pipeline,
                    DaemonError::Download(e),
                    nv,
                    a,
                );
        }
    }
}

/// Only a `once` run ends with an error: the daemon itself always exits normally.
pub proof fn lemma_only_once_runs_fail(v: DaemonView, input: Input, nv: DaemonView, a: Action)
    requires
        spec_wf(v),
        spec_step(v, input, nv, a),
        a matches Action::Exit(Err(_)),
    ensures
        v.mode is Once,
{
    if v.phase is Authenticating {
        lemma_auth_success_continues(v, input, nv, a);
    }
}

/// A run of steps: `views[k]` is the state before step `k`, `inputs[k]` the reply
/// it takes and `actions[k]` the action it returns; every state is consistent.
pub open spec fn spec_run(views: Seq<DaemonView>, inputs: Seq<Input>, actions: Seq<Action>) -> bool {
    &&& views.len() == inputs.len() + 1
    &&& actions.len() == inputs.len()
    &&& forall|k: int| #![trigger inputs[k]] 0 <= k < inputs.len() ==> spec_step(views[k], inputs[k], views[k + 1], actions[k])
    &&& forall|k: int| 0 <= k < views.len() ==> #[trigger] spec_wf(views[k])
}

/// Action `a` takes up replica `r` within a sync: the archive is uploaded to
/// it, or the failure to form that upload is reported.
pub open spec fn spec_takes_up(a: Action, r: int) -> bool {
    ||| a matches Action::Upload { replica, .. } && replica == r
    ||| a matches Action::Report(Report::UploadFailed { replica, .. }) && replica == r
}

/// Action `a` uploads the archive to replica `r`.
pub open spec fn spec_uploads_to(a: Action, r: int) -> bool {
    a matches Action::Upload { replica, .. } && replica == r
}

/// One step of a sync (from the download reply on): it stays with the current
/// replica without uploading, takes up the next replica, or leaves the sync
/// without uploading; a step out of the replica phase either keeps the last
/// known token (the sync failed) or comes after the last replica.
proof fn lemma_sync_step(v: DaemonView, input: Input, nv: DaemonView, a: Action)
    requires
        spec_wf(v),
        spec_step(v, input, nv, a),
        v.phase is Replicating || v.phase is Downloading,
    ensures
        ({
            let cur = if v.phase is Replicating { v.phase->Replicating_replica as int } else { -1 };
            &&& nv.phase is Replicating ==> nv.last_known_timestamp == v.last_known_timestamp && ({
                ||| nv.phase->Replicating_replica == cur && !(a is Upload)
                ||| nv.phase->Replicating_replica == cur + 1 && spec_takes_up(a, cur + 1)
            })
            &&& !(nv.phase is Replicating) ==> !(a is Upload) && (nv.last_known_timestamp == v.last_known_timestamp
                || cur + 1 >= v.replicas.len())
        }),
{
    lemma_keeps_last_known(v, nv, a);
}

/// A sync takes up every replica, one after the other in index order, and
/// uploads to each at most once: over a run from the download to the
/// completion of a sync that changes the last known token, replica `r` is
/// taken up at step `steps[r]`, the steps increase with `r`, and no other step
/// uploads to replica `r`.
pub proof fn lemma_sync_takes_up_every_replica(
    views: Seq<DaemonView>,
    inputs: Seq<Input>,
    actions: Seq<Action>,
) -> (steps: Seq<int>)
    requires
        spec_run(views, inputs, actions),
        inputs.len() >= 1,
        views[0].phase is Downloading,
        forall|k: int| 0 < k < inputs.len() ==> (#[trigger] views[k]).phase is Replicating,
        views[inputs.len() as int].last_known_timestamp != views[0].last_known_timestamp,
    ensures
        steps.len() == views[0].replicas.len(),
        forall|r: int| 0 <= r < steps.len() ==> 0 <= #[trigger] steps[r] < inputs.len()
            && spec_takes_up(actions[steps[r]], r),
        forall|r1: int, r2: int| 0 <= r1 < r2 < steps.len() ==> #[trigger] steps[r1] < #[trigger] steps[r2],
        forall|k: int, r: int| 0 <= k < inputs.len() && #[trigger] spec_uploads_to(actions[k], r) ==> 0 <= r
            < steps.len() && k == steps[r],
{
    let n = inputs.len() as int;
    assert(spec_wf(views[0]));
    assert(spec_step(views[0], inputs[0], views[1], actions[0]));
    lemma_sync_step(views[0], inputs[0], views[1], actions[0]);
    if n == 1 {
        assert(views[0].replicas.len() == 0);
        let steps: Seq<int> = Seq::empty();
        assert forall|k: int, r: int| 0 <= k < inputs.len() && #[trigger] spec_uploads_to(actions[k], r) implies 0
            <= r < steps.len() && k == steps[r] by {
            assert(k == 0);
        }
        steps
    } else {
        let steps = lemma_sync_prefix(views, inputs, actions, n - 1);
        let last = n - 1;
        assert(views[last].phase is Replicating);
        assert(spec_wf(views[last]));
        assert(spec_step(views[last], inputs[last], views[n], actions[last]));
        lemma_sync_step(views[last], inputs[last], views[n], actions[last]);
        assert forall|k: int, r: int| 0 <= k < inputs.len() && #[trigger] spec_uploads_to(actions[k], r) implies 0
            <= r < steps.len() && k == steps[r] by {
            if k == last {
                assert(!(actions[last] is Upload));
            }
        }
        steps
    }
}

/// The part of a sync up to step `k` (a step in the replica phase): the
/// replicas up to the current one were taken up at increasing steps before
/// `k`, the uploads before `k` went to those replicas at those steps only, and
/// the last known token is still that of the start.
proof fn lemma_sync_prefix(views: Seq<DaemonView>, inputs: Seq<Input>, actions: Seq<Action>, k: int) -> (steps: Seq<int>)
    requires
        spec_run(views, inputs, actions),
        1 <= k < inputs.len(),
        views[0].phase is Downloading,
        forall|j: int| 0 < j < inputs.len() ==> (#[trigger] views[j]).phase is Replicating,
    ensures
        steps.len() == views[k].phase->Replicating_replica + 1,
        views[k].last_known_timestamp == views[0].last_known_timestamp,
        views[k].replicas.len() == views[0].replicas.len(),
        forall|r: int| 0 <= r < steps.len() ==> 0 <= #[trigger] steps[r] < k && spec_takes_up(actions[steps[r]], r),
        forall|r1: int, r2: int| 0 <= r1 < r2 < steps.len() ==> #[trigger] steps[r1] < #[trigger] steps[r2],
        forall|j: int, r: int| 0 <= j < k && #[trigger] spec_uploads_to(actions[j], r) ==> 0 <= r < steps.len()
            && j == steps[r],
    decreases k,
{
    let p = k - 1;
    assert(spec_wf(views[p]));
    assert(spec_step(views[p], inputs[p], views[k], actions[p]));
    assert(views[k].phase is Replicating);
    lemma_sync_step(views[p], inputs[p], views[k], actions[p]);
    lemma_step_keeps_configuration(views[p], inputs[p], views[k], actions[p]);
    if k == 1 {
        let steps = seq![0int];
        assert forall|j: int, r: int| 0 <= j < k && #[trigger] spec_uploads_to(actions[j], r) implies 0 <= r
            < steps.len() && j == steps[r] by {
            assert(j == 0);
        }
        steps
    } else {
        assert(views[p].phase is Replicating);
        let prev = lemma_sync_prefix(views, inputs, actions, p);
        if views[k].phase->Replicating_replica == views[p].phase->Replicating_replica {
            assert forall|j: int, r: int| 0 <= j < k && #[trigger] spec_uploads_to(actions[j], r) implies 0 <= r
                < prev.len() && j == prev[r] by {
                if j == p {
                    assert(!(actions[p] is Upload));
                }
            }
            prev
        } else {
            let steps = prev.push(p);
            assert forall|r: int| 0 <= r < steps.len() implies 0 <= #[trigger] steps[r] < k && spec_takes_up(
                actions[steps[r]],
                r,
            ) by {
                if r < prev.len() {
                    assert(steps[r] == prev[r]);
                }
            }
            assert forall|r1: int, r2: int| 0 <= r1 < r2 < steps.len() implies #[trigger] steps[r1]
                < #[trigger] steps[r2] by {
                if r2 < prev.len() {
                    assert(steps[r1] == prev[r1] && steps[r2] == prev[r2]);
                } else {
                    assert(steps[r1] == prev[r1]);
                }
            }
            assert forall|j: int, r: int| 0 <= j < k && #[trigger] spec_uploads_to(actions[j], r) implies 0 <= r
                < steps.len() && j == steps[r] by {
                if j < p {
                    assert(steps[r] == prev[r]);
                }
            }
            steps
        }
    }
}

/// A client freshly created for `node`: its API base derives from the node URL,
/// it carries the node's label, and it has no session.
pub open spec fn spec_fresh_client(c: ClientView, node: crate::config::NodeSettings) -> bool {
    &&& spec_api_base(node.url@) == Ok::<Seq<char>, url::ParseError>(c.base_url)
    &&& c.label == opt_view(node.label)
    &&& c.session is None
    &&& c.expires_at is None
}

/// The modification time that a watched file contributes to the state token.
pub fn file_mtime_seconds(since_epoch_secs: Option<u64>) -> (r: i64)
    ensures
        r == spec_mtime_seconds(since_epoch_secs),
{
    match since_epoch_secs {
        Some(secs) => secs as i64,
        None => 0,
    }
}

/// Aggregates the modification times of `pihole.toml` and `gravity.db` into the state token.
pub fn calculate_global_state_token(config_mtime: i64, gravity_mtime: i64) -> (r: i64)
    ensures
        r == spec_state_token(config_mtime, gravity_mtime),
{
    config_mtime.wrapping_add(gravity_mtime)
}

/// The name of node `k`, as an executable value.
pub fn node_ref_of(k: usize) -> (r: NodeRef)
    ensures
        r == node_ref(k as int),
{
    if k == 0 {
        NodeRef::Primary
    } else {
        NodeRef::Replica(k - 1)
    }
}

/// Every node URL of the configuration stays within the sizes that the `url`
/// crate handles when its API base is derived.
pub open spec fn spec_config_fits(config: AppConfig) -> bool {
    &&& spec_base_fits(config.primary.url@)
    &&& forall|i: int| 0 <= i < config.replicas@.len() ==> spec_base_fits(#[trigger] config.replicas@[i].url@)
}

/// What creating a daemon for `config` gives: a daemon with one fresh client
/// per node and nothing synchronized yet, or the error of the first node (the
/// primary, then the replicas in order) whose URL yields no API base.
pub open spec fn spec_new_daemon(config: AppConfig, r: Result<Daemon, DaemonError>) -> bool {
    match r {
        Ok(d) => {
            &&& spec_wf(d@)
            &&& d@.config == config
            &&& d@.last_known_timestamp is None
            &&& d@.phase is Idle
            &&& spec_fresh_client(d@.primary, config.primary)
            &&& forall|i: int| 0 <= i < d@.replicas.len()
                ==> spec_fresh_client(#[trigger] d@.replicas[i], config.replicas@[i])
        },
        Err(err) => match spec_api_base(config.primary.url@) {
            Err(pe) => err == DaemonError::PrimaryClient(ApiError::UrlParseError(pe)),
            Ok(_) => err matches DaemonError::ReplicaClient(i, e) && i < config.replicas@.len()
                && (forall|j: int| 0 <= j < i ==> #[trigger] spec_api_base(config.replicas@[j].url@) is Ok)
                && (spec_api_base(config.replicas@[i as int].url@) matches Err(pe)
                    && e == ApiError::UrlParseError(pe)),
        },
    }
}

impl Daemon {
    /// Creates a daemon with one client per node and nothing synchronized yet.
    /// Fails on the first node (the primary, then the replicas in order) whose
    /// URL does not yield an API base.
    pub fn new(config: AppConfig) -> (r: Result<Daemon, DaemonError>)
        requires
            spec_config_fits(config),
        ensures
            spec_new_daemon(config, r),
    {
        let primary_client = match ApiClient::<Primary>::new(
            config.primary.url.as_str(),
            clone_opt_string(&config.primary.label),
        ) {
            Ok(c) => c,
            Err(e) => return Err(DaemonError::PrimaryClient(e)),
        };
        let mut replica_clients: Vec<ApiClient<Replica>> = Vec::new();
        let n = config.replicas.len();
        let mut i: usize = 0;
        while i < n
            invariant
                n == config.replicas@.len(),
                i <= n,
                spec_config_fits(config),
                spec_fresh_client(primary_client@, config.primary),
                replica_clients@.len() == i,
                forall|j: int| 0 <= j < i ==> spec_fresh_client(
                    #[trigger] replica_clients@[j]@,
                    config.replicas@[j],
                ),
            decreases n - i,
        {
            let node = &config.replicas[i];
            assert(spec_base_fits(config.replicas@[i as int].url@));
            match ApiClient::<Replica>::new(node.url.as_str(), clone_opt_string(&node.label)) {
                Ok(c) => replica_clients.push(c),
                Err(e) => {
                    assert forall|j: int| 0 <= j < i implies #[trigger] spec_api_base(config.replicas@[j].url@) is Ok by {
                        assert(spec_fresh_client(replica_clients@[j]@, config.replicas@[j]));
                    }
                    return Err(DaemonError::ReplicaClient(i, e));
                },
            }
            i = i + 1;
        }
        let d = Daemon {
            config,
            last_known_timestamp: None,
            primary_client,
            replica_clients,
            mode: RunMode::Once,
            phase: Phase::Idle,
        };
        assert forall|i: int| 0 <= i < d@.replicas.len() implies spec_fresh_client(
            #[trigger] d@.replicas[i],
            d.config.replicas@[i],
        ) by {
            assert(d@.replicas[i] == d.replica_clients@[i]@);
        }
        Ok(d)
    }

    /// Creates a daemon as `new` does, where every node URL stays within the
    /// sizes that the `url` crate handles; `None` where one does not.
    pub fn try_new(config: AppConfig) -> (r: Option<Result<Daemon, DaemonError>>)
        ensures
            match r {
                None => !spec_config_fits(config),
                Some(created) => spec_config_fits(config) && spec_new_daemon(config, created),
            },
    {
        if !api_base_fits(config.primary.url.as_str()) {
            return None;
        }
        let n = config.replicas.len();
        let mut i: usize = 0;
        while i < n
            invariant
                n == config.replicas@.len(),
                i <= n,
                spec_base_fits(config.primary.url@),
                forall|j: int| 0 <= j < i ==> spec_base_fits(#[trigger] config.replicas@[j].url@),
            decreases n - i,
        {
            if !api_base_fits(config.replicas[i].url.as_str()) {
                return None;
            }
            i = i + 1;
        }
        Some(Self::new(config))
    }

    /// The name of node `node` in diagnostics.
    pub fn node_identifier(&self, node: NodeRef) -> (r: String)
        requires
            node matches NodeRef::Replica(i) ==> i < self@.replicas.len(),
        ensures
            r@ == crate::api::client::spec_identifier(match node {
                NodeRef::Primary => self@.primary,
                NodeRef::Replica(i) => self@.replicas[i as int],
            }),
    {
        match node {
            NodeRef::Primary => self.primary_client.identifier(),
            NodeRef::Replica(i) => self.replica_clients[i].identifier(),
        }
    }

    /// The daemon's configuration.
    pub fn config(&self) -> (r: &AppConfig)
        ensures
            *r == self@.config,
    {
        &self.config
    }

    /// The state token of the last completed synchronization (or of the daemon's start).
    pub fn last_known_timestamp(&self) -> (r: Option<i64>)
        ensures
            r == self@.last_known_timestamp,
    {
        self.last_known_timestamp
    }

    /// Whether `input` is the reply that the current phase awaits.
    pub fn accepts(&self, input: &Input) -> (r: bool)
        ensures
            r == spec_awaits(self@, *input),
    {
        match &self.phase {
            Phase::Authenticating { .. } => matches!(input, Input::AuthReply { .. }),
            Phase::ReadingToken { .. } => matches!(input, Input::StateToken { .. }),
            Phase::Downloading { .. } => matches!(input, Input::DownloadReply(_)),
            Phase::Replicating { stage, .. } => match stage {
                Stage::Uploading => matches!(input, Input::UploadReply(_)),
                Stage::Triggering => matches!(input, Input::GravityStatus(_)),
                Stage::Streaming => matches!(input, Input::GravityStream(_)),
                Stage::Reporting => matches!(input, Input::Reported),
            },
            Phase::Listening => matches!(input, Input::Event(_)),
            Phase::Debouncing => matches!(input, Input::Event(_)) || matches!(input, Input::DebounceElapsed),
            Phase::Reporting { .. } => matches!(input, Input::Reported),
            Phase::ShuttingDown { reporting, .. } => if *reporting {
                matches!(input, Input::Reported)
            } else {
                matches!(input, Input::SessionClosed)
            },
            _ => false,
        }
    }

    /// Sets the phase.
    fn set_phase(&mut self, p: Phase)
        ensures
            final(self)@ == with_phase(old(self)@, p),
    {
        self.phase = p;
    }

    /// Takes the phase out, leaving `Finished` in its place.
    fn take_phase(&mut self) -> (p: Phase)
        ensures
            p == old(self)@.phase,
            final(self)@ == with_phase(old(self)@, Phase::Finished),
    {
        let mut p = Phase::Finished;
        core::mem::swap(&mut p, &mut self.phase);
        p
    }

    /// Moves the current replica of a sync to stage `s`.
    fn set_stage(&mut self, s: Stage)
        requires
            old(self)@.phase is Replicating,
        ensures
            final(self)@ == with_phase(
                old(self)@,
                replicating(
                    old(self)@.phase->Replicating_token,
                    old(self)@.phase->Replicating_origin,
                    old(self)@.phase->Replicating_replica as int,
                    s,
                    old(self)@.phase->archive,
                ),
            ),
    {
        match &mut self.phase {
            Phase::Replicating { stage, .. } => {
                *stage = s;
            },
            _ => {},
        }
    }

    /// Goes back to waiting for channel events.
    fn listen(&mut self) -> (a: Action)
        ensures
            spec_listen(old(self)@, final(self)@, a),
    {
        self.set_phase(Phase::Listening);
        Action::AwaitEvent
    }

    /// Ends the session of node `k` (past the last node, exits with `outcome`).
    fn enter_shutdown(&mut self, k: usize, outcome: Result<(), DaemonError>) -> (a: Action)
        requires
            spec_wf(old(self)@),
            k <= node_count(old(self)@),
            outcome is Err ==> old(self)@.mode is Once,
        ensures
            spec_wf(final(self)@),
            spec_enter_shutdown(old(self)@, k as int, outcome, final(self)@, a),
    {
        let ghost v = self@;
        if k > self.replica_clients.len() {
            self.set_phase(Phase::Finished);
            return Action::Exit(outcome);
        }
        let req = if k == 0 {
            self.primary_client.invalidate_session_request()
        } else {
            self.replica_clients[k - 1].invalidate_session_request()
        };
        assert(node_client(v, k as int) == if k == 0 {
            self.primary_client@
        } else {
            self.replica_clients@[k - 1]@
        });
        match req {
            Ok(request) => {
                self.set_phase(Phase::ShuttingDown { node: k, outcome, reporting: false });
                Action::InvalidateSession { node: node_ref_of(k), request }
            },
            Err(error) => {
                self.set_phase(Phase::ShuttingDown { node: k, outcome, reporting: true });
                Action::Report(Report::InvalidateFailed { node: node_ref_of(k), error })
            },
        }
    }

    /// In the shutdown, goes on with the node after the current one.
    fn advance_shutdown(&mut self) -> (a: Action)
        requires
            spec_wf(old(self)@),
            old(self)@.phase is ShuttingDown,
        ensures
            spec_wf(final(self)@),
            spec_enter_shutdown(
                old(self)@,
                old(self)@.phase->ShuttingDown_node + 1,
                old(self)@.phase->outcome,
                final(self)@,
                a,
            ),
    {
        let ghost v = self@;
        match self.take_phase() {
            Phase::ShuttingDown { node, outcome, .. } => {
                assert(with_phase(self@, Phase::Finished) == with_phase(v, Phase::Finished));
                if node >= self.replica_clients.len() {
                    return Action::Exit(outcome);
                }
                self.enter_shutdown(node + 1, outcome)
            },
            _ => Action::Exit(Ok(())),
        }
    }

    /// Routes the failure of procedure `origin`.
    fn after_failure(&mut self, origin: Origin, err: DaemonError) -> (a: Action)
        requires
            spec_wf(old(self)@),
        ensures
            spec_wf(final(self)@),
            spec_after_failure(old(self)@, origin, err, final(self)@, a),
    {
        match (origin, self.mode) {
            (Origin::RunOnce, RunMode::Once) => self.enter_shutdown(0, Err(err)),
            (Origin::Startup, _) => {
                self.set_phase(Phase::Reporting { resume: Resume::Shutdown });
                Action::Report(Report::SyncFailed { origin, failure: err })
            },
            _ => {
                self.set_phase(Phase::Reporting { resume: Resume::Listen });
                Action::Report(Report::SyncFailed { origin, failure: err })
            },
        }
    }

    /// Starts downloading the archive for the sync that read `token`.
    fn enter_download(&mut self, token: i64, origin: Origin) -> (a: Action)
        requires
            spec_wf(old(self)@),
        ensures
            spec_wf(final(self)@),
            spec_enter_download(old(self)@, token, origin, final(self)@, a),
    {
        match self.primary_client.download_request() {
            Ok(req) => {
                self.set_phase(Phase::Downloading { token, origin });
                Action::Download(req)
            },
            Err(e) => self.after_failure(origin, DaemonError::Download(e)),
        }
    }

    /// Continues once every node is authenticated.
    fn after_auth(&mut self, then: AfterAuth) -> (a: Action)
        requires
            spec_wf(old(self)@),
        ensures
            spec_wf(final(self)@),
            spec_after_auth(old(self)@, then, final(self)@, a),
    {
        match then {
            AfterAuth::ReadToken(o) => {
                self.set_phase(Phase::ReadingToken { origin: o });
                Action::ReadStateToken
            },
            AfterAuth::Download(token) => self.enter_download(token, Origin::Pipeline),
        }
    }

    /// Authenticates nodes `k..` in order.
    fn enter_auth(&mut self, k: usize, then: AfterAuth) -> (a: Action)
        requires
            spec_wf(old(self)@),
            k <= node_count(old(self)@),
            !(then matches AfterAuth::ReadToken(Origin::Pipeline)),
        ensures
            spec_wf(final(self)@),
            spec_enter_auth(old(self)@, k as int, then, final(self)@, a),
    {
        if k > self.replica_clients.len() {
            return self.after_auth(then);
        }
        let r = if k == 0 {
            self.primary_client.auth_request(self.config.primary.password.as_str())
        } else {
            self.replica_clients[k - 1].auth_request(self.config.replicas[k - 1].password.as_str())
        };
        match r {
            Ok(auth) => {
                self.set_phase(Phase::Authenticating { node: k, then });
                Action::Authenticate { node: node_ref_of(k), auth }
            },
            Err(e) => {
                let origin = match then {
                    AfterAuth::ReadToken(o) => o,
                    AfterAuth::Download(_) => Origin::Pipeline,
                };
                self.after_failure(origin, DaemonError::Authentication(node_ref_of(k), e))
            },
        }
    }

    /// Ends a sync that read `token`.
    fn complete(&mut self, token: i64, origin: Origin) -> (a: Action)
        requires
            spec_wf(old(self)@),
        ensures
            spec_wf(final(self)@),
            spec_complete(old(self)@, token, origin, final(self)@, a),
    {
        self.last_known_timestamp = Some(token);
        match (origin, self.mode) {
            (Origin::RunOnce, RunMode::Once) => self.enter_shutdown(0, Ok(())),
            _ => self.listen(),
        }
    }

    /// Handles replica `i` of the sync that read `token` (past the last one, completes it).
    fn enter_replicas(&mut self, token: i64, origin: Origin, i: usize, archive: Vec<u8>) -> (a: Action)
        requires
            spec_wf(old(self)@),
            i <= old(self)@.replicas.len(),
        ensures
            spec_wf(final(self)@),
            spec_enter_replicas(old(self)@, token, origin, i as int, archive, final(self)@, a),
    {
        if i >= self.replica_clients.len() {
            return self.complete(token, origin);
        }
        let options = self.config.get_teleporter_import_options();
        assert(self@.replicas[i as int] == self.replica_clients@[i as int]@);
        match self.replica_clients[i].upload_request(options) {
            Ok(upload) => {
                let sent = archive.clone();
                assert(sent@ =~= archive@);
                self.set_phase(Phase::Replicating { token, origin, replica: i, stage: Stage::Uploading, archive });
                Action::Upload { replica: i, upload, archive: sent }
            },
            Err(error) => {
                self.set_phase(Phase::Replicating { token, origin, replica: i, stage: Stage::Reporting, archive });
                Action::Report(Report::UploadFailed { replica: i, error })
            },
        }
    }

    /// In a sync, goes on with the replica after the current one.
    fn advance_replicas(&mut self) -> (a: Action)
        requires
            spec_wf(old(self)@),
            old(self)@.phase is Replicating,
        ensures
            spec_wf(final(self)@),
            spec_enter_replicas(
                old(self)@,
                old(self)@.phase->Replicating_token,
                old(self)@.phase->Replicating_origin,
                old(self)@.phase->Replicating_replica + 1,
                old(self)@.phase->archive,
                final(self)@,
                a,
            ),
    {
        let ghost v = self@;
        match self.take_phase() {
            Phase::Replicating { token, origin, replica, archive, .. } => {
                assert(with_phase(self@, Phase::Finished) == with_phase(v, Phase::Finished));
                let n = self.replica_clients.len();
                assert(replica < n);
                self.enter_replicas(token, origin, replica + 1, archive)
            },
            _ => Action::Exit(Ok(())),
        }
    }

    /// Whether some node's session counts as expired at `now`.
    fn any_session_expired(&self, now: u128) -> (r: bool)
        ensures
            r == spec_any_expired(self@, now),
    {
        if self.primary_client.is_session_expired(now) {
            return true;
        }
        let n = self.replica_clients.len();
        let mut i: usize = 0;
        while i < n
            invariant
                n == self@.replicas.len(),
                i <= n,
                !spec_expired(self@.primary, now),
                forall|j: int| 0 <= j < i ==> !spec_expired(#[trigger] self@.replicas[j], now),
            decreases n - i,
        {
            assert(self@.replicas[i as int] == self.replica_clients@[i as int]@);
            if self.replica_clients[i].is_session_expired(now) {
                return true;
            }
            i = i + 1;
        }
        false
    }

    /// Takes in the authentication reply of node `node`.
    fn on_auth_reply(
        &mut self,
        node: usize,
        then: AfterAuth,
        now: u128,
        reply: Result<(u16, ApiResult<ApiSessionPayload>), ApiError>,
    ) -> (a: Action)
        requires
            spec_wf(old(self)@),
            node < node_count(old(self)@),
            !(then matches AfterAuth::ReadToken(Origin::Pipeline)),
            reply matches Ok((_, ApiResult::Success(p))) ==> now + crate::api::client::session_lifetime(
                p.session.validity,
            ) <= u128::MAX,
        ensures
            spec_wf(final(self)@),
            spec_on_auth_reply(old(self)@, node, then, now, reply, final(self)@, a),
    {
        let ghost v = self@;
        let origin = match then {
            AfterAuth::ReadToken(o) => o,
            AfterAuth::Download(_) => Origin::Pipeline,
        };
        match reply {
            Err(e) => self.after_failure(origin, DaemonError::Authentication(node_ref_of(node), e)),
            Ok((status, doc)) => {
                let ghost d = doc;
                let r = if node == 0 {
                    self.primary_client.complete_authentication(status, doc, now)
                } else {
                    self.replica_clients[node - 1].complete_authentication(status, doc, now)
                };
                match r {
                    Ok(()) => {
                        proof {
                            if let ApiResult::Success(p) = d {
                                let c = spec_authenticated(node_client(v, node as int), p.session, now);
                                assert(self@ =~= with_node(v, node as int, c)) by {
                                    if node > 0 {
                                        assert(self@.replicas =~= v.replicas.update(node - 1, c));
                                    }
                                }
                            }
                        }
                        if node < self.replica_clients.len() {
                            self.enter_auth(node + 1, then)
                        } else {
                            self.after_auth(then)
                        }
                    },
                    Err(e) => {
                        proof {
                            if node > 0 {
                                assert(self@.replicas =~= v.replicas);
                            }
                            assert(self@ =~= v);
                        }
                        self.after_failure(origin, DaemonError::Authentication(node_ref_of(node), e))
                    },
                }
            },
        }
    }

    /// Takes in the state token read at `now`.
    fn on_token(&mut self, origin: Origin, config_mtime: i64, gravity_mtime: i64, now: u128) -> (a: Action)
        requires
            spec_wf(old(self)@),
        ensures
            spec_wf(final(self)@),
            spec_on_token(old(self)@, origin, config_mtime, gravity_mtime, now, final(self)@, a),
    {
        let token = calculate_global_state_token(config_mtime, gravity_mtime);
        match origin {
            Origin::RunOnce => self.enter_download(token, origin),
            Origin::Startup => {
                self.last_known_timestamp = Some(token);
                self.listen()
            },
            Origin::Pipeline => {
                let unchanged = match self.last_known_timestamp {
                    Some(t) => t == token,
                    None => false,
                };
                if unchanged {
                    self.listen()
                } else if self.any_session_expired(now) {
                    self.enter_auth(0, AfterAuth::Download(token))
                } else {
                    self.enter_download(token, origin)
                }
            },
        }
    }

    /// Takes in the download reply.
    fn on_download(&mut self, token: i64, origin: Origin, r: Result<HttpReply, ApiError>) -> (a: Action)
        requires
            spec_wf(old(self)@),
        ensures
            spec_wf(final(self)@),
            spec_on_download(old(self)@, token, origin, r, final(self)@, a),
    {
        match r {
            Err(e) => self.after_failure(origin, DaemonError::Download(e)),
            Ok(rep) => match ApiClient::<Primary>::download_outcome(rep.status, rep.body, rep.document) {
                Ok(archive) => self.enter_replicas(token, origin, 0, archive),
                Err(e) => self.after_failure(origin, DaemonError::Download(e)),
            },
        }
    }

    /// Takes in the upload reply of the current replica.
    fn on_upload(&mut self, r: Result<HttpReply, ApiError>) -> (a: Action)
        requires
            spec_wf(old(self)@),
            old(self)@.phase is Replicating,
        ensures
            spec_wf(final(self)@),
            spec_on_upload(
                old(self)@,
                old(self)@.phase->Replicating_token,
                old(self)@.phase->Replicating_origin,
                old(self)@.phase->Replicating_replica,
                old(self)@.phase->archive,
                r,
                final(self)@,
                a,
            ),
    {
        let replica = match &self.phase {
            Phase::Replicating { replica, .. } => *replica,
            _ => 0,
        };
        let outcome = match r {
            Ok(rep) => ApiClient::<Replica>::upload_outcome(rep.status, rep.document),
            Err(e) => Err(e),
        };
        match outcome {
            Err(error) => {
                self.set_stage(Stage::Reporting);
                Action::Report(Report::UploadFailed { replica, error })
            },
            Ok(()) => {
                if !self.config.sync.run_gravity {
                    return self.advance_replicas();
                }
                assert(self@.replicas[replica as int] == self.replica_clients@[replica as int]@);
                match self.replica_clients[replica].gravity_request() {
                    Ok(request) => {
                        self.set_stage(Stage::Triggering);
                        Action::TriggerGravity { replica, request }
                    },
                    Err(error) => {
                        self.set_stage(Stage::Reporting);
                        Action::Report(Report::GravityFailed { replica, error })
                    },
                }
            },
        }
    }

    /// Takes in the status of the current replica's gravity rebuild.
    fn on_gravity_status(&mut self, r: Result<u16, ApiError>) -> (a: Action)
        requires
            spec_wf(old(self)@),
            old(self)@.phase is Replicating,
        ensures
            spec_wf(final(self)@),
            spec_on_gravity_status(
                old(self)@,
                old(self)@.phase->Replicating_token,
                old(self)@.phase->Replicating_origin,
                old(self)@.phase->Replicating_replica,
                old(self)@.phase->archive,
                r,
                final(self)@,
                a,
            ),
    {
        let replica = match &self.phase {
            Phase::Replicating { replica, .. } => *replica,
            _ => 0,
        };
        let outcome = match r {
            Ok(status) => ApiClient::<Replica>::gravity_status_outcome(status),
            Err(e) => Err(e),
        };
        match outcome {
            Ok(()) => {
                self.set_stage(Stage::Streaming);
                Action::DrainGravity { replica }
            },
            Err(error) => {
                self.set_stage(Stage::Reporting);
                Action::Report(Report::GravityFailed { replica, error })
            },
        }
    }

    /// Takes in the end of the current replica's gravity output stream.
    fn on_gravity_stream(&mut self, r: Result<(), String>) -> (a: Action)
        requires
            spec_wf(old(self)@),
            old(self)@.phase is Replicating,
        ensures
            spec_wf(final(self)@),
            spec_on_gravity_stream(
                old(self)@,
                old(self)@.phase->Replicating_token,
                old(self)@.phase->Replicating_origin,
                old(self)@.phase->Replicating_replica,
                old(self)@.phase->archive,
                r,
                final(self)@,
                a,
            ),
    {
        let replica = match &self.phase {
            Phase::Replicating { replica, .. } => *replica,
            _ => 0,
        };
        match ApiClient::<Replica>::gravity_stream_outcome(r) {
            Ok(()) => self.advance_replicas(),
            Err(error) => {
                self.set_stage(Stage::Reporting);
                Action::Report(Report::GravityFailed { replica, error })
            },
        }
    }

    /// Takes in a channel event.
    fn on_event(&mut self, e: Option<DaemonEvent>) -> (a: Action)
        requires
            spec_wf(old(self)@),
            old(self)@.phase is Listening || old(self)@.phase is Debouncing,
        ensures
            spec_wf(final(self)@),
            old(self)@.phase is Listening ==> spec_on_listening_event(old(self)@, e, final(self)@, a),
            old(self)@.phase is Debouncing ==> spec_on_debouncing_event(old(self)@, e, final(self)@, a),
    {
        let listening = matches!(self.phase, Phase::Listening);
        match e {
            Some(DaemonEvent::StateChange(_)) => {
                self.set_phase(Phase::Debouncing);
                Action::AwaitDebounce { seconds: self.config.daemon.debounce_seconds }
            },
            Some(DaemonEvent::WatcherError(_)) => if listening {
                self.enter_shutdown(0, Ok(()))
            } else {
                self.listen()
            },
            None => if listening {
                self.enter_shutdown(0, Ok(()))
            } else {
                self.read_pipeline_token()
            },
        }
    }

    /// Reads the state token for a triggered sync.
    fn read_pipeline_token(&mut self) -> (a: Action)
        ensures
            spec_read_pipeline_token(old(self)@, final(self)@, a),
    {
        self.set_phase(Phase::ReadingToken { origin: Origin::Pipeline });
        Action::ReadStateToken
    }

    /// Takes in the acknowledgement of a reported failure.
    fn on_reported(&mut self) -> (a: Action)
        requires
            spec_wf(old(self)@),
            old(self)@.phase is Replicating || old(self)@.phase is Reporting || old(self)@.phase is ShuttingDown,
        ensures
            spec_wf(final(self)@),
            match old(self)@.phase {
                Phase::Replicating { token, origin, replica, archive, .. } => spec_enter_replicas(
                    old(self)@,
                    token,
                    origin,
                    replica + 1,
                    archive,
                    final(self)@,
                    a,
                ),
                Phase::Reporting { resume } => match resume {
                    Resume::Listen => spec_listen(old(self)@, final(self)@, a),
                    Resume::Shutdown => spec_enter_shutdown(old(self)@, 0, Ok(()), final(self)@, a),
                },
                Phase::ShuttingDown { node, outcome, .. } => spec_enter_shutdown(
                    old(self)@,
                    node + 1,
                    outcome,
                    final(self)@,
                    a,
                ),
                _ => false,
            },
    {
        let kind: u8 = match &self.phase {
            Phase::Replicating { .. } => 0,
            Phase::Reporting { resume: Resume::Listen } => 1,
            Phase::Reporting { resume: Resume::Shutdown } => 2,
            _ => 3,
        };
        if kind == 0 {
            self.advance_replicas()
        } else if kind == 1 {
            self.listen()
        } else if kind == 2 {
            self.enter_shutdown(0, Ok(()))
        } else {
            self.advance_shutdown()
        }
    }

    /// Takes in the outcome of the last action and returns the next action.
    pub fn step(&mut self, input: Input) -> (a: Action)
        requires
            spec_wf(old(self)@),
            spec_awaits(old(self)@, input),
            input matches Input::AuthReply { now, reply: Ok((_, ApiResult::Success(p))) }
                ==> now + crate::api::client::session_lifetime(p.session.validity) <= u128::MAX,
        ensures
            spec_wf(final(self)@),
            spec_step(old(self)@, input, final(self)@, a),
    {
        match input {
            Input::AuthReply { now, reply } => {
                let (node, then) = match &self.phase {
                    Phase::Authenticating { node, then } => (*node, *then),
                    _ => (0, AfterAuth::Download(0)),
                };
                self.on_auth_reply(node, then, now, reply)
            },
            Input::StateToken { config_mtime, gravity_mtime, now } => {
                let origin = match &self.phase {
                    Phase::ReadingToken { origin } => *origin,
                    _ => Origin::Pipeline,
                };
                self.on_token(origin, config_mtime, gravity_mtime, now)
            },
            Input::DownloadReply(r) => {
                let (token, origin) = match &self.phase {
                    Phase::Downloading { token, origin } => (*token, *origin),
                    _ => (0, Origin::Pipeline),
                };
                self.on_download(token, origin, r)
            },
            Input::UploadReply(r) => self.on_upload(r),
            Input::GravityStatus(r) => self.on_gravity_status(r),
            Input::GravityStream(r) => self.on_gravity_stream(r),
            Input::Event(e) => self.on_event(e),
            Input::DebounceElapsed => self.read_pipeline_token(),
            Input::SessionClosed => self.advance_shutdown(),
            Input::Reported => self.on_reported(),
        }
    }

    /// Runs one synchronization ignoring the state token, then ends the sessions
    /// and exits (`once` mode): authenticate every node, read the token, download,
    /// upload to every replica.
    pub fn run_once(&mut self) -> (a: Action)
        requires
            spec_wf(old(self)@),
            old(self)@.phase is Idle,
        ensures
            spec_wf(final(self)@),
            spec_enter_auth(
                DaemonView { mode: RunMode::Once, ..old(self)@ },
                0,
                AfterAuth::ReadToken(Origin::RunOnce),
                final(self)@,
                a,
            ),
    {
        self.mode = RunMode::Once;
        self.enter_auth(0, AfterAuth::ReadToken(Origin::RunOnce))
    }

    /// Starts the event loop (`daemon` mode). With `force_sync`, one
    /// synchronization ignoring the state token runs first; otherwise the nodes are
    /// authenticated and the current state token recorded.
    pub fn run(&mut self, force_sync: bool) -> (a: Action)
        requires
            spec_wf(old(self)@),
            old(self)@.phase is Idle,
        ensures
            spec_wf(final(self)@),
            spec_enter_auth(
                DaemonView { mode: RunMode::Daemon, ..old(self)@ },
                0,
                AfterAuth::ReadToken(if force_sync { Origin::RunOnce } else { Origin::Startup }),
                final(self)@,
                a,
            ),
    {
        self.mode = RunMode::Daemon;
        if force_sync {
            self.enter_auth(0, AfterAuth::ReadToken(Origin::RunOnce))
        } else {
            self.enter_auth(0, AfterAuth::ReadToken(Origin::Startup))
        }
    }

    /// Best-effort invalidation of the sessions of every node, from any phase;
    /// the run then exits normally.
    pub fn shutdown(&mut self) -> (a: Action)
        requires
            spec_wf(old(self)@),
        ensures
            spec_wf(final(self)@),
            spec_enter_shutdown(old(self)@, 0, Ok(()), final(self)@, a),
    {
        self.enter_shutdown(0, Ok(()))
    }
}

} // verus!

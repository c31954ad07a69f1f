use ergosphere::api::client::ApiClient;
use ergosphere::api::client::Replica;
use ergosphere::api::error::ApiError;
use ergosphere::api::types::{ApiErrorPayload, ApiResult, ApiSessionPayload, ErrorDetails, SessionDetails};
use ergosphere::config::{AppConfig, NodeSettings};
use ergosphere::daemon::{
    calculate_global_state_token, file_mtime_seconds, Action, Daemon, DaemonError, HttpReply,
    Input, NodeRef, Origin, Report, RunMode, SyncMode,
};
use ergosphere::watcher::{DaemonEvent, WatcherError};

const SECOND: u128 = 1_000_000_000;

fn node(url: &str, label: Option<&str>, password: &str) -> NodeSettings {
    NodeSettings {
        label: label.map(|l| l.to_string()),
        url: url.to_string(),
        password: password.to_string(),
    }
}

fn config(replicas: usize, run_gravity: bool) -> AppConfig {
    let mut c = AppConfig::default();
    c.primary = node("http://10.0.0.1", Some("primary"), "pp");
    c.replicas = (0..replicas)
        .map(|i| node(&format!("http://10.0.0.{}", i + 2), None, &format!("rp{}", i)))
        .collect();
    c.sync.run_gravity = run_gravity;
    c
}

fn auth_ok(sid: &str, now: u128) -> Input {
    Input::AuthReply {
        now,
        reply: Ok((
            200,
            ApiResult::Success(ApiSessionPayload {
                session: SessionDetails {
                    valid: true,
                    totp: false,
                    sid: Some(sid.to_string()),
                    csrf: None,
                    validity: 300,
                    message: None,
                },
            }),
        )),
    }
}

fn reply(status: u16, body: Vec<u8>) -> Result<HttpReply, ApiError> {
    Ok(HttpReply { status, body: Ok(body), document: None })
}

/// Authenticates every node of a fresh run and returns the action that follows.
fn authenticate_all(d: &mut Daemon, first: Action, replicas: usize, now: u128) -> Action {
    let mut a = first;
    for k in 0..=replicas {
        match &a {
            Action::Authenticate { node, auth } => {
                if k == 0 {
                    assert!(matches!(node, NodeRef::Primary));
                    assert_eq!(auth.endpoint, "http://10.0.0.1/api/auth/");
                    assert_eq!(auth.payload.password, "pp");
                } else {
                    assert!(matches!(node, NodeRef::Replica(i) if *i == k - 1));
                    assert_eq!(auth.payload.password, format!("rp{}", k - 1));
                }
            },
            _ => panic!("expected authentication of node {}", k),
        }
        let input = auth_ok(&format!("sid{}", k), now);
        assert!(d.accepts(&input));
        a = d.step(input);
    }
    a
}

#[test]
fn once_run_syncs_every_replica_then_closes_sessions() {
    let mut d = Daemon::new(config(2, true)).ok().unwrap();
    let first = d.run_once();
    let a = authenticate_all(&mut d, first, 2, 10 * SECOND);
    assert!(matches!(a, Action::ReadStateToken));
    let a = d.step(Input::StateToken { config_mtime: 100, gravity_mtime: 200, now: 11 * SECOND });
    match &a {
        Action::Download(req) => {
            assert_eq!(req.endpoint, "http://10.0.0.1/api/teleporter/");
            assert_eq!(req.sid, "sid0");
        },
        _ => panic!("expected a download"),
    }
    let mut a = d.step(Input::DownloadReply(reply(200, vec![9, 9, 9])));
    for r in 0..2usize {
        match &a {
            Action::Upload { replica, upload, archive } => {
                assert_eq!(*replica, r);
                assert_eq!(upload.sid, format!("sid{}", r + 1));
                assert_eq!(archive, &vec![9, 9, 9]);
            },
            _ => panic!("expected an upload to replica {}", r),
        }
        a = d.step(Input::UploadReply(reply(200, vec![])));
        match &a {
            Action::TriggerGravity { replica, request } => {
                assert_eq!(*replica, r);
                assert_eq!(request.endpoint, format!("http://10.0.0.{}/api/action/gravity/", r + 2));
                assert_eq!(request.sid, format!("sid{}", r + 1));
            },
            _ => panic!("expected a gravity rebuild of replica {}", r),
        }
        a = d.step(Input::GravityStatus(Ok(200)));
        assert!(matches!(&a, Action::DrainGravity { replica } if *replica == r));
        a = d.step(Input::GravityStream(Ok(())));
    }
    assert_eq!(d.last_known_timestamp(), Some(300));
    for k in 0..3usize {
        match &a {
            Action::InvalidateSession { node, request } => {
                assert_eq!(request.sid, format!("sid{}", k));
                if k == 0 {
                    assert!(matches!(node, NodeRef::Primary));
                }
            },
            _ => panic!("expected the end of session {}", k),
        }
        a = d.step(Input::SessionClosed);
    }
    assert!(matches!(a, Action::Exit(Ok(()))));
}

#[test]
fn failed_upload_skips_gravity_and_continues() {
    let mut d = Daemon::new(config(2, true)).ok().unwrap();
    let first = d.run(true);
    let a = authenticate_all(&mut d, first, 2, 0);
    assert!(matches!(a, Action::ReadStateToken));
    let _ = d.step(Input::StateToken { config_mtime: 1, gravity_mtime: 2, now: 0 });
    let a = d.step(Input::DownloadReply(reply(200, vec![1])));
    assert!(matches!(&a, Action::Upload { replica: 0, .. }));
    let a = d.step(Input::UploadReply(reply(500, vec![])));
    assert!(matches!(
        &a,
        Action::Report(Report::UploadFailed { replica: 0, error: ApiError::UnexpectedStatusCode(500) })
    ));
    let a = d.step(Input::Reported);
    assert!(matches!(&a, Action::Upload { replica: 1, .. }));
    let a = d.step(Input::UploadReply(Err(ApiError::Transport("refused".to_string()))));
    assert!(matches!(&a, Action::Report(Report::UploadFailed { replica: 1, error: ApiError::Transport(_) })));
    let a = d.step(Input::Reported);
    // The daemon goes on listening once the forced sync is done.
    assert!(matches!(a, Action::AwaitEvent));
    assert_eq!(d.last_known_timestamp(), Some(3));
}

#[test]
fn gravity_is_skipped_without_run_gravity() {
    let mut d = Daemon::new(config(1, false)).ok().unwrap();
    let first = d.run(true);
    let _ = authenticate_all(&mut d, first, 1, 0);
    let _ = d.step(Input::StateToken { config_mtime: 1, gravity_mtime: 1, now: 0 });
    let a = d.step(Input::DownloadReply(reply(200, vec![1])));
    assert!(matches!(&a, Action::Upload { replica: 0, .. }));
    let a = d.step(Input::UploadReply(reply(200, vec![])));
    assert!(matches!(a, Action::AwaitEvent));
}

#[test]
fn unchanged_state_skips_sync_after_debounce() {
    let mut d = Daemon::new(config(1, false)).ok().unwrap();
    let first = d.run(false);
    let a = authenticate_all(&mut d, first, 1, 0);
    assert!(matches!(a, Action::ReadStateToken));
    let a = d.step(Input::StateToken { config_mtime: 50, gravity_mtime: 50, now: 0 });
    assert!(matches!(a, Action::AwaitEvent));
    assert_eq!(d.last_known_timestamp(), Some(100));

    let a = d.step(Input::Event(Some(DaemonEvent::StateChange(vec!["/etc/pihole/gravity.db".to_string()]))));
    assert!(matches!(a, Action::AwaitDebounce { seconds: 3 }));
    // A cascading write restarts the window.
    let a = d.step(Input::Event(Some(DaemonEvent::StateChange(vec![]))));
    assert!(matches!(a, Action::AwaitDebounce { seconds: 3 }));
    let a = d.step(Input::DebounceElapsed);
    assert!(matches!(a, Action::ReadStateToken));
    // Same token: nothing to do.
    let a = d.step(Input::StateToken { config_mtime: 40, gravity_mtime: 60, now: SECOND });
    assert!(matches!(a, Action::AwaitEvent));
}

#[test]
fn changed_state_with_fresh_sessions_downloads_directly() {
    let mut d = Daemon::new(config(1, false)).ok().unwrap();
    let first = d.run(false);
    let _ = authenticate_all(&mut d, first, 1, 0);
    let _ = d.step(Input::StateToken { config_mtime: 1, gravity_mtime: 1, now: 0 });
    let _ = d.step(Input::Event(Some(DaemonEvent::StateChange(vec![]))));
    let _ = d.step(Input::DebounceElapsed);
    let a = d.step(Input::StateToken { config_mtime: 1, gravity_mtime: 5, now: 10 * SECOND });
    assert!(matches!(a, Action::Download(_)));
}

#[test]
fn changed_state_with_expired_session_reauthenticates_first() {
    let mut d = Daemon::new(config(1, false)).ok().unwrap();
    let first = d.run(false);
    let _ = authenticate_all(&mut d, first, 1, 0);
    let _ = d.step(Input::StateToken { config_mtime: 1, gravity_mtime: 1, now: 0 });
    let _ = d.step(Input::Event(Some(DaemonEvent::StateChange(vec![]))));
    let _ = d.step(Input::DebounceElapsed);
    // 295 s after authentication the sessions count as expired.
    let a = d.step(Input::StateToken { config_mtime: 1, gravity_mtime: 5, now: 295 * SECOND });
    let a = authenticate_all(&mut d, a, 1, 300 * SECOND);
    assert!(matches!(a, Action::Download(_)));
    let a = d.step(Input::DownloadReply(reply(200, vec![7])));
    assert!(matches!(&a, Action::Upload { replica: 0, .. }));
    let a = d.step(Input::UploadReply(reply(200, vec![])));
    assert!(matches!(a, Action::AwaitEvent));
    assert_eq!(d.last_known_timestamp(), Some(6));
}

#[test]
fn watcher_error_abandons_debounce_and_ends_listening() {
    let mut d = Daemon::new(config(0, false)).ok().unwrap();
    let first = d.run(false);
    let _ = authenticate_all(&mut d, first, 0, 0);
    let _ = d.step(Input::StateToken { config_mtime: 1, gravity_mtime: 1, now: 0 });
    let _ = d.step(Input::Event(Some(DaemonEvent::StateChange(vec![]))));
    let a = d.step(Input::Event(Some(DaemonEvent::WatcherError(WatcherError::ChannelSend))));
    assert!(matches!(a, Action::AwaitEvent));
    let a = d.step(Input::Event(Some(DaemonEvent::WatcherError(WatcherError::Notify("x".to_string())))));
    assert!(matches!(a, Action::InvalidateSession { node: NodeRef::Primary, .. }));
    let a = d.step(Input::SessionClosed);
    assert!(matches!(a, Action::Exit(Ok(()))));
}

#[test]
fn closed_channel_ends_the_daemon() {
    let mut d = Daemon::new(config(0, false)).ok().unwrap();
    let first = d.run(false);
    let _ = authenticate_all(&mut d, first, 0, 0);
    let _ = d.step(Input::StateToken { config_mtime: 1, gravity_mtime: 1, now: 0 });
    let a = d.step(Input::Event(None));
    assert!(matches!(a, Action::InvalidateSession { .. }));
}

#[test]
fn once_run_auth_failure_exits_with_error() {
    let mut d = Daemon::new(config(1, false)).ok().unwrap();
    let _ = d.run_once();
    let doc = ApiErrorPayload {
        error: ErrorDetails { key: "unauthorized".to_string(), message: "bad password".to_string(), hint: None },
    };
    let a = d.step(Input::AuthReply { now: 0, reply: Ok((401, ApiResult::Failure(doc))) });
    // Nobody holds a session: ending each one fails and is reported, then the
    // run exits with the error.
    assert!(matches!(
        &a,
        Action::Report(Report::InvalidateFailed { node: NodeRef::Primary, error: ApiError::Unauthorized(_) })
    ));
    let a = d.step(Input::Reported);
    assert!(matches!(
        &a,
        Action::Report(Report::InvalidateFailed { node: NodeRef::Replica(0), error: ApiError::Unauthorized(_) })
    ));
    let a = d.step(Input::Reported);
    match a {
        Action::Exit(Err(DaemonError::Authentication(NodeRef::Primary, ApiError::Unauthorized(m)))) => {
            assert_eq!(m, "bad password")
        },
        _ => panic!("expected an authentication failure"),
    }
}

#[test]
fn daemon_start_auth_failure_exits_normally() {
    let mut d = Daemon::new(config(1, false)).ok().unwrap();
    let _ = d.run(false);
    let _ = d.step(auth_ok("s0", 0));
    let a = d.step(Input::AuthReply { now: 0, reply: Err(ApiError::Transport("timeout".to_string())) });
    // The failure is reported first.
    assert!(matches!(
        &a,
        Action::Report(Report::SyncFailed {
            origin: Origin::Startup,
            failure: DaemonError::Authentication(NodeRef::Replica(0), ApiError::Transport(_)),
        })
    ));
    let a = d.step(Input::Reported);
    // The primary holds a session: it is ended, then the daemon exits normally.
    assert!(matches!(a, Action::InvalidateSession { node: NodeRef::Primary, .. }));
    let a = d.step(Input::SessionClosed);
    assert!(matches!(&a, Action::Report(Report::InvalidateFailed { node: NodeRef::Replica(0), .. })));
    let a = d.step(Input::Reported);
    assert!(matches!(a, Action::Exit(Ok(()))));
}

#[test]
fn once_run_download_failure_exits_with_error() {
    let mut d = Daemon::new(config(0, false)).ok().unwrap();
    let first = d.run_once();
    let _ = authenticate_all(&mut d, first, 0, 0);
    let _ = d.step(Input::StateToken { config_mtime: 1, gravity_mtime: 1, now: 0 });
    let a = d.step(Input::DownloadReply(reply(503, vec![])));
    assert!(matches!(a, Action::InvalidateSession { .. }));
    let a = d.step(Input::SessionClosed);
    assert!(matches!(a, Action::Exit(Err(DaemonError::Download(ApiError::UnexpectedStatusCode(503))))));
    assert_eq!(d.last_known_timestamp(), None);
}

#[test]
fn shutdown_from_any_phase_closes_sessions() {
    let mut d = Daemon::new(config(1, false)).ok().unwrap();
    let first = d.run(false);
    let _ = authenticate_all(&mut d, first, 1, 0);
    let a = d.shutdown();
    assert!(matches!(a, Action::InvalidateSession { node: NodeRef::Primary, .. }));
    let a = d.step(Input::SessionClosed);
    assert!(matches!(a, Action::InvalidateSession { node: NodeRef::Replica(0), .. }));
    let a = d.step(Input::SessionClosed);
    assert!(matches!(a, Action::Exit(Ok(()))));
}

#[test]
fn invalid_urls_fail_daemon_creation() {
    let mut c = config(2, false);
    c.replicas[1].url = "::bad::".to_string();
    assert!(matches!(Daemon::new(c), Err(DaemonError::ReplicaClient(1, ApiError::UrlParseError(_)))));
    let mut c = config(1, false);
    c.primary.url = "".to_string();
    assert!(matches!(Daemon::new(c), Err(DaemonError::PrimaryClient(ApiError::UrlParseError(_)))));
}

#[test]
fn identifiers_and_modes() {
    let d = Daemon::new(config(1, false)).ok().unwrap();
    assert_eq!(d.node_identifier(NodeRef::Primary), "primary");
    assert_eq!(d.node_identifier(NodeRef::Replica(0)), "10.0.0.2");
    assert_eq!(RunMode::Once.as_str(), "once");
    assert_eq!(RunMode::Daemon.as_str(), "daemon");
    assert_eq!(SyncMode::of_config(d.config()).as_str(), "full");
    let mut c = config(0, false);
    c.sync.full_sync = false;
    assert_eq!(SyncMode::of_config(&c).as_str(), "selective");
}

#[test]
fn state_token_and_mtimes() {
    assert_eq!(calculate_global_state_token(1_700_000_000, 1_700_000_100), 3_400_000_100);
    assert_eq!(calculate_global_state_token(i64::MAX, 1), i64::MIN);
    assert_eq!(file_mtime_seconds(Some(42)), 42);
    assert_eq!(file_mtime_seconds(None), 0);
    assert_eq!(file_mtime_seconds(Some(u64::MAX)), -1);
}

#[test]
fn mismatched_input_is_not_accepted() {
    let mut d = Daemon::new(config(0, false)).ok().unwrap();
    assert!(!d.accepts(&Input::SessionClosed));
    let _ = d.run(false);
    assert!(!d.accepts(&Input::DebounceElapsed));
    assert!(d.accepts(&auth_ok("x", 0)));
    let _unused: Option<ApiClient<Replica>> = None;
}

#[test]
fn forced_sync_failure_keeps_the_daemon_listening() {
    let mut d = Daemon::new(config(1, false)).ok().unwrap();
    let _ = d.run(true);
    let a = d.step(Input::AuthReply { now: 0, reply: Err(ApiError::Transport("down".to_string())) });
    assert!(matches!(&a, Action::Report(Report::SyncFailed { origin: Origin::RunOnce, .. })));
    let a = d.step(Input::Reported);
    assert!(matches!(a, Action::AwaitEvent));
    assert_eq!(d.last_known_timestamp(), None);
}

#[test]
fn pipeline_download_failure_keeps_the_daemon_listening() {
    let mut d = Daemon::new(config(1, false)).ok().unwrap();
    let first = d.run(false);
    let _ = authenticate_all(&mut d, first, 1, 0);
    let _ = d.step(Input::StateToken { config_mtime: 1, gravity_mtime: 1, now: 0 });
    let _ = d.step(Input::Event(Some(DaemonEvent::StateChange(vec![]))));
    let _ = d.step(Input::DebounceElapsed);
    let a = d.step(Input::StateToken { config_mtime: 2, gravity_mtime: 2, now: 0 });
    assert!(matches!(a, Action::Download(_)));
    let a = d.step(Input::DownloadReply(Ok(HttpReply {
        status: 401,
        body: Ok(vec![]),
        document: Some(ApiResult::Failure(ApiErrorPayload {
            error: ErrorDetails { key: "unauthorized".to_string(), message: "expired".to_string(), hint: None },
        })),
    })));
    match &a {
        Action::Report(Report::SyncFailed {
            origin: Origin::Pipeline,
            failure: DaemonError::Download(ApiError::Unauthorized(m)),
        }) => assert_eq!(m, "expired"),
        _ => panic!("expected the download failure to be reported"),
    }
    let a = d.step(Input::Reported);
    assert!(matches!(a, Action::AwaitEvent));
    // The failed sync leaves the last known token alone, so the next trigger retries.
    assert_eq!(d.last_known_timestamp(), Some(2));
}

#[test]
fn steps_keep_configuration_and_node_names() {
    let mut d = Daemon::new(config(2, true)).ok().unwrap();
    let before: Vec<String> = vec![
        d.node_identifier(NodeRef::Primary),
        d.node_identifier(NodeRef::Replica(0)),
        d.node_identifier(NodeRef::Replica(1)),
    ];
    let first = d.run(false);
    let _ = authenticate_all(&mut d, first, 2, 0);
    let _ = d.step(Input::StateToken { config_mtime: 1, gravity_mtime: 1, now: 0 });
    let after: Vec<String> = vec![
        d.node_identifier(NodeRef::Primary),
        d.node_identifier(NodeRef::Replica(0)),
        d.node_identifier(NodeRef::Replica(1)),
    ];
    assert_eq!(before, after);
    assert_eq!(after, vec!["primary".to_string(), "10.0.0.2".to_string(), "10.0.0.3".to_string()]);
    assert_eq!(d.config().replicas.len(), 2);
    assert!(d.config().sync.run_gravity);
}

#[test]
fn closed_channel_ends_the_debounce_window() {
    let mut d = Daemon::new(config(0, false)).ok().unwrap();
    let first = d.run(false);
    let _ = authenticate_all(&mut d, first, 0, 0);
    let _ = d.step(Input::StateToken { config_mtime: 1, gravity_mtime: 1, now: 0 });
    let a = d.step(Input::Event(Some(DaemonEvent::StateChange(vec![]))));
    assert!(matches!(a, Action::AwaitDebounce { .. }));
    // No further change can come: the window is over and the token is read.
    let a = d.step(Input::Event(None));
    assert!(matches!(a, Action::ReadStateToken));
}

#[test]
fn full_sync_forces_every_import_option_on_upload() {
    let mut c = config(1, false);
    c.sync.full_sync = true;
    c.sync.config = false;
    c.sync.dhcp_leases = false;
    c.sync.gravity.adlist = false;
    let mut d = Daemon::new(c).ok().unwrap();
    let first = d.run(true);
    let _ = authenticate_all(&mut d, first, 1, 0);
    let _ = d.step(Input::StateToken { config_mtime: 1, gravity_mtime: 1, now: 0 });
    let a = d.step(Input::DownloadReply(reply(200, vec![1])));
    match &a {
        Action::Upload { upload, .. } => {
            assert!(upload.options.config);
            assert!(upload.options.dhcp_leases);
            assert!(upload.options.gravity.adlist);
        },
        _ => panic!("expected an upload"),
    }
}

#[test]
fn selective_sync_uploads_the_configured_options() {
    let mut c = config(1, false);
    c.sync.full_sync = false;
    c.sync.config = false;
    c.sync.gravity.client = false;
    let mut d = Daemon::new(c).ok().unwrap();
    let first = d.run(true);
    let _ = authenticate_all(&mut d, first, 1, 0);
    let _ = d.step(Input::StateToken { config_mtime: 1, gravity_mtime: 1, now: 0 });
    let a = d.step(Input::DownloadReply(reply(200, vec![1])));
    match &a {
        Action::Upload { upload, .. } => {
            assert!(!upload.options.config);
            assert!(upload.options.dhcp_leases);
            assert!(!upload.options.gravity.client);
            assert!(upload.options.gravity.adlist);
        },
        _ => panic!("expected an upload"),
    }
}

#[test]
fn gravity_failures_are_reported_and_the_sync_goes_on() {
    let mut d = Daemon::new(config(2, true)).ok().unwrap();
    let first = d.run(true);
    let _ = authenticate_all(&mut d, first, 2, 0);
    let _ = d.step(Input::StateToken { config_mtime: 4, gravity_mtime: 4, now: 0 });
    let _ = d.step(Input::DownloadReply(reply(200, vec![1])));
    let a = d.step(Input::UploadReply(reply(200, vec![])));
    assert!(matches!(&a, Action::TriggerGravity { replica: 0, .. }));
    let a = d.step(Input::GravityStatus(Ok(502)));
    assert!(matches!(
        &a,
        Action::Report(Report::GravityFailed { replica: 0, error: ApiError::UnexpectedStatusCode(502) })
    ));
    let a = d.step(Input::Reported);
    assert!(matches!(&a, Action::Upload { replica: 1, .. }));
    let a = d.step(Input::UploadReply(reply(200, vec![])));
    assert!(matches!(&a, Action::TriggerGravity { replica: 1, .. }));
    let a = d.step(Input::GravityStatus(Ok(200)));
    assert!(matches!(&a, Action::DrainGravity { replica: 1 }));
    let a = d.step(Input::GravityStream(Err("connection reset".to_string())));
    match &a {
        Action::Report(Report::GravityFailed { replica: 1, error: ApiError::Error(m) }) => {
            assert_eq!(m, "Gravity stream closed prematurely")
        },
        _ => panic!("expected the interrupted stream to be reported"),
    }
    let a = d.step(Input::Reported);
    assert!(matches!(a, Action::AwaitEvent));
    assert_eq!(d.last_known_timestamp(), Some(8));
}

#[test]
fn try_new_accepts_ordinary_urls() {
    match Daemon::try_new(config(2, false)) {
        Some(Ok(d)) => assert_eq!(d.config().replicas.len(), 2),
        _ => panic!("expected a daemon"),
    }
    let mut c = config(1, false);
    c.replicas[0].url = "::bad::".to_string();
    assert!(matches!(Daemon::try_new(c), Some(Err(DaemonError::ReplicaClient(0, ApiError::UrlParseError(_))))));
}

#[test]
fn each_replica_is_uploaded_once_per_sync() {
    let mut d = Daemon::new(config(3, false)).ok().unwrap();
    let first = d.run(true);
    let _ = authenticate_all(&mut d, first, 3, 0);
    let _ = d.step(Input::StateToken { config_mtime: 5, gravity_mtime: 5, now: 0 });
    let mut a = d.step(Input::DownloadReply(reply(200, vec![3])));
    let mut uploads: Vec<usize> = Vec::new();
    loop {
        a = match a {
            Action::Upload { replica, .. } => {
                uploads.push(replica);
                // The second replica refuses the archive.
                let status = if replica == 1 { 500 } else { 200 };
                d.step(Input::UploadReply(reply(status, vec![])))
            },
            Action::Report(Report::UploadFailed { .. }) => d.step(Input::Reported),
            other => {
                assert!(matches!(other, Action::AwaitEvent));
                break;
            },
        };
    }
    assert_eq!(uploads, vec![0, 1, 2]);
    assert_eq!(d.last_known_timestamp(), Some(10));
}

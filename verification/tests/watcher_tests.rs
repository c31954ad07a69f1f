use ergosphere::watcher::{
    after_send_failure, has_prefix, is_watched_file_name, route_watch_result, should_trigger,
    DaemonEvent, WatcherError,
};

fn paths(p: &[&str]) -> Vec<String> {
    p.iter().map(|s| s.to_string()).collect()
}

#[test]
fn only_the_last_path_component_counts() {
    assert!(should_trigger(&paths(&["/etc/pihole/gravity.db"])));
    assert!(should_trigger(&paths(&["gravity.db"])));
    assert!(should_trigger(&paths(&["/tmp/pihole.toml/"])));
    assert!(!should_trigger(&paths(&["/etc/gravity.db/dhcp.leases"])));
    assert!(!should_trigger(&paths(&["/etc/pihole.toml/.."])));
    assert!(!should_trigger(&paths(&["/"])));
}

#[test]
fn dot_components_and_repeated_separators_are_normalized() {
    assert!(should_trigger(&paths(&["/etc/pihole/gravity.db/."])));
    assert!(should_trigger(&paths(&["/etc//pihole//pihole.toml//"])));
    assert!(should_trigger(&paths(&["./gravity.db"])));
    assert!(should_trigger(&paths(&["../pihole.toml.tmp"])));
    assert!(!should_trigger(&paths(&["."])));
    assert!(!should_trigger(&paths(&["gravity.db/../"])));
    assert!(!should_trigger(&paths(&[""])));
}

#[test]
fn watched_names() {
    assert!(is_watched_file_name("gravity.db"));
    assert!(is_watched_file_name("pihole.toml"));
    assert!(is_watched_file_name("pihole.toml.tmp"));
    assert!(is_watched_file_name("pihole.toml~"));
    assert!(!is_watched_file_name("gravity.db-journal"));
    assert!(!is_watched_file_name("pihole-FTL.db"));
    assert!(!is_watched_file_name("pihole.tom"));
    assert!(!is_watched_file_name(""));
}

#[test]
fn prefix_check() {
    assert!(has_prefix("pihole.toml.bak", "pihole.toml"));
    assert!(has_prefix("abc", ""));
    assert!(!has_prefix("pi", "pihole"));
    assert!(!has_prefix("pihole", "piHole"));
}

#[test]
fn batch_triggers_on_any_watched_path() {
    assert!(should_trigger(&paths(&["/etc/pihole/dhcp.leases", "/etc/pihole/gravity.db"])));
    assert!(should_trigger(&paths(&["/etc/pihole/pihole.toml.swp"])));
    assert!(!should_trigger(&paths(&["/etc/pihole/dhcp.leases", "/etc/pihole/logrotate"])));
    assert!(!should_trigger(&paths(&[])));
}

#[test]
fn batch_trigger_survives_extra_paths() {
    let mut p = paths(&["/etc/pihole/gravity.db"]);
    assert!(should_trigger(&p));
    p.insert(0, "/etc/pihole/unrelated".to_string());
    p.push("/etc/pihole/also-unrelated".to_string());
    assert!(should_trigger(&p));
}

#[test]
fn routing_of_batches() {
    match route_watch_result(Ok(paths(&["/etc/pihole/gravity.db"]))) {
        Some(DaemonEvent::StateChange(p)) => assert_eq!(p, paths(&["/etc/pihole/gravity.db"])),
        _ => panic!("expected a state change"),
    }
    assert!(route_watch_result(Ok(paths(&["/etc/pihole/versions"]))).is_none());
    match route_watch_result(Err(vec!["first".to_string(), "second".to_string()])) {
        Some(DaemonEvent::WatcherError(WatcherError::Notify(m))) => assert_eq!(m, "first"),
        _ => panic!("expected the first error"),
    }
    assert!(route_watch_result(Err(vec![])).is_none());
}

#[test]
fn failed_state_change_is_reported_once() {
    let change = DaemonEvent::StateChange(paths(&["/etc/pihole/gravity.db"]));
    assert!(matches!(
        after_send_failure(&change),
        Some(DaemonEvent::WatcherError(WatcherError::ChannelSend))
    ));
    let err = DaemonEvent::WatcherError(WatcherError::ChannelSend);
    assert!(after_send_failure(&err).is_none());
}

#[test]
fn batch_triggers_iff_one_part_does() {
    let a = paths(&["/etc/pihole/macvendor.db"]);
    let b = paths(&["/etc/pihole/pihole.toml"]);
    let mut ab = a.clone();
    ab.extend(b.clone());
    assert_eq!(should_trigger(&ab), should_trigger(&a) || should_trigger(&b));
    let mut aa = a.clone();
    aa.extend(a.clone());
    assert!(!should_trigger(&aa));
}

//! Filesystem event filtering for the daemon's event channel.
//!
//! The OS-level watcher and its debouncer run outside the library; they hand
//! each debounced batch (the paths it touched, or the errors it met) to
//! [`route_watch_result`], which decides what travels to the daemon.
use vstd::prelude::*;
use vstd::string::*;

use crate::consts::{PIHOLE_CONFIG_FILE, PIHOLE_GRAVITY_DB};

verus! {

/// Errors of the filesystem watcher.
#[derive(Debug)]
pub enum WatcherError {
    /// The notification framework reported an error; its message.
    Notify(String),
    /// An event could not be routed over the daemon's channel.
    ChannelSend,
}

/// What the watcher sends to the daemon's event loop.
#[derive(Debug)]
pub enum DaemonEvent {
    /// A batch of filesystem changes touched Pi-hole state; the paths of the batch.
    StateChange(Vec<String>),
    /// The watcher failed.
    WatcherError(WatcherError),
}

/// The name that a path segment contributes: an empty segment (repeated or
/// trailing separators) and `.` are skipped (`None`); `..` ends the path with
/// no name (`Some` of the empty text); any other segment is the name.
pub open spec fn segment_name(seg: Seq<char>) -> Option<Seq<char>> {
    if seg.len() == 0 || seg == "."@ {
        None
    } else if seg == ".."@ {
        Some(Seq::<char>::empty())
    } else {
        Some(seg)
    }
}

/// The file name of `rest` followed by the segment `seg` (read from the end):
/// the name of the last segment that is not skipped, or the empty text.
pub open spec fn file_name_from(rest: Seq<char>, seg: Seq<char>) -> Seq<char>
    decreases rest.len(),
{
    if rest.len() == 0 {
        match segment_name(seg) {
            Some(name) => name,
            None => Seq::<char>::empty(),
        }
    } else if rest.last() == '/' {
        match segment_name(seg) {
            Some(name) => name,
            None => file_name_from(rest.drop_last(), Seq::<char>::empty()),
        }
    } else {
        file_name_from(rest.drop_last(), seq![rest.last()] + seg)
    }
}

/// The file name of a path, as `std::path::Path::file_name` gives it on Unix:
/// the final component, where separators repeat or trail and `.` components
/// are normalized away; the empty text where the path ends in `..` or has no
/// normal component (`/`, `.`, the empty path).
pub open spec fn path_file_name(path: Seq<char>) -> Seq<char> {
    file_name_from(path, Seq::<char>::empty())
}

/// Calls `std::path::Path::file_name` (read as UTF-8, which a `&str` path
/// already is). The contract claims what the documentation of `file_name` and
/// `components` describes: the result is `path_file_name` of the path.
#[verifier::external_body]
pub(crate) fn file_name(path: &str) -> (r: String)
    ensures
        r@ == path_file_name(path@),
{
    std::path::Path::new(path).file_name().unwrap_or_default().to_string_lossy().into_owned()
}

/// Whether a file name marks a Pi-hole state change: the gravity database, the
/// main configuration file, or any file whose name starts with the latter
/// (its rotations and temporaries).
pub open spec fn is_watched_name(name: Seq<char>) -> bool {
    ||| name == PIHOLE_GRAVITY_DB@
    ||| name == PIHOLE_CONFIG_FILE@
    ||| PIHOLE_CONFIG_FILE@.is_prefix_of(name)
}

/// Whether a batch of changed paths touches Pi-hole state.
pub open spec fn batch_triggers(paths: Seq<String>) -> bool {
    exists|i: int| 0 <= i < paths.len() && is_watched_name(path_file_name(#[trigger] paths[i]@))
}

/// Checks whether `prefix` is a prefix of `s`.
pub fn has_prefix(s: &str, prefix: &str) -> (r: bool)
    ensures
        r == prefix@.is_prefix_of(s@),
{
    let n = s.unicode_len();
    let m = prefix.unicode_len();
    if m > n {
        return false;
    }
    let mut i: usize = 0;
    while i < m
        invariant
            m == prefix@.len(),
            n == s@.len(),
            m <= n,
            i <= m,
            forall|j: int| 0 <= j < i ==> prefix@[j] == s@[j],
        decreases m - i,
    {
        if s.get_char(i) != prefix.get_char(i) {
            assert(prefix@[i as int] != s@.subrange(0, m as int)[i as int]);
            return false;
        }
        i = i + 1;
    }
    assert(prefix@ =~= s@.subrange(0, m as int));
    true
}

/// Checks whether a file name marks a Pi-hole state change.
pub fn is_watched_file_name(name: &str) -> (r: bool)
    ensures
        r == is_watched_name(name@),
{
    let gravity = String::from_str(PIHOLE_GRAVITY_DB);
    let config = String::from_str(PIHOLE_CONFIG_FILE);
    let owned = String::from_str(name);
    owned == gravity || owned == config || has_prefix(name, PIHOLE_CONFIG_FILE)
}

/// Checks whether a batch of changed paths touches Pi-hole state.
pub fn should_trigger(paths: &Vec<String>) -> (r: bool)
    ensures
        r == batch_triggers(paths@),
{
    let mut i: usize = 0;
    while i < paths.len()
        invariant
            i <= paths@.len(),
            forall|j: int| 0 <= j < i ==> !is_watched_name(path_file_name(#[trigger] paths@[j]@)),
        decreases paths@.len() - i,
    {
        let name = file_name(paths[i].as_str());
        if is_watched_file_name(name.as_str()) {
            return true;
        }
        i = i + 1;
    }
    false
}

/// What a debounced batch sends to the daemon: a state change when the batch
/// touches Pi-hole state (nothing otherwise), or the first of the errors met.
pub open spec fn spec_routed(res: Result<Seq<String>, Seq<String>>, out: Option<DaemonEvent>) -> bool {
    match res {
        Ok(paths) => if batch_triggers(paths) {
            out matches Some(DaemonEvent::StateChange(p)) && p@ == paths
        } else {
            out is None
        },
        Err(errors) => if errors.len() == 0 {
            out is None
        } else {
            out matches Some(DaemonEvent::WatcherError(WatcherError::Notify(m))) && m == errors[0]
        },
    }
}

/// Decides what a debounced batch (its paths, or the messages of its errors) sends to the daemon.
pub fn route_watch_result(res: Result<Vec<String>, Vec<String>>) -> (out: Option<DaemonEvent>)
    ensures
        spec_routed(
            match res {
                Ok(p) => Ok::<Seq<String>, Seq<String>>(p@),
                Err(e) => Err::<Seq<String>, Seq<String>>(e@),
            },
            out,
        ),
{
    match res {
        Ok(paths) => {
            if should_trigger(&paths) {
                Some(DaemonEvent::StateChange(paths))
            } else {
                None
            }
        },
        Err(errors) => {
            if errors.len() == 0 {
                None
            } else {
                let first = errors[0].clone();
                Some(DaemonEvent::WatcherError(WatcherError::Notify(first)))
            }
        },
    }
}

/// What is sent after `event` could not be sent: a failed state change is
/// reported as a channel error; a failed error report is dropped.
pub fn after_send_failure(event: &DaemonEvent) -> (r: Option<DaemonEvent>)
    ensures
        match event {
            DaemonEvent::StateChange(_) => r == Some(DaemonEvent::WatcherError(WatcherError::ChannelSend)),
            DaemonEvent::WatcherError(_) => r is None,
        },
{
    match event {
        DaemonEvent::StateChange(_) => Some(DaemonEvent::WatcherError(WatcherError::ChannelSend)),
        DaemonEvent::WatcherError(_) => None,
    }
}

/// A batch that touches Pi-hole state triggers whatever other paths come with it.
pub proof fn lemma_batch_trigger_monotone(a: Seq<String>, b: Seq<String>)
    requires
        batch_triggers(a),
    ensures
        batch_triggers(a + b),
        batch_triggers(b + a),
{
    let i = choose|i: int| 0 <= i < a.len() && is_watched_name(path_file_name(#[trigger] a[i]@));
    assert((a + b)[i] == a[i]);
    assert((b + a)[b.len() + i] == a[i]);
}

/// A batch touches Pi-hole state exactly when one of its paths does.
pub proof fn lemma_batch_is_union_of_paths(a: Seq<String>, b: Seq<String>)
    ensures
        batch_triggers(a + b) <==> (batch_triggers(a) || batch_triggers(b)),
{
    if batch_triggers(a + b) {
        let i = choose|i: int| 0 <= i < (a + b).len() && is_watched_name(path_file_name(#[trigger] (a + b)[i]@));
        if i < a.len() {
            assert((a + b)[i] == a[i]);
        } else {
            assert((a + b)[i] == b[i - a.len()]);
        }
    }
    if batch_triggers(a) {
        lemma_batch_trigger_monotone(a, b);
    }
    if batch_triggers(b) {
        lemma_batch_trigger_monotone(b, a);
    }
}

} // verus!

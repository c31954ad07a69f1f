//! Configuration model of ergosphere and its normalisation.
//!
//! Sources are layered by the caller (defaults, the user's configuration file,
//! a local development file, then `ERGOSPHERE_*` environment variables); this
//! module holds the resulting values, their defaults, and the rules applied
//! once they are loaded.
use vstd::prelude::*;
use vstd::string::*;

use crate::api::types::{clone_opt_string, GravityImportOptions, TeleporterImportOptions};
use crate::consts::{
    ERGOSPHERE_DAEMON_CLIENT_TIMEOUT_SECONDS, ERGOSPHERE_DAEMON_DEBOUNCE_SECONDS,
    ERGOSPHERE_DAEMON_TIMEZONE, PIHOLE_CONFIG_DIR,
};

verus! {

/// Comment block written above a freshly generated configuration file.
pub const BLUEPRINT_HEADER: &'static str =
    "# Ergosphere Configuration Profile\n# Customize settings below to connect your primary and replica nodes.\n\n";

/// All runtime parameters of ergosphere.
pub struct AppConfig {
    pub daemon: DaemonSettings,
    pub primary: NodeSettings,
    pub replicas: Vec<NodeSettings>,
    pub sync: SyncSettings,
}

/// Settings of the daemon process.
pub struct DaemonSettings {
    /// The timeout (in seconds) for the HTTP client.
    pub client_timeout_seconds: u64,
    /// Whether the HTTP client should skip TLS verification.
    pub client_skip_tls_verification: bool,
    /// Safety sleep duration window to absorb rapid filesystem cascading writes.
    pub debounce_seconds: u64,
    /// Root Pi-hole config directory holding `gravity.db` and `pihole.toml`.
    pub watch_directory: String,
    /// Explicit IANA timezone for logging (e.g. "Asia/Kolkata").
    pub timezone: Option<String>,
}

/// One Pi-hole node.
pub struct NodeSettings {
    /// An optional label for the node.
    pub label: Option<String>,
    /// URL of the node's Pi-hole v6 API engine (e.g. http://192.168.0.2:8080).
    pub url: String,
    /// The web UI password or application password.
    pub password: String,
}

/// What a synchronization transfers.
pub struct SyncSettings {
    /// Whether to run the gravity update action on the replica after synchronization.
    pub run_gravity: bool,
    /// Synchronize everything: when set, all other import options are forced on.
    pub full_sync: bool,
    pub config: bool,
    pub dhcp_leases: bool,
    pub gravity: GravityImportOptions,
}

impl Default for DaemonSettings {
    fn default() -> (r: Self)
        ensures
            r.client_timeout_seconds == ERGOSPHERE_DAEMON_CLIENT_TIMEOUT_SECONDS,
            !r.client_skip_tls_verification,
            r.debounce_seconds == ERGOSPHERE_DAEMON_DEBOUNCE_SECONDS,
            r.watch_directory@ == PIHOLE_CONFIG_DIR@,
            r.timezone matches Some(tz) && tz@ == ERGOSPHERE_DAEMON_TIMEZONE@,
    {
        DaemonSettings {
            client_timeout_seconds: ERGOSPHERE_DAEMON_CLIENT_TIMEOUT_SECONDS,
            client_skip_tls_verification: false,
            debounce_seconds: ERGOSPHERE_DAEMON_DEBOUNCE_SECONDS,
            watch_directory: String::from_str(PIHOLE_CONFIG_DIR),
            timezone: Some(String::from_str(ERGOSPHERE_DAEMON_TIMEZONE)),
        }
    }
}

impl Default for NodeSettings {
    fn default() -> (r: Self)
        ensures
            r.label is None,
            r.url@ == Seq::<char>::empty(),
            r.password@ == Seq::<char>::empty(),
    {
        NodeSettings { label: None, url: String::new(), password: String::new() }
    }
}

impl Default for SyncSettings {
    fn default() -> (r: Self)
        ensures
            !r.run_gravity,
            r.full_sync,
            r.config,
            r.dhcp_leases,
            r.gravity.all_selected(),
    {
        SyncSettings {
            run_gravity: false,
            full_sync: true,
            config: true,
            dhcp_leases: true,
            gravity: GravityImportOptions::default(),
        }
    }
}

impl Default for AppConfig {
    /// The configuration written into a fresh blueprint: defaults everywhere and one empty replica.
    fn default() -> (r: Self)
        ensures
            r.daemon.client_timeout_seconds == ERGOSPHERE_DAEMON_CLIENT_TIMEOUT_SECONDS,
            !r.daemon.client_skip_tls_verification,
            r.daemon.debounce_seconds == ERGOSPHERE_DAEMON_DEBOUNCE_SECONDS,
            r.daemon.watch_directory@ == PIHOLE_CONFIG_DIR@,
            r.daemon.timezone matches Some(tz) && tz@ == ERGOSPHERE_DAEMON_TIMEZONE@,
            r.primary.label is None,
            r.primary.url@ == Seq::<char>::empty(),
            r.primary.password@ == Seq::<char>::empty(),
            r.replicas@.len() == 1,
            r.replicas@[0].label is None,
            r.replicas@[0].url@ == Seq::<char>::empty(),
            r.replicas@[0].password@ == Seq::<char>::empty(),
            !r.sync.run_gravity,
            r.sync.full_sync,
            r.sync.config,
            r.sync.dhcp_leases,
            r.sync.gravity.all_selected(),
    {
        let mut replicas: Vec<NodeSettings> = Vec::new();
        replicas.push(NodeSettings::default());
        AppConfig {
            daemon: DaemonSettings::default(),
            primary: NodeSettings::default(),
            replicas,
            sync: SyncSettings::default(),
        }
    }
}

impl Clone for NodeSettings {
    fn clone(&self) -> (r: Self)
        ensures
            r == *self,
    {
        NodeSettings {
            label: clone_opt_string(&self.label),
            url: self.url.clone(),
            password: self.password.clone(),
        }
    }
}

impl Clone for DaemonSettings {
    fn clone(&self) -> (r: Self)
        ensures
            r == *self,
    {
        DaemonSettings {
            client_timeout_seconds: self.client_timeout_seconds,
            client_skip_tls_verification: self.client_skip_tls_verification,
            debounce_seconds: self.debounce_seconds,
            watch_directory: self.watch_directory.clone(),
            timezone: clone_opt_string(&self.timezone),
        }
    }
}

impl Clone for SyncSettings {
    fn clone(&self) -> (r: Self)
        ensures
            r == *self,
    {
        SyncSettings {
            run_gravity: self.run_gravity,
            full_sync: self.full_sync,
            config: self.config,
            dhcp_leases: self.dhcp_leases,
            gravity: self.gravity,
        }
    }
}

impl Clone for AppConfig {
    fn clone(&self) -> (r: Self)
        ensures
            r.daemon == self.daemon,
            r.primary == self.primary,
            r.replicas@ == self.replicas@,
            r.sync == self.sync,
    {
        let mut replicas: Vec<NodeSettings> = Vec::new();
        let mut i: usize = 0;
        while i < self.replicas.len()
            invariant
                i <= self.replicas@.len(),
                replicas@ == self.replicas@.subrange(0, i as int),
            decreases self.replicas@.len() - i,
        {
            replicas.push(self.replicas[i].clone());
            i = i + 1;
        }
        proof {
            assert(replicas@ =~= self.replicas@);
        }
        AppConfig {
            daemon: self.daemon.clone(),
            primary: self.primary.clone(),
            replicas,
            sync: self.sync.clone(),
        }
    }
}

/// The sync settings once loading has applied `full_sync`: with `full_sync` set,
/// configuration, DHCP leases and every gravity table are imported; otherwise
/// the settings stay as loaded. `run_gravity` is never changed.
pub open spec fn spec_normalized_sync(s: SyncSettings) -> SyncSettings {
    if s.full_sync {
        SyncSettings {
            config: true,
            dhcp_leases: true,
            gravity: GravityImportOptions {
                group: true,
                adlist: true,
                adlist_by_group: true,
                domainlist: true,
                domainlist_by_group: true,
                client: true,
                client_by_group: true,
            },
            ..s
        }
    } else {
        s
    }
}

/// The Teleporter import options that the sync settings select.
pub open spec fn spec_import_options(s: SyncSettings) -> TeleporterImportOptions {
    TeleporterImportOptions { config: s.config, dhcp_leases: s.dhcp_leases, gravity: s.gravity }
}

/// Whether a configuration blueprint is written (and the program stops): only
/// when the user's configuration directory is known, holds no configuration
/// file, and no local development configuration exists.
pub open spec fn spec_blueprint_required(
    config_dir_known: bool,
    user_config_exists: bool,
    local_dev_config_exists: bool,
) -> bool {
    config_dir_known && !user_config_exists && !local_dev_config_exists
}

impl AppConfig {
    /// Applies the `full_sync` rule to loaded settings; nothing else changes.
    pub fn finalize_loaded(&mut self)
        ensures
            final(self).sync == spec_normalized_sync(old(self).sync),
            final(self).daemon == old(self).daemon,
            final(self).primary == old(self).primary,
            final(self).replicas == old(self).replicas,
    {
        if self.sync.full_sync {
            self.sync.config = true;
            self.sync.dhcp_leases = true;
            self.sync.gravity = GravityImportOptions::default();
        }
    }

    /// The Teleporter import options selected by the configuration: with
    /// `full_sync` set, every option, whatever the other settings say.
    pub fn get_teleporter_import_options(&self) -> (r: TeleporterImportOptions)
        ensures
            r == spec_import_options(spec_normalized_sync(self.sync)),
    {
        if self.sync.full_sync {
            TeleporterImportOptions {
                config: true,
                dhcp_leases: true,
                gravity: GravityImportOptions::default(),
            }
        } else {
            TeleporterImportOptions {
                config: self.sync.config,
                dhcp_leases: self.sync.dhcp_leases,
                gravity: self.sync.gravity,
            }
        }
    }
}

/// Decides whether loading writes a configuration blueprint and stops.
pub fn blueprint_required(
    config_dir_known: bool,
    user_config_exists: bool,
    local_dev_config_exists: bool,
) -> (r: bool)
    ensures
        r == spec_blueprint_required(config_dir_known, user_config_exists, local_dev_config_exists),
{
    config_dir_known && !user_config_exists && !local_dev_config_exists
}

/// The text of a configuration blueprint: the header comment, then the
/// serialized default configuration.
pub fn blueprint_contents(serialized_defaults: &str) -> (r: String)
    ensures
        r@ == BLUEPRINT_HEADER@ + serialized_defaults@,
{
    String::from_str(BLUEPRINT_HEADER).concat(serialized_defaults)
}

/// Whether `c` is a decimal digit.
pub open spec fn is_digit(c: char) -> bool {
    '0' <= c <= '9'
}

/// The number that a sequence of decimal digits spells.
pub open spec fn spec_digits_value(s: Seq<char>) -> int
    decreases s.len(),
{
    if s.len() == 0 {
        0
    } else {
        10 * spec_digits_value(s.drop_last()) + (s.last() as int - '0' as int)
    }
}

/// The replica index that a key of an indexed replica table names: a key made
/// of decimal digits names the number they spell; any other key names none.
pub open spec fn spec_index_key(k: Seq<char>) -> Option<int> {
    if k.len() > 0 && (forall|i: int| 0 <= i < k.len() ==> is_digit(#[trigger] k[i])) {
        Some(spec_digits_value(k))
    } else {
        None
    }
}

/// The index that a key of a replica table names, where it names one below
/// `usize::MAX` (see `spec_index_key`).
pub open spec fn spec_key_rank(k: Seq<char>) -> Option<usize> {
    match spec_index_key(k) {
        Some(x) => if 0 <= x < usize::MAX {
            Some(x as usize)
        } else {
            None
        },
        None => None,
    }
}

/// Order of key ranks: indices by number, every index before the keys that name none.
pub open spec fn rank_le(a: Option<usize>, b: Option<usize>) -> bool {
    match (a, b) {
        (Some(x), Some(y)) => x <= y,
        (Some(_), None) => true,
        (None, Some(_)) => false,
        (None, None) => true,
    }
}

/// Entry `a` of the table comes before entry `b`: its key ranks lower, or the
/// keys rank alike and `a` comes first in the table.
pub open spec fn spec_before(entries: Seq<(String, NodeSettings)>, a: int, b: int) -> bool {
    let ra = spec_key_rank(entries[a].0@);
    let rb = spec_key_rank(entries[b].0@);
    (rank_le(ra, rb) && ra != rb) || (ra == rb && a < b)
}

/// `v` lists the values of the entries in the order `p` of their positions,
/// and that order is the table's order by key rank, ties kept in table order.
pub open spec fn spec_index_order(entries: Seq<(String, NodeSettings)>, v: Seq<NodeSettings>, p: Seq<int>) -> bool {
    &&& p.len() == entries.len()
    &&& v.len() == entries.len()
    &&& forall|i: int| 0 <= i < p.len() ==> 0 <= #[trigger] p[i] < entries.len() && v[i] == entries[p[i]].1
    &&& forall|i: int, j: int| 0 <= i < j < p.len() ==> spec_before(entries, #[trigger] p[i], #[trigger] p[j])
}

/// `v` is the replica table `entries` ordered by index: the entries whose keys
/// name an index come first, by that index, the others after them; entries
/// that rank alike keep their order in the table.
pub open spec fn spec_ordered_by_index(entries: Seq<(String, NodeSettings)>, v: Seq<NodeSettings>) -> bool {
    exists|p: Seq<int>| #[trigger] spec_index_order(entries, v, p)
}

/// A strictly increasing sequence of `n` numbers below `n`, from `0` on, is `0, 1, ..., n - 1`.
proof fn lemma_increasing_below_len(s: Seq<int>)
    requires
        forall|i: int, j: int| 0 <= i < j < s.len() ==> #[trigger] s[i] < #[trigger] s[j],
        forall|i: int| 0 <= i < s.len() ==> 0 <= #[trigger] s[i] < s.len(),
    ensures
        forall|i: int| 0 <= i < s.len() ==> #[trigger] s[i] == i,
{
    assert forall|i: int| 0 <= i < s.len() implies #[trigger] s[i] == i by {
        lemma_increasing_lower(s, i);
        lemma_increasing_upper(s, i);
    }
}

proof fn lemma_increasing_lower(s: Seq<int>, i: int)
    requires
        0 <= i < s.len(),
        forall|a: int, b: int| 0 <= a < b < s.len() ==> #[trigger] s[a] < #[trigger] s[b],
        forall|a: int| 0 <= a < s.len() ==> 0 <= #[trigger] s[a] < s.len(),
    ensures
        s[i] >= i,
    decreases i,
{
    if i > 0 {
        lemma_increasing_lower(s, i - 1);
        assert(s[i - 1] < s[i]);
    }
}

proof fn lemma_increasing_upper(s: Seq<int>, i: int)
    requires
        0 <= i < s.len(),
        forall|a: int, b: int| 0 <= a < b < s.len() ==> #[trigger] s[a] < #[trigger] s[b],
        forall|a: int| 0 <= a < s.len() ==> 0 <= #[trigger] s[a] < s.len(),
    ensures
        s[i] <= i,
    decreases s.len() - i,
{
    if i + 1 < s.len() {
        lemma_increasing_upper(s, i + 1);
        assert(s[i] < s[i + 1]);
    }
}

/// A table whose keys name the indices `0..n` (`n` entries, each index once),
/// in any order, lists the replicas by index: item `i` is the value of the
/// entry whose key names `i`. So the index-keyed form of a list gives back that list.
pub proof fn lemma_index_table_lists_by_index(entries: Seq<(String, NodeSettings)>, v: Seq<NodeSettings>)
    requires
        spec_ordered_by_index(entries, v),
        forall|j: int| 0 <= j < entries.len() ==> ((#[trigger] spec_key_rank(entries[j].0@)) matches Some(x) && x
            < entries.len()),
        forall|j1: int, j2: int| 0 <= j1 < j2 < entries.len() ==> #[trigger] spec_key_rank(entries[j1].0@)
            != #[trigger] spec_key_rank(entries[j2].0@),
    ensures
        forall|j: int| 0 <= j < entries.len() ==> v[spec_key_rank(#[trigger] entries[j].0@)->0 as int]
            == entries[j].1,
{
    let p = choose|p: Seq<int>| #[trigger] spec_index_order(entries, v, p);
    let n = entries.len();
    let s = Seq::new(n, |i: int| spec_key_rank(entries[p[i]].0@)->0 as int);
    assert forall|i: int| 0 <= i < s.len() implies 0 <= #[trigger] s[i] < s.len() by {
        assert(0 <= p[i] < n);
        assert(spec_key_rank(entries[p[i]].0@) is Some);
    }
    assert forall|i: int, j: int| 0 <= i < j < s.len() implies #[trigger] s[i] < #[trigger] s[j] by {
        assert(spec_before(entries, p[i], p[j]));
        assert(0 <= p[i] < n && 0 <= p[j] < n);
        assert(spec_key_rank(entries[p[i]].0@) is Some && spec_key_rank(entries[p[j]].0@) is Some);
        if p[i] < p[j] {
            assert(spec_key_rank(entries[p[i]].0@) != spec_key_rank(entries[p[j]].0@));
        } else if p[j] < p[i] {
            assert(spec_key_rank(entries[p[j]].0@) != spec_key_rank(entries[p[i]].0@));
        }
    }
    lemma_increasing_below_len(s);
    assert forall|j: int| 0 <= j < entries.len() implies v[spec_key_rank(#[trigger] entries[j].0@)->0 as int]
        == entries[j].1 by {
        let x = spec_key_rank(entries[j].0@)->0 as int;
        assert(s[x] == x);
        assert(0 <= p[x] < n);
        if p[x] != j {
            if p[x] < j {
                assert(spec_key_rank(entries[p[x]].0@) != spec_key_rank(entries[j].0@));
            } else {
                assert(spec_key_rank(entries[j].0@) != spec_key_rank(entries[p[x]].0@));
            }
        }
    }
}

/// The index that key `k` names, where it is below `bound`.
pub fn index_key(k: &str, bound: usize) -> (r: Option<usize>)
    ensures
        r == (match spec_index_key(k@) {
            Some(x) => if 0 <= x < bound {
                Some(x as usize)
            } else {
                None::<usize>
            },
            None => None::<usize>,
        }),
{
    let len = k.unicode_len();
    if len == 0 || bound == 0 {
        return None;
    }
    assert(k@.take(0) =~= Seq::<char>::empty());
    let mut acc: usize = 0;
    let mut big = false;
    let mut i: usize = 0;
    while i < len
        invariant
            len == k@.len(),
            i <= len,
            forall|j: int| 0 <= j < i ==> is_digit(#[trigger] k@[j]),
            spec_digits_value(k@.take(i as int)) >= 0,
            !big ==> acc == spec_digits_value(k@.take(i as int)) && acc < bound,
            big ==> spec_digits_value(k@.take(i as int)) >= bound,
        decreases len - i,
    {
        let c = k.get_char(i);
        if !('0' <= c && c <= '9') {
            assert(!is_digit(k@[i as int]));
            return None;
        }
        let d = (c as u32 - 48) as u128;
        assert(k@.take(i + 1).drop_last() =~= k@.take(i as int));
        assert(k@.take(i + 1).last() == c);
        assert(d == c as int - '0' as int);
        if !big {
            let next: u128 = acc as u128 * 10 + d;
            if next < bound as u128 {
                acc = next as usize;
            } else {
                big = true;
            }
        }
        i = i + 1;
    }
    assert(k@.take(len as int) =~= k@);
    if big {
        None
    } else {
        Some(acc)
    }
}

/// Whether key rank `a` orders no later than `b`.
fn rank_at_most(a: Option<usize>, b: Option<usize>) -> (r: bool)
    ensures
        r == rank_le(a, b),
{
    match (a, b) {
        (Some(x), Some(y)) => x <= y,
        (Some(_), None) => true,
        (None, Some(_)) => false,
        (None, None) => true,
    }
}

/// The replicas of a table keyed by index (keys `"0"`, `"1"`, ...), ordered by
/// index: the entries whose keys name an index come first, by that index (gaps
/// allowed), then the others; entries that rank alike keep their table order.
pub fn replicas_from_indexed(entries: Vec<(String, NodeSettings)>) -> (r: Vec<NodeSettings>)
    ensures
        spec_ordered_by_index(entries@, r@),
{
    let n = entries.len();
    let mut out: Vec<NodeSettings> = Vec::new();
    let mut ranks: Vec<Option<usize>> = Vec::new();
    let ghost mut p: Seq<int> = Seq::empty();
    let mut i: usize = 0;
    while i < n
        invariant
            n == entries@.len(),
            i <= n,
            out@.len() == i,
            ranks@.len() == i,
            p.len() == i,
            forall|a: int| 0 <= a < i ==> 0 <= #[trigger] p[a] < i && out@[a] == entries@[p[a]].1
                && ranks@[a] == spec_key_rank(entries@[p[a]].0@),
            forall|a: int, b: int| 0 <= a < b < i ==> spec_before(entries@, #[trigger] p[a], #[trigger] p[b]),
        decreases n - i,
    {
        let r = index_key(entries[i].0.as_str(), usize::MAX);
        assert(r == spec_key_rank(entries@[i as int].0@));
        let mut k: usize = i;
        while k > 0 && !rank_at_most(ranks[k - 1], r)
            invariant
                k <= i,
                ranks@.len() == i,
                forall|m: int| k <= m < i ==> !rank_le(#[trigger] ranks@[m], r),
            decreases k,
        {
            k = k - 1;
        }
        let ghost old_p = p;
        let ghost old_ranks = ranks@;
        let item = entries[i].1.clone();
        out.insert(k, item);
        ranks.insert(k, r);
        proof {
            p = p.insert(k as int, i as int);
            assert forall|a: int| 0 <= a < i + 1 implies 0 <= #[trigger] p[a] < i + 1 && out@[a]
                == entries@[p[a]].1 && ranks@[a] == spec_key_rank(entries@[p[a]].0@) by {
                if a < k {
                    assert(p[a] == old_p[a]);
                } else if a > k {
                    assert(p[a] == old_p[a - 1]);
                }
            }
            assert forall|a: int, b: int| 0 <= a < b < i + 1 implies spec_before(
                entries@,
                #[trigger] p[a],
                #[trigger] p[b],
            ) by {
                if a < k && b < k {
                    assert(p[a] == old_p[a] && p[b] == old_p[b]);
                } else if a < k && b == k {
                    assert(p[a] == old_p[a]);
                    assert(rank_le(old_ranks[k - 1], r));
                    if a < k - 1 {
                        assert(spec_before(entries@, old_p[a], old_p[k - 1]));
                    }
                } else if a < k && b > k {
                    assert(p[a] == old_p[a] && p[b] == old_p[b - 1]);
                } else if a == k {
                    assert(p[b] == old_p[b - 1]);
                    assert(!rank_le(old_ranks[b - 1], r));
                } else {
                    assert(p[a] == old_p[a - 1] && p[b] == old_p[b - 1]);
                }
            }
        }
        i = i + 1;
    }
    assert(spec_index_order(entries@, out@, p));
    out
}

/// With `full_sync` set, loading turns on every import option (configuration,
/// DHCP leases, all gravity tables) and leaves `run_gravity` as configured.
pub proof fn lemma_full_sync_imports_everything(s: SyncSettings)
    requires
        s.full_sync,
    ensures
        spec_import_options(spec_normalized_sync(s)).config,
        spec_import_options(spec_normalized_sync(s)).dhcp_leases,
        spec_import_options(spec_normalized_sync(s)).gravity.all_selected(),
        spec_normalized_sync(s).run_gravity == s.run_gravity,
        spec_normalized_sync(s).full_sync,
{
}

/// Without `full_sync`, loading keeps the selected import options as configured.
pub proof fn lemma_selective_sync_kept(s: SyncSettings)
    requires
        !s.full_sync,
    ensures
        spec_normalized_sync(s) == s,
        spec_import_options(spec_normalized_sync(s)) == (TeleporterImportOptions {
            config: s.config,
            dhcp_leases: s.dhcp_leases,
            gravity: s.gravity,
        }),
{
}

/// Applying the `full_sync` rule twice is applying it once.
pub proof fn lemma_normalization_idempotent(s: SyncSettings)
    ensures
        spec_normalized_sync(spec_normalized_sync(s)) == spec_normalized_sync(s),
{
}

} // verus!

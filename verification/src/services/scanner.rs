//! Reading applications back from their compose files and `.env` files, and
//! summarising them.
use vstd::prelude::*;
use crate::models::app::{
    App, DatabaseConfig, NetworkMode, PortMapping, PortProtocol, Service, TraefikRoute, Volume,
};
use crate::models::compose::DockerCompose;
use crate::models::status::{ContainerState, ServiceStatus};
use crate::paths::{file_name, opt_view, path_file_name};
use crate::models::middleware::{from_name_spec, Middleware};
use crate::models::compose::ComposeService;
use crate::text::{
    append_strings,
    char_views, chars_eq, chars_of, contains, decimal, lemma_str_lt_order, lemma_suffix_step, str_less, str_lt, decimal_string, lines, lines_exec, owned,
    string_views, contains_exec, find, find_exec, has_prefix, occurs_at,
    has_prefix_exec, parse_unsigned, parse_unsigned_exec, rfind_char, rfind_char_exec, slice_of,
    split_char, split_char_exec, split_once, split_once_exec, string_of, strip_prefix,
    strip_prefix_exec, strip_suffix, strip_suffix_exec, trim, trim_char, trim_char_exec, trim_exec,
    is_ws, lemma_find_from_occurs, lemma_rfind_char_upto, lemma_trim_end_keeps_prefix, trim_start,
};

verus! {

// ───────────────────────────── `.env` lines ─────────────────────────────

/// The value that the `.env` line `line` gives to `key`: the text after
/// `key=`, trimmed, then stripped of surrounding `"` and then of `'`; no value
/// for blank lines, comments and empty values.
pub open spec fn env_value(line: Seq<char>, key: Seq<char>) -> Option<Seq<char>> {
    let t = trim(line);
    if t.len() == 0 || t[0] == '#' {
        None
    } else {
        match strip_prefix(t, key + "="@) {
            Some(rest) => {
                let v = trim_char(trim_char(trim(rest), '"'), '\'');
                if v.len() == 0 {
                    None
                } else {
                    Some(v)
                }
            },
            None => None,
        }
    }
}

/// Reads the value of `key` from one `.env` line.
pub fn parse_env_var(line: &str, key: &str) -> (r: Option<String>)
    ensures
        r matches Some(v) ==> env_value(line@, key@) == Some(v@),
        r is None ==> env_value(line@, key@) is None,
{
    let l = chars_of(line);
    let t = trim_exec(&l);
    if t.len() == 0 || t[0] == '#' {
        return None;
    }
    let mut prefix = chars_of(key);
    prefix.push('=');
    proof {
        reveal_strlit("=");
        assert(prefix@ =~= key@ + "="@);
    }
    match strip_prefix_exec(&t, &prefix) {
        Some(rest) => {
            let v = trim_exec(&rest);
            let v = trim_char_exec(&v, '"');
            let v = trim_char_exec(&v, '\'');
            if v.len() == 0 {
                None
            } else {
                Some(string_of(&v))
            }
        },
        None => None,
    }
}

// ───────────────────────────── ports ─────────────────────────────

/// The port mapping written as `entry` (`host:container`, the container part
/// possibly ending in `/tcp` or `/udp`); none when there is no `':'` or the
/// host port is not a `u16`. A container port that is not a `u16` reads as 0.
pub open spec fn port_entry(entry: Seq<char>) -> Option<PortMapping> {
    match split_once(entry, ':') {
        Some((h, c)) => match parse_unsigned(h, 65535) {
            Some(host) => match strip_suffix(c, "/udp"@) {
                Some(cu) => Some(
                    PortMapping {
                        host_port: host as u16,
                        container_port: port_or_zero(cu),
                        protocol: PortProtocol::Udp,
                    },
                ),
                None => {
                    let ct = match strip_suffix(c, "/tcp"@) {
                        Some(x) => x,
                        None => c,
                    };
                    Some(
                        PortMapping {
                            host_port: host as u16,
                            container_port: port_or_zero(ct),
                            protocol: PortProtocol::Tcp,
                        },
                    )
                },
            },
            None => None,
        },
        None => None,
    }
}

/// `s` read as a port, 0 when it is not one.
pub open spec fn port_or_zero(s: Seq<char>) -> u16 {
    match parse_unsigned(s, 65535) {
        Some(n) => n as u16,
        None => 0,
    }
}

/// The port mappings written in `entries`, skipping the unreadable ones.
pub open spec fn port_entries(entries: Seq<Seq<char>>) -> Seq<PortMapping>
    decreases entries.len(),
{
    if entries.len() == 0 {
        Seq::empty()
    } else {
        let prev = port_entries(entries.drop_last());
        match port_entry(entries.last()) {
            Some(m) => prev.push(m),
            None => prev,
        }
    }
}

/// The container ports of a list of mappings.
pub open spec fn container_ports(ms: Seq<PortMapping>) -> Seq<u16> {
    ms.map_values(|m: PortMapping| m.container_port)
}

/// The ports entries of a service, as text.
pub open spec fn opt_lines(o: Option<Vec<String>>) -> Seq<Seq<char>> {
    match o {
        Some(v) => v@.map_values(|s: String| s@),
        None => Seq::empty(),
    }
}

/// `s` read as a port, 0 when it is not one.
fn port_or_zero_exec(s: &[char]) -> (r: u16)
    ensures
        r == port_or_zero(s@),
{
    match parse_unsigned_exec(s, 65535) {
        Some(n) => n as u16,
        None => 0,
    }
}

/// Reads one port mapping entry.
fn port_entry_exec(entry: &str) -> (r: Option<PortMapping>)
    ensures
        r == port_entry(entry@),
{
    let e = chars_of(entry);
    match split_once_exec(&e, ':') {
        Some((h, c)) => match parse_unsigned_exec(&h, 65535) {
            Some(host) => {
                let udp = chars_of("/udp");
                match strip_suffix_exec(&c, &udp) {
                    Some(cu) => Some(
                        PortMapping {
                            host_port: host as u16,
                            container_port: port_or_zero_exec(&cu),
                            protocol: PortProtocol::Udp,
                        },
                    ),
                    None => {
                        let tcp = chars_of("/tcp");
                        let ct = match strip_suffix_exec(&c, &tcp) {
                            Some(x) => x,
                            None => c,
                        };
                        Some(
                            PortMapping {
                                host_port: host as u16,
                                container_port: port_or_zero_exec(&ct),
                                protocol: PortProtocol::Tcp,
                            },
                        )
                    },
                }
            },
            None => None,
        },
        None => None,
    }
}

/// The container ports and the port mappings written in a service's `ports`.
pub fn parse_ports(svc: &ComposeService) -> (r: (Vec<u16>, Vec<PortMapping>))
    ensures
        r.1@ == port_entries(opt_lines(svc.ports)),
        r.0@ == container_ports(r.1@),
{
    let mut internal: Vec<u16> = Vec::new();
    let mut mappings: Vec<PortMapping> = Vec::new();
    let ghost entries = opt_lines(svc.ports);
    if let Some(ports) = &svc.ports {
        let mut i: usize = 0;
        while i < ports.len()
            invariant
                i <= ports.len(),
                entries == ports@.map_values(|s: String| s@),
                mappings@ == port_entries(entries.take(i as int)),
                internal@ == container_ports(mappings@),
            decreases ports.len() - i,
        {
            let m = port_entry_exec(ports[i].as_str());
            assert(entries.take(i + 1).drop_last() =~= entries.take(i as int));
            assert(entries.take(i + 1).last() == ports@[i as int]@);
            if let Some(pm) = m {
                internal.push(pm.container_port);
                mappings.push(pm);
                assert(internal@ =~= container_ports(mappings@));
            }
            i = i + 1;
        }
        assert(entries.take(ports.len() as int) =~= entries);
    } else {
        assert(internal@ =~= container_ports(mappings@));
    }
    (internal, mappings)
}

// ───────────────────────────── network mode, database ─────────────────────────────

/// The network mode a service's `network_mode` names: `host`, `bridge`, any
/// other name an external network; bridge when there is none.
pub open spec fn network_mode_of(m: Option<String>, r: NetworkMode) -> bool {
    match m {
        Some(s) => if s@ == "host"@ {
            r == NetworkMode::Host
        } else if s@ == "bridge"@ {
            r == NetworkMode::Bridge
        } else {
            r matches NetworkMode::External(n) && n@ == s@
        },
        None => r == NetworkMode::Bridge,
    }
}

/// The network mode of a service.
pub fn parse_network_mode(svc: &ComposeService) -> (r: NetworkMode)
    ensures
        network_mode_of(svc.network_mode, r),
{
    match &svc.network_mode {
        Some(mode) => {
            let v = chars_of(mode.as_str());
            if chars_eq(&v, &chars_of("host")) {
                NetworkMode::Host
            } else if chars_eq(&v, &chars_of("bridge")) {
                NetworkMode::Bridge
            } else {
                NetworkMode::External(mode.clone())
            }
        },
        None => NetworkMode::Bridge,
    }
}

/// A service attached to the `postgres` network uses the shared PostgreSQL.
pub open spec fn on_postgres_network(svc: ComposeService) -> bool {
    svc.networks matches Some(ns) && exists|i: int| 0 <= i < ns@.len() && ns@[i].0@ == "postgres"@
}

/// The database a service uses: the shared PostgreSQL (with its name, user
/// and creation left blank) when it is on the `postgres` network.
pub fn infer_database_config(svc: &ComposeService) -> (r: DatabaseConfig)
    ensures
        on_postgres_network(*svc) ==> (r matches DatabaseConfig::SharedPostgres { db_name, user, auto_create }
            && db_name@ == Seq::<char>::empty() && user@ == Seq::<char>::empty() && !auto_create),
        !on_postgres_network(*svc) ==> r == DatabaseConfig::NoDatabase,
{
    if let Some(networks) = &svc.networks {
        let pg = chars_of("postgres");
        let mut i: usize = 0;
        while i < networks.len()
            invariant
                i <= networks.len(),
                pg@ == "postgres"@,
                svc.networks == Some(*networks),
                forall|j: int| 0 <= j < i ==> networks@[j].0@ != "postgres"@,
            decreases networks.len() - i,
        {
            if chars_eq(&chars_of(networks[i].0.as_str()), &pg) {
                assert(networks@[i as int].0@ == "postgres"@);
                let ghost ns = svc.networks->0;
                assert(ns == *networks);
                assert(ns@[i as int].0@ == "postgres"@);
                assert(exists|k: int| 0 <= k < ns@.len() && ns@[k].0@ == "postgres"@);
                assert(on_postgres_network(*svc));
                return DatabaseConfig::SharedPostgres {
                    db_name: String::new(),
                    user: String::new(),
                    auto_create: false,
                };
            }
            i = i + 1;
        }
    }
    DatabaseConfig::NoDatabase
}

// ───────────────────────────── volumes ─────────────────────────────

/// A volume as text: host path, container path, read-only.
pub type VolumeView = (Seq<char>, Seq<char>, bool);

/// The view of a volume.
pub open spec fn volume_view(v: Volume) -> VolumeView {
    (v.host_path@, v.container_path@, v.read_only)
}

/// Host paths that are system mounts, not application data.
pub open spec fn is_system_mount(host: Seq<char>) -> bool {
    host == "/etc/localtime"@ || host == "/etc/timezone"@ || host == "/var/run/docker.sock"@
        || has_prefix(host, "./config/"@)
}

/// The volume written as `entry` (`host:container[:options]`, read-only when
/// the options are `ro`); none without a `':'` or for a system mount.
pub open spec fn volume_entry(entry: Seq<char>) -> Option<VolumeView> {
    match split_once(entry, ':') {
        Some((h, rest)) => {
            let host = trim(h);
            let (c, ro) = match split_once(rest, ':') {
                Some((c, o)) => (c, trim(o) == "ro"@),
                None => (rest, false),
            };
            if is_system_mount(host) {
                None
            } else {
                Some((host, trim(c), ro))
            }
        },
        None => None,
    }
}

/// The volumes written in `entries`, skipping unreadable ones and system mounts.
pub open spec fn volume_entries(entries: Seq<Seq<char>>) -> Seq<VolumeView>
    decreases entries.len(),
{
    if entries.len() == 0 {
        Seq::empty()
    } else {
        let prev = volume_entries(entries.drop_last());
        match volume_entry(entries.last()) {
            Some(v) => prev.push(v),
            None => prev,
        }
    }
}

/// Reads one volume entry.
fn volume_entry_exec(entry: &str) -> (r: Option<Volume>)
    ensures
        r matches Some(v) ==> volume_entry(entry@) == Some(volume_view(v)),
        r is None ==> volume_entry(entry@) is None,
{
    let e = chars_of(entry);
    match split_once_exec(&e, ':') {
        Some((h, rest)) => {
            let host = trim_exec(&h);
            let (c, ro) = match split_once_exec(&rest, ':') {
                Some((c, o)) => (c, chars_eq(&trim_exec(&o), &chars_of("ro"))),
                None => (rest, false),
            };
            let system = chars_eq(&host, &chars_of("/etc/localtime")) || chars_eq(
                &host,
                &chars_of("/etc/timezone"),
            ) || chars_eq(&host, &chars_of("/var/run/docker.sock")) || has_prefix_exec(
                &host,
                &chars_of("./config/"),
            );
            if system {
                None
            } else {
                Some(
                    Volume {
                        host_path: string_of(&host),
                        container_path: string_of(&trim_exec(&c)),
                        read_only: ro,
                    },
                )
            }
        },
        None => None,
    }
}

/// The volumes of a service, without system mounts.
pub fn parse_volumes(svc: &ComposeService) -> (r: Vec<Volume>)
    ensures
        r@.map_values(|v: Volume| volume_view(v)) == volume_entries(opt_lines(svc.volumes)),
{
    let mut out: Vec<Volume> = Vec::new();
    let ghost entries = opt_lines(svc.volumes);
    if let Some(vols) = &svc.volumes {
        let mut i: usize = 0;
        while i < vols.len()
            invariant
                i <= vols.len(),
                entries == vols@.map_values(|s: String| s@),
                out@.map_values(|v: Volume| volume_view(v)) == volume_entries(entries.take(i as int)),
            decreases vols.len() - i,
        {
            let v = volume_entry_exec(vols[i].as_str());
            assert(entries.take(i + 1).drop_last() =~= entries.take(i as int));
            assert(entries.take(i + 1).last() == vols@[i as int]@);
            let ghost before = out@;
            if let Some(vol) = v {
                out.push(vol);
                assert(out@.map_values(|v: Volume| volume_view(v)) =~= before.map_values(
                    |v: Volume| volume_view(v),
                ).push(volume_view(vol)));
            }
            i = i + 1;
        }
        assert(entries.take(vols.len() as int) =~= entries);
    } else {
        assert(out@.map_values(|v: Volume| volume_view(v)) =~= Seq::<VolumeView>::empty());
    }
    out
}

// ───────────────────────────── keyed tables ─────────────────────────────

/// The first position at or after `i` where `keys` holds `k`.
pub open spec fn first_key_from(keys: Seq<Seq<char>>, k: Seq<char>, i: int) -> Option<int>
    decreases keys.len() - i,
{
    if i < 0 || i >= keys.len() {
        None
    } else if keys[i] == k {
        Some(i)
    } else {
        first_key_from(keys, k, i + 1)
    }
}

/// The first position where `keys` holds `k`.
pub open spec fn first_key(keys: Seq<Seq<char>>, k: Seq<char>) -> Option<int> {
    first_key_from(keys, k, 0)
}

/// The keys of a table after setting `k`: unchanged when present, else `k` appended.
pub open spec fn put_keys(keys: Seq<Seq<char>>, k: Seq<char>) -> Seq<Seq<char>> {
    match first_key(keys, k) {
        Some(_) => keys,
        None => keys.push(k),
    }
}

/// The values of a table after setting `k` to `v`.
pub open spec fn put_vals<V>(keys: Seq<Seq<char>>, vals: Seq<V>, k: Seq<char>, v: V) -> Seq<V> {
    match first_key(keys, k) {
        Some(i) => vals.update(i, v),
        None => vals.push(v),
    }
}

/// The value a table holds for `k`.
pub open spec fn get_val<V>(keys: Seq<Seq<char>>, vals: Seq<V>, k: Seq<char>) -> Option<V> {
    match first_key(keys, k) {
        Some(i) => Some(vals[i]),
        None => None,
    }
}

/// A position reported by `first_key_from` holds the key.
proof fn lemma_first_key_from(keys: Seq<Seq<char>>, k: Seq<char>, i: int)
    requires
        0 <= i,
    ensures
        first_key_from(keys, k, i) matches Some(j) ==> i <= j < keys.len() && keys[j] == k,
        first_key_from(keys, k, i) is None ==> forall|j: int| i <= j < keys.len() ==> keys[j] != k,
    decreases keys.len() - i,
{
    if 0 <= i < keys.len() && keys[i] != k {
        lemma_first_key_from(keys, k, i + 1);
    }
}

/// A list of texts.
pub type TextList = Vec<Vec<char>>;

/// A list of flags.
pub type FlagList = Vec<bool>;

/// The first position where `keys` holds `k`.
fn first_key_exec(keys: &Vec<Vec<char>>, k: &[char]) -> (r: Option<usize>)
    ensures
        r matches Some(i) ==> first_key(char_views(keys@), k@) == Some(i as int) && i < keys.len(),
        r is None ==> first_key(char_views(keys@), k@) is None,
{
    let ghost ks = char_views(keys@);
    let mut i: usize = 0;
    while i < keys.len()
        invariant
            i <= keys.len(),
            ks == char_views(keys@),
            first_key(ks, k@) == first_key_from(ks, k@, i as int),
        decreases keys.len() - i,
    {
        if chars_eq(&keys[i], k) {
            return Some(i);
        }
        i = i + 1;
    }
    None
}

/// Sets `k` to the text `v` in a table.
fn put_text(keys: &mut TextList, vals: &mut TextList, k: Vec<char>, v: Vec<char>)
    requires
        old(keys).len() == old(vals).len(),
    ensures
        final(keys).len() == final(vals).len(),
        char_views(final(keys)@) == put_keys(char_views(old(keys)@), k@),
        char_views(final(vals)@) == put_vals(char_views(old(keys)@), char_views(old(vals)@), k@, v@),
{
    let ghost k0 = char_views(keys@);
    let ghost v0 = char_views(vals@);
    match first_key_exec(keys, &k) {
        Some(i) => {
            vals.set(i, v);
            assert(char_views(vals@) =~= v0.update(i as int, v@));
        },
        None => {
            keys.push(k);
            vals.push(v);
            assert(char_views(keys@) =~= k0.push(k@));
            assert(char_views(vals@) =~= v0.push(v@));
        },
    }
}

/// Sets `k` to the given flag in a table.
fn put_flag(keys: &mut TextList, bits: &mut FlagList, k: Vec<char>, flag: bool)
    requires
        old(keys).len() == old(bits).len(),
    ensures
        final(keys).len() == final(bits).len(),
        char_views(final(keys)@) == put_keys(char_views(old(keys)@), k@),
        put_vals(char_views(old(keys)@), old(bits)@, k@, flag) == final(bits)@,
{
    let ghost k0 = char_views(keys@);
    match first_key_exec(keys, &k) {
        Some(i) => {
            bits.set(i, flag);
        },
        None => {
            keys.push(k);
            bits.push(flag);
            assert(char_views(keys@) =~= k0.push(k@));
        },
    }
}

// ───────────────────────────── Traefik routes ─────────────────────────────

/// The text between `open` and the next `` `) `` in `value` (trimmed), as in
/// `Host(...)` or `PathPrefix(...)`.
pub open spec fn extract_between(value: Seq<char>, open: Seq<char>) -> Option<Seq<char>> {
    let v = trim(value);
    match find(v, open) {
        Some(start) => {
            let rest = v.subrange(start + open.len(), v.len() as int);
            match find(rest, "`)"@) {
                Some(end) => Some(rest.subrange(0, end)),
                None => None,
            }
        },
        None => None,
    }
}

/// The text between `open` and the next `` `) `` in `value`.
fn extract_between_exec(value: &[char], open: &[char]) -> (r: Option<Vec<char>>)
    ensures
        r matches Some(x) ==> extract_between(value@, open@) == Some(x@),
        r is None ==> extract_between(value@, open@) is None,
{
    let v = trim_exec(value);
    match find_exec(&v, open) {
        Some(start) => {
            proof {
                crate::text::lemma_find_from_occurs(v@, open@, 0);
                assert(occurs_at(v@, open@, start as int));
                assert(start + open@.len() <= v@.len());
            }
            assert(start + open.len() <= v.len());
            let rest = slice_of(&v, start + open.len(), v.len());
            match find_exec(&rest, &chars_of("`)")) {
                Some(end) => {
                    proof {
                        crate::text::lemma_find_from_occurs(rest@, "`)"@, 0);
                    }
                    Some(slice_of(&rest, 0, end))
                },
                None => None,
            }
        },
        None => None,
    }
}

/// The host of a Traefik rule: what stands in `` Host(`...`) ``.
pub fn extract_host(value: &str) -> (r: Option<String>)
    ensures
        r matches Some(x) ==> extract_between(value@, "Host(`"@) == Some(x@),
        r is None ==> extract_between(value@, "Host(`"@) is None,
{
    match extract_between_exec(&chars_of(value), &chars_of("Host(`")) {
        Some(x) => Some(string_of(&x)),
        None => None,
    }
}

/// The path prefix of a Traefik rule: what stands in `` PathPrefix(`...`) ``.
pub fn extract_path_prefix(value: &str) -> (r: Option<String>)
    ensures
        r matches Some(x) ==> extract_between(value@, "PathPrefix(`"@) == Some(x@),
        r is None ==> extract_between(value@, "PathPrefix(`"@) is None,
{
    match extract_between_exec(&chars_of(value), &chars_of("PathPrefix(`")) {
        Some(x) => Some(string_of(&x)),
        None => None,
    }
}

/// A `traefik.http.routers.<router>.<property>=<value>` label, split into
/// router, property and value (key and value trimmed, the router being
/// everything before the key's last `'.'`).
pub open spec fn router_label(label: Seq<char>) -> Option<(Seq<char>, Seq<char>, Seq<char>)> {
    match strip_prefix(trim(label), "traefik.http.routers."@) {
        Some(rest) => match split_once(rest, '=') {
            Some((k, v)) => {
                let key = trim(k);
                match rfind_char(key, '.') {
                    Some(pos) => Some(
                        (key.subrange(0, pos), key.subrange(pos + 1, key.len() as int), trim(v)),
                    ),
                    None => None,
                }
            },
            None => None,
        },
        None => None,
    }
}

/// Hosts, path prefixes and TLS bits by router: keys and values of each table.
pub type RouterTables = (
    Seq<Seq<char>>,
    Seq<Seq<char>>,
    Seq<Seq<char>>,
    Seq<Seq<char>>,
    Seq<Seq<char>>,
    Seq<bool>,
);

/// The tables after reading one label: a `rule` sets the router's host and
/// path prefix when it names them; `tls` sets whether TLS is on.
pub open spec fn router_step(t: RouterTables, label: Seq<char>) -> RouterTables {
    match router_label(label) {
        Some((router, prop, value)) => if prop == "rule"@ {
            let t1 = match extract_between(value, "Host(`"@) {
                Some(h) => (put_keys(t.0, router), put_vals(t.0, t.1, router, h), t.2, t.3, t.4, t.5),
                None => t,
            };
            match extract_between(value, "PathPrefix(`"@) {
                Some(p) => (t1.0, t1.1, put_keys(t1.2, router), put_vals(t1.2, t1.3, router, p), t1.4, t1.5),
                None => t1,
            }
        } else if prop == "tls"@ {
            (t.0, t.1, t.2, t.3, put_keys(t.4, router), put_vals(t.4, t.5, router, value == "true"@))
        } else {
            t
        },
        None => t,
    }
}

/// The tables after reading `labels` in order.
pub open spec fn router_tables(labels: Seq<Seq<char>>) -> RouterTables
    decreases labels.len(),
{
    if labels.len() == 0 {
        (Seq::empty(), Seq::empty(), Seq::empty(), Seq::empty(), Seq::empty(), Seq::empty())
    } else {
        router_step(router_tables(labels.drop_last()), labels.last())
    }
}

/// A route as text: host, path prefix, TLS.
pub type RouteView = (Seq<char>, Option<Seq<char>>, bool);

/// The view of a route.
pub open spec fn route_view(r: TraefikRoute) -> RouteView {
    (r.subdomain@, crate::paths::opt_view(r.path_prefix), r.tls)
}

/// Routers of the Traefik dashboard itself are not application routes.
pub open spec fn is_dashboard_router(name: Seq<char>) -> bool {
    contains(name, "dashboard"@) || contains(name, "api@internal"@)
}

/// The routes of the first `n` routers that have a host, in the order the
/// routers first got one, skipping dashboard routers; TLS is on unless a
/// `tls` label turned it off.
pub open spec fn routes_upto(t: RouterTables, n: int) -> Seq<RouteView>
    decreases n,
{
    if n <= 0 {
        Seq::empty()
    } else {
        let prev = routes_upto(t, n - 1);
        let router = t.0[n - 1];
        if is_dashboard_router(router) {
            prev
        } else {
            prev.push(
                (
                    t.1[n - 1],
                    get_val(t.2, t.3, router),
                    match get_val(t.4, t.5, router) {
                        Some(b) => b,
                        None => true,
                    },
                ),
            )
        }
    }
}

/// The routes that the labels of a service define.
pub open spec fn routes_of_labels(labels: Seq<Seq<char>>) -> Seq<RouteView> {
    let t = router_tables(labels);
    routes_upto(t, t.0.len() as int)
}

/// Splits a router label.
fn router_label_exec(label: &str) -> (r: Option<(Vec<char>, Vec<char>, Vec<char>)>)
    ensures
        r matches Some(x) ==> router_label(label@) == Some((x.0@, x.1@, x.2@)),
        r is None ==> router_label(label@) is None,
{
    let t = trim_exec(&chars_of(label));
    match strip_prefix_exec(&t, &chars_of("traefik.http.routers.")) {
        Some(rest) => match split_once_exec(&rest, '=') {
            Some((k, v)) => {
                let key = trim_exec(&k);
                match rfind_char_exec(&key, '.') {
                    Some(pos) => Some(
                        (slice_of(&key, 0, pos), slice_of(&key, pos + 1, key.len()), trim_exec(&v)),
                    ),
                    None => None,
                }
            },
            None => None,
        },
        None => None,
    }
}

/// `label` is a rule label of `router` whose `Host(...)` names `host`.
pub open spec fn host_rule(label: Seq<char>, router: Seq<char>, host: Seq<char>) -> bool {
    &&& router_label(label) matches Some((r, p, v))
    &&& r == router
    &&& p == "rule"@
    &&& extract_between(v, "Host(`"@) == Some(host)
}

/// Some label of `labels` is a rule label of `router` naming `host`.
pub open spec fn has_host_rule(labels: Seq<Seq<char>>, router: Seq<char>, host: Seq<char>) -> bool {
    exists|i: int| 0 <= i < labels.len() && #[trigger] host_rule(labels[i], router, host)
}

/// Each router of the tables got its host from one of the labels.
proof fn lemma_router_hosts_from_labels(labels: Seq<Seq<char>>)
    ensures
        router_tables(labels).0.len() == router_tables(labels).1.len(),
        forall|k: int|
            0 <= k < router_tables(labels).0.len() ==> has_host_rule(
                labels,
                #[trigger] router_tables(labels).0[k],
                router_tables(labels).1[k],
            ),
    decreases labels.len(),
{
    if labels.len() > 0 {
        let pre = labels.drop_last();
        let l = labels.last();
        let last = labels.len() - 1;
        lemma_router_hosts_from_labels(pre);
        let t = router_tables(pre);
        let t2 = router_tables(labels);
        assert(t2 == router_step(t, l));
        assert forall|k: int| 0 <= k < t.0.len() implies has_host_rule(labels, t.0[k], t.1[k]) by {
            assert(has_host_rule(pre, t.0[k], t.1[k]));
            let i = choose|i: int| 0 <= i < pre.len() && #[trigger] host_rule(pre[i], t.0[k], t.1[k]);
            assert(labels[i] == pre[i]);
        }
        match router_label(l) {
            Some((router, prop, value)) => {
                if prop == "rule"@ {
                    match extract_between(value, "Host(`"@) {
                        Some(h) => {
                            assert(host_rule(labels[last], router, h));
                            lemma_first_key_from(t.0, router, 0);
                            assert forall|k: int| 0 <= k < t2.0.len() implies has_host_rule(labels, #[trigger] t2.0[k], t2.1[k]) by {
                                match first_key(t.0, router) {
                                    Some(i0) => {
                                        if k != i0 {
                                            assert(t2.0[k] == t.0[k] && t2.1[k] == t.1[k]);
                                        }
                                    },
                                    None => {
                                        if k < t.0.len() {
                                            assert(t2.0[k] == t.0[k] && t2.1[k] == t.1[k]);
                                        }
                                    },
                                }
                            }
                        },
                        None => {},
                    }
                }
            },
            None => {},
        }
    }
}

/// Each route among those of the first `n` routers has the host of one of
/// them, which is not a dashboard router.
proof fn lemma_routes_upto_hosts(t: RouterTables, n: int, j: int)
    requires
        0 <= n <= t.0.len(),
        t.0.len() == t.1.len(),
        0 <= j < routes_upto(t, n).len(),
    ensures
        exists|k: int| 0 <= k < n && !is_dashboard_router(#[trigger] t.0[k]) && routes_upto(t, n)[j].0 == t.1[k],
    decreases n,
{
    let prev = routes_upto(t, n - 1);
    if j < prev.len() {
        lemma_routes_upto_hosts(t, n - 1, j);
        let k = choose|k: int| 0 <= k < n - 1 && !is_dashboard_router(#[trigger] t.0[k]) && prev[j].0 == t.1[k];
        assert(routes_upto(t, n)[j] == prev[j]);
    } else {
        assert(!is_dashboard_router(t.0[n - 1]));
    }
}

/// Every route read from labels has as host what the `Host(...)` of a rule
/// label names, the label of a router that is not the dashboard's.
pub proof fn lemma_route_hosts_from_rules(labels: Seq<Seq<char>>, j: int)
    requires
        0 <= j < routes_of_labels(labels).len(),
    ensures
        exists|router: Seq<char>|
            !is_dashboard_router(router) && #[trigger] has_host_rule(labels, router, routes_of_labels(labels)[j].0),
{
    let t = router_tables(labels);
    lemma_router_hosts_from_labels(labels);
    lemma_routes_upto_hosts(t, t.0.len() as int, j);
    let k = choose|k: int|
        0 <= k < t.0.len() && !is_dashboard_router(#[trigger] t.0[k]) && routes_of_labels(labels)[j].0 == t.1[k];
    assert(has_host_rule(labels, t.0[k], t.1[k]));
}

/// A label `traefik.http.routers.<d><rest>`, where `d` has no `=` and no `.`
/// and neither starts nor ends with white space, names a router whose name
/// starts with `d`.
pub proof fn lemma_router_name_prefix(label: Seq<char>, d: Seq<char>, rest: Seq<char>)
    requires
        label == "traefik.http.routers."@ + d + rest,
        trim(label) == label,
        d.len() > 0,
        !is_ws(d[0]),
        !is_ws(d.last()),
        forall|k: int| 0 <= k < d.len() ==> d[k] != '=' && d[k] != '.',
    ensures
        router_label(label) matches Some((r, p, v)) ==> has_prefix(r, d),
{
    reveal_strlit("traefik.http.routers.");
    let pre = "traefik.http.routers."@;
    assert(label.subrange(0, pre.len() as int) =~= pre);
    let q = label.subrange(pre.len() as int, label.len() as int);
    assert(q =~= d + rest);
    assert(strip_prefix(trim(label), pre) == Some(q));
    let eq = seq!['='];
    lemma_find_from_occurs(q, eq, 0);
    if let Some(i) = find(q, eq) {
        assert(q.subrange(i, i + 1)[0] == q[i]);
        assert(i >= d.len()) by {
            if i < d.len() {
                assert(q[i] == d[i]);
            }
        }
        let k0 = q.subrange(0, i);
        assert(k0.subrange(0, d.len() as int) =~= d);
        assert(k0[0] == d[0]);
        assert(trim_start(k0) == k0);
        lemma_trim_end_keeps_prefix(k0, d);
        let key = trim(k0);
        lemma_rfind_char_upto(key, '.', key.len() as int);
        if let Some(pos) = rfind_char(key, '.') {
            assert(pos >= d.len()) by {
                if pos < d.len() {
                    assert(key[pos] == key.subrange(0, d.len() as int)[pos]);
                }
            }
            assert(key.subrange(0, pos).subrange(0, d.len() as int) =~= d);
        }
    }
}

/// `label` is a `tls` label of `router` whose value is not `true`.
pub open spec fn tls_off_label(label: Seq<char>, router: Seq<char>) -> bool {
    &&& router_label(label) matches Some((r, p, v))
    &&& r == router
    &&& p == "tls"@
    &&& v != "true"@
}

/// Some label of `labels` turns TLS off for `router`.
pub open spec fn has_tls_off(labels: Seq<Seq<char>>, router: Seq<char>) -> bool {
    exists|i: int| 0 <= i < labels.len() && #[trigger] tls_off_label(labels[i], router)
}

/// Each router whose TLS the tables record as off got it from a label.
proof fn lemma_router_tls_from_labels(labels: Seq<Seq<char>>)
    ensures
        router_tables(labels).4.len() == router_tables(labels).5.len(),
        forall|k: int|
            0 <= k < router_tables(labels).4.len() && !router_tables(labels).5[k] ==> has_tls_off(
                labels,
                #[trigger] router_tables(labels).4[k],
            ),
    decreases labels.len(),
{
    if labels.len() > 0 {
        let pre = labels.drop_last();
        let l = labels.last();
        let last = labels.len() - 1;
        lemma_router_tls_from_labels(pre);
        let t = router_tables(pre);
        let t2 = router_tables(labels);
        assert(t2 == router_step(t, l));
        assert forall|k: int| 0 <= k < t.4.len() && !t.5[k] implies has_tls_off(labels, t.4[k]) by {
            assert(has_tls_off(pre, t.4[k]));
            let i = choose|i: int| 0 <= i < pre.len() && #[trigger] tls_off_label(pre[i], t.4[k]);
            assert(labels[i] == pre[i]);
        }
        match router_label(l) {
            Some((router, prop, value)) => {
                if prop == "tls"@ {
                    lemma_first_key_from(t.4, router, 0);
                    if value != "true"@ {
                        assert(tls_off_label(labels[last], router));
                    }
                    assert forall|k: int| 0 <= k < t2.4.len() && !t2.5[k] implies has_tls_off(labels, #[trigger] t2.4[k]) by {
                        match first_key(t.4, router) {
                            Some(i0) => {
                                if k != i0 {
                                    assert(t2.4[k] == t.4[k] && t2.5[k] == t.5[k]);
                                }
                            },
                            None => {
                                if k < t.4.len() {
                                    assert(t2.4[k] == t.4[k] && t2.5[k] == t.5[k]);
                                }
                            },
                        }
                    }
                }
            },
            None => {},
        }
    }
}

/// Each route among those of the first `n` routers has the host of one of
/// them, not a dashboard router, and TLS on unless the tables turned it off
/// for that router.
proof fn lemma_routes_upto_router(t: RouterTables, n: int, j: int)
    requires
        0 <= n <= t.0.len(),
        t.0.len() == t.1.len(),
        0 <= j < routes_upto(t, n).len(),
    ensures
        exists|k: int|
            0 <= k < n && !is_dashboard_router(#[trigger] t.0[k]) && routes_upto(t, n)[j].0 == t.1[k]
                && routes_upto(t, n)[j].2 == match get_val(t.4, t.5, t.0[k]) {
                Some(b) => b,
                None => true,
            },
    decreases n,
{
    let prev = routes_upto(t, n - 1);
    if j < prev.len() {
        lemma_routes_upto_router(t, n - 1, j);
        assert(routes_upto(t, n)[j] == prev[j]);
    } else {
        assert(!is_dashboard_router(t.0[n - 1]));
    }
}

/// TLS is on for every route unless a `tls` label turns it off: a route read
/// with TLS off comes from a router whose rule gives the route's host and
/// that has a `tls` label with a value other than `true`.
pub proof fn lemma_route_tls_off_only_by_label(labels: Seq<Seq<char>>, j: int)
    requires
        0 <= j < routes_of_labels(labels).len(),
        !routes_of_labels(labels)[j].2,
    ensures
        exists|router: Seq<char>|
            #[trigger] has_host_rule(labels, router, routes_of_labels(labels)[j].0) && has_tls_off(labels, router),
{
    let t = router_tables(labels);
    lemma_router_hosts_from_labels(labels);
    lemma_router_tls_from_labels(labels);
    lemma_routes_upto_router(t, t.0.len() as int, j);
    let k = choose|k: int|
        0 <= k < t.0.len() && !is_dashboard_router(#[trigger] t.0[k]) && routes_of_labels(labels)[j].0 == t.1[k]
            && routes_of_labels(labels)[j].2 == match get_val(t.4, t.5, t.0[k]) {
            Some(b) => b,
            None => true,
        };
    lemma_first_key_from(t.4, t.0[k], 0);
    let i = first_key(t.4, t.0[k])->0;
    assert(t.4[i] == t.0[k] && !t.5[i]);
    assert(has_tls_off(labels, t.4[i]));
    assert(has_host_rule(labels, t.0[k], t.1[k]));
}

/// A service whose labels hold no `tls` label that turns TLS off has TLS on
/// for every route.
pub proof fn lemma_routes_tls_on_by_default(labels: Seq<Seq<char>>)
    requires
        forall|i: int, router: Seq<char>| 0 <= i < labels.len() ==> !#[trigger] tls_off_label(labels[i], router),
    ensures
        forall|j: int| 0 <= j < routes_of_labels(labels).len() ==> #[trigger] routes_of_labels(labels)[j].2,
{
    assert forall|j: int| 0 <= j < routes_of_labels(labels).len() implies #[trigger] routes_of_labels(labels)[j].2 by {
        if !routes_of_labels(labels)[j].2 {
            lemma_route_tls_off_only_by_label(labels, j);
        }
    }
}

/// Routers of the dashboard give no route: when every router that a rule
/// label gives a host is a dashboard router (its name holds `dashboard` or
/// `api@internal`), the labels define no route at all.
pub proof fn lemma_dashboard_routers_give_no_routes(labels: Seq<Seq<char>>)
    requires
        forall|router: Seq<char>, host: Seq<char>|
            #[trigger] has_host_rule(labels, router, host) ==> is_dashboard_router(router),
    ensures
        routes_of_labels(labels).len() == 0,
{
    if routes_of_labels(labels).len() > 0 {
        lemma_route_hosts_from_rules(labels, 0);
    }
}

/// The Traefik routes defined by a service's labels.
pub fn parse_traefik_routes(svc: &ComposeService) -> (r: Vec<TraefikRoute>)
    ensures
        r@.map_values(|x: TraefikRoute| route_view(x)) == routes_of_labels(opt_lines(svc.labels)),
{
    let ghost labels = opt_lines(svc.labels);
    let mut hk: Vec<Vec<char>> = Vec::new();
    let mut hv: Vec<Vec<char>> = Vec::new();
    let mut pk: Vec<Vec<char>> = Vec::new();
    let mut pv: Vec<Vec<char>> = Vec::new();
    let mut tk: Vec<Vec<char>> = Vec::new();
    let mut tv: Vec<bool> = Vec::new();
    let empty: Vec<String> = Vec::new();
    let ls = match &svc.labels {
        Some(l) => l,
        None => &empty,
    };
    assert(labels == ls@.map_values(|s: String| s@));
    let mut i: usize = 0;
    assert(char_views(hk@) =~= Seq::<Seq<char>>::empty());
    assert(char_views(hv@) =~= Seq::<Seq<char>>::empty());
    assert(char_views(pk@) =~= Seq::<Seq<char>>::empty());
    assert(char_views(pv@) =~= Seq::<Seq<char>>::empty());
    assert(char_views(tk@) =~= Seq::<Seq<char>>::empty());
    while i < ls.len()
        invariant
            i <= ls.len(),
            labels == ls@.map_values(|s: String| s@),
            hk.len() == hv.len(),
            pk.len() == pv.len(),
            tk.len() == tv.len(),
            router_tables(labels.take(i as int)) == (
                char_views(hk@),
                char_views(hv@),
                char_views(pk@),
                char_views(pv@),
                char_views(tk@),
                tv@,
            ),
        decreases ls.len() - i,
    {
        assert(labels.take(i + 1).drop_last() =~= labels.take(i as int));
        assert(labels.take(i + 1).last() == ls@[i as int]@);
        let ghost t0 = router_tables(labels.take(i as int));
        let ghost lab = ls@[i as int]@;
        if let Some((router, prop, value)) = router_label_exec(ls[i].as_str()) {
            if chars_eq(&prop, &chars_of("rule")) {
                let hr = slice_of(&router, 0, router.len());
                assert(hr@ =~= router@);
                let hh = extract_between_exec(&value, &chars_of("Host(`"));
                if let Some(h) = hh {
                    put_text(&mut hk, &mut hv, hr, h);
                }
                let ghost t1 = (char_views(hk@), char_views(hv@), char_views(pk@), char_views(pv@), char_views(tk@), tv@);
                assert(t1 == match extract_between(value@, "Host(`"@) {
                    Some(h) => (put_keys(t0.0, router@), put_vals(t0.0, t0.1, router@, h), t0.2, t0.3, t0.4, t0.5),
                    None => t0,
                });
                let pr = slice_of(&router, 0, router.len());
                assert(pr@ =~= router@);
                if let Some(p) = extract_between_exec(&value, &chars_of("PathPrefix(`")) {
                    put_text(&mut pk, &mut pv, pr, p);
                }
                assert(router_step(t0, lab) == (char_views(hk@), char_views(hv@), char_views(pk@), char_views(pv@), char_views(tk@), tv@));
            } else if chars_eq(&prop, &chars_of("tls")) {
                let on = chars_eq(&value, &chars_of("true"));
                put_flag(&mut tk, &mut tv, router, on);
                assert(router_step(t0, lab) == (char_views(hk@), char_views(hv@), char_views(pk@), char_views(pv@), char_views(tk@), tv@));
            } else {
                assert(router_step(t0, lab) == t0);
            }
        } else {
            assert(router_step(t0, lab) == t0);
        }
        i = i + 1;
    }
    assert(labels.take(ls.len() as int) =~= labels);
    let ghost t = router_tables(labels);
    let mut routes: Vec<TraefikRoute> = Vec::new();
    let mut j: usize = 0;
    while j < hk.len()
        invariant
            j <= hk.len() == hv.len(),
            pk.len() == pv.len(),
            tk.len() == tv.len(),
            t == (char_views(hk@), char_views(hv@), char_views(pk@), char_views(pv@), char_views(tk@), tv@),
            routes@.map_values(|x: TraefikRoute| route_view(x)) == routes_upto(t, j as int),
        decreases hk.len() - j,
    {
        let router = &hk[j];
        let ghost before = routes@;
        let skip = contains_exec(router, &chars_of("dashboard")) || contains_exec(
            router,
            &chars_of("api@internal"),
        );
        if !skip {
            let path_prefix = match first_key_exec(&pk, router) {
                Some(k) => Some(string_of(&pv[k])),
                None => None,
            };
            let tls = match first_key_exec(&tk, router) {
                Some(k) => tv[k],
                None => true,
            };
            let route = TraefikRoute { subdomain: string_of(&hv[j]), path_prefix, tls };
            routes.push(route);
            assert(routes@.map_values(|x: TraefikRoute| route_view(x)) =~= before.map_values(
                |x: TraefikRoute| route_view(x),
            ).push(route_view(route)));
        }
        j = j + 1;
    }
    routes
}

// ───────────────────────────── middlewares ─────────────────────────────

/// The comma-separated middleware references of a label
/// `<key>.middlewares=<list>` (key not a dashboard router); none otherwise.
pub open spec fn middleware_refs(label: Seq<char>) -> Seq<Seq<char>> {
    let t = trim(label);
    if !contains(t, ".middlewares="@) {
        Seq::empty()
    } else {
        match split_once(t, '=') {
            Some((k, v)) => if is_dashboard_router(trim(k)) {
                Seq::empty()
            } else {
                split_char(trim(v), ',')
            },
            None => Seq::empty(),
        }
    }
}

/// `acc` extended by the middlewares that `refs` name, each at most once.
pub open spec fn add_refs(acc: Seq<Middleware>, refs: Seq<Seq<char>>) -> Seq<Middleware>
    decreases refs.len(),
{
    if refs.len() == 0 {
        acc
    } else {
        let a = add_refs(acc, refs.drop_last());
        match from_name_spec(trim(refs.last())) {
            Some(m) => if a.contains(m) {
                a
            } else {
                a.push(m)
            },
            None => a,
        }
    }
}

/// The middlewares referenced by `labels`, in order of first reference.
pub open spec fn middlewares_of_labels(labels: Seq<Seq<char>>) -> Seq<Middleware>
    decreases labels.len(),
{
    if labels.len() == 0 {
        Seq::empty()
    } else {
        add_refs(middlewares_of_labels(labels.drop_last()), middleware_refs(labels.last()))
    }
}

/// The middleware references of one label.
fn middleware_refs_exec(label: &str) -> (r: Vec<Vec<char>>)
    ensures
        char_views(r@) == middleware_refs(label@),
{
    let t = trim_exec(&chars_of(label));
    if !contains_exec(&t, &chars_of(".middlewares=")) {
        let r: Vec<Vec<char>> = Vec::new();
        assert(char_views(r@) =~= Seq::<Seq<char>>::empty());
        return r;
    }
    match split_once_exec(&t, '=') {
        Some((k, v)) => {
            let key = trim_exec(&k);
            if contains_exec(&key, &chars_of("dashboard")) || contains_exec(
                &key,
                &chars_of("api@internal"),
            ) {
                let r: Vec<Vec<char>> = Vec::new();
                assert(char_views(r@) =~= Seq::<Seq<char>>::empty());
                r
            } else {
                split_char_exec(&trim_exec(&v), ',')
            }
        },
        None => {
            let r: Vec<Vec<char>> = Vec::new();
            assert(char_views(r@) =~= Seq::<Seq<char>>::empty());
            r
        },
    }
}

/// The Traefik file middlewares a service's labels reference.
pub fn parse_middlewares(svc: &ComposeService) -> (r: Vec<Middleware>)
    ensures
        r@ == middlewares_of_labels(opt_lines(svc.labels)),
{
    let ghost labels = opt_lines(svc.labels);
    let empty: Vec<String> = Vec::new();
    let ls = match &svc.labels {
        Some(l) => l,
        None => &empty,
    };
    assert(labels == ls@.map_values(|s: String| s@));
    let mut result: Vec<Middleware> = Vec::new();
    let mut i: usize = 0;
    while i < ls.len()
        invariant
            i <= ls.len(),
            labels == ls@.map_values(|s: String| s@),
            result@ == middlewares_of_labels(labels.take(i as int)),
        decreases ls.len() - i,
    {
        assert(labels.take(i + 1).drop_last() =~= labels.take(i as int));
        assert(labels.take(i + 1).last() == ls@[i as int]@);
        let refs = middleware_refs_exec(ls[i].as_str());
        let ghost acc = result@;
        let ghost rs = char_views(refs@);
        let mut j: usize = 0;
        while j < refs.len()
            invariant
                j <= refs.len(),
                rs == char_views(refs@),
                result@ == add_refs(acc, rs.take(j as int)),
            decreases refs.len() - j,
        {
            assert(rs.take(j + 1).drop_last() =~= rs.take(j as int));
            let part = trim_exec(&refs[j]);
            let name = string_of(&part);
            if let Some(mw) = Middleware::from_name(name.as_str()) {
                let mut present = false;
                let mut k: usize = 0;
                while k < result.len()
                    invariant
                        k <= result.len(),
                        present == exists|m: int| 0 <= m < k && result@[m] == mw,
                    decreases result.len() - k,
                {
                    if result[k] == mw {
                        present = true;
                    }
                    k = k + 1;
                }
                if !present {
                    result.push(mw);
                }
            }
            j = j + 1;
        }
        assert(rs.take(refs.len() as int) =~= rs);
        i = i + 1;
    }
    assert(labels.take(ls.len() as int) =~= labels);
    result
}

// ───────────────────────────── services and applications ─────────────────────────────

/// The views of an optional list of strings.
pub open spec fn opt_strs_view(o: Option<Vec<String>>) -> Option<Seq<Seq<char>>> {
    match o {
        Some(v) => Some(v@.map_values(|s: String| s@)),
        None => None,
    }
}

/// `r` is the service that the compose entry `svc` named `name` describes.
pub open spec fn service_from(name: Seq<char>, svc: ComposeService, r: Service) -> bool {
    &&& r.name@ == name
    &&& r.image@ == match svc.image {
        Some(i) => i@,
        None => Seq::<char>::empty(),
    }
    &&& opt_strs_view(r.command) == opt_strs_view(svc.command)
    &&& r.port_mappings@ == port_entries(opt_lines(svc.ports))
    &&& r.internal_ports@ == container_ports(r.port_mappings@)
    &&& network_mode_of(svc.network_mode, r.network_mode)
    &&& r.routes@.map_values(|x: TraefikRoute| route_view(x)) == routes_of_labels(opt_lines(svc.labels))
    &&& r.volumes@.map_values(|v: Volume| volume_view(v)) == volume_entries(opt_lines(svc.volumes))
    &&& r.shared_mounts@.len() == 0
    &&& r.env_vars@.len() == 0
    &&& (on_postgres_network(svc) ==> (r.database matches DatabaseConfig::SharedPostgres {
        db_name,
        user,
        auto_create,
    } && db_name@ == Seq::<char>::empty() && user@ == Seq::<char>::empty() && !auto_create))
    &&& (!on_postgres_network(svc) ==> r.database == DatabaseConfig::NoDatabase)
    &&& r.middlewares@ == middlewares_of_labels(opt_lines(svc.labels))
}

/// A copy of a list of strings.
fn copy_strings(v: &Vec<String>) -> (r: Vec<String>)
    ensures
        r@.map_values(|s: String| s@) == v@.map_values(|s: String| s@),
{
    let mut r: Vec<String> = Vec::new();
    let mut i: usize = 0;
    while i < v.len()
        invariant
            i <= v.len(),
            r.len() == i,
            forall|k: int| 0 <= k < i ==> #[trigger] r@[k] == v@[k],
        decreases v.len() - i,
    {
        r.push(v[i].clone());
        i = i + 1;
    }
    assert(r@.map_values(|s: String| s@) =~= v@.map_values(|s: String| s@));
    r
}

/// The service described by the compose entry `svc` named `name`.
pub fn parse_compose_service(name: &str, svc: &ComposeService) -> (r: Service)
    ensures
        service_from(name@, *svc, r),
{
    let image = match &svc.image {
        Some(i) => i.clone(),
        None => String::new(),
    };
    let (internal_ports, port_mappings) = parse_ports(svc);
    let command = match &svc.command {
        Some(c) => Some(copy_strings(c)),
        None => None,
    };
    Service {
        name: owned(name),
        image,
        command,
        internal_ports,
        network_mode: parse_network_mode(svc),
        routes: parse_traefik_routes(svc),
        port_mappings,
        volumes: parse_volumes(svc),
        shared_mounts: Vec::new(),
        env_vars: Vec::new(),
        database: infer_database_config(svc),
        middlewares: parse_middlewares(svc),
    }
}

/// The data root and description that the `.env` lines set: the last
/// `DATA_ROOT`, and the first `APP_DESCRIPTION`.
pub open spec fn env_settings(ls: Seq<Seq<char>>) -> (Option<Seq<char>>, Seq<char>)
    decreases ls.len(),
{
    if ls.len() == 0 {
        (None, Seq::empty())
    } else {
        let prev = env_settings(ls.drop_last());
        let l = ls.last();
        let data_root = match env_value(l, "DATA_ROOT"@) {
            Some(v) => Some(v),
            None => prev.0,
        };
        let description = if prev.1.len() == 0 {
            match env_value(l, "APP_DESCRIPTION"@) {
                Some(d) => d,
                None => prev.1,
            }
        } else {
            prev.1
        };
        (data_root, description)
    }
}

/// The name of the application in directory `dir`.
pub open spec fn app_name_of(dir: Seq<char>) -> Seq<char> {
    match path_file_name(dir) {
        Some(n) => n,
        None => "unknown"@,
    }
}

/// `r` is the application in directory `dir` with the compose file `compose`
/// (none when missing or unreadable) and the `.env` content `env`.
pub open spec fn app_from(
    dir: Seq<char>,
    compose: Option<DockerCompose>,
    env: Option<Seq<char>>,
    r: App,
) -> bool {
    &&& r.name@ == app_name_of(dir)
    &&& r.path@ == dir
    &&& match compose {
        Some(c) => {
            &&& r.services@.len() == c.services@.len()
            &&& forall|i: int|
                0 <= i < c.services@.len() ==> service_from(
                    #[trigger] c.services@[i].0@,
                    c.services@[i].1,
                    r.services@[i],
                )
        },
        None => r.services@.len() == 0,
    }
    &&& match env {
        Some(e) => opt_view(r.data_root) == env_settings(lines(e)).0 && r.description@ == env_settings(
            lines(e),
        ).1,
        None => r.data_root is None && r.description@ == Seq::<char>::empty(),
    }
}

/// The application in directory `dir`, from its compose file (none when the
/// file is missing or unreadable) and the content of its `.env` file (none
/// when there is no such file).
pub fn parse_app(dir: &str, compose: Option<&DockerCompose>, env_content: Option<&str>) -> (r: App)
    ensures
        app_from(dir@, match compose {
            Some(c) => Some(*c),
            None => None,
        }, match env_content {
            Some(e) => Some(e@),
            None => None,
        }, r),
{
    let name = match file_name(dir) {
        Some(n) => n,
        None => owned("unknown"),
    };
    let mut services: Vec<Service> = Vec::new();
    if let Some(c) = compose {
        let mut i: usize = 0;
        while i < c.services.len()
            invariant
                i <= c.services.len(),
                services@.len() == i,
                forall|j: int|
                    0 <= j < i ==> service_from(
                        #[trigger] c.services@[j].0@,
                        c.services@[j].1,
                        services@[j],
                    ),
            decreases c.services.len() - i,
        {
            let (svc_name, svc) = &c.services[i];
            services.push(parse_compose_service(svc_name.as_str(), svc));
            i = i + 1;
        }
    }
    let mut data_root: Option<String> = None;
    let mut description = String::new();
    if let Some(content) = env_content {
        let ls = lines_exec(&chars_of(content));
        let ghost lv = char_views(ls@);
        let mut i: usize = 0;
        while i < ls.len()
            invariant
                i <= ls.len(),
                lv == char_views(ls@),
                (opt_view(data_root), description@) == env_settings(lv.take(i as int)),
            decreases ls.len() - i,
        {
            assert(lv.take(i + 1).drop_last() =~= lv.take(i as int));
            let line = string_of(&ls[i]);
            assert(line@ == lv[i as int]);
            if let Some(value) = parse_env_var(line.as_str(), "DATA_ROOT") {
                data_root = Some(value);
            }
            if description.as_str().is_empty() {
                if let Some(desc) = parse_env_var(line.as_str(), "APP_DESCRIPTION") {
                    description = desc;
                }
            }
            i = i + 1;
        }
        assert(lv.take(ls.len() as int) =~= lv);
    }
    App { name, description, path: owned(dir), data_root, services }
}

// ───────────────────────────── runtime status ─────────────────────────────

/// What `serde_json` reads from one line of `docker compose ps --format json`:
/// none when the line is not JSON, otherwise the string values of its
/// `Service` and `State` fields (none where absent or not a string).
pub uninterp spec fn json_service_state(line: Seq<char>) -> Option<(Option<Seq<char>>, Option<Seq<char>>)>;

/// The view of a pair of optional strings.
pub open spec fn fields_view(r: Option<(Option<String>, Option<String>)>) -> Option<(Option<Seq<char>>, Option<Seq<char>>)> {
    match r {
        Some((a, b)) => Some((opt_view(a), opt_view(b))),
        None => None,
    }
}

/// Reads the `Service` and `State` string fields of a JSON line
/// (`serde_json::from_str` into a `Value`, then `as_str` on each field); the
/// result is only named.
#[verifier::external_body]
fn json_service_state_fields(line: &str) -> (r: Option<(Option<String>, Option<String>)>)
    ensures
        fields_view(r) == json_service_state(line@),
{
    match serde_json::from_str::<serde_json::Value>(line) {
        Ok(v) => Some((v["Service"].as_str().map(String::from), v["State"].as_str().map(String::from))),
        Err(_) => None,
    }
}

/// The host names routed to a service.
pub open spec fn subdomains(svc: Service) -> Seq<Seq<char>> {
    svc.routes@.map_values(|r: TraefikRoute| r.subdomain@)
}

/// The host names routed to the services named `name`, in service order.
pub open spec fn routes_for(svcs: Seq<Service>, name: Seq<char>) -> Seq<Seq<char>>
    decreases svcs.len(),
{
    if svcs.len() == 0 {
        Seq::empty()
    } else {
        routes_for(svcs.drop_last(), name) + if svcs.last().name@ == name {
            subdomains(svcs.last())
        } else {
            Seq::empty()
        }
    }
}

/// The container state Docker's state text names.
pub open spec fn state_from(s: Seq<char>) -> ContainerState {
    if s == "running"@ {
        ContainerState::Running
    } else if s == "exited"@ || s == "stopped"@ {
        ContainerState::Stopped
    } else if s == "paused"@ {
        ContainerState::Paused
    } else if s.len() == 0 {
        ContainerState::NotFound
    } else {
        ContainerState::Unknown
    }
}

/// A service status as text: name, state, routed host names.
pub type StatusView = (Seq<char>, ContainerState, Seq<Seq<char>>);

/// The view of a service status.
pub open spec fn status_view(s: ServiceStatus) -> StatusView {
    (s.name@, s.state, string_views(s.routes@))
}

/// The status that the `Service` and `State` fields of a `ps` line give:
/// the service name (`?` when absent), its state (not found when absent)
/// and the host names of the application's services of that name.
pub open spec fn status_of_fields(
    svcs: Seq<Service>,
    service: Option<Seq<char>>,
    state: Option<Seq<char>>,
) -> StatusView {
    let name = match service {
        Some(n) => n,
        None => "?"@,
    };
    (name, state_from(match state {
        Some(st) => st,
        None => Seq::empty(),
    }), routes_for(svcs, name))
}

/// The state a `ps` line reports, for any application and service: `running`
/// gives Running, `exited` and `stopped` give Stopped, `paused` gives Paused,
/// a missing state gives NotFound; the status carries the line's service name.
pub proof fn lemma_status_of_fields_states(svcs: Seq<Service>, service: Option<Seq<char>>, state: Seq<char>)
    ensures
        state == "running"@ ==> status_of_fields(svcs, service, Some(state)).1 == ContainerState::Running,
        state == "exited"@ ==> status_of_fields(svcs, service, Some(state)).1 == ContainerState::Stopped,
        state == "stopped"@ ==> status_of_fields(svcs, service, Some(state)).1 == ContainerState::Stopped,
        state == "paused"@ ==> status_of_fields(svcs, service, Some(state)).1 == ContainerState::Paused,
        status_of_fields(svcs, service, None).1 == ContainerState::NotFound,
        service matches Some(n) ==> status_of_fields(svcs, service, Some(state)).0 == n,
{
    reveal_strlit("running");
    reveal_strlit("exited");
    reveal_strlit("stopped");
    reveal_strlit("paused");
    assert("exited"@[0] != "running"@[0]);
    assert("stopped"@[0] != "running"@[0]);
    assert("paused"@[0] != "running"@[0]);
    assert("paused"@[0] != "exited"@[0]);
    assert("paused"@[1] != "stopped"@[1]);
    let e = Seq::<char>::empty();
    assert(e.len() == 0);
    assert(e != "running"@ && e != "exited"@ && e != "stopped"@ && e != "paused"@);
}

/// The statuses read from the lines of `ps` output, skipping lines that are
/// not JSON.
pub open spec fn ps_statuses(svcs: Seq<Service>, ls: Seq<Seq<char>>) -> Seq<StatusView>
    decreases ls.len(),
{
    if ls.len() == 0 {
        Seq::empty()
    } else {
        let prev = ps_statuses(svcs, ls.drop_last());
        match json_service_state(ls.last()) {
            Some((sv, st)) => prev.push(status_of_fields(svcs, sv, st)),
            None => prev,
        }
    }
}

/// The statuses of an application whose containers could not be listed:
/// every service not found.
pub open spec fn not_deployed_statuses(svcs: Seq<Service>) -> Seq<StatusView> {
    svcs.map_values(|s: Service| (s.name@, ContainerState::NotFound, subdomains(s)))
}

/// The statuses of an application from the output of `docker compose ps
/// --format json` (none when the command failed).
pub open spec fn statuses_of(app: App, ps: Option<Seq<char>>) -> Seq<StatusView> {
    match ps {
        Some(out) => ps_statuses(app.services@, lines(out)),
        None => not_deployed_statuses(app.services@),
    }
}

/// The host names of a service, as strings.
fn subdomain_strings(svc: &Service) -> (r: Vec<String>)
    ensures
        string_views(r@) == subdomains(*svc),
{
    let mut r: Vec<String> = Vec::new();
    let mut i: usize = 0;
    while i < svc.routes.len()
        invariant
            i <= svc.routes.len(),
            r.len() == i,
            forall|k: int| 0 <= k < i ==> (#[trigger] r@[k])@ == svc.routes@[k].subdomain@,
        decreases svc.routes.len() - i,
    {
        r.push(svc.routes[i].subdomain.clone());
        i = i + 1;
    }
    assert(string_views(r@) =~= subdomains(*svc));
    r
}

/// The status of one service from the `Service` and `State` fields of a
/// `ps` line.
pub fn status_from_fields(app: &App, service: Option<String>, state: Option<String>) -> (r: ServiceStatus)
    ensures
        status_view(r) == status_of_fields(app.services@, opt_view(service), opt_view(state)),
{
    let name = match service {
        Some(n) => n,
        None => owned("?"),
    };
    let st = match &state {
        Some(s) => chars_of(s.as_str()),
        None => Vec::new(),
    };
    let state = if chars_eq(&st, &chars_of("running")) {
        ContainerState::Running
    } else if chars_eq(&st, &chars_of("exited")) || chars_eq(&st, &chars_of("stopped")) {
        ContainerState::Stopped
    } else if chars_eq(&st, &chars_of("paused")) {
        ContainerState::Paused
    } else if st.len() == 0 {
        ContainerState::NotFound
    } else {
        ContainerState::Unknown
    };
    let nv = chars_of(name.as_str());
    let mut routes: Vec<String> = Vec::new();
    let mut i: usize = 0;
    while i < app.services.len()
        invariant
            i <= app.services.len(),
            nv@ == name@,
            string_views(routes@) == routes_for(app.services@.take(i as int), name@),
        decreases app.services.len() - i,
    {
        assert(app.services@.take(i + 1).drop_last() =~= app.services@.take(i as int));
        let svc = &app.services[i];
        if chars_eq(&chars_of(svc.name.as_str()), &nv) {
            append_strings(&mut routes, subdomain_strings(svc));
        } else {
            assert(string_views(routes@) + Seq::<Seq<char>>::empty() =~= string_views(routes@));
        }
        i = i + 1;
    }
    assert(app.services@.take(app.services.len() as int) =~= app.services@);
    ServiceStatus { name, state, routes }
}

/// The statuses of an application's services, from the output of
/// `docker compose ps --format json`, or every service not found when that
/// command failed (`ps_output` is none).
pub fn get_app_status(app: &App, ps_output: Option<&str>) -> (r: Vec<ServiceStatus>)
    ensures
        r@.map_values(|s: ServiceStatus| status_view(s)) == statuses_of(*app, match ps_output {
            Some(o) => Some(o@),
            None => None,
        }),
{
    let mut statuses: Vec<ServiceStatus> = Vec::new();
    match ps_output {
        Some(out) => {
            let ls = lines_exec(&chars_of(out));
            let ghost lv = char_views(ls@);
            let mut i: usize = 0;
            while i < ls.len()
                invariant
                    i <= ls.len(),
                    lv == char_views(ls@),
                    statuses@.map_values(|s: ServiceStatus| status_view(s)) == ps_statuses(
                        app.services@,
                        lv.take(i as int),
                    ),
                decreases ls.len() - i,
            {
                assert(lv.take(i + 1).drop_last() =~= lv.take(i as int));
                let line = string_of(&ls[i]);
                assert(line@ == lv[i as int]);
                let ghost before = statuses@;
                if let Some((sv, st)) = json_service_state_fields(line.as_str()) {
                    let status = status_from_fields(app, sv, st);
                    statuses.push(status);
                    assert(statuses@.map_values(|s: ServiceStatus| status_view(s)) =~= before.map_values(
                        |s: ServiceStatus| status_view(s),
                    ).push(status_view(status)));
                }
                i = i + 1;
            }
            assert(lv.take(ls.len() as int) =~= lv);
        },
        None => {
            let mut i: usize = 0;
            while i < app.services.len()
                invariant
                    i <= app.services.len(),
                    statuses.len() == i,
                    forall|k: int|
                        0 <= k < i ==> status_view(#[trigger] statuses@[k]) == (
                            app.services@[k].name@,
                            ContainerState::NotFound,
                            subdomains(app.services@[k]),
                        ),
                decreases app.services.len() - i,
            {
                let svc = &app.services[i];
                statuses.push(
                    ServiceStatus {
                        name: svc.name.clone(),
                        state: ContainerState::NotFound,
                        routes: subdomain_strings(svc),
                    },
                );
                i = i + 1;
            }
            assert(statuses@.map_values(|s: ServiceStatus| status_view(s)) =~= not_deployed_statuses(
                app.services@,
            ));
        },
    }
    statuses
}

// ───────────────────────────── summaries and conflicts ─────────────────────────────

/// Summary of an application, as `list` shows it.
#[derive(Debug, Clone, PartialEq, Eq)]
pub struct AppSummary {
    /// Application name.
    pub name: String,
    /// Number of services.
    pub service_count: usize,
    /// Service names.
    pub service_names: Vec<String>,
    /// Routed host names of all services.
    pub routes: Vec<String>,
    /// Database description.
    pub database: String,
    /// Data path.
    pub data_path: String,
    /// Running state summary.
    pub status_summary: String,
}

/// The host names of all services, in order.
pub open spec fn all_subdomains(svcs: Seq<Service>) -> Seq<Seq<char>>
    decreases svcs.len(),
{
    if svcs.len() == 0 {
        Seq::empty()
    } else {
        all_subdomains(svcs.drop_last()) + subdomains(svcs.last())
    }
}

/// The number of running services among `sts`.
pub open spec fn running_count(sts: Seq<ServiceStatus>) -> nat
    decreases sts.len(),
{
    if sts.len() == 0 {
        0
    } else {
        running_count(sts.drop_last()) + if sts.last().state == ContainerState::Running {
            1nat
        } else {
            0nat
        }
    }
}

/// The summary of a set of statuses: `running` when all of at least one
/// run, `stopped` when none runs, `partial` otherwise.
pub open spec fn status_summary_of(sts: Seq<ServiceStatus>) -> Seq<char> {
    let running = running_count(sts);
    let total = sts.len();
    if running == total && total > 0 {
        "running"@
    } else if running == 0 {
        "stopped"@
    } else if running > 0 {
        "partial"@
    } else {
        "not deployed"@
    }
}

/// `running_count` counts the running statuses: it is their number, the
/// number of all statuses exactly when all run, and zero exactly when none
/// runs.
proof fn lemma_running_count(sts: Seq<ServiceStatus>)
    ensures
        running_count(sts) <= sts.len(),
        running_count(sts) == sts.len() <==> forall|i: int|
            0 <= i < sts.len() ==> #[trigger] sts[i].state == ContainerState::Running,
        running_count(sts) == 0 <==> forall|i: int|
            0 <= i < sts.len() ==> #[trigger] sts[i].state != ContainerState::Running,
    decreases sts.len(),
{
    if sts.len() > 0 {
        let pre = sts.drop_last();
        lemma_running_count(pre);
        assert forall|i: int| 0 <= i < pre.len() implies pre[i] == sts[i] by {}
        let last = sts.len() - 1;
        if forall|i: int| 0 <= i < sts.len() ==> #[trigger] sts[i].state == ContainerState::Running {
            assert(sts[last].state == ContainerState::Running);
            assert forall|i: int| 0 <= i < pre.len() implies #[trigger] pre[i].state == ContainerState::Running by {
                assert(sts[i].state == ContainerState::Running);
            }
        }
        if forall|i: int| 0 <= i < sts.len() ==> #[trigger] sts[i].state != ContainerState::Running {
            assert(sts[last].state != ContainerState::Running);
            assert forall|i: int| 0 <= i < pre.len() implies #[trigger] pre[i].state != ContainerState::Running by {
                assert(sts[i].state != ContainerState::Running);
            }
        }
        if running_count(sts) == sts.len() {
            assert forall|i: int| 0 <= i < sts.len() implies #[trigger] sts[i].state == ContainerState::Running by {
                if i < last {
                    assert(pre[i].state == ContainerState::Running);
                }
            }
        }
        if running_count(sts) == 0 {
            assert forall|i: int| 0 <= i < sts.len() implies #[trigger] sts[i].state != ContainerState::Running by {
                if i < last {
                    assert(pre[i].state != ContainerState::Running);
                }
            }
        }
    }
}

/// The summary word of an application says how its services run: `running`
/// when there is at least one and all run, `stopped` when none runs (or
/// there is none), `partial` when some run and some do not.
pub proof fn lemma_status_summary_words(sts: Seq<ServiceStatus>)
    ensures
        sts.len() > 0 && (forall|i: int| 0 <= i < sts.len() ==> #[trigger] sts[i].state == ContainerState::Running)
            ==> status_summary_of(sts) == "running"@,
        (forall|i: int| 0 <= i < sts.len() ==> #[trigger] sts[i].state != ContainerState::Running)
            ==> status_summary_of(sts) == "stopped"@,
        (exists|i: int| 0 <= i < sts.len() && #[trigger] sts[i].state == ContainerState::Running)
            && (exists|j: int| 0 <= j < sts.len() && #[trigger] sts[j].state != ContainerState::Running)
            ==> status_summary_of(sts) == "partial"@,
{
    lemma_running_count(sts);
}

/// Some service uses the shared PostgreSQL.
pub open spec fn uses_shared_postgres(svcs: Seq<Service>) -> bool {
    exists|i: int| 0 <= i < svcs.len() && svcs[i].database is SharedPostgres
}

/// `r` summarises `app` with the statuses `sts`.
pub open spec fn summary_of(app: App, sts: Seq<ServiceStatus>, r: AppSummary) -> bool {
    &&& r.name@ == app.name@
    &&& r.service_count == app.services@.len()
    &&& string_views(r.service_names@) == app.services@.map_values(|s: Service| s.name@)
    &&& string_views(r.routes@) == all_subdomains(app.services@)
    &&& r.database@ == if uses_shared_postgres(app.services@) {
        "infra PG"@
    } else {
        "-"@
    }
    &&& r.data_path@ == match app.data_root {
        Some(d) => d@,
        None => "-"@,
    }
    &&& r.status_summary@ == status_summary_of(sts)
}

/// The summary of an application that `list` shows.
pub fn build_summary(app: &App, statuses: &[ServiceStatus]) -> (r: AppSummary)
    ensures
        summary_of(*app, statuses@, r),
{
    let mut routes: Vec<String> = Vec::new();
    let mut names: Vec<String> = Vec::new();
    let mut pg = false;
    let mut i: usize = 0;
    while i < app.services.len()
        invariant
            i <= app.services.len(),
            names.len() == i,
            forall|k: int| 0 <= k < i ==> (#[trigger] names@[k])@ == app.services@[k].name@,
            string_views(routes@) == all_subdomains(app.services@.take(i as int)),
            pg == exists|k: int| 0 <= k < i && app.services@[k].database is SharedPostgres,
        decreases app.services.len() - i,
    {
        assert(app.services@.take(i + 1).drop_last() =~= app.services@.take(i as int));
        let svc = &app.services[i];
        append_strings(&mut routes, subdomain_strings(svc));
        names.push(svc.name.clone());
        if let DatabaseConfig::SharedPostgres { .. } = &svc.database {
            pg = true;
        }
        i = i + 1;
    }
    assert(app.services@.take(app.services.len() as int) =~= app.services@);
    assert(string_views(names@) =~= app.services@.map_values(|s: Service| s.name@));
    let mut running: usize = 0;
    let mut j: usize = 0;
    while j < statuses.len()
        invariant
            j <= statuses.len(),
            running == running_count(statuses@.take(j as int)),
            running <= j,
        decreases statuses.len() - j,
    {
        assert(statuses@.take(j + 1).drop_last() =~= statuses@.take(j as int));
        if statuses[j].state == ContainerState::Running {
            running = running + 1;
        }
        j = j + 1;
    }
    assert(statuses@.take(statuses.len() as int) =~= statuses@);
    let total = statuses.len();
    let status_summary = if running == total && total > 0 {
        owned("running")
    } else if running == 0 {
        owned("stopped")
    } else if running > 0 {
        owned("partial")
    } else {
        owned("not deployed")
    };
    let data_path = match &app.data_root {
        Some(d) => d.clone(),
        None => owned("-"),
    };
    AppSummary {
        name: app.name.clone(),
        service_count: app.services.len(),
        service_names: names,
        routes,
        database: if pg {
            owned("infra PG")
        } else {
            owned("-")
        },
        data_path,
        status_summary,
    }
}

/// The service maps host port `port`.
pub open spec fn uses_host_port(svc: Service, port: u16) -> bool {
    exists|k: int| 0 <= k < svc.port_mappings@.len() && svc.port_mappings@[k].host_port == port
}

/// The first of `svcs` that maps host port `port`.
pub open spec fn first_on_port(svcs: Seq<Service>, port: u16) -> Option<Service>
    decreases svcs.len(),
{
    if svcs.len() == 0 {
        None
    } else if uses_host_port(svcs[0], port) {
        Some(svcs[0])
    } else {
        first_on_port(svcs.drop_first(), port)
    }
}

/// The message telling that `port` is taken by service `svc` of `app`.
pub open spec fn port_taken_message(port: u16, app: Seq<char>, svc: Seq<char>) -> Seq<char> {
    "端口 "@ + decimal(port as nat) + " 已被 "@ + app + " 的 service '"@ + svc + "' 占用"@
}

/// The conflict on host port `port`: the first application, and in it the
/// first service, that maps it.
pub open spec fn port_conflict(port: u16, apps: Seq<App>) -> Option<Seq<char>>
    decreases apps.len(),
{
    if apps.len() == 0 {
        None
    } else {
        match first_on_port(apps[0].services@, port) {
            Some(svc) => Some(port_taken_message(port, apps[0].name@, svc.name@)),
            None => port_conflict(port, apps.drop_first()),
        }
    }
}

/// The service routes host name `domain`.
pub open spec fn routes_domain(svc: Service, domain: Seq<char>) -> bool {
    exists|k: int| 0 <= k < svc.routes@.len() && svc.routes@[k].subdomain@ == domain
}

/// The first of `svcs` that routes `domain`.
pub open spec fn first_on_domain(svcs: Seq<Service>, domain: Seq<char>) -> Option<Service>
    decreases svcs.len(),
{
    if svcs.len() == 0 {
        None
    } else if routes_domain(svcs[0], domain) {
        Some(svcs[0])
    } else {
        first_on_domain(svcs.drop_first(), domain)
    }
}

/// The message telling that `domain` is taken by service `svc` of `app`.
pub open spec fn domain_taken_message(domain: Seq<char>, app: Seq<char>, svc: Seq<char>) -> Seq<char> {
    "域名 "@ + domain + " 已被 "@ + app + " 的 service '"@ + svc + "' 注册"@
}

/// The conflict on host name `domain`: the first application, and in it the
/// first service, that routes it.
pub open spec fn domain_conflict(domain: Seq<char>, apps: Seq<App>) -> Option<Seq<char>>
    decreases apps.len(),
{
    if apps.len() == 0 {
        None
    } else {
        match first_on_domain(apps[0].services@, domain) {
            Some(svc) => Some(domain_taken_message(domain, apps[0].name@, svc.name@)),
            None => domain_conflict(domain, apps.drop_first()),
        }
    }
}

/// Some service of some application maps host port `port`.
pub open spec fn port_in_use(apps: Seq<App>, port: u16) -> bool {
    exists|i: int, j: int|
        0 <= i < apps.len() && 0 <= j < apps[i].services@.len() && uses_host_port(
            #[trigger] apps[i].services@[j],
            port,
        )
}

/// Some service of some application routes host name `domain`.
pub open spec fn domain_in_use(apps: Seq<App>, domain: Seq<char>) -> bool {
    exists|i: int, j: int|
        0 <= i < apps.len() && 0 <= j < apps[i].services@.len() && routes_domain(
            #[trigger] apps[i].services@[j],
            domain,
        )
}

/// A first service on the port is found exactly when one maps it.
proof fn lemma_first_on_port(svcs: Seq<Service>, port: u16)
    ensures
        first_on_port(svcs, port) is Some <==> exists|j: int| 0 <= j < svcs.len() && uses_host_port(#[trigger] svcs[j], port),
    decreases svcs.len(),
{
    if svcs.len() > 0 {
        let rest = svcs.drop_first();
        lemma_first_on_port(rest, port);
        if exists|j: int| 0 <= j < svcs.len() && uses_host_port(#[trigger] svcs[j], port) {
            let j = choose|j: int| 0 <= j < svcs.len() && uses_host_port(#[trigger] svcs[j], port);
            if j > 0 && !uses_host_port(svcs[0], port) {
                assert(rest[j - 1] == svcs[j]);
            }
        }
        if first_on_port(svcs, port) is Some && !uses_host_port(svcs[0], port) {
            let k = choose|k: int| 0 <= k < rest.len() && uses_host_port(#[trigger] rest[k], port);
            assert(svcs[k + 1] == rest[k]);
        }
    }
}

/// A first service on the host name is found exactly when one routes it.
proof fn lemma_first_on_domain(svcs: Seq<Service>, domain: Seq<char>)
    ensures
        first_on_domain(svcs, domain) is Some <==> exists|j: int| 0 <= j < svcs.len() && routes_domain(#[trigger] svcs[j], domain),
    decreases svcs.len(),
{
    if svcs.len() > 0 {
        let rest = svcs.drop_first();
        lemma_first_on_domain(rest, domain);
        if exists|j: int| 0 <= j < svcs.len() && routes_domain(#[trigger] svcs[j], domain) {
            let j = choose|j: int| 0 <= j < svcs.len() && routes_domain(#[trigger] svcs[j], domain);
            if j > 0 && !routes_domain(svcs[0], domain) {
                assert(rest[j - 1] == svcs[j]);
            }
        }
        if first_on_domain(svcs, domain) is Some && !routes_domain(svcs[0], domain) {
            let k = choose|k: int| 0 <= k < rest.len() && routes_domain(#[trigger] rest[k], domain);
            assert(svcs[k + 1] == rest[k]);
        }
    }
}

/// A port conflict is reported exactly when some service of some
/// application already maps the port.
pub proof fn lemma_port_conflict_iff(port: u16, apps: Seq<App>)
    ensures
        port_conflict(port, apps) is Some <==> port_in_use(apps, port),
    decreases apps.len(),
{
    if apps.len() > 0 {
        let rest = apps.drop_first();
        lemma_port_conflict_iff(port, rest);
        lemma_first_on_port(apps[0].services@, port);
        if port_in_use(apps, port) {
            let (i, j) = choose|i: int, j: int|
                0 <= i < apps.len() && 0 <= j < apps[i].services@.len() && uses_host_port(
                    #[trigger] apps[i].services@[j],
                    port,
                );
            if i > 0 && first_on_port(apps[0].services@, port) is None {
                assert(rest[i - 1] == apps[i]);
                assert(uses_host_port(rest[i - 1].services@[j], port));
            }
            if i == 0 {
                assert(uses_host_port(apps[0].services@[j], port));
            }
        }
        if port_conflict(port, apps) is Some {
            if first_on_port(apps[0].services@, port) is Some {
                let j = choose|j: int| 0 <= j < apps[0].services@.len() && uses_host_port(#[trigger] apps[0].services@[j], port);
                assert(uses_host_port(apps[0].services@[j], port));
            } else {
                let (i, j) = choose|i: int, j: int|
                    0 <= i < rest.len() && 0 <= j < rest[i].services@.len() && uses_host_port(
                        #[trigger] rest[i].services@[j],
                        port,
                    );
                assert(apps[i + 1] == rest[i]);
                assert(uses_host_port(apps[i + 1].services@[j], port));
            }
        }
    }
}

/// A domain conflict is reported exactly when some service of some
/// application already routes the host name.
pub proof fn lemma_domain_conflict_iff(domain: Seq<char>, apps: Seq<App>)
    ensures
        domain_conflict(domain, apps) is Some <==> domain_in_use(apps, domain),
    decreases apps.len(),
{
    if apps.len() > 0 {
        let rest = apps.drop_first();
        lemma_domain_conflict_iff(domain, rest);
        lemma_first_on_domain(apps[0].services@, domain);
        if domain_in_use(apps, domain) {
            let (i, j) = choose|i: int, j: int|
                0 <= i < apps.len() && 0 <= j < apps[i].services@.len() && routes_domain(
                    #[trigger] apps[i].services@[j],
                    domain,
                );
            if i > 0 && first_on_domain(apps[0].services@, domain) is None {
                assert(rest[i - 1] == apps[i]);
                assert(routes_domain(rest[i - 1].services@[j], domain));
            }
            if i == 0 {
                assert(routes_domain(apps[0].services@[j], domain));
            }
        }
        if domain_conflict(domain, apps) is Some {
            if first_on_domain(apps[0].services@, domain) is Some {
                let j = choose|j: int| 0 <= j < apps[0].services@.len() && routes_domain(#[trigger] apps[0].services@[j], domain);
                assert(routes_domain(apps[0].services@[j], domain));
            } else {
                let (i, j) = choose|i: int, j: int|
                    0 <= i < rest.len() && 0 <= j < rest[i].services@.len() && routes_domain(
                        #[trigger] rest[i].services@[j],
                        domain,
                    );
                assert(apps[i + 1] == rest[i]);
                assert(routes_domain(apps[i + 1].services@[j], domain));
            }
        }
    }
}

/// Whether some mapping of `svc` uses host port `port`.
fn maps_port(svc: &Service, port: u16) -> (r: bool)
    ensures
        r == uses_host_port(*svc, port),
{
    let mut k: usize = 0;
    while k < svc.port_mappings.len()
        invariant
            k <= svc.port_mappings.len(),
            forall|m: int| 0 <= m < k ==> svc.port_mappings@[m].host_port != port,
        decreases svc.port_mappings.len() - k,
    {
        if svc.port_mappings[k].host_port == port {
            return true;
        }
        k = k + 1;
    }
    false
}

/// Whether some route of `svc` answers `domain`.
fn routes_to(svc: &Service, domain: &[char]) -> (r: bool)
    ensures
        r == routes_domain(*svc, domain@),
{
    let mut k: usize = 0;
    while k < svc.routes.len()
        invariant
            k <= svc.routes.len(),
            forall|m: int| 0 <= m < k ==> svc.routes@[m].subdomain@ != domain@,
        decreases svc.routes.len() - k,
    {
        if chars_eq(&chars_of(svc.routes[k].subdomain.as_str()), domain) {
            return true;
        }
        k = k + 1;
    }
    false
}

/// The conflict message when host port `port` is already mapped by an
/// application, naming the first such application and service.
pub fn check_port_conflict(port: u16, apps: &[App]) -> (r: Option<String>)
    ensures
        opt_view(r) == port_conflict(port, apps@),
{
    let n = apps.len();
    let mut i: usize = 0;
    assert(apps@.subrange(0, n as int) =~= apps@);
    while i < n
        invariant
            i <= n == apps.len(),
            port_conflict(port, apps@) == port_conflict(port, apps@.subrange(i as int, n as int)),
        decreases n - i,
    {
        let app = &apps[i];
        proof {
            lemma_suffix_step(apps@, i as int);
        }
        let m = app.services.len();
        let mut j: usize = 0;
        assert(app.services@.subrange(0, m as int) =~= app.services@);
        while j < m
            invariant
                j <= m == app.services.len(),
                i < n == apps.len(),
                *app == apps@[i as int],
                port_conflict(port, apps@) == port_conflict(port, apps@.subrange(i as int, n as int)),
                apps@.subrange(i as int, n as int)[0] == apps@[i as int],
                first_on_port(app.services@, port) == first_on_port(app.services@.subrange(j as int, m as int), port),
            decreases m - j,
        {
            proof {
                lemma_suffix_step(app.services@, j as int);
            }
            let svc = &app.services[j];
            if maps_port(svc, port) {
                let d = decimal_string(port as u64);
                let mut msg = owned("端口 ");
                msg.append(d.as_str());
                msg.append(" 已被 ");
                msg.append(app.name.as_str());
                msg.append(" 的 service '");
                msg.append(svc.name.as_str());
                msg.append("' 占用");
                return Some(msg);
            }
            j = j + 1;
        }
        assert(app.services@.subrange(m as int, m as int) =~= Seq::<Service>::empty());
        i = i + 1;
    }
    assert(apps@.subrange(n as int, n as int) =~= Seq::<App>::empty());
    None
}

/// The conflict message when host name `domain` is already routed by an
/// application, naming the first such application and service.
pub fn check_domain_conflict(domain: &str, apps: &[App]) -> (r: Option<String>)
    ensures
        opt_view(r) == domain_conflict(domain@, apps@),
{
    let dv = chars_of(domain);
    let n = apps.len();
    let mut i: usize = 0;
    assert(apps@.subrange(0, n as int) =~= apps@);
    while i < n
        invariant
            i <= n == apps.len(),
            dv@ == domain@,
            domain_conflict(domain@, apps@) == domain_conflict(domain@, apps@.subrange(i as int, n as int)),
        decreases n - i,
    {
        let app = &apps[i];
        proof {
            lemma_suffix_step(apps@, i as int);
        }
        let m = app.services.len();
        let mut j: usize = 0;
        assert(app.services@.subrange(0, m as int) =~= app.services@);
        while j < m
            invariant
                j <= m == app.services.len(),
                dv@ == domain@,
                i < n == apps.len(),
                *app == apps@[i as int],
                domain_conflict(domain@, apps@) == domain_conflict(domain@, apps@.subrange(i as int, n as int)),
                apps@.subrange(i as int, n as int)[0] == apps@[i as int],
                first_on_domain(app.services@, domain@) == first_on_domain(app.services@.subrange(j as int, m as int), domain@),
            decreases m - j,
        {
            proof {
                lemma_suffix_step(app.services@, j as int);
            }
            let svc = &app.services[j];
            if routes_to(svc, &dv) {
                let mut msg = owned("域名 ");
                msg.append(domain);
                msg.append(" 已被 ");
                msg.append(app.name.as_str());
                msg.append(" 的 service '");
                msg.append(svc.name.as_str());
                msg.append("' 注册");
                return Some(msg);
            }
            j = j + 1;
        }
        assert(app.services@.subrange(m as int, m as int) =~= Seq::<Service>::empty());
        i = i + 1;
    }
    assert(apps@.subrange(n as int, n as int) =~= Seq::<App>::empty());
    None
}

// ───────────────────────────── ordering of applications ─────────────────────────────

/// The infrastructure application, listed first.
pub open spec fn is_infra(a: App) -> bool {
    a.name@ == "infra"@
}

/// `a` is listed before `b`: the infrastructure application first, the
/// others by name.
pub open spec fn app_lt(a: App, b: App) -> bool {
    (is_infra(a) && !is_infra(b)) || (!is_infra(a) && !is_infra(b) && str_lt(a.name@, b.name@))
}

/// No application of `s` should be listed before one that comes earlier.
pub open spec fn apps_sorted(s: Seq<App>) -> bool {
    forall|i: int, j: int| 0 <= i < j < s.len() ==> !app_lt(#[trigger] s[j], #[trigger] s[i])
}

/// The listing order is a strict weak order.
proof fn lemma_app_lt(a: App, b: App, c: App)
    ensures
        app_lt(a, b) ==> !app_lt(b, a),
        app_lt(a, b) && app_lt(b, c) ==> app_lt(a, c),
        !app_lt(a, b) && !app_lt(b, c) ==> !app_lt(a, c),
{
    lemma_str_lt_order(a.name@, b.name@, c.name@);
    lemma_str_lt_order(b.name@, c.name@, a.name@);
    lemma_str_lt_order(c.name@, a.name@, b.name@);
    lemma_str_lt_order(a.name@, c.name@, b.name@);
    lemma_str_lt_order(b.name@, a.name@, c.name@);
    lemma_str_lt_order(c.name@, b.name@, a.name@);
}

/// Whether `a` is listed before `b`.
fn app_less(a: &App, b: &App) -> (r: bool)
    ensures
        r == app_lt(*a, *b),
{
    let infra = chars_of("infra");
    let an = chars_of(a.name.as_str());
    let bn = chars_of(b.name.as_str());
    let a_infra = chars_eq(&an, &infra);
    let b_infra = chars_eq(&bn, &infra);
    (a_infra && !b_infra) || (!a_infra && !b_infra && str_less(&an, &bn))
}

/// The applications in listing order: the infrastructure application
/// first, the others by name.
pub fn sort_apps(apps: Vec<App>) -> (r: Vec<App>)
    ensures
        r@.to_multiset() == apps@.to_multiset(),
        apps_sorted(r@),
{
    broadcast use vstd::seq_lib::group_to_multiset_ensures;
    broadcast use vstd::multiset::group_multiset_axioms;

    let ghost all = apps@;
    let mut input = apps;
    let mut out: Vec<App> = Vec::new();
    assert(out@.to_multiset() =~= vstd::multiset::Multiset::empty());
    while input.len() > 0
        invariant
            out@.to_multiset().add(input@.to_multiset()) == all.to_multiset(),
            apps_sorted(out@),
        decreases input.len(),
    {
        let ghost in0 = input@;
        let x = input.remove(0);
        assert(in0.remove(0) == input@);
        let mut p: usize = 0;
        while p < out.len() && !app_less(&x, &out[p])
            invariant
                p <= out.len(),
                forall|q: int| 0 <= q < p ==> !app_lt(x, #[trigger] out@[q]),
            decreases out.len() - p,
        {
            p = p + 1;
        }
        let ghost o0 = out@;
        out.insert(p, x);
        assert(out@ == o0.insert(p as int, x));
        proof {
            assert(in0[0] == x);
            vstd::seq_lib::to_multiset_remove(in0, 0);
            vstd::seq_lib::to_multiset_insert(o0, p as int, x);
            assert(input@.to_multiset() == in0.to_multiset().remove(x));
            assert(out@.to_multiset() == o0.to_multiset().insert(x));
            assert(in0.contains(x));
            vstd::seq_lib::to_multiset_contains(in0, x);
            assert(in0.to_multiset().count(x) > 0);
            assert(out@.to_multiset().add(input@.to_multiset()) =~= o0.to_multiset().add(in0.to_multiset()));
        }
        assert forall|i: int, j: int| 0 <= i < j < out@.len() implies !app_lt(#[trigger] out@[j], #[trigger] out@[i]) by {
            if j < p {
                assert(out@[i] == o0[i] && out@[j] == o0[j]);
            } else if j == p {
                assert(out@[i] == o0[i]);
            } else if i == p {
                assert(out@[j] == o0[j - 1]);
                lemma_app_lt(o0[j - 1], x, o0[p as int]);
                if j - 1 > p {
                    assert(!app_lt(o0[j - 1], o0[p as int]));
                }
            } else if i < p {
                assert(out@[i] == o0[i] && out@[j] == o0[j - 1]);
            } else {
                assert(out@[i] == o0[i - 1] && out@[j] == o0[j - 1]);
            }
        }
    }
    assert(input@ =~= Seq::<App>::empty());
    assert(out@.to_multiset().add(input@.to_multiset()) =~= out@.to_multiset());
    out
}

} // verus!

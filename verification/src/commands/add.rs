//! Adding an application: checking and completing the answers of the
//! wizard, and the summary shown before the files are generated.
use vstd::prelude::*;
use crate::commands::{concat_lines, lemma_concat_lines_step};
use crate::commands::show::{network_line, protocol_name};
use crate::config::Config;
use crate::models::app::{
    App, DatabaseConfig, NetworkMode, PortMapping, PortProtocol, Service, SharedResource,
    SharedResourceMount, TraefikRoute,
};
use crate::models::middleware::{name_of, Middleware};
use crate::paths::{join, join_path};
use crate::services::docker::{compose_args, compose_args_spec, ComposeOp};
use crate::services::git::{commit_message, git_add_args, git_add_args_spec, git_commit_args};
use crate::text::{
    append_strings, chars_eq, chars_of, char_views, decimal, decimal_string, join_ports,
    join_strings, join_with, owned, parse_unsigned, parse_unsigned_exec, split_char, split_char_exec, split_once,
    split_once_exec, string_of, string_views, trim, trim_exec,
};

verus! {

/// Why an application name was refused.
#[derive(Debug, Clone, Copy, PartialEq, Eq, Structural)]
pub enum NameError {
    /// The name is empty.
    Empty,
    /// The name has a space (names are kebab-case).
    HasSpace,
    /// The application directory exists already.
    Exists,
}

/// The verdict on a new application name, given whether its directory
/// exists: empty, then spaces, then an existing directory are refused.
pub open spec fn name_verdict(name: Seq<char>, dir_exists: bool) -> Result<(), NameError> {
    if name.len() == 0 {
        Err(NameError::Empty)
    } else if name.contains(' ') {
        Err(NameError::HasSpace)
    } else if dir_exists {
        Err(NameError::Exists)
    } else {
        Ok(())
    }
}

/// Checks a new application name; `dir_exists` tells whether
/// `app_dir(config, name)` exists.
pub fn validate_app_name(name: &str, dir_exists: bool) -> (r: Result<(), NameError>)
    ensures
        r == name_verdict(name@, dir_exists),
{
    let v = chars_of(name);
    if v.len() == 0 {
        return Err(NameError::Empty);
    }
    let mut i: usize = 0;
    while i < v.len()
        invariant
            i <= v.len(),
            v@ == name@,
            forall|j: int| 0 <= j < i ==> v@[j] != ' ',
        decreases v.len() - i,
    {
        if v[i] == ' ' {
            assert(name@[i as int] == ' ');
            return Err(NameError::HasSpace);
        }
        i = i + 1;
    }
    assert(!name@.contains(' '));
    if dir_exists {
        Err(NameError::Exists)
    } else {
        Ok(())
    }
}

/// The directory of the application `name`.
pub fn app_dir(config: &Config, name: &str) -> (r: String)
    ensures
        r@ == join_path(config.paths.apps_root@, name@),
{
    join(config.paths.apps_root.as_str(), name)
}

/// The service name proposed for service `i` of `count`: the application
/// name for a single service, `<app>-svc<i+1>` otherwise.
pub open spec fn default_service_name_spec(app_name: Seq<char>, count: nat, i: nat) -> Seq<char> {
    if count == 1 {
        app_name
    } else {
        app_name + "-svc"@ + decimal(i + 1)
    }
}

/// The service name proposed for service `i` of `count`.
pub fn default_service_name(app_name: &str, count: usize, i: usize) -> (r: String)
    requires
        i < count,
    ensures
        r@ == default_service_name_spec(app_name@, count as nat, i as nat),
{
    if count == 1 {
        owned(app_name)
    } else {
        let mut r = owned(app_name);
        r.append("-svc");
        r.append(decimal_string((i + 1) as u64).as_str());
        r
    }
}

/// The ports read from the comma-separated pieces `pieces`: each piece,
/// trimmed, that is a port number; the others are skipped.
pub open spec fn ports_of_pieces(pieces: Seq<Seq<char>>) -> Seq<u16>
    decreases pieces.len(),
{
    if pieces.len() == 0 {
        Seq::empty()
    } else {
        ports_of_pieces(pieces.drop_last()) + match parse_unsigned(trim(pieces.last()), 65535) {
            Some(v) => seq![v as u16],
            None => Seq::empty(),
        }
    }
}

/// The ports of a comma-separated list such as `80,443`; none for an
/// empty answer.
pub open spec fn port_list(s: Seq<char>) -> Seq<u16> {
    if s.len() == 0 {
        Seq::empty()
    } else {
        ports_of_pieces(split_char(s, ','))
    }
}

/// The ports of a comma-separated list (entries that are not port numbers
/// are skipped).
pub fn parse_port_list(s: &str) -> (r: Vec<u16>)
    ensures
        r@ == port_list(s@),
{
    let v = chars_of(s);
    let mut r: Vec<u16> = Vec::new();
    if v.len() == 0 {
        return r;
    }
    let pieces = split_char_exec(&v, ',');
    let ghost pv = char_views(pieces@);
    let mut i: usize = 0;
    while i < pieces.len()
        invariant
            i <= pieces.len(),
            pv == char_views(pieces@),
            r@ == ports_of_pieces(pv.take(i as int)),
        decreases pieces.len() - i,
    {
        assert(pv.take(i + 1).drop_last() =~= pv.take(i as int));
        assert(pv[i as int] == pieces@[i as int]@);
        let t = trim_exec(&pieces[i]);
        let ghost before = r@;
        match parse_unsigned_exec(&t, 65535) {
            Some(p) => {
                r.push(p as u16);
                assert(r@ =~= before + seq![p as u16]);
            },
            None => {
                assert(r@ =~= before + Seq::<u16>::empty());
            },
        }
        i = i + 1;
    }
    assert(pv.take(pieces.len() as int) =~= pv);
    r
}

/// The image reference of a service: `<image>:<tag>`.
pub fn image_reference(image: &str, tag: &str) -> (r: String)
    ensures
        r@ == image@ + ":"@ + tag@,
{
    let mut r = owned(image);
    r.append(":");
    r.append(tag);
    r
}

/// The host name proposed for route `i` of `count`: `<app>.<domain>` for a
/// single route, `<app>-<i+1>.<domain>` otherwise.
pub open spec fn default_route_domain_spec(app_name: Seq<char>, domain: Seq<char>, count: nat, i: nat) -> Seq<char> {
    if count == 1 {
        app_name + "."@ + domain
    } else {
        app_name + "-"@ + decimal(i + 1) + "."@ + domain
    }
}

/// The host name proposed for route `i` of `count`.
pub fn default_route_domain(app_name: &str, domain: &str, count: usize, i: usize) -> (r: String)
    requires
        i < count,
    ensures
        r@ == default_route_domain_spec(app_name@, domain@, count as nat, i as nat),
{
    let mut r = owned(app_name);
    if count != 1 {
        r.append("-");
        r.append(decimal_string((i + 1) as u64).as_str());
    }
    r.append(".");
    r.append(domain);
    r
}

/// The network mode of a choice in the menu (bridge, host, external
/// network); `external_name` is the network typed for the third.
pub fn select_network_mode(selection: usize, external_name: &str) -> (r: NetworkMode)
    ensures
        selection == 1 ==> r == NetworkMode::Host,
        selection == 2 ==> (r matches NetworkMode::External(n) && n@ == external_name@),
        selection != 1 && selection != 2 ==> r == NetworkMode::Bridge,
{
    if selection == 1 {
        NetworkMode::Host
    } else if selection == 2 {
        NetworkMode::External(owned(external_name))
    } else {
        NetworkMode::Bridge
    }
}

/// The protocol of a choice in the menu (tcp, udp); TCP by default.
pub fn select_protocol(selection: usize) -> (r: PortProtocol)
    ensures
        r == if selection == 1 {
            PortProtocol::Udp
        } else {
            PortProtocol::Tcp
        },
{
    if selection == 1 {
        PortProtocol::Udp
    } else {
        PortProtocol::Tcp
    }
}

/// The database of a service from the answers: none unless a database is
/// needed and the shared PostgreSQL is used.
pub fn configure_database(need_db: bool, use_infra: bool, db_name: &str, user: &str, auto_create: bool) -> (r: DatabaseConfig)
    ensures
        !(need_db && use_infra) ==> r == DatabaseConfig::NoDatabase,
        need_db && use_infra ==> (r matches DatabaseConfig::SharedPostgres { db_name: d, user: u, auto_create: a }
            && d@ == db_name@ && u@ == user@ && a == auto_create),
{
    if need_db && use_infra {
        DatabaseConfig::SharedPostgres { db_name: owned(db_name), user: owned(user), auto_create }
    } else {
        DatabaseConfig::NoDatabase
    }
}

/// The menu item of a shared resource: `name (path, r/o|r/w)`.
pub open spec fn resource_item_spec(res: SharedResource) -> Seq<char> {
    res.name@ + " ("@ + res.path@ + ", "@ + if res.read_only {
        "r/o"@
    } else {
        "r/w"@
    } + ")"@
}

/// The menu item of a shared resource.
pub fn shared_resource_item(res: &SharedResource) -> (r: String)
    ensures
        r@ == resource_item_spec(*res),
{
    let mut r = owned(res.name.as_str());
    r.append(" (");
    r.append(res.path.as_str());
    r.append(", ");
    r.append(if res.read_only {
        "r/o"
    } else {
        "r/w"
    });
    r.append(")");
    r
}

/// The mount point proposed for a shared resource: `/<name>`.
pub fn default_mount_point(res: &SharedResource) -> (r: String)
    ensures
        r@ == "/"@ + res.name@,
{
    let mut r = owned("/");
    r.append(res.name.as_str());
    r
}

/// The mount of a shared resource at `container_path`: read-only when the
/// resource is, otherwise as chosen.
pub fn shared_mount(res: &SharedResource, container_path: &str, read_only_chosen: bool) -> (r: SharedResourceMount)
    ensures
        r.resource_name@ == res.name@,
        r.container_path@ == container_path@,
        r.read_only == (res.read_only || read_only_chosen),
{
    SharedResourceMount {
        resource_name: owned(res.name.as_str()),
        container_path: owned(container_path),
        read_only: res.read_only || read_only_chosen,
    }
}

/// The `PUID` and `PGID` values for a resource with both owner ids.
pub fn owner_env(res: &SharedResource) -> (r: Option<(String, String)>)
    ensures
        match (res.uid, res.gid) {
            (Some(u), Some(g)) => r matches Some(p) && p.0@ == decimal(u as nat) && p.1@ == decimal(g as nat),
            _ => r is None,
        },
{
    match (res.uid, res.gid) {
        (Some(u), Some(g)) => Some((decimal_string(u as u64), decimal_string(g as u64))),
        _ => None,
    }
}

/// No two variables have the same key.
pub open spec fn env_keys_distinct(env: Seq<(String, String)>) -> bool {
    forall|i: int, j: int| 0 <= i < j < env.len() ==> (#[trigger] env[i]).0@ != (#[trigger] env[j]).0@
}

/// The value of the variable `key`, if it is set.
pub open spec fn env_get(env: Seq<(String, String)>, key: Seq<char>) -> Option<Seq<char>> {
    if exists|i: int| 0 <= i < env.len() && (#[trigger] env[i]).0@ == key {
        Some(env[choose|i: int| 0 <= i < env.len() && (#[trigger] env[i]).0@ == key].1@)
    } else {
        None
    }
}

/// With distinct keys, the variable at `i` is what its key reads.
proof fn lemma_env_get_at(env: Seq<(String, String)>, i: int)
    requires
        env_keys_distinct(env),
        0 <= i < env.len(),
    ensures
        env_get(env, env[i].0@) == Some(env[i].1@),
{
    let k = env[i].0@;
    assert(0 <= i < env.len() && env[i].0@ == k);
    let j = choose|j: int| 0 <= j < env.len() && (#[trigger] env[j]).0@ == k;
    if j < i {
        assert(env[j].0@ != env[i].0@);
    } else if i < j {
        assert(env[i].0@ != env[j].0@);
    }
}

/// The position of the variable `key`.
fn env_position(env: &Vec<(String, String)>, key: &str) -> (r: Option<usize>)
    ensures
        r matches Some(i) ==> i < env.len() && env@[i as int].0@ == key@,
        r is None ==> forall|j: int| 0 <= j < env.len() ==> (#[trigger] env@[j]).0@ != key@,
{
    let kv = chars_of(key);
    let mut i: usize = 0;
    while i < env.len()
        invariant
            i <= env.len(),
            kv@ == key@,
            forall|j: int| 0 <= j < i ==> (#[trigger] env@[j]).0@ != key@,
        decreases env.len() - i,
    {
        if chars_eq(&chars_of(env[i].0.as_str()), &kv) {
            return Some(i);
        }
        i = i + 1;
    }
    None
}

/// Sets the variable `key` to `value`: in place of an earlier value, or
/// appended when the key is new.
pub fn insert_env_var(env: &mut Vec<(String, String)>, key: String, value: String)
    requires
        env_keys_distinct(old(env)@),
    ensures
        env_keys_distinct(final(env)@),
        env_get(final(env)@, key@) == Some(value@),
        forall|k: Seq<char>| k != key@ ==> env_get(final(env)@, k) == env_get(old(env)@, k),
        (exists|i: int| 0 <= i < old(env)@.len() && (#[trigger] old(env)@[i]).0@ == key@) ==> exists|i: int|
            0 <= i < old(env)@.len() && (#[trigger] old(env)@[i]).0@ == key@ && final(env)@ == old(env)@.update(
                i,
                (key, value),
            ),
        !(exists|i: int| 0 <= i < old(env)@.len() && (#[trigger] old(env)@[i]).0@ == key@) ==> final(env)@
            == old(env)@.push((key, value)),
{
    let ghost e0 = env@;
    let ghost kv = key@;
    let ghost vv = value@;
    match env_position(env, key.as_str()) {
        Some(i) => {
            env.set(i, (key, value));
            let ghost e1 = env@;
            proof {
                assert forall|a: int, b: int| 0 <= a < b < e1.len() implies (#[trigger] e1[a]).0@ != (#[trigger] e1[b]).0@ by {
                    assert(e0[a].0@ != e0[b].0@);
                }
                lemma_env_get_at(e1, i as int);
                assert forall|k: Seq<char>| k != kv implies env_get(e1, k) == env_get(e0, k) by {
                    if exists|j: int| 0 <= j < e0.len() && (#[trigger] e0[j]).0@ == k {
                        let j = choose|j: int| 0 <= j < e0.len() && (#[trigger] e0[j]).0@ == k;
                        lemma_env_get_at(e0, j);
                        assert(e1[j] == e0[j]);
                        lemma_env_get_at(e1, j);
                    } else {
                        assert forall|j: int| 0 <= j < e1.len() implies (#[trigger] e1[j]).0@ != k by {
                            if j != i {
                                assert(e1[j] == e0[j]);
                            }
                        }
                    }
                }
            }
        },
        None => {
            env.push((key, value));
            let ghost e1 = env@;
            proof {
                assert forall|a: int, b: int| 0 <= a < b < e1.len() implies (#[trigger] e1[a]).0@ != (#[trigger] e1[b]).0@ by {
                    if b == e0.len() {
                        assert(e1[a] == e0[a]);
                    } else {
                        assert(e0[a].0@ != e0[b].0@);
                    }
                }
                lemma_env_get_at(e1, e0.len() as int);
                assert forall|k: Seq<char>| k != kv implies env_get(e1, k) == env_get(e0, k) by {
                    if exists|j: int| 0 <= j < e0.len() && (#[trigger] e0[j]).0@ == k {
                        let j = choose|j: int| 0 <= j < e0.len() && (#[trigger] e0[j]).0@ == k;
                        lemma_env_get_at(e0, j);
                        assert(e1[j] == e0[j]);
                        lemma_env_get_at(e1, j);
                    } else {
                        assert forall|j: int| 0 <= j < e1.len() implies (#[trigger] e1[j]).0@ != k by {
                            if j < e0.len() {
                                assert(e1[j] == e0[j]);
                            }
                        }
                    }
                }
            }
        },
    }
}

/// The key and value of a `KEY=VALUE` entry, each trimmed; none without `=`.
pub open spec fn env_entry(entry: Seq<char>) -> Option<(Seq<char>, Seq<char>)> {
    match split_once(entry, '=') {
        Some((k, v)) => Some((trim(k), trim(v))),
        None => None,
    }
}

/// The key and value of a `KEY=VALUE` entry.
pub fn parse_env_entry(entry: &str) -> (r: Option<(String, String)>)
    ensures
        match env_entry(entry@) {
            Some((k, v)) => r matches Some(p) && p.0@ == k && p.1@ == v,
            None => r is None,
        },
{
    match split_once_exec(&chars_of(entry), '=') {
        Some((k, v)) => Some((string_of(&trim_exec(&k)), string_of(&trim_exec(&v)))),
        None => None,
    }
}

/// The summary line of a service's ports, when it has any.
pub open spec fn summary_ports(svc: Service) -> Seq<Seq<char>> {
    if svc.internal_ports@.len() == 0 {
        Seq::empty()
    } else {
        seq!["  │  端口: "@ + join_with(svc.internal_ports@.map_values(|p: u16| decimal(p as nat)), ", "@)]
    }
}

/// The summary line of a service's shared database, when it uses one.
pub open spec fn summary_database(svc: Service) -> Seq<Seq<char>> {
    match svc.database {
        DatabaseConfig::NoDatabase => Seq::empty(),
        DatabaseConfig::SharedPostgres { db_name, user, .. } => seq![
            "  │  🗄️  infra PG: DB="@ + db_name@ + ", User="@ + user@,
        ],
    }
}

/// The summary line of a service's middlewares, when it has any.
pub open spec fn summary_middlewares(svc: Service) -> Seq<Seq<char>> {
    if svc.middlewares@.len() == 0 {
        Seq::empty()
    } else {
        seq!["  │  ⚙️  Middlewares: "@ + join_with(svc.middlewares@.map_values(|m: Middleware| name_of(m)), ", "@)]
    }
}

/// The summary lines of a service, as shown before generation.
pub open spec fn service_summary(svc: Service) -> Seq<Seq<char>> {
    seq!["  ┌─ Service: "@ + svc.name@, "  │  镜像: "@ + svc.image@] + summary_ports(svc) + seq![
        network_line(svc.network_mode),
    ] + svc.routes@.map_values(|r: TraefikRoute| "  │  🌐 https://"@ + r.subdomain@) + svc.port_mappings@.map_values(
        |m: PortMapping| mapping_summary(m),
    ) + summary_database(svc) + svc.shared_mounts@.map_values(|m: SharedResourceMount| mount_summary(m))
        + summary_middlewares(svc) + seq![Seq::<char>::empty()]
}

/// The summary of a new application shown before its files are generated.
pub open spec fn summary_lines(app: App, config: Config) -> Seq<Seq<char>> {
    let root = match app.data_root {
        Some(d) => d@,
        None => config.paths.data_root@ + " (全局)"@,
    };
    seq![
        "  应用: "@ + app.name@ + " ("@ + app.description@ + ")"@,
        "  路径: "@ + app.path@,
        "  数据根: "@ + root,
        Seq::empty(),
    ] + concat_lines(app.services@, |s: Service| service_summary(s))
}

/// Appends one line per element: `prefix` then what `f` makes of it.
fn route_summary_lines(routes: &Vec<TraefikRoute>) -> (out: Vec<String>)
    ensures
        string_views(out@) == routes@.map_values(|r: TraefikRoute| "  │  🌐 https://"@ + r.subdomain@),
{
    let mut out: Vec<String> = Vec::new();
    let mut i: usize = 0;
    while i < routes.len()
        invariant
            i <= routes.len(),
            string_views(out@) == routes@.take(i as int).map_values(|r: TraefikRoute| "  │  🌐 https://"@ + r.subdomain@),
        decreases routes.len() - i,
    {
        let mut l = owned("  │  🌐 https://");
        l.append(routes[i].subdomain.as_str());
        let ghost before = out@;
        out.push(l);
        assert(routes@.take(i + 1).map_values(|r: TraefikRoute| "  │  🌐 https://"@ + r.subdomain@) =~= routes@.take(
            i as int,
        ).map_values(|r: TraefikRoute| "  │  🌐 https://"@ + r.subdomain@).push("  │  🌐 https://"@ + routes@[i as int].subdomain@));
        assert(string_views(out@) =~= string_views(before).push("  │  🌐 https://"@ + routes@[i as int].subdomain@));
        i = i + 1;
    }
    assert(routes@.take(routes.len() as int) =~= routes@);
    out
}

/// The summary line of a port mapping.
pub open spec fn mapping_summary(m: PortMapping) -> Seq<char> {
    "  │  📡 "@ + decimal(m.host_port as nat) + ":"@ + decimal(m.container_port as nat) + "/"@ + protocol_name(
        m.protocol,
    )
}

/// The summary lines of port mappings.
fn mapping_summary_lines(ms: &Vec<PortMapping>) -> (out: Vec<String>)
    ensures
        string_views(out@) == ms@.map_values(|m: PortMapping| mapping_summary(m)),
{
    let mut out: Vec<String> = Vec::new();
    let mut i: usize = 0;
    while i < ms.len()
        invariant
            i <= ms.len(),
            string_views(out@) == ms@.take(i as int).map_values(|m: PortMapping| mapping_summary(m)),
        decreases ms.len() - i,
    {
        let m = &ms[i];
        let mut l = owned("  │  📡 ");
        l.append(decimal_string(m.host_port as u64).as_str());
        l.append(":");
        l.append(decimal_string(m.container_port as u64).as_str());
        l.append("/");
        match m.protocol {
            PortProtocol::Tcp => l.append("Tcp"),
            PortProtocol::Udp => l.append("Udp"),
        }
        let ghost before = out@;
        out.push(l);
        assert(ms@.take(i + 1).map_values(|m: PortMapping| mapping_summary(m)) =~= ms@.take(i as int).map_values(
            |m: PortMapping| mapping_summary(m),
        ).push(mapping_summary(ms@[i as int])));
        assert(string_views(out@) =~= string_views(before).push(mapping_summary(ms@[i as int])));
        i = i + 1;
    }
    assert(ms@.take(ms.len() as int) =~= ms@);
    out
}

/// The summary line of a shared resource mount.
pub open spec fn mount_summary(m: SharedResourceMount) -> Seq<char> {
    "  │  📁 ["@ + m.resource_name@ + "] → "@ + m.container_path@
}

/// The summary lines of shared resource mounts.
fn mount_summary_lines(ms: &Vec<SharedResourceMount>) -> (out: Vec<String>)
    ensures
        string_views(out@) == ms@.map_values(|m: SharedResourceMount| mount_summary(m)),
{
    let mut out: Vec<String> = Vec::new();
    let mut i: usize = 0;
    while i < ms.len()
        invariant
            i <= ms.len(),
            string_views(out@) == ms@.take(i as int).map_values(|m: SharedResourceMount| mount_summary(m)),
        decreases ms.len() - i,
    {
        let m = &ms[i];
        let mut l = owned("  │  📁 [");
        l.append(m.resource_name.as_str());
        l.append("] → ");
        l.append(m.container_path.as_str());
        let ghost before = out@;
        out.push(l);
        assert(ms@.take(i + 1).map_values(|m: SharedResourceMount| mount_summary(m)) =~= ms@.take(i as int).map_values(
            |m: SharedResourceMount| mount_summary(m),
        ).push(mount_summary(ms@[i as int])));
        assert(string_views(out@) =~= string_views(before).push(mount_summary(ms@[i as int])));
        i = i + 1;
    }
    assert(ms@.take(ms.len() as int) =~= ms@);
    out
}

/// The names of middlewares, joined by `, `.
fn middleware_names(ms: &Vec<Middleware>) -> (r: String)
    ensures
        r@ == join_with(ms@.map_values(|m: Middleware| name_of(m)), ", "@),
{
    let mut parts: Vec<String> = Vec::new();
    let mut i: usize = 0;
    while i < ms.len()
        invariant
            i <= ms.len(),
            string_views(parts@) == ms@.take(i as int).map_values(|m: Middleware| name_of(m)),
        decreases ms.len() - i,
    {
        let ghost before = parts@;
        parts.push(owned(ms[i].name()));
        assert(string_views(parts@) =~= string_views(before).push(name_of(ms@[i as int])));
        assert(ms@.take(i + 1).map_values(|m: Middleware| name_of(m)) =~= ms@.take(i as int).map_values(
            |m: Middleware| name_of(m),
        ).push(name_of(ms@[i as int])));
        i = i + 1;
    }
    assert(ms@.take(ms.len() as int) =~= ms@);
    join_strings(parts.as_slice(), ", ")
}

/// The summary lines of one service.
fn service_summary_exec(svc: &Service) -> (out: Vec<String>)
    ensures
        string_views(out@) == service_summary(*svc),
{
    let mut l1 = owned("  ┌─ Service: ");
    l1.append(svc.name.as_str());
    let mut l2 = owned("  │  镜像: ");
    l2.append(svc.image.as_str());
    let mut out = vec![l1, l2];
    let ghost s0 = string_views(out@);
    if svc.internal_ports.len() > 0 {
        let mut l = owned("  │  端口: ");
        l.append(join_ports(svc.internal_ports.as_slice(), ", ").as_str());
        out.push(l);
    }
    assert(string_views(out@) =~= s0 + summary_ports(*svc));
    let ghost s1 = string_views(out@);
    let net = match &svc.network_mode {
        NetworkMode::Bridge => owned("  │  网络: bridge"),
        NetworkMode::Host => owned("  │  网络: host"),
        NetworkMode::External(name) => {
            let mut l = owned("  │  网络: external (");
            l.append(name.as_str());
            l.append(")");
            l
        },
    };
    out.push(net);
    assert(string_views(out@) =~= s1 + seq![network_line(svc.network_mode)]);
    let ghost s2 = string_views(out@);
    append_strings(&mut out, route_summary_lines(&svc.routes));
    append_strings(&mut out, mapping_summary_lines(&svc.port_mappings));
    let ghost s3 = string_views(out@);
    match &svc.database {
        DatabaseConfig::NoDatabase => {},
        DatabaseConfig::SharedPostgres { db_name, user, .. } => {
            let mut l = owned("  │  🗄️  infra PG: DB=");
            l.append(db_name.as_str());
            l.append(", User=");
            l.append(user.as_str());
            out.push(l);
        },
    }
    assert(string_views(out@) =~= s3 + summary_database(*svc));
    let ghost s4 = string_views(out@);
    append_strings(&mut out, mount_summary_lines(&svc.shared_mounts));
    let ghost s5 = string_views(out@);
    if svc.middlewares.len() > 0 {
        let mut l = owned("  │  ⚙️  Middlewares: ");
        l.append(middleware_names(&svc.middlewares).as_str());
        out.push(l);
    }
    assert(string_views(out@) =~= s5 + summary_middlewares(*svc));
    let ghost s6 = string_views(out@);
    out.push(String::new());
    assert(string_views(out@) =~= s6 + seq![Seq::<char>::empty()]);
    assert(string_views(out@) =~= service_summary(*svc));
    out
}

/// The summary shown before a new application's files are generated: its
/// name, path and data root (the global one when it has none), then for
/// each service its image, ports, network, routes, port mappings, database,
/// shared mounts and middlewares.
pub fn print_summary(app: &App, config: &Config) -> (r: Vec<String>)
    ensures
        string_views(r@) == summary_lines(*app, *config),
{
    let mut l1 = owned("  应用: ");
    l1.append(app.name.as_str());
    l1.append(" (");
    l1.append(app.description.as_str());
    l1.append(")");
    let mut l2 = owned("  路径: ");
    l2.append(app.path.as_str());
    let mut l3 = owned("  数据根: ");
    match &app.data_root {
        Some(d) => l3.append(d.as_str()),
        None => {
            l3.append(config.paths.data_root.as_str());
            l3.append(" (全局)");
        },
    }
    let mut out = vec![l1, l2, l3, String::new()];
    let ghost head = string_views(out@);
    let ghost root = match &app.data_root {
        Some(d) => d@,
        None => config.paths.data_root@ + " (全局)"@,
    };
    assert(head =~~= seq![
        "  应用: "@ + app.name@ + " ("@ + app.description@ + ")"@,
        "  路径: "@ + app.path@,
        "  数据根: "@ + root,
        Seq::<char>::empty(),
    ]);
    let ghost f = |s: Service| service_summary(s);
    let mut i: usize = 0;
    while i < app.services.len()
        invariant
            i <= app.services.len(),
            f == (|s: Service| service_summary(s)),
            string_views(out@) == head + concat_lines(app.services@.take(i as int), f),
        decreases app.services.len() - i,
    {
        proof {
            lemma_concat_lines_step(app.services@, f, i as int);
        }
        append_strings(&mut out, service_summary_exec(&app.services[i]));
        i = i + 1;
    }
    assert(app.services@.take(app.services.len() as int) =~= app.services@);
    assert(string_views(out@) =~= summary_lines(*app, *config));
    out
}

/// The shared databases to create: name and user of each service's shared
/// PostgreSQL database marked for automatic creation, in service order.
pub open spec fn databases_to_create_spec(svcs: Seq<Service>) -> Seq<(Seq<char>, Seq<char>)>
    decreases svcs.len(),
{
    if svcs.len() == 0 {
        Seq::empty()
    } else {
        databases_to_create_spec(svcs.drop_last()) + match svcs.last().database {
            DatabaseConfig::SharedPostgres { db_name, user, auto_create } => if auto_create {
                seq![(db_name@, user@)]
            } else {
                Seq::empty()
            },
            DatabaseConfig::NoDatabase => Seq::empty(),
        }
    }
}

/// The shared databases to create for a new application.
pub fn databases_to_create(app: &App) -> (r: Vec<(String, String)>)
    ensures
        r@.map_values(|p: (String, String)| (p.0@, p.1@)) == databases_to_create_spec(app.services@),
{
    let mut r: Vec<(String, String)> = Vec::new();
    let mut i: usize = 0;
    while i < app.services.len()
        invariant
            i <= app.services.len(),
            r@.map_values(|p: (String, String)| (p.0@, p.1@)) == databases_to_create_spec(app.services@.take(i as int)),
        decreases app.services.len() - i,
    {
        assert(app.services@.take(i + 1).drop_last() =~= app.services@.take(i as int));
        let ghost before = r@;
        match &app.services[i].database {
            DatabaseConfig::SharedPostgres { db_name, user, auto_create } => {
                if *auto_create {
                    r.push((db_name.clone(), user.clone()));
                }
            },
            DatabaseConfig::NoDatabase => {},
        }
        assert(r@.map_values(|p: (String, String)| (p.0@, p.1@)) =~= databases_to_create_spec(app.services@.take(i + 1)));
        i = i + 1;
    }
    assert(app.services@.take(app.services.len() as int) =~= app.services@);
    r
}

/// The new application: in its directory under the applications root.
pub fn new_app(config: &Config, name: &str, description: &str, data_root: Option<String>, services: Vec<Service>) -> (r: App)
    ensures
        r.name@ == name@,
        r.description@ == description@,
        r.path@ == join_path(config.paths.apps_root@, name@),
        r.data_root == data_root,
        r.services == services,
{
    App {
        name: owned(name),
        description: owned(description),
        path: app_dir(config, name),
        data_root,
        services,
    }
}

/// One step of creating an application once its settings are confirmed.
#[derive(Debug, Clone, PartialEq, Eq)]
pub enum CreationStep {
    /// Write the application's files.
    GenerateFiles,
    /// Create the shared database `db_name` owned by `user`.
    CreateDatabase {
        /// Database name.
        db_name: String,
        /// Database user.
        user: String,
    },
    /// Run `git` with these arguments.
    Git(Vec<String>),
    /// Run `docker` with these arguments.
    Docker(Vec<String>),
}

/// A step as plain values: its kind (files, database, `git`, `docker`) and
/// its texts.
pub open spec fn step_view(s: CreationStep) -> (nat, Seq<Seq<char>>) {
    match s {
        CreationStep::GenerateFiles => (0, Seq::empty()),
        CreationStep::CreateDatabase { db_name, user } => (1, seq![db_name@, user@]),
        CreationStep::Git(args) => (2, string_views(args@)),
        CreationStep::Docker(args) => (3, string_views(args@)),
    }
}

/// The steps of creating `app`: its files; its shared databases marked for
/// automatic creation; with Git enabled in a repository, staging it and,
/// when asked, committing it as `<operation> <name>`; starting it when
/// asked.
pub open spec fn creation_steps_spec(
    app: App,
    config: Config,
    operation: Seq<char>,
    commit: bool,
    no_git: bool,
    is_repo: bool,
    start: bool,
) -> Seq<(nat, Seq<Seq<char>>)> {
    let root = config.paths.apps_root@;
    let dbs = databases_to_create_spec(app.services@).map_values(
        |d: (Seq<char>, Seq<char>)| (1nat, seq![d.0, d.1]),
    );
    let git = if !no_git && is_repo {
        seq![(2nat, git_add_args_spec(root, app.path@))] + if commit {
            seq![(2nat, seq!["-C"@, root, "commit"@, "-m"@, "homespace: "@ + operation + " "@ + app.name@])]
        } else {
            Seq::empty()
        }
    } else {
        Seq::empty()
    };
    let up = if start {
        seq![(3nat, compose_args_spec(app.path@, ComposeOp::Up))]
    } else {
        Seq::empty()
    };
    seq![(0nat, Seq::<Seq<char>>::empty())] + dbs + git + up
}

/// The steps of creating `app` once confirmed; `is_repo` tells whether the
/// applications root is a Git repository.
pub fn creation_steps(
    app: &App,
    config: &Config,
    operation: &str,
    commit: bool,
    no_git: bool,
    is_repo: bool,
    start: bool,
) -> (r: Vec<CreationStep>)
    ensures
        r@.map_values(|s: CreationStep| step_view(s)) == creation_steps_spec(
            *app,
            *config,
            operation@,
            commit,
            no_git,
            is_repo,
            start,
        ),
{
    let mut r = vec![CreationStep::GenerateFiles];
    let ghost s0 = r@.map_values(|s: CreationStep| step_view(s));
    assert(s0 =~= seq![(0nat, Seq::<Seq<char>>::empty())]);
    let dbs = databases_to_create(app);
    let ghost dv = dbs@.map_values(|p: (String, String)| (p.0@, p.1@));
    let mut i: usize = 0;
    while i < dbs.len()
        invariant
            i <= dbs.len(),
            dv == dbs@.map_values(|p: (String, String)| (p.0@, p.1@)),
            r@.map_values(|s: CreationStep| step_view(s)) == s0 + dv.take(i as int).map_values(
                |d: (Seq<char>, Seq<char>)| (1nat, seq![d.0, d.1]),
            ),
        decreases dbs.len() - i,
    {
        let ghost before = r@.map_values(|s: CreationStep| step_view(s));
        let step = CreationStep::CreateDatabase { db_name: dbs[i].0.clone(), user: dbs[i].1.clone() };
        assert(step_view(step) == (1nat, seq![dv[i as int].0, dv[i as int].1]));
        r.push(step);
        assert(r@.map_values(|s: CreationStep| step_view(s)) =~= before.push(step_view(step)));
        assert(dv.take(i + 1).map_values(|d: (Seq<char>, Seq<char>)| (1nat, seq![d.0, d.1])) =~= dv.take(
            i as int,
        ).map_values(|d: (Seq<char>, Seq<char>)| (1nat, seq![d.0, d.1])).push((1nat, seq![dv[i as int].0, dv[i as int].1])));
        i = i + 1;
    }
    assert(dv.take(dbs.len() as int) =~= dv);
    let ghost s1 = r@.map_values(|s: CreationStep| step_view(s));
    if !no_git && is_repo {
        r.push(CreationStep::Git(git_add_args(config.paths.apps_root.as_str(), app.path.as_str())));
        if commit {
            let message = commit_message(operation, app.name.as_str());
            r.push(CreationStep::Git(git_commit_args(config.paths.apps_root.as_str(), message.as_str())));
        }
    }
    let ghost s2 = r@.map_values(|s: CreationStep| step_view(s));
    proof {
        let root = config.paths.apps_root@;
        let git = if !no_git && is_repo {
            seq![(2nat, git_add_args_spec(root, app.path@))] + if commit {
                seq![(2nat, seq!["-C"@, root, "commit"@, "-m"@, "homespace: "@ + operation@ + " "@ + app.name@])]
            } else {
                Seq::empty()
            }
        } else {
            Seq::empty()
        };
        assert(s2 =~= s1 + git);
    }
    if start {
        r.push(CreationStep::Docker(compose_args(app.path.as_str(), ComposeOp::Up)));
    }
    assert(r@.map_values(|s: CreationStep| step_view(s)) =~= creation_steps_spec(
        *app,
        *config,
        operation@,
        commit,
        no_git,
        is_repo,
        start,
    ));
    r
}

} // verus!

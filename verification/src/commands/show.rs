//! The detailed view of one application: its settings and the state of each
//! service.
use vstd::prelude::*;
use crate::commands::{
    app_index, concat_lines, find_app, first_index, is_first, lemma_concat_lines_step,
    lemma_first_index,
};
use crate::models::app::{
    App, DatabaseConfig, NetworkMode, PortMapping, PortProtocol, Service, SharedResourceMount,
    TraefikRoute, Volume,
};
use crate::models::status::{ContainerState, ServiceStatus};
use crate::services::scanner::{get_app_status, status_view, statuses_of, StatusView};
use crate::text::{
    append_strings, chars_of, contains, contains_exec, decimal, decimal_string, join_strings,
    join_ports, join_with, lowercase, owned, str_eq, string_views, to_lower,
};

verus! {

/// Why `show` found nothing to show.
#[derive(Debug, Clone, Copy, PartialEq, Eq, Structural)]
pub enum ShowError {
    /// No application has the given name.
    AppNotFound,
}

/// The name of a container state, as `{:?}` writes it.
pub open spec fn state_name(s: ContainerState) -> Seq<char> {
    match s {
        ContainerState::Running => "Running"@,
        ContainerState::Stopped => "Stopped"@,
        ContainerState::Paused => "Paused"@,
        ContainerState::NotFound => "NotFound"@,
        ContainerState::Unknown => "Unknown"@,
    }
}

/// The name of a protocol, as `{:?}` writes it.
pub open spec fn protocol_name(p: PortProtocol) -> Seq<char> {
    match p {
        PortProtocol::Tcp => "Tcp"@,
        PortProtocol::Udp => "Udp"@,
    }
}

/// Is the status of the service named `name`.
pub open spec fn status_named(name: Seq<char>) -> spec_fn(StatusView) -> bool {
    |v: StatusView| v.0 == name
}

/// The state shown for the service `name`: that of its first status, or
/// `unknown`.
pub open spec fn state_label(vs: Seq<StatusView>, name: Seq<char>) -> Seq<char> {
    match first_index(vs, status_named(name)) {
        Some(i) => state_name(vs[i].1),
        None => "unknown"@,
    }
}

/// The value shown for an environment variable: hidden when the lower-case
/// key mentions `password` or `secret`.
pub open spec fn shown_value(key: Seq<char>, value: Seq<char>) -> Seq<char> {
    if contains(lowercase(key), "password"@) || contains(lowercase(key), "secret"@) {
        "********"@
    } else {
        value
    }
}

/// The line of the network mode.
pub open spec fn network_line(m: NetworkMode) -> Seq<char> {
    match m {
        NetworkMode::Bridge => "  │  网络: bridge"@,
        NetworkMode::Host => "  │  网络: host"@,
        NetworkMode::External(name) => "  │  网络: external ("@ + name@ + ")"@,
    }
}

/// The lines of one route: its URL, and a note when TLS is on.
pub open spec fn route_lines(r: TraefikRoute) -> Seq<Seq<char>> {
    let prefix = match r.path_prefix {
        Some(p) => p@,
        None => Seq::empty(),
    };
    seq!["  │    - "@ + "https://"@ + r.subdomain@ + prefix] + if r.tls {
        seq!["  │      (TLS 启用)"@]
    } else {
        Seq::empty()
    }
}

/// `(ro)` for a read-only mount, nothing otherwise.
pub open spec fn ro_mark(read_only: bool) -> Seq<char> {
    if read_only {
        "(ro)"@
    } else {
        Seq::empty()
    }
}

/// The line of a port mapping.
pub open spec fn mapping_line(m: PortMapping) -> Seq<char> {
    "  │    "@ + decimal(m.host_port as nat) + ":"@ + decimal(m.container_port as nat) + "/"@ + protocol_name(
        m.protocol,
    )
}

/// The line of a volume.
pub open spec fn volume_line(v: Volume) -> Seq<char> {
    "  │    "@ + v.host_path@ + " → "@ + v.container_path@ + " "@ + ro_mark(v.read_only)
}

/// The line of a shared resource mount.
pub open spec fn mount_line(m: SharedResourceMount) -> Seq<char> {
    "  │    ["@ + m.resource_name@ + "] → "@ + m.container_path@ + " "@ + ro_mark(m.read_only)
}

/// The line of an environment variable.
pub open spec fn env_line(kv: (String, String)) -> Seq<char> {
    "  │    "@ + kv.0@ + "="@ + shown_value(kv.0@, kv.1@)
}

/// The command line, when the service overrides the image's command.
pub open spec fn command_lines(c: Option<Vec<String>>) -> Seq<Seq<char>> {
    match c {
        Some(v) => seq!["  │  命令: "@ + join_with(string_views(v@), " "@)],
        None => Seq::empty(),
    }
}

/// The listening ports, when there are any.
pub open spec fn ports_lines(ports: Seq<u16>) -> Seq<Seq<char>> {
    if ports.len() == 0 {
        Seq::empty()
    } else {
        seq!["  │  监听端口: "@ + join_with(ports.map_values(|p: u16| decimal(p as nat)), ", "@)]
    }
}

/// The routes, when there are any.
pub open spec fn routes_section(rs: Seq<TraefikRoute>) -> Seq<Seq<char>> {
    if rs.len() == 0 {
        Seq::empty()
    } else {
        seq!["  │  Traefik 路由:"@] + concat_lines(rs, |r: TraefikRoute| route_lines(r))
    }
}

/// The port mappings, when there are any.
pub open spec fn mappings_section(ms: Seq<PortMapping>) -> Seq<Seq<char>> {
    if ms.len() == 0 {
        Seq::empty()
    } else {
        seq!["  │  端口映射:"@] + ms.map_values(|m: PortMapping| mapping_line(m))
    }
}

/// The shared database, when the service uses one.
pub open spec fn database_lines(d: DatabaseConfig) -> Seq<Seq<char>> {
    match d {
        DatabaseConfig::NoDatabase => Seq::empty(),
        DatabaseConfig::SharedPostgres { db_name, user, .. } => seq![
            "  │  数据库: infra PostgreSQL"@,
            "  │    DB: "@ + db_name@ + ", User: "@ + user@,
        ],
    }
}

/// The volumes, when there are any.
pub open spec fn volumes_section(vs: Seq<Volume>) -> Seq<Seq<char>> {
    if vs.len() == 0 {
        Seq::empty()
    } else {
        seq!["  │  挂载卷:"@] + vs.map_values(|v: Volume| volume_line(v))
    }
}

/// The shared resource mounts, when there are any.
pub open spec fn mounts_section(ms: Seq<SharedResourceMount>) -> Seq<Seq<char>> {
    if ms.len() == 0 {
        Seq::empty()
    } else {
        seq!["  │  共享资源挂载:"@] + ms.map_values(|m: SharedResourceMount| mount_line(m))
    }
}

/// The environment variables, when there are any.
pub open spec fn env_section(es: Seq<(String, String)>) -> Seq<Seq<char>> {
    if es.len() == 0 {
        Seq::empty()
    } else {
        seq!["  │  环境变量:"@] + es.map_values(|kv: (String, String)| env_line(kv))
    }
}

/// The block of one service, given the statuses of the application.
pub open spec fn service_lines(svc: Service, vs: Seq<StatusView>) -> Seq<Seq<char>> {
    seq!["  ┌─ Service: "@ + svc.name@, "  │  镜像: "@ + svc.image@] + command_lines(svc.command) + seq![
        "  │  状态: "@ + state_label(vs, svc.name@),
    ] + ports_lines(svc.internal_ports@) + seq![network_line(svc.network_mode)] + routes_section(
        svc.routes@,
    ) + mappings_section(svc.port_mappings@) + database_lines(svc.database) + volumes_section(
        svc.volumes@,
    ) + mounts_section(svc.shared_mounts@) + env_section(svc.env_vars@)
}

/// The blocks of the first `n` services, a separator line after each but
/// the last service.
pub open spec fn services_upto(svcs: Seq<Service>, vs: Seq<StatusView>, n: nat) -> Seq<Seq<char>>
    decreases n,
{
    if n == 0 {
        Seq::empty()
    } else {
        services_upto(svcs, vs, (n - 1) as nat) + service_lines(svcs[n - 1], vs) + if n < svcs.len() {
            seq!["  │"@]
        } else {
            Seq::empty()
        }
    }
}

/// The lines `show` prints for `app` whose services have the statuses `vs`.
pub open spec fn show_lines(app: App, vs: Seq<StatusView>) -> Seq<Seq<char>> {
    let root = match app.data_root {
        Some(d) => d@,
        None => "全局默认"@,
    };
    seq![
        "📦 "@ + app.name@ + " — "@ + app.description@ + "\n"@,
        "  路径: "@ + app.path@,
        "  数据根: "@ + root,
        "  服务数: "@ + decimal(app.services@.len()),
        Seq::empty(),
    ] + services_upto(app.services@, vs, app.services@.len())
}

/// The header `show` prints names the application and its description,
/// gives its path, gives its own data root when it has one (the global
/// default is named only when it has none), and counts its services.
pub proof fn lemma_show_header(app: App, vs: Seq<StatusView>)
    ensures
        show_lines(app, vs).len() >= 5,
        show_lines(app, vs)[0] == "📦 "@ + app.name@ + " — "@ + app.description@ + "\n"@,
        show_lines(app, vs)[1] == "  路径: "@ + app.path@,
        app.data_root matches Some(d) ==> show_lines(app, vs)[2] == "  数据根: "@ + d@,
        app.data_root is None ==> show_lines(app, vs)[2] == "  数据根: 全局默认"@,
        show_lines(app, vs)[3] == "  服务数: "@ + decimal(app.services@.len()),
{
    reveal_strlit("  数据根: ");
    reveal_strlit("全局默认");
    reveal_strlit("  数据根: 全局默认");
    let ls = show_lines(app, vs);
    let head = seq![
        "📦 "@ + app.name@ + " — "@ + app.description@ + "\n"@,
        "  路径: "@ + app.path@,
        "  数据根: "@ + match app.data_root {
            Some(d) => d@,
            None => "全局默认"@,
        },
        "  服务数: "@ + decimal(app.services@.len()),
        Seq::<char>::empty(),
    ];
    assert(ls == head + services_upto(app.services@, vs, app.services@.len()));
    assert(ls[2] == head[2]);
    if app.data_root is None {
        assert(head[2] =~= "  数据根: 全局默认"@);
    }
}

/// The state shown for the service `name`.
fn state_label_exec(statuses: &Vec<ServiceStatus>, name: &str) -> (r: String)
    ensures
        r@ == state_label(statuses@.map_values(|s: ServiceStatus| status_view(s)), name@),
{
    let ghost vs = statuses@.map_values(|s: ServiceStatus| status_view(s));
    let ghost p = status_named(name@);
    let mut i: usize = 0;
    while i < statuses.len()
        invariant
            i <= statuses.len(),
            vs == statuses@.map_values(|s: ServiceStatus| status_view(s)),
            p == status_named(name@),
            forall|j: int| 0 <= j < i ==> !p(#[trigger] vs[j]),
        decreases statuses.len() - i,
    {
        assert(vs[i as int] == status_view(statuses@[i as int]));
        if str_eq(statuses[i].name.as_str(), name) {
            proof {
                lemma_first_index(vs, p);
                assert(is_first(vs, p, i as int));
            }
            let r = match statuses[i].state {
                ContainerState::Running => owned("Running"),
                ContainerState::Stopped => owned("Stopped"),
                ContainerState::Paused => owned("Paused"),
                ContainerState::NotFound => owned("NotFound"),
                ContainerState::Unknown => owned("Unknown"),
            };
            return r;
        }
        i = i + 1;
    }
    proof {
        lemma_first_index(vs, p);
    }
    owned("unknown")
}

/// The value shown for an environment variable.
fn shown_value_exec(key: &str, value: &str) -> (r: String)
    ensures
        r@ == shown_value(key@, value@),
{
    let lower = chars_of(to_lower(key).as_str());
    if contains_exec(&lower, &chars_of("password")) || contains_exec(&lower, &chars_of("secret")) {
        owned("********")
    } else {
        owned(value)
    }
}

/// The lines of one route.
fn route_lines_exec(r: &TraefikRoute) -> (out: Vec<String>)
    ensures
        string_views(out@) == route_lines(*r),
{
    let mut url = owned("  │    - ");
    url.append("https://");
    url.append(r.subdomain.as_str());
    match &r.path_prefix {
        Some(p) => url.append(p.as_str()),
        None => {},
    }
    let mut out = vec![url];
    if r.tls {
        out.push(owned("  │      (TLS 启用)"));
    }
    assert(string_views(out@) =~= route_lines(*r));
    out
}

/// The routes section.
fn routes_section_exec(rs: &Vec<TraefikRoute>) -> (out: Vec<String>)
    ensures
        string_views(out@) == routes_section(rs@),
{
    let mut out: Vec<String> = Vec::new();
    if rs.len() == 0 {
        assert(string_views(out@) =~= routes_section(rs@));
        return out;
    }
    out.push(owned("  │  Traefik 路由:"));
    let ghost f = |r: TraefikRoute| route_lines(r);
    let mut i: usize = 0;
    assert(string_views(out@) =~= seq!["  │  Traefik 路由:"@] + concat_lines(rs@.take(0), f));
    while i < rs.len()
        invariant
            i <= rs.len(),
            f == (|r: TraefikRoute| route_lines(r)),
            string_views(out@) == seq!["  │  Traefik 路由:"@] + concat_lines(rs@.take(i as int), f),
        decreases rs.len() - i,
    {
        proof {
            lemma_concat_lines_step(rs@, f, i as int);
        }
        append_strings(&mut out, route_lines_exec(&rs[i]));
        i = i + 1;
    }
    assert(rs@.take(rs.len() as int) =~= rs@);
    out
}

/// The listening ports line, when there are ports.
fn ports_lines_exec(ports: &Vec<u16>) -> (out: Vec<String>)
    ensures
        string_views(out@) == ports_lines(ports@),
{
    if ports.len() == 0 {
        let out: Vec<String> = Vec::new();
        assert(string_views(out@) =~= ports_lines(ports@));
        return out;
    }
    let mut line = owned("  │  监听端口: ");
    line.append(join_ports(ports.as_slice(), ", ").as_str());
    let out = vec![line];
    assert(string_views(out@) =~= ports_lines(ports@));
    out
}

/// The line of a port mapping.
fn mapping_line_exec(m: &PortMapping) -> (r: String)
    ensures
        r@ == mapping_line(*m),
{
    let mut r = owned("  │    ");
    r.append(decimal_string(m.host_port as u64).as_str());
    r.append(":");
    r.append(decimal_string(m.container_port as u64).as_str());
    r.append("/");
    match m.protocol {
        PortProtocol::Tcp => r.append("Tcp"),
        PortProtocol::Udp => r.append("Udp"),
    }
    r
}

/// The port mappings section.
fn mappings_section_exec(ms: &Vec<PortMapping>) -> (out: Vec<String>)
    ensures
        string_views(out@) == mappings_section(ms@),
{
    let mut out: Vec<String> = Vec::new();
    if ms.len() == 0 {
        assert(string_views(out@) =~= mappings_section(ms@));
        return out;
    }
    out.push(owned("  │  端口映射:"));
    let mut i: usize = 0;
    while i < ms.len()
        invariant
            i <= ms.len(),
            string_views(out@) == seq!["  │  端口映射:"@] + ms@.take(i as int).map_values(|m: PortMapping| mapping_line(m)),
        decreases ms.len() - i,
    {
        let ghost before = out@;
        out.push(mapping_line_exec(&ms[i]));
        assert(ms@.take(i + 1).map_values(|m: PortMapping| mapping_line(m)) =~= ms@.take(i as int).map_values(
            |m: PortMapping| mapping_line(m),
        ).push(mapping_line(ms@[i as int])));
        assert(string_views(out@) =~= string_views(before).push(mapping_line(ms@[i as int])));
        i = i + 1;
    }
    assert(ms@.take(ms.len() as int) =~= ms@);
    out
}

/// `(ro)` for a read-only mount.
fn ro_mark_exec(read_only: bool) -> (r: &'static str)
    ensures
        r@ == ro_mark(read_only),
{
    if read_only {
        "(ro)"
    } else {
        proof {
            reveal_strlit("");
        }
        ""
    }
}

/// The volumes section.
fn volumes_section_exec(vs: &Vec<Volume>) -> (out: Vec<String>)
    ensures
        string_views(out@) == volumes_section(vs@),
{
    let mut out: Vec<String> = Vec::new();
    if vs.len() == 0 {
        assert(string_views(out@) =~= volumes_section(vs@));
        return out;
    }
    out.push(owned("  │  挂载卷:"));
    let mut i: usize = 0;
    while i < vs.len()
        invariant
            i <= vs.len(),
            string_views(out@) == seq!["  │  挂载卷:"@] + vs@.take(i as int).map_values(|v: Volume| volume_line(v)),
        decreases vs.len() - i,
    {
        let v = &vs[i];
        let mut line = owned("  │    ");
        line.append(v.host_path.as_str());
        line.append(" → ");
        line.append(v.container_path.as_str());
        line.append(" ");
        line.append(ro_mark_exec(v.read_only));
        let ghost before = out@;
        out.push(line);
        assert(vs@.take(i + 1).map_values(|v: Volume| volume_line(v)) =~= vs@.take(i as int).map_values(
            |v: Volume| volume_line(v),
        ).push(volume_line(vs@[i as int])));
        assert(string_views(out@) =~= string_views(before).push(volume_line(vs@[i as int])));
        i = i + 1;
    }
    assert(vs@.take(vs.len() as int) =~= vs@);
    out
}

/// The shared resource mounts section.
fn mounts_section_exec(ms: &Vec<SharedResourceMount>) -> (out: Vec<String>)
    ensures
        string_views(out@) == mounts_section(ms@),
{
    let mut out: Vec<String> = Vec::new();
    if ms.len() == 0 {
        assert(string_views(out@) =~= mounts_section(ms@));
        return out;
    }
    out.push(owned("  │  共享资源挂载:"));
    let mut i: usize = 0;
    while i < ms.len()
        invariant
            i <= ms.len(),
            string_views(out@) == seq!["  │  共享资源挂载:"@] + ms@.take(i as int).map_values(
                |m: SharedResourceMount| mount_line(m),
            ),
        decreases ms.len() - i,
    {
        let m = &ms[i];
        let mut line = owned("  │    [");
        line.append(m.resource_name.as_str());
        line.append("] → ");
        line.append(m.container_path.as_str());
        line.append(" ");
        line.append(ro_mark_exec(m.read_only));
        let ghost before = out@;
        out.push(line);
        assert(ms@.take(i + 1).map_values(|m: SharedResourceMount| mount_line(m)) =~= ms@.take(i as int).map_values(
            |m: SharedResourceMount| mount_line(m),
        ).push(mount_line(ms@[i as int])));
        assert(string_views(out@) =~= string_views(before).push(mount_line(ms@[i as int])));
        i = i + 1;
    }
    assert(ms@.take(ms.len() as int) =~= ms@);
    out
}

/// The environment variables section.
fn env_section_exec(es: &Vec<(String, String)>) -> (out: Vec<String>)
    ensures
        string_views(out@) == env_section(es@),
{
    let mut out: Vec<String> = Vec::new();
    if es.len() == 0 {
        assert(string_views(out@) =~= env_section(es@));
        return out;
    }
    out.push(owned("  │  环境变量:"));
    let mut i: usize = 0;
    while i < es.len()
        invariant
            i <= es.len(),
            string_views(out@) == seq!["  │  环境变量:"@] + es@.take(i as int).map_values(
                |kv: (String, String)| env_line(kv),
            ),
        decreases es.len() - i,
    {
        let kv = &es[i];
        let mut line = owned("  │    ");
        line.append(kv.0.as_str());
        line.append("=");
        line.append(shown_value_exec(kv.0.as_str(), kv.1.as_str()).as_str());
        let ghost before = out@;
        out.push(line);
        assert(es@.take(i + 1).map_values(|kv: (String, String)| env_line(kv)) =~= es@.take(i as int).map_values(
            |kv: (String, String)| env_line(kv),
        ).push(env_line(es@[i as int])));
        assert(string_views(out@) =~= string_views(before).push(env_line(es@[i as int])));
        i = i + 1;
    }
    assert(es@.take(es.len() as int) =~= es@);
    out
}

/// The block of one service.
fn service_lines_exec(svc: &Service, statuses: &Vec<ServiceStatus>) -> (out: Vec<String>)
    ensures
        string_views(out@) == service_lines(*svc, statuses@.map_values(|s: ServiceStatus| status_view(s))),
{
    let ghost vs = statuses@.map_values(|s: ServiceStatus| status_view(s));
    let mut l1 = owned("  ┌─ Service: ");
    l1.append(svc.name.as_str());
    let mut l2 = owned("  │  镜像: ");
    l2.append(svc.image.as_str());
    let mut out = vec![l1, l2];
    let ghost s0 = string_views(out@);
    match &svc.command {
        Some(c) => {
            let mut l = owned("  │  命令: ");
            l.append(join_strings(c.as_slice(), " ").as_str());
            out.push(l);
        },
        None => {},
    }
    assert(string_views(out@) =~= s0 + command_lines(svc.command));
    let ghost s1 = string_views(out@);
    let mut ls = owned("  │  状态: ");
    ls.append(state_label_exec(statuses, svc.name.as_str()).as_str());
    out.push(ls);
    assert(string_views(out@) =~= s1 + seq!["  │  状态: "@ + state_label(vs, svc.name@)]);
    append_strings(&mut out, ports_lines_exec(&svc.internal_ports));
    let ghost s2 = string_views(out@);
    let net = match &svc.network_mode {
        NetworkMode::Bridge => owned("  │  网络: bridge"),
        NetworkMode::Host => owned("  │  网络: host"),
        NetworkMode::External(name) => {
            let mut l = owned("  │  网络: external (");
            l.append(name.as_str());
            l.append(")");
            l
        },
    };
    out.push(net);
    assert(string_views(out@) =~= s2 + seq![network_line(svc.network_mode)]);
    append_strings(&mut out, routes_section_exec(&svc.routes));
    append_strings(&mut out, mappings_section_exec(&svc.port_mappings));
    let ghost s3 = string_views(out@);
    match &svc.database {
        DatabaseConfig::NoDatabase => {},
        DatabaseConfig::SharedPostgres { db_name, user, .. } => {
            out.push(owned("  │  数据库: infra PostgreSQL"));
            let mut l = owned("  │    DB: ");
            l.append(db_name.as_str());
            l.append(", User: ");
            l.append(user.as_str());
            out.push(l);
        },
    }
    assert(string_views(out@) =~= s3 + database_lines(svc.database));
    append_strings(&mut out, volumes_section_exec(&svc.volumes));
    append_strings(&mut out, mounts_section_exec(&svc.shared_mounts));
    append_strings(&mut out, env_section_exec(&svc.env_vars));
    assert(string_views(out@) =~= service_lines(*svc, vs));
    out
}

/// The lines `show` prints for the application named `app_name` among
/// `apps`: its path, data root and service count, then a block per service
/// with its image, command, state, ports, network, routes, port mappings,
/// database, volumes, shared mounts and environment (secrets hidden).
/// `ps_output` is what `docker compose ps --format json` printed for that
/// application, none when it failed.
pub fn run(app_name: &str, apps: &[App], ps_output: Option<&str>) -> (r: Result<Vec<String>, ShowError>)
    ensures
        match app_index(apps@, app_name@) {
            None => r == Err::<Vec<String>, ShowError>(ShowError::AppNotFound),
            Some(i) => r matches Ok(lines) && string_views(lines@) == show_lines(
                apps@[i],
                statuses_of(apps@[i], match ps_output {
                    Some(o) => Some(o@),
                    None => None,
                }),
            ),
        },
{
    let i = match find_app(apps, app_name) {
        Some(i) => i,
        None => return Err(ShowError::AppNotFound),
    };
    let app = &apps[i];
    let statuses = get_app_status(app, ps_output);
    let ghost vs = statuses@.map_values(|s: ServiceStatus| status_view(s));
    let mut l1 = owned("📦 ");
    l1.append(app.name.as_str());
    l1.append(" — ");
    l1.append(app.description.as_str());
    l1.append("\n");
    let mut l2 = owned("  路径: ");
    l2.append(app.path.as_str());
    let mut l3 = owned("  数据根: ");
    match &app.data_root {
        Some(d) => l3.append(d.as_str()),
        None => l3.append("全局默认"),
    }
    let mut l4 = owned("  服务数: ");
    l4.append(decimal_string(app.services.len() as u64).as_str());
    let mut out = vec![l1, l2, l3, l4, String::new()];
    let n = app.services.len();
    let ghost head = string_views(out@);
    assert(head =~= show_lines(*app, vs).take(5));
    let mut k: usize = 0;
    while k < n
        invariant
            k <= n == app.services.len(),
            vs == statuses@.map_values(|s: ServiceStatus| status_view(s)),
            string_views(out@) == head + services_upto(app.services@, vs, k as nat),
        decreases n - k,
    {
        append_strings(&mut out, service_lines_exec(&app.services[k], &statuses));
        if k + 1 < n {
            let ghost before = string_views(out@);
            out.push(owned("  │"));
            assert(string_views(out@) =~= before + seq!["  │"@]);
        } else {
            assert(string_views(out@) =~= string_views(out@) + Seq::<Seq<char>>::empty());
        }
        k = k + 1;
    }
    assert(string_views(out@) =~= show_lines(*app, vs));
    Ok(out)
}

} // verus!

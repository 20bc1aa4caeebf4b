//! Adding a static web site served by nginx from an unpacked archive.
use vstd::prelude::*;
use crate::models::app::{App, DatabaseConfig, NetworkMode, Service, TraefikRoute, Volume};
use crate::services::scanner::domain_conflict;
use crate::text::{chars_of, has_suffix, has_suffix_exec, owned, string_views};

verus! {

/// The kind of a site archive, by its file name.
#[derive(Debug, Clone, Copy, PartialEq, Eq, Structural)]
pub enum ArchiveKind {
    /// `.zip`, unpacked with `unzip`.
    Zip,
    /// `.tar.gz` or `.tgz`.
    TarGz,
    /// `.tar.bz2`.
    TarBz2,
    /// `.tar.xz`.
    TarXz,
}

/// The kind of archive a file name ends in, if it is a supported one.
pub open spec fn archive_kind_of(file_name: Seq<char>) -> Option<ArchiveKind> {
    if has_suffix(file_name, ".zip"@) {
        Some(ArchiveKind::Zip)
    } else if has_suffix(file_name, ".tar.gz"@) || has_suffix(file_name, ".tgz"@) {
        Some(ArchiveKind::TarGz)
    } else if has_suffix(file_name, ".tar.bz2"@) {
        Some(ArchiveKind::TarBz2)
    } else if has_suffix(file_name, ".tar.xz"@) {
        Some(ArchiveKind::TarXz)
    } else {
        None
    }
}

/// The kind of archive a file name ends in.
pub fn archive_kind(file_name: &str) -> (r: Option<ArchiveKind>)
    ensures
        r == archive_kind_of(file_name@),
{
    let v = chars_of(file_name);
    if has_suffix_exec(&v, &chars_of(".zip")) {
        Some(ArchiveKind::Zip)
    } else if has_suffix_exec(&v, &chars_of(".tar.gz")) || has_suffix_exec(&v, &chars_of(".tgz")) {
        Some(ArchiveKind::TarGz)
    } else if has_suffix_exec(&v, &chars_of(".tar.bz2")) {
        Some(ArchiveKind::TarBz2)
    } else if has_suffix_exec(&v, &chars_of(".tar.xz")) {
        Some(ArchiveKind::TarXz)
    } else {
        None
    }
}

/// Why a site archive was refused.
#[derive(Debug, Clone, Copy, PartialEq, Eq, Structural)]
pub enum ArchiveError {
    /// Nothing exists at the path.
    NotFound,
    /// The path is not a regular file.
    NotAFile,
    /// The file name has none of the supported extensions.
    Unsupported,
}

/// Checks a site archive, given whether its path exists, whether it is a
/// file, and its file name (empty when it has none).
pub fn validate_archive(exists: bool, is_file: bool, file_name: &str) -> (r: Result<ArchiveKind, ArchiveError>)
    ensures
        !exists ==> r == Err::<ArchiveKind, ArchiveError>(ArchiveError::NotFound),
        exists && !is_file ==> r == Err::<ArchiveKind, ArchiveError>(ArchiveError::NotAFile),
        exists && is_file ==> r == match archive_kind_of(file_name@) {
            Some(k) => Ok::<ArchiveKind, ArchiveError>(k),
            None => Err(ArchiveError::Unsupported),
        },
{
    if !exists {
        Err(ArchiveError::NotFound)
    } else if !is_file {
        Err(ArchiveError::NotAFile)
    } else {
        match archive_kind(file_name) {
            Some(k) => Ok(k),
            None => Err(ArchiveError::Unsupported),
        }
    }
}

/// The program and arguments that unpack an archive of kind `kind` at
/// `archive` into `target`.
pub open spec fn extract_command_spec(kind: ArchiveKind, archive: Seq<char>, target: Seq<char>) -> (Seq<char>, Seq<Seq<char>>) {
    match kind {
        ArchiveKind::Zip => ("unzip"@, seq!["-o"@, archive, "-d"@, target]),
        ArchiveKind::TarGz => ("tar"@, seq!["xzf"@, archive, "-C"@, target]),
        ArchiveKind::TarBz2 => ("tar"@, seq!["xjf"@, archive, "-C"@, target]),
        ArchiveKind::TarXz => ("tar"@, seq!["xJf"@, archive, "-C"@, target]),
    }
}

/// The program and arguments that unpack an archive into `target`.
pub fn extract_command(kind: ArchiveKind, archive: &str, target: &str) -> (r: (String, Vec<String>))
    ensures
        (r.0@, string_views(r.1@)) == extract_command_spec(kind, archive@, target@),
{
    let r = match kind {
        ArchiveKind::Zip => (owned("unzip"), vec![owned("-o"), owned(archive), owned("-d"), owned(target)]),
        ArchiveKind::TarGz => (owned("tar"), vec![owned("xzf"), owned(archive), owned("-C"), owned(target)]),
        ArchiveKind::TarBz2 => (owned("tar"), vec![owned("xjf"), owned(archive), owned("-C"), owned(target)]),
        ArchiveKind::TarXz => (owned("tar"), vec![owned("xJf"), owned(archive), owned("-C"), owned(target)]),
    };
    assert(string_views(r.1@) =~= extract_command_spec(kind, archive@, target@).1);
    r
}

/// Why a site host name was refused.
#[derive(Debug, Clone, PartialEq, Eq)]
pub enum DomainError {
    /// The host name is empty.
    Empty,
    /// Another application routes it; the message names which.
    Conflict(String),
}

/// Checks the host name of a new site against the existing applications.
pub fn validate_domain(domain: &str, apps: &[App]) -> (r: Result<(), DomainError>)
    ensures
        domain@.len() == 0 ==> r == Err::<(), DomainError>(DomainError::Empty),
        domain@.len() > 0 ==> match domain_conflict(domain@, apps@) {
            None => r is Ok,
            Some(m) => r matches Err(DomainError::Conflict(msg)) && msg@ == m,
        },
{
    if chars_of(domain).len() == 0 {
        return Err(DomainError::Empty);
    }
    match crate::services::scanner::check_domain_conflict(domain, apps) {
        Some(m) => Err(DomainError::Conflict(m)),
        None => Ok(()),
    }
}

/// The nginx configuration written when no custom one is given.
pub const DEFAULT_NGINX_CONF: &'static str = "server {
    listen 80;
    server_name _;

    root /usr/share/nginx/html;
    index index.html index.htm;

    location / {
        try_files $uri $uri/ =404;
    }

    # 静态资源缓存
    location ~* \\.(jpg|jpeg|png|gif|ico|css|js|svg|woff2?|ttf|eot)$ {
        expires 30d;
        add_header Cache-Control \"public, immutable\";
    }

    # 安全头
    add_header X-Frame-Options \"SAMEORIGIN\" always;
    add_header X-Content-Type-Options \"nosniff\" always;
    add_header Referrer-Policy \"strict-origin-when-cross-origin\" always;
}
";

/// The application of a static site `app_name` in `app_path`, served at
/// `domain`: one nginx service on port 80, routed with TLS, serving the
/// `site` directory read-only with the `nginx.conf` beside it.
pub fn build_static_app(app_name: &str, app_path: &str, domain: &str) -> (r: App)
    ensures
        r.name@ == app_name@,
        r.description@ == "静态网站 — https://"@ + domain@,
        r.path@ == app_path@,
        r.data_root is None,
        r.services@.len() == 1,
        r.services@[0].name@ == app_name@,
        r.services@[0].image@ == "nginx:alpine"@,
        r.services@[0].command is None,
        r.services@[0].internal_ports@ == seq![80u16],
        r.services@[0].network_mode == NetworkMode::Bridge,
        r.services@[0].routes@.len() == 1,
        r.services@[0].routes@[0].subdomain@ == domain@,
        r.services@[0].routes@[0].path_prefix is None,
        r.services@[0].routes@[0].tls,
        r.services@[0].port_mappings@.len() == 0,
        r.services@[0].volumes@.len() == 2,
        r.services@[0].volumes@[0].host_path@ == "./site"@,
        r.services@[0].volumes@[0].container_path@ == "/usr/share/nginx/html"@,
        r.services@[0].volumes@[0].read_only,
        r.services@[0].volumes@[1].host_path@ == "./nginx.conf"@,
        r.services@[0].volumes@[1].container_path@ == "/etc/nginx/conf.d/default.conf"@,
        r.services@[0].volumes@[1].read_only,
        r.services@[0].shared_mounts@.len() == 0,
        r.services@[0].env_vars@.len() == 0,
        r.services@[0].database == DatabaseConfig::NoDatabase,
        r.services@[0].middlewares@.len() == 0,
{
    let mut description = owned("静态网站 — https://");
    description.append(domain);
    let svc = Service {
        name: owned(app_name),
        image: owned("nginx:alpine"),
        command: None,
        internal_ports: vec![80u16],
        network_mode: NetworkMode::Bridge,
        routes: vec![TraefikRoute { subdomain: owned(domain), path_prefix: None, tls: true }],
        port_mappings: Vec::new(),
        volumes: vec![
            Volume {
                host_path: owned("./site"),
                container_path: owned("/usr/share/nginx/html"),
                read_only: true,
            },
            Volume {
                host_path: owned("./nginx.conf"),
                container_path: owned("/etc/nginx/conf.d/default.conf"),
                read_only: true,
            },
        ],
        shared_mounts: Vec::new(),
        env_vars: Vec::new(),
        database: DatabaseConfig::NoDatabase,
        middlewares: Vec::new(),
    };
    App {
        name: owned(app_name),
        description,
        path: owned(app_path),
        data_root: None,
        services: vec![svc],
    }
}

} // verus!

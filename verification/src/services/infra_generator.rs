//! Generation of the infrastructure projects: Traefik (edge routing, TLS)
//! and PostgreSQL, as two separate compose projects.
//!
//! The library decides every directory, file and compose structure; writing
//! them out is left to the caller.
use vstd::prelude::*;
use crate::models::compose::{
    pair_views, ComposeHealthCheck, ComposeLogging, ComposeNetwork, ComposeService,
    ComposeServiceNetwork, DockerCompose,
};
use crate::models::middleware::{all_middlewares, filename_of, label_ref_of, yaml_of, Middleware};
use crate::paths::{join, join_path, opt_view};
use crate::services::scanner::{
    has_host_rule, host_rule, is_dashboard_router, lemma_dashboard_routers_give_no_routes,
    lemma_router_name_prefix, opt_lines, opt_strs_view, router_label, routes_of_labels,
};
use crate::text::{
    contains, decimal, decimal_string, has_prefix, lacks, lemma_lacks, lemma_lacks_join, lemma_occurs_contains,
    lemma_trim_clean, occurs_at, owned, string_views,
};

verus! {

/// Parameters of the infrastructure.
#[derive(Debug, Clone, PartialEq, Eq)]
pub struct InfraConfig {
    /// Main domain (DNS and ACME).
    pub domain: String,
    /// ACME registration e-mail.
    pub acme_email: String,
    /// Cloudflare API token.
    pub cf_api_token: String,
    /// Host name of the Traefik dashboard.
    pub service_domain: String,
    /// HTTP port.
    pub http_port: u16,
    /// HTTPS port.
    pub https_port: u16,
    /// Traefik image version.
    pub traefik_version: String,
    /// PostgreSQL image version.
    pub postgres_version: String,
    /// PostgreSQL user.
    pub pg_user: String,
    /// PostgreSQL password.
    pub pg_password: String,
    /// PostgreSQL default database.
    pub pg_db: String,
    /// Root directory of the infrastructure projects.
    pub infra_path: String,
    /// Time zone.
    pub timezone: String,
    /// Dashboard user: name and htpasswd entry.
    pub dashboard_user: Option<(String, String)>,
}

/// One step of writing the infrastructure out.
#[derive(Debug, Clone, PartialEq, Eq)]
pub enum InfraAction {
    /// Create a directory and its parents.
    CreateDir(String),
    /// Write a text file: path, content.
    WriteFile(String, String),
    /// Write a compose file: path, header put before the YAML, structure.
    WriteCompose(String, String, DockerCompose),
}

/// TLS options of the Traefik file provider.
pub const TLS_TOML: &'static str = "[tls.options.default]
minVersion = \"VersionTLS12\"
sniStrict = false
cipherSuites = [
  \"TLS_AES_128_GCM_SHA256\",
  \"TLS_AES_256_GCM_SHA384\",
  \"TLS_CHACHA20_POLY1305_SHA256\",
  \"TLS_ECDHE_RSA_WITH_CHACHA20_POLY1305_SHA256\",
  \"TLS_ECDHE_RSA_WITH_AES_128_GCM_SHA256\",
  \"TLS_ECDHE_RSA_WITH_AES_256_GCM_SHA384\",
]
";

/// The Traefik `.env` file.
pub open spec fn traefik_env_spec(cfg: InfraConfig) -> Seq<char> {
    "# Traefik 版本\n"@ + "TRAEFIK_VERSION="@ + cfg.traefik_version@ + "\n"@ + "\n"@ + "# 服务端口\n"@
        + "SERVICE_HTTP_PORT="@ + decimal(cfg.http_port as nat) + "\n"@ + "SERVICE_HTTPS_PORT="@
        + decimal(cfg.https_port as nat) + "\n"@ + "SERVICE_DOMAIN="@ + cfg.service_domain@ + "\n"@
        + "\n"@ + "# DNS / ACME\n"@ + "DNS_MAIN="@ + cfg.domain@ + "\n"@ + "DNS_LIST=*."@ + cfg.domain@
        + "\n"@ + "ACME_EMAIL="@ + cfg.acme_email@ + "\n"@ + "ACME_PROVIDER=cloudflare\n"@
        + "CF_DNS_API_TOKEN="@ + cfg.cf_api_token@ + "\n"@ + "\n"@ + "TZ="@ + cfg.timezone@ + "\n"@
}

/// The content of the Traefik `.env` file.
pub fn build_traefik_env(cfg: &InfraConfig) -> (r: String)
    ensures
        r@ == traefik_env_spec(*cfg),
{
    let mut b = String::new();
    b.append("# Traefik 版本\n");
    b.append("TRAEFIK_VERSION=");
    b.append(cfg.traefik_version.as_str());
    b.append("\n");
    b.append("\n");
    b.append("# 服务端口\n");
    b.append("SERVICE_HTTP_PORT=");
    b.append(decimal_string(cfg.http_port as u64).as_str());
    b.append("\n");
    b.append("SERVICE_HTTPS_PORT=");
    b.append(decimal_string(cfg.https_port as u64).as_str());
    b.append("\n");
    b.append("SERVICE_DOMAIN=");
    b.append(cfg.service_domain.as_str());
    b.append("\n");
    b.append("\n");
    b.append("# DNS / ACME\n");
    b.append("DNS_MAIN=");
    b.append(cfg.domain.as_str());
    b.append("\n");
    b.append("DNS_LIST=*.");
    b.append(cfg.domain.as_str());
    b.append("\n");
    b.append("ACME_EMAIL=");
    b.append(cfg.acme_email.as_str());
    b.append("\n");
    b.append("ACME_PROVIDER=cloudflare\n");
    b.append("CF_DNS_API_TOKEN=");
    b.append(cfg.cf_api_token.as_str());
    b.append("\n");
    b.append("\n");
    b.append("TZ=");
    b.append(cfg.timezone.as_str());
    b.append("\n");
    assert(b@ =~= traefik_env_spec(*cfg));
    b
}

/// The PostgreSQL `.env` file.
pub open spec fn postgres_env_spec(cfg: InfraConfig) -> Seq<char> {
    "# PostgreSQL 版本\n"@ + "POSTGRES_VERSION="@ + cfg.postgres_version@ + "\n"@ + "# 认证\n"@
        + "POSTGRES_USER="@ + cfg.pg_user@ + "\n"@ + "POSTGRES_PASSWORD="@ + cfg.pg_password@ + "\n"@
        + "POSTGRES_DB="@ + cfg.pg_db@ + "\n"@ + "# 数据目录\n"@ + "DATA_ROOT=./data\n"@ + "\n"@
        + "TZ="@ + cfg.timezone@ + "\n"@
}

/// The content of the PostgreSQL `.env` file.
pub fn build_postgres_env(cfg: &InfraConfig) -> (r: String)
    ensures
        r@ == postgres_env_spec(*cfg),
{
    let mut b = String::new();
    b.append("# PostgreSQL 版本\n");
    b.append("POSTGRES_VERSION=");
    b.append(cfg.postgres_version.as_str());
    b.append("\n");
    b.append("# 认证\n");
    b.append("POSTGRES_USER=");
    b.append(cfg.pg_user.as_str());
    b.append("\n");
    b.append("POSTGRES_PASSWORD=");
    b.append(cfg.pg_password.as_str());
    b.append("\n");
    b.append("POSTGRES_DB=");
    b.append(cfg.pg_db.as_str());
    b.append("\n");
    b.append("# 数据目录\n");
    b.append("DATA_ROOT=./data\n");
    b.append("\n");
    b.append("TZ=");
    b.append(cfg.timezone.as_str());
    b.append("\n");
    assert(b@ =~= postgres_env_spec(*cfg));
    b
}

/// The static command line of Traefik.
pub open spec fn traefik_command_spec() -> Seq<Seq<char>> {
    seq![
        "--global.sendanonymoususage=false"@,
        "--global.checknewversion=false"@,
        "--entrypoints.http.address=:${SERVICE_HTTP_PORT}"@,
        "--entrypoints.https.address=:${SERVICE_HTTPS_PORT}"@,
        "--entryPoints.https.asDefault=true"@,
        "--entryPoints.https.http3"@,
        "--entryPoints.https.http3.advertisedport=${SERVICE_HTTPS_PORT}"@,
        "--serverstransport.insecureskipverify=true"@,
        "--entryPoints.http.forwardedHeaders.trustedIPs=127.0.0.1/32,172.18.0.1/24"@,
        "--entryPoints.https.forwardedHeaders.trustedIPs=127.0.0.1/32,172.18.0.1/24"@,
        "--api=true"@,
        "--api.dashboard=true"@,
        "--ping=true"@,
        "--log.level=INFO"@,
        "--log.maxsize=100"@,
        "--log.format=common"@,
        "--accesslog=false"@,
        "--providers.docker=true"@,
        "--providers.docker.watch=true"@,
        "--providers.docker.exposedbydefault=false"@,
        "--providers.docker.endpoint=unix:///var/run/docker.sock"@,
        "--providers.docker.useBindPortIP=false"@,
        "--providers.docker.network="@ + "traefik"@,
        "--providers.file=true"@,
        "--providers.file.watch=true"@,
        "--providers.file.directory=/etc/traefik/config"@,
        "--providers.file.debugloggeneratedtemplate=true"@,
        "--certificatesresolvers.cloudflare.acme.email=${ACME_EMAIL}"@,
        "--certificatesresolvers.cloudflare.acme.storage=/data/ssl/acme.json"@,
        "--certificatesresolvers.cloudflare.acme.dnsChallenge.resolvers=1.1.1.1:53,8.8.8.8:53"@,
        "--certificatesresolvers.cloudflare.acme.dnsChallenge.provider=${ACME_PROVIDER}"@,
        "--certificatesresolvers.cloudflare.acme.dnsChallenge.propagation.delayBeforeChecks=30"@,
    ]
}

/// `s` followed by `t`, as a new `String`.
fn concat2(s: &str, t: &str) -> (r: String)
    ensures
        r@ == s@ + t@,
{
    let mut r = owned(s);
    r.append(t);
    r
}

/// The static command line of Traefik.
pub fn traefik_command() -> (r: Vec<String>)
    ensures
        string_views(r@) == traefik_command_spec(),
{
    let r = vec![
        owned("--global.sendanonymoususage=false"),
        owned("--global.checknewversion=false"),
        owned("--entrypoints.http.address=:${SERVICE_HTTP_PORT}"),
        owned("--entrypoints.https.address=:${SERVICE_HTTPS_PORT}"),
        owned("--entryPoints.https.asDefault=true"),
        owned("--entryPoints.https.http3"),
        owned("--entryPoints.https.http3.advertisedport=${SERVICE_HTTPS_PORT}"),
        owned("--serverstransport.insecureskipverify=true"),
        owned("--entryPoints.http.forwardedHeaders.trustedIPs=127.0.0.1/32,172.18.0.1/24"),
        owned("--entryPoints.https.forwardedHeaders.trustedIPs=127.0.0.1/32,172.18.0.1/24"),
        owned("--api=true"),
        owned("--api.dashboard=true"),
        owned("--ping=true"),
        owned("--log.level=INFO"),
        owned("--log.maxsize=100"),
        owned("--log.format=common"),
        owned("--accesslog=false"),
        owned("--providers.docker=true"),
        owned("--providers.docker.watch=true"),
        owned("--providers.docker.exposedbydefault=false"),
        owned("--providers.docker.endpoint=unix:///var/run/docker.sock"),
        owned("--providers.docker.useBindPortIP=false"),
        concat2("--providers.docker.network=", "traefik"),
        owned("--providers.file=true"),
        owned("--providers.file.watch=true"),
        owned("--providers.file.directory=/etc/traefik/config"),
        owned("--providers.file.debugloggeneratedtemplate=true"),
        owned("--certificatesresolvers.cloudflare.acme.email=${ACME_EMAIL}"),
        owned("--certificatesresolvers.cloudflare.acme.storage=/data/ssl/acme.json"),
        owned("--certificatesresolvers.cloudflare.acme.dnsChallenge.resolvers=1.1.1.1:53,8.8.8.8:53"),
        owned("--certificatesresolvers.cloudflare.acme.dnsChallenge.provider=${ACME_PROVIDER}"),
        owned("--certificatesresolvers.cloudflare.acme.dnsChallenge.propagation.delayBeforeChecks=30"),
    ];
    assert(string_views(r@) =~= traefik_command_spec());
    r
}

/// The middlewares of the dashboard router, as a label value.
pub open spec fn dashboard_chain() -> Seq<char> {
    label_ref_of(Middleware::Gzip) + ","@ + label_ref_of(Middleware::XForwardedProto) + ","@
        + label_ref_of(Middleware::IpAllowlistInternal) + ","@ + label_ref_of(Middleware::DashboardAuth)
}

/// The middlewares of the API router, as a label value.
pub open spec fn api_chain() -> Seq<char> {
    label_ref_of(Middleware::Gzip) + ","@ + label_ref_of(Middleware::IpAllowlistInternal)
}

/// The labels of the Traefik container: its routers, referencing the file
/// middlewares.
pub open spec fn traefik_labels_spec() -> Seq<Seq<char>> {
    seq![
        "traefik.enable=true"@,
        "traefik.docker.network="@ + "traefik"@,
        "traefik.http.routers.traefik-dashboard-secure.tls.certresolver=cloudflare"@,
        "traefik.http.routers.traefik-dashboard-secure.tls.domains[0].main=${DNS_MAIN}"@,
        "traefik.http.routers.traefik-dashboard-secure.tls.domains[0].sans=${DNS_LIST}"@,
        "traefik.http.routers.traefik-dashboard-secure.tls=true"@,
        "traefik.http.routers.traefik-dashboard-secure.entrypoints=https"@,
        "traefik.http.routers.traefik-dashboard-secure.middlewares="@ + dashboard_chain(),
        "traefik.http.routers.traefik-dashboard-secure.rule=Host(`${SERVICE_DOMAIN}`)"@,
        "traefik.http.routers.traefik-dashboard-secure.service=dashboard@internal"@,
        "traefik.http.routers.traefik-dashboard-nosecure.entrypoints=http"@,
        "traefik.http.routers.traefik-dashboard-nosecure.middlewares="@ + label_ref_of(Middleware::RedirectHttps),
        "traefik.http.routers.traefik-dashboard-nosecure.rule=Host(`${SERVICE_DOMAIN}`)"@,
        "traefik.http.routers.traefik-dashboard-nosecure.service=noop@internal"@,
        "traefik.http.routers.traefik-dashboard-api.tls=true"@,
        "traefik.http.routers.traefik-dashboard-api.entrypoints=https"@,
        "traefik.http.routers.traefik-dashboard-api.middlewares="@ + api_chain(),
        "traefik.http.routers.traefik-dashboard-api.rule=Host(`${SERVICE_DOMAIN}`) && (PathPrefix(`/api`) || PathPrefix(`/dashboard`))"@,
        "traefik.http.routers.traefik-dashboard-api.service=api@internal"@,
    ]
}

/// The labels of the Traefik container.
pub fn traefik_labels() -> (r: Vec<String>)
    ensures
        string_views(r@) == traefik_labels_spec(),
{
    let mut dash = Middleware::Gzip.label_ref();
    dash.append(",");
    dash.append(Middleware::XForwardedProto.label_ref().as_str());
    dash.append(",");
    dash.append(Middleware::IpAllowlistInternal.label_ref().as_str());
    dash.append(",");
    dash.append(Middleware::DashboardAuth.label_ref().as_str());
    assert(dash@ =~= dashboard_chain());
    let mut api = Middleware::Gzip.label_ref();
    api.append(",");
    api.append(Middleware::IpAllowlistInternal.label_ref().as_str());
    assert(api@ =~= api_chain());
    let r = vec![
        owned("traefik.enable=true"),
        concat2("traefik.docker.network=", "traefik"),
        owned("traefik.http.routers.traefik-dashboard-secure.tls.certresolver=cloudflare"),
        owned("traefik.http.routers.traefik-dashboard-secure.tls.domains[0].main=${DNS_MAIN}"),
        owned("traefik.http.routers.traefik-dashboard-secure.tls.domains[0].sans=${DNS_LIST}"),
        owned("traefik.http.routers.traefik-dashboard-secure.tls=true"),
        owned("traefik.http.routers.traefik-dashboard-secure.entrypoints=https"),
        concat2("traefik.http.routers.traefik-dashboard-secure.middlewares=", dash.as_str()),
        owned("traefik.http.routers.traefik-dashboard-secure.rule=Host(`${SERVICE_DOMAIN}`)"),
        owned("traefik.http.routers.traefik-dashboard-secure.service=dashboard@internal"),
        owned("traefik.http.routers.traefik-dashboard-nosecure.entrypoints=http"),
        concat2(
            "traefik.http.routers.traefik-dashboard-nosecure.middlewares=",
            Middleware::RedirectHttps.label_ref().as_str(),
        ),
        owned("traefik.http.routers.traefik-dashboard-nosecure.rule=Host(`${SERVICE_DOMAIN}`)"),
        owned("traefik.http.routers.traefik-dashboard-nosecure.service=noop@internal"),
        owned("traefik.http.routers.traefik-dashboard-api.tls=true"),
        owned("traefik.http.routers.traefik-dashboard-api.entrypoints=https"),
        concat2("traefik.http.routers.traefik-dashboard-api.middlewares=", api.as_str()),
        owned(
            "traefik.http.routers.traefik-dashboard-api.rule=Host(`${SERVICE_DOMAIN}`) && (PathPrefix(`/api`) || PathPrefix(`/dashboard`))",
        ),
        owned("traefik.http.routers.traefik-dashboard-api.service=api@internal"),
    ];
    assert(string_views(r@) =~= traefik_labels_spec());
    r
}

/// A network attachment with no aliases named `name`, as the only one.
pub open spec fn single_network(ns: Option<Vec<(String, ComposeServiceNetwork)>>, name: Seq<char>) -> bool {
    ns matches Some(v) && v@.len() == 1 && v@[0].0@ == name && v@[0].1.aliases is None
}

/// A bridge network named `name` under the key `name`, as the only one.
pub open spec fn single_bridge(ns: Seq<(String, ComposeNetwork)>, name: Seq<char>) -> bool {
    ns.len() == 1 && ns[0].0@ == name && ns[0].1.external is None && opt_view(ns[0].1.name) == Some(name)
        && opt_view(ns[0].1.driver) == Some("bridge"@)
}

/// A `json-file` logging configuration with the given maximum size.
pub open spec fn json_logging(l: Option<ComposeLogging>, max_size: Seq<char>) -> bool {
    match l {
        Some(x) => x.driver@ == "json-file"@ && match x.options {
            Some(o) => pair_views(o@) == seq![("max-size"@, max_size)],
            None => false,
        },
        None => false,
    }
}

/// `c` is the compose structure of the Traefik project.
pub open spec fn is_traefik_compose(c: DockerCompose) -> bool {
    &&& opt_view(c.version) == Some("3.8"@)
    &&& c.volumes@.len() == 0
    &&& single_bridge(c.networks@, "traefik"@)
    &&& c.services@.len() == 1
    &&& c.services@[0].0@ == "traefik"@
    &&& {
        let s = c.services@[0].1;
        &&& opt_view(s.image) == Some("traefik:${TRAEFIK_VERSION}"@)
        &&& opt_view(s.container_name) == Some("traefik"@)
        &&& opt_view(s.restart) == Some("always"@)
        &&& opt_strs_view(s.command) == Some(traefik_command_spec())
        &&& s.network_mode is None
        &&& single_network(s.networks, "traefik"@)
        &&& opt_strs_view(s.ports) == Some(
            seq![
                "${SERVICE_HTTP_PORT}:${SERVICE_HTTP_PORT}"@,
                "${SERVICE_HTTPS_PORT}:${SERVICE_HTTPS_PORT}"@,
                "${SERVICE_HTTPS_PORT}:${SERVICE_HTTPS_PORT}/udp"@,
            ],
        )
        &&& opt_strs_view(s.volumes) == Some(
            seq![
                "/etc/localtime:/etc/localtime:ro"@,
                "/etc/timezone:/etc/timezone:ro"@,
                "/var/run/docker.sock:/var/run/docker.sock:ro"@,
                "./config/:/etc/traefik/config/:ro"@,
                "./ssl/:/data/ssl/"@,
            ],
        )
        &&& s.environment is None
        &&& opt_strs_view(s.env_file) == Some(seq![".env"@])
        &&& opt_strs_view(s.labels) == Some(traefik_labels_spec())
        &&& s.depends_on is None
        &&& s.healthcheck matches Some(h) && opt_strs_view(h.test) == Some(
            seq!["CMD-SHELL"@, "wget -q --spider --proxy off localhost:8080/ping || exit 1"@],
        ) && opt_view(h.interval) == Some("3s"@) && h.timeout is None && h.retries == Some(10u32)
            && h.start_period is None
        &&& s.user is None
        &&& json_logging(s.logging, "1m"@)
    }
}

/// `c` is the compose structure of the PostgreSQL project.
pub open spec fn is_postgres_compose(c: DockerCompose) -> bool {
    &&& opt_view(c.version) == Some("3.8"@)
    &&& c.volumes@.len() == 0
    &&& single_bridge(c.networks@, "postgres"@)
    &&& c.services@.len() == 1
    &&& c.services@[0].0@ == "postgres"@
    &&& {
        let s = c.services@[0].1;
        &&& opt_view(s.image) == Some("postgres:${POSTGRES_VERSION}"@)
        &&& opt_view(s.container_name) == Some("postgres"@)
        &&& opt_view(s.restart) == Some("unless-stopped"@)
        &&& s.command is None
        &&& s.network_mode is None
        &&& single_network(s.networks, "postgres"@)
        &&& opt_strs_view(s.ports) == Some(seq!["5433:5432"@])
        &&& opt_strs_view(s.volumes) == Some(seq!["${DATA_ROOT}/postgres:/var/lib/postgresql/data"@])
        &&& opt_strs_view(s.environment) == Some(
            seq![
                "POSTGRES_USER=${POSTGRES_USER}"@,
                "POSTGRES_PASSWORD=${POSTGRES_PASSWORD}"@,
                "POSTGRES_DB=${POSTGRES_DB}"@,
                "PGDATA=/var/lib/postgresql/data/pgdata"@,
            ],
        )
        &&& s.env_file is None
        &&& s.labels is None
        &&& s.depends_on is None
        &&& s.healthcheck matches Some(h) && opt_strs_view(h.test) == Some(
            seq!["CMD-SHELL"@, "pg_isready -U ${POSTGRES_USER} -d ${POSTGRES_DB}"@],
        ) && opt_view(h.interval) == Some("10s"@) && opt_view(h.timeout) == Some("5s"@) && h.retries
            == Some(5u32) && h.start_period is None
        &&& s.user is None
        &&& json_logging(s.logging, "10m"@)
    }
}

/// A single network attachment without aliases.
fn one_network(name: &str) -> (r: Option<Vec<(String, ComposeServiceNetwork)>>)
    ensures
        single_network(r, name@),
{
    let mut v: Vec<(String, ComposeServiceNetwork)> = Vec::new();
    v.push((owned(name), ComposeServiceNetwork { aliases: None }));
    Some(v)
}

/// A single bridge network.
fn one_bridge(name: &str) -> (r: Vec<(String, ComposeNetwork)>)
    ensures
        single_bridge(r@, name@),
{
    let mut v: Vec<(String, ComposeNetwork)> = Vec::new();
    v.push(
        (
            owned(name),
            ComposeNetwork { external: None, name: Some(owned(name)), driver: Some(owned("bridge")) },
        ),
    );
    v
}

/// The compose structure of the Traefik project.
pub fn build_traefik_compose() -> (r: DockerCompose)
    ensures
        is_traefik_compose(r),
{
    let ports = vec![
        owned("${SERVICE_HTTP_PORT}:${SERVICE_HTTP_PORT}"),
        owned("${SERVICE_HTTPS_PORT}:${SERVICE_HTTPS_PORT}"),
        owned("${SERVICE_HTTPS_PORT}:${SERVICE_HTTPS_PORT}/udp"),
    ];
    let volumes = vec![
        owned("/etc/localtime:/etc/localtime:ro"),
        owned("/etc/timezone:/etc/timezone:ro"),
        owned("/var/run/docker.sock:/var/run/docker.sock:ro"),
        owned("./config/:/etc/traefik/config/:ro"),
        owned("./ssl/:/data/ssl/"),
    ];
    let env_file = vec![owned(".env")];
    let test = vec![
        owned("CMD-SHELL"),
        owned("wget -q --spider --proxy off localhost:8080/ping || exit 1"),
    ];
    let svc = ComposeService {
        image: Some(owned("traefik:${TRAEFIK_VERSION}")),
        container_name: Some(owned("traefik")),
        command: Some(traefik_command()),
        restart: Some(owned("always")),
        network_mode: None,
        networks: one_network("traefik"),
        ports: Some(ports),
        volumes: Some(volumes),
        environment: None,
        env_file: Some(env_file),
        labels: Some(traefik_labels()),
        depends_on: None,
        healthcheck: Some(
            ComposeHealthCheck {
                test: Some(test),
                interval: Some(owned("3s")),
                timeout: None,
                retries: Some(10),
                start_period: None,
            },
        ),
        user: None,
        logging: Some(ComposeLogging::json_file("1m")),
    };
    let mut services: Vec<(String, ComposeService)> = Vec::new();
    services.push((owned("traefik"), svc));
    let r = DockerCompose {
        version: Some(owned("3.8")),
        services,
        networks: one_bridge("traefik"),
        volumes: Vec::new(),
    };
    proof {
        let s = r.services@[0].1;
        assert(opt_strs_view(s.ports) =~= Some(
            seq![
                "${SERVICE_HTTP_PORT}:${SERVICE_HTTP_PORT}"@,
                "${SERVICE_HTTPS_PORT}:${SERVICE_HTTPS_PORT}"@,
                "${SERVICE_HTTPS_PORT}:${SERVICE_HTTPS_PORT}/udp"@,
            ],
        ));
        assert(s.volumes->0@.map_values(|x: String| x@) =~= seq![
            "/etc/localtime:/etc/localtime:ro"@,
            "/etc/timezone:/etc/timezone:ro"@,
            "/var/run/docker.sock:/var/run/docker.sock:ro"@,
            "./config/:/etc/traefik/config/:ro"@,
            "./ssl/:/data/ssl/"@,
        ]);
        assert(s.env_file->0@.map_values(|x: String| x@) =~= seq![".env"@]);
        let h = s.healthcheck->0;
        assert(h.test->0@.map_values(|x: String| x@) =~= seq![
            "CMD-SHELL"@,
            "wget -q --spider --proxy off localhost:8080/ping || exit 1"@,
        ]);
    }
    r
}

/// The compose structure of the PostgreSQL project.
pub fn build_postgres_compose() -> (r: DockerCompose)
    ensures
        is_postgres_compose(r),
{
    let ports = vec![owned("5433:5432")];
    let volumes = vec![owned("${DATA_ROOT}/postgres:/var/lib/postgresql/data")];
    let environment = vec![
        owned("POSTGRES_USER=${POSTGRES_USER}"),
        owned("POSTGRES_PASSWORD=${POSTGRES_PASSWORD}"),
        owned("POSTGRES_DB=${POSTGRES_DB}"),
        owned("PGDATA=/var/lib/postgresql/data/pgdata"),
    ];
    let test = vec![owned("CMD-SHELL"), owned("pg_isready -U ${POSTGRES_USER} -d ${POSTGRES_DB}")];
    let svc = ComposeService {
        image: Some(owned("postgres:${POSTGRES_VERSION}")),
        container_name: Some(owned("postgres")),
        command: None,
        restart: Some(owned("unless-stopped")),
        network_mode: None,
        networks: one_network("postgres"),
        ports: Some(ports),
        volumes: Some(volumes),
        environment: Some(environment),
        env_file: None,
        labels: None,
        depends_on: None,
        healthcheck: Some(
            ComposeHealthCheck {
                test: Some(test),
                interval: Some(owned("10s")),
                timeout: Some(owned("5s")),
                retries: Some(5),
                start_period: None,
            },
        ),
        user: None,
        logging: Some(ComposeLogging::json_file("10m")),
    };
    let mut services: Vec<(String, ComposeService)> = Vec::new();
    services.push((owned("postgres"), svc));
    let r = DockerCompose {
        version: Some(owned("3.8")),
        services,
        networks: one_bridge("postgres"),
        volumes: Vec::new(),
    };
    proof {
        let s = r.services@[0].1;
        assert(s.ports->0@.map_values(|x: String| x@) =~= seq!["5433:5432"@]);
        assert(s.volumes->0@.map_values(|x: String| x@) =~= seq![
            "${DATA_ROOT}/postgres:/var/lib/postgresql/data"@,
        ]);
        assert(s.environment->0@.map_values(|x: String| x@) =~= seq![
            "POSTGRES_USER=${POSTGRES_USER}"@,
            "POSTGRES_PASSWORD=${POSTGRES_PASSWORD}"@,
            "POSTGRES_DB=${POSTGRES_DB}"@,
            "PGDATA=/var/lib/postgresql/data/pgdata"@,
        ]);
        let h = s.healthcheck->0;
        assert(h.test->0@.map_values(|x: String| x@) =~= seq![
            "CMD-SHELL"@,
            "pg_isready -U ${POSTGRES_USER} -d ${POSTGRES_DB}"@,
        ]);
    }
    r
}

/// The content of the dashboard users file: the configured user's htpasswd
/// entry, or a commented template explaining how to add users.
pub open spec fn users_file_spec(user: Option<(String, String)>) -> Seq<char> {
    match user {
        Some((_, entry)) => "# Dashboard 认证用户（由 homespace 生成）\n"@
            + "# 添加更多用户: htpasswd -nB <username> >> config/users.txt\n"@ + entry@ + "\n"@,
        None => "# Basic Auth 用户文件（占位）\n"@ + "# 添加用户: htpasswd -nB <username> >> config/users.txt\n"@
            + "# 示例: admin:$2y$10$...\n"@,
    }
}

/// The content of the dashboard users file.
pub fn traefik_users_file(cfg: &InfraConfig) -> (r: String)
    ensures
        r@ == users_file_spec(cfg.dashboard_user),
{
    match &cfg.dashboard_user {
        Some((_, entry)) => {
            let mut b = owned("# Dashboard 认证用户（由 homespace 生成）\n");
            b.append("# 添加更多用户: htpasswd -nB <username> >> config/users.txt\n");
            b.append(entry.as_str());
            b.append("\n");
            b
        },
        None => {
            let mut b = owned("# Basic Auth 用户文件（占位）\n");
            b.append("# 添加用户: htpasswd -nB <username> >> config/users.txt\n");
            b.append("# 示例: admin:$2y$10$...\n");
            b
        },
    }
}

/// `a` creates the directory `p`.
pub open spec fn creates_dir(a: InfraAction, p: Seq<char>) -> bool {
    a matches InfraAction::CreateDir(x) && x@ == p
}

/// `a` writes `content` to `p`.
pub open spec fn writes_file(a: InfraAction, p: Seq<char>, content: Seq<char>) -> bool {
    a matches InfraAction::WriteFile(x, y) && x@ == p && y@ == content
}

/// `a` writes the compose structure `c` under `header` to `p`.
pub open spec fn writes_compose(a: InfraAction, p: Seq<char>, header: Seq<char>) -> bool {
    a matches InfraAction::WriteCompose(x, h, _) && x@ == p && h@ == header
}

/// The Traefik project directory.
pub open spec fn traefik_dir(cfg: InfraConfig) -> Seq<char> {
    join_path(cfg.infra_path@, "traefik"@)
}

/// The Traefik configuration directory.
pub open spec fn traefik_config_dir(cfg: InfraConfig) -> Seq<char> {
    join_path(traefik_dir(cfg), "config"@)
}

/// The PostgreSQL project directory.
pub open spec fn postgres_dir(cfg: InfraConfig) -> Seq<char> {
    join_path(cfg.infra_path@, "postgres"@)
}

/// `r` is the plan that writes the infrastructure for `cfg`: the Traefik
/// project (configuration and certificate directories, `.gitignore`, TLS
/// options, one file per middleware, users file, `.env`, compose file), then
/// the PostgreSQL project (data directory, `.gitignore`, `.env`, compose file).
pub open spec fn infra_plan(cfg: InfraConfig, r: Seq<InfraAction>) -> bool {
    let td = traefik_dir(cfg);
    let tc = traefik_config_dir(cfg);
    let pd = postgres_dir(cfg);
    &&& r.len() == 16
    &&& creates_dir(r[0], tc)
    &&& creates_dir(r[1], join_path(td, "ssl"@))
    &&& writes_file(r[2], join_path(td, ".gitignore"@), ".env\nssl/\n*.log\n"@)
    &&& writes_file(r[3], join_path(tc, "tls.toml"@), TLS_TOML@)
    &&& forall|k: int|
        0 <= k < 5 ==> writes_file(
            #[trigger] r[3 + k + 1],
            join_path(tc, filename_of(all_middlewares()[k])),
            yaml_of(all_middlewares()[k]),
        )
    &&& writes_file(r[9], join_path(tc, "users.txt"@), users_file_spec(cfg.dashboard_user))
    &&& writes_file(r[10], join_path(td, ".env"@), traefik_env_spec(cfg))
    &&& writes_compose(r[11], join_path(td, "docker-compose.yml"@), "# Traefik — 边缘路由 / HTTPS\n# 由 homespace 生成\n\n"@)
    &&& (r[11] matches InfraAction::WriteCompose(_, _, c) && is_traefik_compose(c))
    &&& creates_dir(r[12], join_path(pd, "data"@))
    &&& writes_file(r[13], join_path(pd, ".gitignore"@), ".env\ndata/\n"@)
    &&& writes_file(r[14], join_path(pd, ".env"@), postgres_env_spec(cfg))
    &&& writes_compose(r[15], join_path(pd, "docker-compose.yml"@), "# PostgreSQL — 共享数据库\n# 由 homespace 生成\n\n"@)
    &&& (r[15] matches InfraAction::WriteCompose(_, _, c) && is_postgres_compose(c))
}

/// The steps that write the Traefik and PostgreSQL projects under
/// `cfg.infra_path`, in order.
pub fn generate_infra(cfg: &InfraConfig) -> (r: Vec<InfraAction>)
    ensures
        infra_plan(*cfg, r@),
{
    let td = join(cfg.infra_path.as_str(), "traefik");
    let pd = join(cfg.infra_path.as_str(), "postgres");
    let tc = join(td.as_str(), "config");
    let mut r: Vec<InfraAction> = Vec::new();
    r.push(InfraAction::CreateDir(join(td.as_str(), "config")));
    r.push(InfraAction::CreateDir(join(td.as_str(), "ssl")));
    r.push(InfraAction::WriteFile(join(td.as_str(), ".gitignore"), owned(".env\nssl/\n*.log\n")));
    r.push(InfraAction::WriteFile(join(tc.as_str(), "tls.toml"), owned(TLS_TOML)));
    let all = Middleware::all();
    let mut i: usize = 0;
    while i < all.len()
        invariant
            i <= all.len() == 5,
            all@ == all_middlewares(),
            tc@ == traefik_config_dir(*cfg),
            td@ == traefik_dir(*cfg),
            r.len() == 4 + i,
            creates_dir(r@[0], tc@),
            creates_dir(r@[1], join_path(td@, "ssl"@)),
            writes_file(r@[2], join_path(td@, ".gitignore"@), ".env\nssl/\n*.log\n"@),
            writes_file(r@[3], join_path(tc@, "tls.toml"@), TLS_TOML@),
            forall|k: int|
                0 <= k < i ==> writes_file(
                    #[trigger] r@[3 + k + 1],
                    join_path(tc@, filename_of(all_middlewares()[k])),
                    yaml_of(all_middlewares()[k]),
                ),
        decreases all.len() - i,
    {
        let m = all[i];
        r.push(InfraAction::WriteFile(join(tc.as_str(), m.filename()), owned(m.yaml_content())));
        i = i + 1;
    }
    r.push(InfraAction::WriteFile(join(tc.as_str(), "users.txt"), traefik_users_file(cfg)));
    r.push(InfraAction::WriteFile(join(td.as_str(), ".env"), build_traefik_env(cfg)));
    r.push(
        InfraAction::WriteCompose(
            join(td.as_str(), "docker-compose.yml"),
            owned("# Traefik — 边缘路由 / HTTPS\n# 由 homespace 生成\n\n"),
            build_traefik_compose(),
        ),
    );
    r.push(InfraAction::CreateDir(join(pd.as_str(), "data")));
    r.push(InfraAction::WriteFile(join(pd.as_str(), ".gitignore"), owned(".env\ndata/\n")));
    r.push(InfraAction::WriteFile(join(pd.as_str(), ".env"), build_postgres_env(cfg)));
    r.push(
        InfraAction::WriteCompose(
            join(pd.as_str(), "docker-compose.yml"),
            owned("# PostgreSQL — 共享数据库\n# 由 homespace 生成\n\n"),
            build_postgres_compose(),
        ),
    );
    r
}


// ───────────────────── placeholders and `.env` lines ─────────────────────

/// `env` has a line that starts with `var=`.
pub open spec fn defines_var(env: Seq<char>, var: Seq<char>) -> bool {
    exists|i: int| (i == 0 || (0 < i && env[i - 1] == '\n')) && #[trigger] occurs_at(env, var + "="@, i)
}

/// `env` has the line `var=value`.
pub open spec fn sets_var(env: Seq<char>, var: Seq<char>, value: Seq<char>) -> bool {
    exists|i: int|
        (i == 0 || (0 < i && env[i - 1] == '\n')) && #[trigger] occurs_at(env, var + "="@ + value + "\n"@, i)
}

/// The names of the `${name}` placeholders of `s` from position `i` on, in
/// order.
pub open spec fn placeholders_from(s: Seq<char>, i: int) -> Seq<Seq<char>>
    decreases s.len() - i,
{
    if i < 0 || i + 1 >= s.len() {
        Seq::empty()
    } else if s[i] == '$' && s[i + 1] == '{' {
        placeholder_name(s, i + 2, i + 2)
    } else {
        placeholders_from(s, i + 1)
    }
}

/// Inside a placeholder whose name starts at `start`: the name ends at the
/// first `}` at or after `j`, and the placeholders after it follow.
pub open spec fn placeholder_name(s: Seq<char>, start: int, j: int) -> Seq<Seq<char>>
    decreases s.len() - j,
{
    if j < 0 || j >= s.len() || start < 0 || start > j {
        Seq::empty()
    } else if s[j] == '}' {
        seq![s.subrange(start, j)] + placeholders_from(s, j + 1)
    } else {
        placeholder_name(s, start, j + 1)
    }
}

/// The placeholders from `i` are those from `k` when no `$` stands between.
proof fn lemma_skip_lacking_dollar(s: Seq<char>, i: int, k: int)
    requires
        0 <= i <= k <= s.len(),
        lacks(s, '$', i, k),
    ensures
        placeholders_from(s, i) == placeholders_from(s, k),
    decreases k - i,
{
    if i < k {
        lemma_skip_lacking_dollar(s, i + 1, k);
    }
}

/// The placeholders of the first `n` texts of `ts`, in order.
pub open spec fn texts_placeholders(ts: Seq<Seq<char>>, n: int) -> Seq<Seq<char>>
    decreases n,
{
    if n <= 0 {
        Seq::empty()
    } else {
        texts_placeholders(ts, n - 1) + placeholders_from(ts[n - 1], 0)
    }
}

/// The placeholders of all texts of `ts`, in order.
pub open spec fn all_placeholders(ts: Seq<Seq<char>>) -> Seq<Seq<char>> {
    texts_placeholders(ts, ts.len() as int)
}

/// The texts of a compose service in which placeholders are expanded: image,
/// ports, command, labels, environment, volumes and health-check test.
pub open spec fn service_texts(s: ComposeService) -> Seq<Seq<char>> {
    (match opt_view(s.image) {
        Some(i) => seq![i],
        None => Seq::empty(),
    }) + opt_lines(s.ports) + opt_lines(s.command) + opt_lines(s.labels) + opt_lines(s.environment)
        + opt_lines(s.volumes) + match s.healthcheck {
        Some(h) => opt_lines(h.test),
        None => Seq::empty(),
    }
}

/// The placeholders of two lists of texts one after the other.
proof fn lemma_texts_placeholders_append(a: Seq<Seq<char>>, b: Seq<Seq<char>>, n: int)
    requires
        0 <= n <= b.len(),
    ensures
        texts_placeholders(a + b, a.len() + n) == all_placeholders(a) + texts_placeholders(b, n),
    decreases n,
{
    if n == 0 {
        assert forall|m: int| 0 <= m <= a.len() implies texts_placeholders(a + b, m) == texts_placeholders(a, m) by {
            lemma_texts_placeholders_prefix(a, b, m);
        }
        assert(all_placeholders(a) + Seq::<Seq<char>>::empty() =~= all_placeholders(a));
    } else {
        lemma_texts_placeholders_append(a, b, n - 1);
        assert((a + b)[a.len() + n - 1] == b[n - 1]);
        assert(all_placeholders(a) + texts_placeholders(b, n - 1) + placeholders_from(b[n - 1], 0)
            =~= all_placeholders(a) + (texts_placeholders(b, n - 1) + placeholders_from(b[n - 1], 0)));
    }
}

/// Texts appended after the first `m` do not change their placeholders.
proof fn lemma_texts_placeholders_prefix(a: Seq<Seq<char>>, b: Seq<Seq<char>>, m: int)
    requires
        0 <= m <= a.len(),
    ensures
        texts_placeholders(a + b, m) == texts_placeholders(a, m),
    decreases m,
{
    if m > 0 {
        lemma_texts_placeholders_prefix(a, b, m - 1);
        assert((a + b)[m - 1] == a[m - 1]);
    }
}

/// The placeholders of two lists of texts one after the other.
proof fn lemma_all_placeholders_append(a: Seq<Seq<char>>, b: Seq<Seq<char>>)
    ensures
        all_placeholders(a + b) == all_placeholders(a) + all_placeholders(b),
{
    lemma_texts_placeholders_append(a, b, b.len() as int);
}

/// A line written as one piece right after a line break (or at the start).
proof fn lemma_sets_line(a: Seq<char>, line: Seq<char>, var: Seq<char>, value: Seq<char>)
    requires
        a.len() == 0 || a.last() == '\n',
        line == var + "="@ + value + "\n"@,
    ensures
        sets_var(a + line, var, value),
{
    let e = a + line;
    let i = a.len() as int;
    assert(e.subrange(i, i + line.len()) =~= line);
    assert(occurs_at(e, line, i));
}

/// A line written as its key, its value and a line break, right after a line
/// break (or at the start).
proof fn lemma_sets_line_pieces(a: Seq<char>, key: Seq<char>, x: Seq<char>, nl: Seq<char>, var: Seq<char>, value: Seq<char>)
    requires
        a.len() == 0 || a.last() == '\n',
        key + x == var + "="@ + value,
        nl == "\n"@,
    ensures
        sets_var(a + key + x + nl, var, value),
{
    assert(key + x + nl =~= var + "="@ + value + "\n"@);
    assert(a + key + x + nl =~= a + (key + x + nl));
    lemma_sets_line(a, key + x + nl, var, value);
}

/// Text appended after a line keeps it.
broadcast proof fn lemma_sets_extend(a: Seq<char>, x: Seq<char>, var: Seq<char>, value: Seq<char>)
    requires
        sets_var(a, var, value),
    ensures
        #[trigger] sets_var(a + x, var, value),
{
    let p = var + "="@ + value + "\n"@;
    let i = choose|i: int| (i == 0 || (0 < i && a[i - 1] == '\n')) && #[trigger] occurs_at(a, p, i);
    let b = a + x;
    assert(b.subrange(i, i + p.len()) =~= a.subrange(i, i + p.len()));
    assert(occurs_at(b, p, i));
}

/// A line `var=value` starts with `var=`.
proof fn lemma_sets_defines(env: Seq<char>, var: Seq<char>, value: Seq<char>)
    requires
        sets_var(env, var, value),
    ensures
        defines_var(env, var),
{
    let p = var + "="@ + value + "\n"@;
    let q = var + "="@;
    let i = choose|i: int| (i == 0 || (0 < i && env[i - 1] == '\n')) && #[trigger] occurs_at(env, p, i);
    assert(env.subrange(i, i + q.len()) =~= p.subrange(0, q.len() as int));
    assert(p.subrange(0, q.len() as int) =~= q);
    assert(occurs_at(env, q, i));
}

/// The image and the ports of the Traefik service.
pub open spec fn traefik_image_and_ports() -> Seq<Seq<char>> {
    seq!["traefik:${TRAEFIK_VERSION}"@, "${SERVICE_HTTP_PORT}:${SERVICE_HTTP_PORT}"@, "${SERVICE_HTTPS_PORT}:${SERVICE_HTTPS_PORT}"@, "${SERVICE_HTTPS_PORT}:${SERVICE_HTTPS_PORT}/udp"@]
}

/// The volumes and the health-check test of the Traefik service.
pub open spec fn traefik_volumes_and_check() -> Seq<Seq<char>> {
    seq!["/etc/localtime:/etc/localtime:ro"@, "/etc/timezone:/etc/timezone:ro"@, "/var/run/docker.sock:/var/run/docker.sock:ro"@, "./config/:/etc/traefik/config/:ro"@, "./ssl/:/data/ssl/"@, "CMD-SHELL"@, "wget -q --spider --proxy off localhost:8080/ping || exit 1"@]
}

/// The placeholders of texts 0 to 3 of the list.
proof fn lemma_traefik_head_placeholders_0()
    ensures
        placeholders_from("traefik:${TRAEFIK_VERSION}"@, 0) =~~= seq!["TRAEFIK_VERSION"@],
        placeholders_from("${SERVICE_HTTP_PORT}:${SERVICE_HTTP_PORT}"@, 0) =~~= seq!["SERVICE_HTTP_PORT"@, "SERVICE_HTTP_PORT"@],
        placeholders_from("${SERVICE_HTTPS_PORT}:${SERVICE_HTTPS_PORT}"@, 0) =~~= seq!["SERVICE_HTTPS_PORT"@, "SERVICE_HTTPS_PORT"@],
        placeholders_from("${SERVICE_HTTPS_PORT}:${SERVICE_HTTPS_PORT}/udp"@, 0) =~~= seq!["SERVICE_HTTPS_PORT"@, "SERVICE_HTTPS_PORT"@],
{
    assert(placeholders_from("traefik:${TRAEFIK_VERSION}"@, 0) =~~= seq!["TRAEFIK_VERSION"@]) by {
        let s = "traefik:${TRAEFIK_VERSION}"@;
        reveal_strlit("traefik:${TRAEFIK_VERSION}");
        reveal_strlit("TRAEFIK_VERSION");
        assert(lacks(s, '$', 0, 8)) by {
            reveal_with_fuel(lacks, 9);
        }
        lemma_skip_lacking_dollar(s, 0, 8);
        assert(placeholders_from(s, 8) =~~= seq!["TRAEFIK_VERSION"@] + placeholders_from(s, 26)) by {
            reveal_with_fuel(placeholders_from, 19);
            reveal_with_fuel(placeholder_name, 19);
        }
        assert(placeholders_from(s, 0) =~~= seq!["TRAEFIK_VERSION"@]);
    }
    assert(placeholders_from("${SERVICE_HTTP_PORT}:${SERVICE_HTTP_PORT}"@, 0) =~~= seq!["SERVICE_HTTP_PORT"@, "SERVICE_HTTP_PORT"@]) by {
        let s = "${SERVICE_HTTP_PORT}:${SERVICE_HTTP_PORT}"@;
        reveal_strlit("${SERVICE_HTTP_PORT}:${SERVICE_HTTP_PORT}");
        reveal_strlit("SERVICE_HTTP_PORT");
        assert(placeholders_from(s, 0) =~~= seq!["SERVICE_HTTP_PORT"@] + placeholders_from(s, 20)) by {
            reveal_with_fuel(placeholders_from, 21);
            reveal_with_fuel(placeholder_name, 21);
        }
        assert(lacks(s, '$', 20, 21)) by {
            reveal_with_fuel(lacks, 2);
        }
        lemma_skip_lacking_dollar(s, 20, 21);
        assert(placeholders_from(s, 21) =~~= seq!["SERVICE_HTTP_PORT"@] + placeholders_from(s, 41)) by {
            reveal_with_fuel(placeholders_from, 21);
            reveal_with_fuel(placeholder_name, 21);
        }
        assert(placeholders_from(s, 0) =~~= seq!["SERVICE_HTTP_PORT"@, "SERVICE_HTTP_PORT"@]);
    }
    assert(placeholders_from("${SERVICE_HTTPS_PORT}:${SERVICE_HTTPS_PORT}"@, 0) =~~= seq!["SERVICE_HTTPS_PORT"@, "SERVICE_HTTPS_PORT"@]) by {
        let s = "${SERVICE_HTTPS_PORT}:${SERVICE_HTTPS_PORT}"@;
        reveal_strlit("${SERVICE_HTTPS_PORT}:${SERVICE_HTTPS_PORT}");
        reveal_strlit("SERVICE_HTTPS_PORT");
        assert(placeholders_from(s, 0) =~~= seq!["SERVICE_HTTPS_PORT"@] + placeholders_from(s, 21)) by {
            reveal_with_fuel(placeholders_from, 22);
            reveal_with_fuel(placeholder_name, 22);
        }
        assert(lacks(s, '$', 21, 22)) by {
            reveal_with_fuel(lacks, 2);
        }
        lemma_skip_lacking_dollar(s, 21, 22);
        assert(placeholders_from(s, 22) =~~= seq!["SERVICE_HTTPS_PORT"@] + placeholders_from(s, 43)) by {
            reveal_with_fuel(placeholders_from, 22);
            reveal_with_fuel(placeholder_name, 22);
        }
        assert(placeholders_from(s, 0) =~~= seq!["SERVICE_HTTPS_PORT"@, "SERVICE_HTTPS_PORT"@]);
    }
    assert(placeholders_from("${SERVICE_HTTPS_PORT}:${SERVICE_HTTPS_PORT}/udp"@, 0) =~~= seq!["SERVICE_HTTPS_PORT"@, "SERVICE_HTTPS_PORT"@]) by {
        let s = "${SERVICE_HTTPS_PORT}:${SERVICE_HTTPS_PORT}/udp"@;
        reveal_strlit("${SERVICE_HTTPS_PORT}:${SERVICE_HTTPS_PORT}/udp");
        reveal_strlit("SERVICE_HTTPS_PORT");
        assert(placeholders_from(s, 0) =~~= seq!["SERVICE_HTTPS_PORT"@] + placeholders_from(s, 21)) by {
            reveal_with_fuel(placeholders_from, 22);
            reveal_with_fuel(placeholder_name, 22);
        }
        assert(lacks(s, '$', 21, 22)) by {
            reveal_with_fuel(lacks, 2);
        }
        lemma_skip_lacking_dollar(s, 21, 22);
        assert(placeholders_from(s, 22) =~~= seq!["SERVICE_HTTPS_PORT"@] + placeholders_from(s, 43)) by {
            reveal_with_fuel(placeholders_from, 22);
            reveal_with_fuel(placeholder_name, 22);
        }
        assert(lacks(s, '$', 43, 47)) by {
            reveal_with_fuel(lacks, 5);
        }
        lemma_skip_lacking_dollar(s, 43, 47);
        assert(placeholders_from(s, 0) =~~= seq!["SERVICE_HTTPS_PORT"@, "SERVICE_HTTPS_PORT"@]);
    }
}

/// The placeholders of the Traefik image and ports.
proof fn lemma_traefik_head_placeholders()
    ensures
        all_placeholders(traefik_image_and_ports()) =~~= seq!["TRAEFIK_VERSION"@, "SERVICE_HTTP_PORT"@, "SERVICE_HTTP_PORT"@, "SERVICE_HTTPS_PORT"@, "SERVICE_HTTPS_PORT"@, "SERVICE_HTTPS_PORT"@, "SERVICE_HTTPS_PORT"@],
{
    lemma_traefik_head_placeholders_0();
    let t = traefik_image_and_ports();
    assert(t[0] == "traefik:${TRAEFIK_VERSION}"@);
    assert(t[1] == "${SERVICE_HTTP_PORT}:${SERVICE_HTTP_PORT}"@);
    assert(t[2] == "${SERVICE_HTTPS_PORT}:${SERVICE_HTTPS_PORT}"@);
    assert(t[3] == "${SERVICE_HTTPS_PORT}:${SERVICE_HTTPS_PORT}/udp"@);
    reveal_with_fuel(texts_placeholders, 5);
}

/// The placeholders of texts 0 to 3 of the list.
proof fn lemma_traefik_command_placeholders_0()
    ensures
        placeholders_from("--global.sendanonymoususage=false"@, 0) =~~= Seq::<Seq<char>>::empty(),
        placeholders_from("--global.checknewversion=false"@, 0) =~~= Seq::<Seq<char>>::empty(),
        placeholders_from("--entrypoints.http.address=:${SERVICE_HTTP_PORT}"@, 0) =~~= seq!["SERVICE_HTTP_PORT"@],
        placeholders_from("--entrypoints.https.address=:${SERVICE_HTTPS_PORT}"@, 0) =~~= seq!["SERVICE_HTTPS_PORT"@],
{
    assert(placeholders_from("--global.sendanonymoususage=false"@, 0) =~~= Seq::<Seq<char>>::empty()) by {
        let s = "--global.sendanonymoususage=false"@;
        reveal_strlit("--global.sendanonymoususage=false");
        assert(lacks(s, '$', 0, 33)) by {
            reveal_with_fuel(lacks, 34);
        }
        lemma_skip_lacking_dollar(s, 0, 33);
        assert(placeholders_from(s, 0) =~~= Seq::<Seq<char>>::empty());
    }
    assert(placeholders_from("--global.checknewversion=false"@, 0) =~~= Seq::<Seq<char>>::empty()) by {
        let s = "--global.checknewversion=false"@;
        reveal_strlit("--global.checknewversion=false");
        assert(lacks(s, '$', 0, 30)) by {
            reveal_with_fuel(lacks, 31);
        }
        lemma_skip_lacking_dollar(s, 0, 30);
        assert(placeholders_from(s, 0) =~~= Seq::<Seq<char>>::empty());
    }
    assert(placeholders_from("--entrypoints.http.address=:${SERVICE_HTTP_PORT}"@, 0) =~~= seq!["SERVICE_HTTP_PORT"@]) by {
        let s = "--entrypoints.http.address=:${SERVICE_HTTP_PORT}"@;
        reveal_strlit("--entrypoints.http.address=:${SERVICE_HTTP_PORT}");
        reveal_strlit("SERVICE_HTTP_PORT");
        assert(lacks(s, '$', 0, 28)) by {
            reveal_with_fuel(lacks, 29);
        }
        lemma_skip_lacking_dollar(s, 0, 28);
        assert(placeholders_from(s, 28) =~~= seq!["SERVICE_HTTP_PORT"@] + placeholders_from(s, 48)) by {
            reveal_with_fuel(placeholders_from, 21);
            reveal_with_fuel(placeholder_name, 21);
        }
        assert(placeholders_from(s, 0) =~~= seq!["SERVICE_HTTP_PORT"@]);
    }
    assert(placeholders_from("--entrypoints.https.address=:${SERVICE_HTTPS_PORT}"@, 0) =~~= seq!["SERVICE_HTTPS_PORT"@]) by {
        let s = "--entrypoints.https.address=:${SERVICE_HTTPS_PORT}"@;
        reveal_strlit("--entrypoints.https.address=:${SERVICE_HTTPS_PORT}");
        reveal_strlit("SERVICE_HTTPS_PORT");
        assert(lacks(s, '$', 0, 29)) by {
            reveal_with_fuel(lacks, 30);
        }
        lemma_skip_lacking_dollar(s, 0, 29);
        assert(placeholders_from(s, 29) =~~= seq!["SERVICE_HTTPS_PORT"@] + placeholders_from(s, 50)) by {
            reveal_with_fuel(placeholders_from, 22);
            reveal_with_fuel(placeholder_name, 22);
        }
        assert(placeholders_from(s, 0) =~~= seq!["SERVICE_HTTPS_PORT"@]);
    }
}

/// The placeholders of texts 4 to 7 of the list.
proof fn lemma_traefik_command_placeholders_1()
    ensures
        placeholders_from("--entryPoints.https.asDefault=true"@, 0) =~~= Seq::<Seq<char>>::empty(),
        placeholders_from("--entryPoints.https.http3"@, 0) =~~= Seq::<Seq<char>>::empty(),
        placeholders_from("--entryPoints.https.http3.advertisedport=${SERVICE_HTTPS_PORT}"@, 0) =~~= seq!["SERVICE_HTTPS_PORT"@],
        placeholders_from("--serverstransport.insecureskipverify=true"@, 0) =~~= Seq::<Seq<char>>::empty(),
{
    assert(placeholders_from("--entryPoints.https.asDefault=true"@, 0) =~~= Seq::<Seq<char>>::empty()) by {
        let s = "--entryPoints.https.asDefault=true"@;
        reveal_strlit("--entryPoints.https.asDefault=true");
        assert(lacks(s, '$', 0, 34)) by {
            reveal_with_fuel(lacks, 35);
        }
        lemma_skip_lacking_dollar(s, 0, 34);
        assert(placeholders_from(s, 0) =~~= Seq::<Seq<char>>::empty());
    }
    assert(placeholders_from("--entryPoints.https.http3"@, 0) =~~= Seq::<Seq<char>>::empty()) by {
        let s = "--entryPoints.https.http3"@;
        reveal_strlit("--entryPoints.https.http3");
        assert(lacks(s, '$', 0, 25)) by {
            reveal_with_fuel(lacks, 26);
        }
        lemma_skip_lacking_dollar(s, 0, 25);
        assert(placeholders_from(s, 0) =~~= Seq::<Seq<char>>::empty());
    }
    assert(placeholders_from("--entryPoints.https.http3.advertisedport=${SERVICE_HTTPS_PORT}"@, 0) =~~= seq!["SERVICE_HTTPS_PORT"@]) by {
        let s = "--entryPoints.https.http3.advertisedport=${SERVICE_HTTPS_PORT}"@;
        reveal_strlit("--entryPoints.https.http3.advertisedport=${SERVICE_HTTPS_PORT}");
        reveal_strlit("SERVICE_HTTPS_PORT");
        assert(lacks(s, '$', 0, 41)) by {
            reveal_with_fuel(lacks, 42);
        }
        lemma_skip_lacking_dollar(s, 0, 41);
        assert(placeholders_from(s, 41) =~~= seq!["SERVICE_HTTPS_PORT"@] + placeholders_from(s, 62)) by {
            reveal_with_fuel(placeholders_from, 22);
            reveal_with_fuel(placeholder_name, 22);
        }
        assert(placeholders_from(s, 0) =~~= seq!["SERVICE_HTTPS_PORT"@]);
    }
    assert(placeholders_from("--serverstransport.insecureskipverify=true"@, 0) =~~= Seq::<Seq<char>>::empty()) by {
        let s = "--serverstransport.insecureskipverify=true"@;
        reveal_strlit("--serverstransport.insecureskipverify=true");
        assert(lacks(s, '$', 0, 42)) by {
            reveal_with_fuel(lacks, 43);
        }
        lemma_skip_lacking_dollar(s, 0, 42);
        assert(placeholders_from(s, 0) =~~= Seq::<Seq<char>>::empty());
    }
}

/// The placeholders of texts 8 to 11 of the list.
proof fn lemma_traefik_command_placeholders_2()
    ensures
        placeholders_from("--entryPoints.http.forwardedHeaders.trustedIPs=127.0.0.1/32,172.18.0.1/24"@, 0) =~~= Seq::<Seq<char>>::empty(),
        placeholders_from("--entryPoints.https.forwardedHeaders.trustedIPs=127.0.0.1/32,172.18.0.1/24"@, 0) =~~= Seq::<Seq<char>>::empty(),
        placeholders_from("--api=true"@, 0) =~~= Seq::<Seq<char>>::empty(),
        placeholders_from("--api.dashboard=true"@, 0) =~~= Seq::<Seq<char>>::empty(),
{
    assert(placeholders_from("--entryPoints.http.forwardedHeaders.trustedIPs=127.0.0.1/32,172.18.0.1/24"@, 0) =~~= Seq::<Seq<char>>::empty()) by {
        let s = "--entryPoints.http.forwardedHeaders.trustedIPs=127.0.0.1/32,172.18.0.1/24"@;
        reveal_strlit("--entryPoints.http.forwardedHeaders.trustedIPs=127.0.0.1/32,172.18.0.1/24");
        assert(lacks(s, '$', 0, 48)) by {
            reveal_with_fuel(lacks, 49);
        }
        assert(lacks(s, '$', 48, 73)) by {
            reveal_with_fuel(lacks, 26);
        }
        lemma_lacks_join(s, '$', 0, 48, 73);
        lemma_skip_lacking_dollar(s, 0, 73);
        assert(placeholders_from(s, 0) =~~= Seq::<Seq<char>>::empty());
    }
    assert(placeholders_from("--entryPoints.https.forwardedHeaders.trustedIPs=127.0.0.1/32,172.18.0.1/24"@, 0) =~~= Seq::<Seq<char>>::empty()) by {
        let s = "--entryPoints.https.forwardedHeaders.trustedIPs=127.0.0.1/32,172.18.0.1/24"@;
        reveal_strlit("--entryPoints.https.forwardedHeaders.trustedIPs=127.0.0.1/32,172.18.0.1/24");
        assert(lacks(s, '$', 0, 48)) by {
            reveal_with_fuel(lacks, 49);
        }
        assert(lacks(s, '$', 48, 74)) by {
            reveal_with_fuel(lacks, 27);
        }
        lemma_lacks_join(s, '$', 0, 48, 74);
        lemma_skip_lacking_dollar(s, 0, 74);
        assert(placeholders_from(s, 0) =~~= Seq::<Seq<char>>::empty());
    }
    assert(placeholders_from("--api=true"@, 0) =~~= Seq::<Seq<char>>::empty()) by {
        let s = "--api=true"@;
        reveal_strlit("--api=true");
        assert(lacks(s, '$', 0, 10)) by {
            reveal_with_fuel(lacks, 11);
        }
        lemma_skip_lacking_dollar(s, 0, 10);
        assert(placeholders_from(s, 0) =~~= Seq::<Seq<char>>::empty());
    }
    assert(placeholders_from("--api.dashboard=true"@, 0) =~~= Seq::<Seq<char>>::empty()) by {
        let s = "--api.dashboard=true"@;
        reveal_strlit("--api.dashboard=true");
        assert(lacks(s, '$', 0, 20)) by {
            reveal_with_fuel(lacks, 21);
        }
        lemma_skip_lacking_dollar(s, 0, 20);
        assert(placeholders_from(s, 0) =~~= Seq::<Seq<char>>::empty());
    }
}

/// The placeholders of texts 12 to 15 of the list.
proof fn lemma_traefik_command_placeholders_3()
    ensures
        placeholders_from("--ping=true"@, 0) =~~= Seq::<Seq<char>>::empty(),
        placeholders_from("--log.level=INFO"@, 0) =~~= Seq::<Seq<char>>::empty(),
        placeholders_from("--log.maxsize=100"@, 0) =~~= Seq::<Seq<char>>::empty(),
        placeholders_from("--log.format=common"@, 0) =~~= Seq::<Seq<char>>::empty(),
{
    assert(placeholders_from("--ping=true"@, 0) =~~= Seq::<Seq<char>>::empty()) by {
        let s = "--ping=true"@;
        reveal_strlit("--ping=true");
        assert(lacks(s, '$', 0, 11)) by {
            reveal_with_fuel(lacks, 12);
        }
        lemma_skip_lacking_dollar(s, 0, 11);
        assert(placeholders_from(s, 0) =~~= Seq::<Seq<char>>::empty());
    }
    assert(placeholders_from("--log.level=INFO"@, 0) =~~= Seq::<Seq<char>>::empty()) by {
        let s = "--log.level=INFO"@;
        reveal_strlit("--log.level=INFO");
        assert(lacks(s, '$', 0, 16)) by {
            reveal_with_fuel(lacks, 17);
        }
        lemma_skip_lacking_dollar(s, 0, 16);
        assert(placeholders_from(s, 0) =~~= Seq::<Seq<char>>::empty());
    }
    assert(placeholders_from("--log.maxsize=100"@, 0) =~~= Seq::<Seq<char>>::empty()) by {
        let s = "--log.maxsize=100"@;
        reveal_strlit("--log.maxsize=100");
        assert(lacks(s, '$', 0, 17)) by {
            reveal_with_fuel(lacks, 18);
        }
        lemma_skip_lacking_dollar(s, 0, 17);
        assert(placeholders_from(s, 0) =~~= Seq::<Seq<char>>::empty());
    }
    assert(placeholders_from("--log.format=common"@, 0) =~~= Seq::<Seq<char>>::empty()) by {
        let s = "--log.format=common"@;
        reveal_strlit("--log.format=common");
        assert(lacks(s, '$', 0, 19)) by {
            reveal_with_fuel(lacks, 20);
        }
        lemma_skip_lacking_dollar(s, 0, 19);
        assert(placeholders_from(s, 0) =~~= Seq::<Seq<char>>::empty());
    }
}

/// The placeholders of texts 16 to 19 of the list.
proof fn lemma_traefik_command_placeholders_4()
    ensures
        placeholders_from("--accesslog=false"@, 0) =~~= Seq::<Seq<char>>::empty(),
        placeholders_from("--providers.docker=true"@, 0) =~~= Seq::<Seq<char>>::empty(),
        placeholders_from("--providers.docker.watch=true"@, 0) =~~= Seq::<Seq<char>>::empty(),
        placeholders_from("--providers.docker.exposedbydefault=false"@, 0) =~~= Seq::<Seq<char>>::empty(),
{
    assert(placeholders_from("--accesslog=false"@, 0) =~~= Seq::<Seq<char>>::empty()) by {
        let s = "--accesslog=false"@;
        reveal_strlit("--accesslog=false");
        assert(lacks(s, '$', 0, 17)) by {
            reveal_with_fuel(lacks, 18);
        }
        lemma_skip_lacking_dollar(s, 0, 17);
        assert(placeholders_from(s, 0) =~~= Seq::<Seq<char>>::empty());
    }
    assert(placeholders_from("--providers.docker=true"@, 0) =~~= Seq::<Seq<char>>::empty()) by {
        let s = "--providers.docker=true"@;
        reveal_strlit("--providers.docker=true");
        assert(lacks(s, '$', 0, 23)) by {
            reveal_with_fuel(lacks, 24);
        }
        lemma_skip_lacking_dollar(s, 0, 23);
        assert(placeholders_from(s, 0) =~~= Seq::<Seq<char>>::empty());
    }
    assert(placeholders_from("--providers.docker.watch=true"@, 0) =~~= Seq::<Seq<char>>::empty()) by {
        let s = "--providers.docker.watch=true"@;
        reveal_strlit("--providers.docker.watch=true");
        assert(lacks(s, '$', 0, 29)) by {
            reveal_with_fuel(lacks, 30);
        }
        lemma_skip_lacking_dollar(s, 0, 29);
        assert(placeholders_from(s, 0) =~~= Seq::<Seq<char>>::empty());
    }
    assert(placeholders_from("--providers.docker.exposedbydefault=false"@, 0) =~~= Seq::<Seq<char>>::empty()) by {
        let s = "--providers.docker.exposedbydefault=false"@;
        reveal_strlit("--providers.docker.exposedbydefault=false");
        assert(lacks(s, '$', 0, 41)) by {
            reveal_with_fuel(lacks, 42);
        }
        lemma_skip_lacking_dollar(s, 0, 41);
        assert(placeholders_from(s, 0) =~~= Seq::<Seq<char>>::empty());
    }
}

/// The placeholders of texts 20 to 23 of the list.
proof fn lemma_traefik_command_placeholders_5()
    ensures
        placeholders_from("--providers.docker.endpoint=unix:///var/run/docker.sock"@, 0) =~~= Seq::<Seq<char>>::empty(),
        placeholders_from("--providers.docker.useBindPortIP=false"@, 0) =~~= Seq::<Seq<char>>::empty(),
        placeholders_from("--providers.docker.network=traefik"@, 0) =~~= Seq::<Seq<char>>::empty(),
        placeholders_from("--providers.file=true"@, 0) =~~= Seq::<Seq<char>>::empty(),
{
    assert(placeholders_from("--providers.docker.endpoint=unix:///var/run/docker.sock"@, 0) =~~= Seq::<Seq<char>>::empty()) by {
        let s = "--providers.docker.endpoint=unix:///var/run/docker.sock"@;
        reveal_strlit("--providers.docker.endpoint=unix:///var/run/docker.sock");
        assert(lacks(s, '$', 0, 48)) by {
            reveal_with_fuel(lacks, 49);
        }
        assert(lacks(s, '$', 48, 55)) by {
            reveal_with_fuel(lacks, 8);
        }
        lemma_lacks_join(s, '$', 0, 48, 55);
        lemma_skip_lacking_dollar(s, 0, 55);
        assert(placeholders_from(s, 0) =~~= Seq::<Seq<char>>::empty());
    }
    assert(placeholders_from("--providers.docker.useBindPortIP=false"@, 0) =~~= Seq::<Seq<char>>::empty()) by {
        let s = "--providers.docker.useBindPortIP=false"@;
        reveal_strlit("--providers.docker.useBindPortIP=false");
        assert(lacks(s, '$', 0, 38)) by {
            reveal_with_fuel(lacks, 39);
        }
        lemma_skip_lacking_dollar(s, 0, 38);
        assert(placeholders_from(s, 0) =~~= Seq::<Seq<char>>::empty());
    }
    assert(placeholders_from("--providers.docker.network=traefik"@, 0) =~~= Seq::<Seq<char>>::empty()) by {
        let s = "--providers.docker.network=traefik"@;
        reveal_strlit("--providers.docker.network=traefik");
        assert(lacks(s, '$', 0, 34)) by {
            reveal_with_fuel(lacks, 35);
        }
        lemma_skip_lacking_dollar(s, 0, 34);
        assert(placeholders_from(s, 0) =~~= Seq::<Seq<char>>::empty());
    }
    assert(placeholders_from("--providers.file=true"@, 0) =~~= Seq::<Seq<char>>::empty()) by {
        let s = "--providers.file=true"@;
        reveal_strlit("--providers.file=true");
        assert(lacks(s, '$', 0, 21)) by {
            reveal_with_fuel(lacks, 22);
        }
        lemma_skip_lacking_dollar(s, 0, 21);
        assert(placeholders_from(s, 0) =~~= Seq::<Seq<char>>::empty());
    }
}

/// The placeholders of texts 24 to 27 of the list.
proof fn lemma_traefik_command_placeholders_6()
    ensures
        placeholders_from("--providers.file.watch=true"@, 0) =~~= Seq::<Seq<char>>::empty(),
        placeholders_from("--providers.file.directory=/etc/traefik/config"@, 0) =~~= Seq::<Seq<char>>::empty(),
        placeholders_from("--providers.file.debugloggeneratedtemplate=true"@, 0) =~~= Seq::<Seq<char>>::empty(),
        placeholders_from("--certificatesresolvers.cloudflare.acme.email=${ACME_EMAIL}"@, 0) =~~= seq!["ACME_EMAIL"@],
{
    assert(placeholders_from("--providers.file.watch=true"@, 0) =~~= Seq::<Seq<char>>::empty()) by {
        let s = "--providers.file.watch=true"@;
        reveal_strlit("--providers.file.watch=true");
        assert(lacks(s, '$', 0, 27)) by {
            reveal_with_fuel(lacks, 28);
        }
        lemma_skip_lacking_dollar(s, 0, 27);
        assert(placeholders_from(s, 0) =~~= Seq::<Seq<char>>::empty());
    }
    assert(placeholders_from("--providers.file.directory=/etc/traefik/config"@, 0) =~~= Seq::<Seq<char>>::empty()) by {
        let s = "--providers.file.directory=/etc/traefik/config"@;
        reveal_strlit("--providers.file.directory=/etc/traefik/config");
        assert(lacks(s, '$', 0, 46)) by {
            reveal_with_fuel(lacks, 47);
        }
        lemma_skip_lacking_dollar(s, 0, 46);
        assert(placeholders_from(s, 0) =~~= Seq::<Seq<char>>::empty());
    }
    assert(placeholders_from("--providers.file.debugloggeneratedtemplate=true"@, 0) =~~= Seq::<Seq<char>>::empty()) by {
        let s = "--providers.file.debugloggeneratedtemplate=true"@;
        reveal_strlit("--providers.file.debugloggeneratedtemplate=true");
        assert(lacks(s, '$', 0, 47)) by {
            reveal_with_fuel(lacks, 48);
        }
        lemma_skip_lacking_dollar(s, 0, 47);
        assert(placeholders_from(s, 0) =~~= Seq::<Seq<char>>::empty());
    }
    assert(placeholders_from("--certificatesresolvers.cloudflare.acme.email=${ACME_EMAIL}"@, 0) =~~= seq!["ACME_EMAIL"@]) by {
        let s = "--certificatesresolvers.cloudflare.acme.email=${ACME_EMAIL}"@;
        reveal_strlit("--certificatesresolvers.cloudflare.acme.email=${ACME_EMAIL}");
        reveal_strlit("ACME_EMAIL");
        assert(lacks(s, '$', 0, 46)) by {
            reveal_with_fuel(lacks, 47);
        }
        lemma_skip_lacking_dollar(s, 0, 46);
        assert(placeholders_from(s, 46) =~~= seq!["ACME_EMAIL"@] + placeholders_from(s, 59)) by {
            reveal_with_fuel(placeholders_from, 14);
            reveal_with_fuel(placeholder_name, 14);
        }
        assert(placeholders_from(s, 0) =~~= seq!["ACME_EMAIL"@]);
    }
}

/// The placeholders of texts 28 to 31 of the list.
proof fn lemma_traefik_command_placeholders_7()
    ensures
        placeholders_from("--certificatesresolvers.cloudflare.acme.storage=/data/ssl/acme.json"@, 0) =~~= Seq::<Seq<char>>::empty(),
        placeholders_from("--certificatesresolvers.cloudflare.acme.dnsChallenge.resolvers=1.1.1.1:53,8.8.8.8:53"@, 0) =~~= Seq::<Seq<char>>::empty(),
        placeholders_from("--certificatesresolvers.cloudflare.acme.dnsChallenge.provider=${ACME_PROVIDER}"@, 0) =~~= seq!["ACME_PROVIDER"@],
        placeholders_from("--certificatesresolvers.cloudflare.acme.dnsChallenge.propagation.delayBeforeChecks=30"@, 0) =~~= Seq::<Seq<char>>::empty(),
{
    assert(placeholders_from("--certificatesresolvers.cloudflare.acme.storage=/data/ssl/acme.json"@, 0) =~~= Seq::<Seq<char>>::empty()) by {
        let s = "--certificatesresolvers.cloudflare.acme.storage=/data/ssl/acme.json"@;
        reveal_strlit("--certificatesresolvers.cloudflare.acme.storage=/data/ssl/acme.json");
        assert(lacks(s, '$', 0, 48)) by {
            reveal_with_fuel(lacks, 49);
        }
        assert(lacks(s, '$', 48, 67)) by {
            reveal_with_fuel(lacks, 20);
        }
        lemma_lacks_join(s, '$', 0, 48, 67);
        lemma_skip_lacking_dollar(s, 0, 67);
        assert(placeholders_from(s, 0) =~~= Seq::<Seq<char>>::empty());
    }
    assert(placeholders_from("--certificatesresolvers.cloudflare.acme.dnsChallenge.resolvers=1.1.1.1:53,8.8.8.8:53"@, 0) =~~= Seq::<Seq<char>>::empty()) by {
        let s = "--certificatesresolvers.cloudflare.acme.dnsChallenge.resolvers=1.1.1.1:53,8.8.8.8:53"@;
        reveal_strlit("--certificatesresolvers.cloudflare.acme.dnsChallenge.resolvers=1.1.1.1:53,8.8.8.8:53");
        assert(lacks(s, '$', 0, 48)) by {
            reveal_with_fuel(lacks, 49);
        }
        assert(lacks(s, '$', 48, 84)) by {
            reveal_with_fuel(lacks, 37);
        }
        lemma_lacks_join(s, '$', 0, 48, 84);
        lemma_skip_lacking_dollar(s, 0, 84);
        assert(placeholders_from(s, 0) =~~= Seq::<Seq<char>>::empty());
    }
    assert(placeholders_from("--certificatesresolvers.cloudflare.acme.dnsChallenge.provider=${ACME_PROVIDER}"@, 0) =~~= seq!["ACME_PROVIDER"@]) by {
        let s = "--certificatesresolvers.cloudflare.acme.dnsChallenge.provider=${ACME_PROVIDER}"@;
        reveal_strlit("--certificatesresolvers.cloudflare.acme.dnsChallenge.provider=${ACME_PROVIDER}");
        reveal_strlit("ACME_PROVIDER");
        assert(lacks(s, '$', 0, 48)) by {
            reveal_with_fuel(lacks, 49);
        }
        assert(lacks(s, '$', 48, 62)) by {
            reveal_with_fuel(lacks, 15);
        }
        lemma_lacks_join(s, '$', 0, 48, 62);
        lemma_skip_lacking_dollar(s, 0, 62);
        assert(placeholders_from(s, 62) =~~= seq!["ACME_PROVIDER"@] + placeholders_from(s, 78)) by {
            reveal_with_fuel(placeholders_from, 17);
            reveal_with_fuel(placeholder_name, 17);
        }
        assert(placeholders_from(s, 0) =~~= seq!["ACME_PROVIDER"@]);
    }
    assert(placeholders_from("--certificatesresolvers.cloudflare.acme.dnsChallenge.propagation.delayBeforeChecks=30"@, 0) =~~= Seq::<Seq<char>>::empty()) by {
        let s = "--certificatesresolvers.cloudflare.acme.dnsChallenge.propagation.delayBeforeChecks=30"@;
        reveal_strlit("--certificatesresolvers.cloudflare.acme.dnsChallenge.propagation.delayBeforeChecks=30");
        assert(lacks(s, '$', 0, 48)) by {
            reveal_with_fuel(lacks, 49);
        }
        assert(lacks(s, '$', 48, 85)) by {
            reveal_with_fuel(lacks, 38);
        }
        lemma_lacks_join(s, '$', 0, 48, 85);
        lemma_skip_lacking_dollar(s, 0, 85);
        assert(placeholders_from(s, 0) =~~= Seq::<Seq<char>>::empty());
    }
}

/// The placeholders of the Traefik command line.
proof fn lemma_traefik_command_placeholders()
    ensures
        all_placeholders(traefik_command_spec()) =~~= seq!["SERVICE_HTTP_PORT"@, "SERVICE_HTTPS_PORT"@, "SERVICE_HTTPS_PORT"@, "ACME_EMAIL"@, "ACME_PROVIDER"@],
{
    lemma_traefik_command_placeholders_0();
    lemma_traefik_command_placeholders_1();
    lemma_traefik_command_placeholders_2();
    lemma_traefik_command_placeholders_3();
    lemma_traefik_command_placeholders_4();
    lemma_traefik_command_placeholders_5();
    lemma_traefik_command_placeholders_6();
    lemma_traefik_command_placeholders_7();
    let t = traefik_command_spec();
    assert(t[0] == "--global.sendanonymoususage=false"@);
    assert(t[1] == "--global.checknewversion=false"@);
    assert(t[2] == "--entrypoints.http.address=:${SERVICE_HTTP_PORT}"@);
    assert(t[3] == "--entrypoints.https.address=:${SERVICE_HTTPS_PORT}"@);
    assert(t[4] == "--entryPoints.https.asDefault=true"@);
    assert(t[5] == "--entryPoints.https.http3"@);
    assert(t[6] == "--entryPoints.https.http3.advertisedport=${SERVICE_HTTPS_PORT}"@);
    assert(t[7] == "--serverstransport.insecureskipverify=true"@);
    assert(t[8] == "--entryPoints.http.forwardedHeaders.trustedIPs=127.0.0.1/32,172.18.0.1/24"@);
    assert(t[9] == "--entryPoints.https.forwardedHeaders.trustedIPs=127.0.0.1/32,172.18.0.1/24"@);
    assert(t[10] == "--api=true"@);
    assert(t[11] == "--api.dashboard=true"@);
    assert(t[12] == "--ping=true"@);
    assert(t[13] == "--log.level=INFO"@);
    assert(t[14] == "--log.maxsize=100"@);
    assert(t[15] == "--log.format=common"@);
    assert(t[16] == "--accesslog=false"@);
    assert(t[17] == "--providers.docker=true"@);
    assert(t[18] == "--providers.docker.watch=true"@);
    assert(t[19] == "--providers.docker.exposedbydefault=false"@);
    assert(t[20] == "--providers.docker.endpoint=unix:///var/run/docker.sock"@);
    assert(t[21] == "--providers.docker.useBindPortIP=false"@);
    assert(t[22] =~= "--providers.docker.network=traefik"@) by {
        reveal_strlit("--providers.docker.network=");
        reveal_strlit("traefik");
        reveal_strlit("--providers.docker.network=traefik");
    }
    assert(t[23] == "--providers.file=true"@);
    assert(t[24] == "--providers.file.watch=true"@);
    assert(t[25] == "--providers.file.directory=/etc/traefik/config"@);
    assert(t[26] == "--providers.file.debugloggeneratedtemplate=true"@);
    assert(t[27] == "--certificatesresolvers.cloudflare.acme.email=${ACME_EMAIL}"@);
    assert(t[28] == "--certificatesresolvers.cloudflare.acme.storage=/data/ssl/acme.json"@);
    assert(t[29] == "--certificatesresolvers.cloudflare.acme.dnsChallenge.resolvers=1.1.1.1:53,8.8.8.8:53"@);
    assert(t[30] == "--certificatesresolvers.cloudflare.acme.dnsChallenge.provider=${ACME_PROVIDER}"@);
    assert(t[31] == "--certificatesresolvers.cloudflare.acme.dnsChallenge.propagation.delayBeforeChecks=30"@);
    reveal_with_fuel(texts_placeholders, 33);
}

/// The placeholders of texts 0 to 3 of the list.
proof fn lemma_traefik_labels_placeholders_0()
    ensures
        placeholders_from("traefik.enable=true"@, 0) =~~= Seq::<Seq<char>>::empty(),
        placeholders_from("traefik.docker.network=traefik"@, 0) =~~= Seq::<Seq<char>>::empty(),
        placeholders_from("traefik.http.routers.traefik-dashboard-secure.tls.certresolver=cloudflare"@, 0) =~~= Seq::<Seq<char>>::empty(),
        placeholders_from("traefik.http.routers.traefik-dashboard-secure.tls.domains[0].main=${DNS_MAIN}"@, 0) =~~= seq!["DNS_MAIN"@],
{
    assert(placeholders_from("traefik.enable=true"@, 0) =~~= Seq::<Seq<char>>::empty()) by {
        let s = "traefik.enable=true"@;
        reveal_strlit("traefik.enable=true");
        assert(lacks(s, '$', 0, 19)) by {
            reveal_with_fuel(lacks, 20);
        }
        lemma_skip_lacking_dollar(s, 0, 19);
        assert(placeholders_from(s, 0) =~~= Seq::<Seq<char>>::empty());
    }
    assert(placeholders_from("traefik.docker.network=traefik"@, 0) =~~= Seq::<Seq<char>>::empty()) by {
        let s = "traefik.docker.network=traefik"@;
        reveal_strlit("traefik.docker.network=traefik");
        assert(lacks(s, '$', 0, 30)) by {
            reveal_with_fuel(lacks, 31);
        }
        lemma_skip_lacking_dollar(s, 0, 30);
        assert(placeholders_from(s, 0) =~~= Seq::<Seq<char>>::empty());
    }
    assert(placeholders_from("traefik.http.routers.traefik-dashboard-secure.tls.certresolver=cloudflare"@, 0) =~~= Seq::<Seq<char>>::empty()) by {
        let s = "traefik.http.routers.traefik-dashboard-secure.tls.certresolver=cloudflare"@;
        reveal_strlit("traefik.http.routers.traefik-dashboard-secure.tls.certresolver=cloudflare");
        assert(lacks(s, '$', 0, 48)) by {
            reveal_with_fuel(lacks, 49);
        }
        assert(lacks(s, '$', 48, 73)) by {
            reveal_with_fuel(lacks, 26);
        }
        lemma_lacks_join(s, '$', 0, 48, 73);
        lemma_skip_lacking_dollar(s, 0, 73);
        assert(placeholders_from(s, 0) =~~= Seq::<Seq<char>>::empty());
    }
    assert(placeholders_from("traefik.http.routers.traefik-dashboard-secure.tls.domains[0].main=${DNS_MAIN}"@, 0) =~~= seq!["DNS_MAIN"@]) by {
        let s = "traefik.http.routers.traefik-dashboard-secure.tls.domains[0].main=${DNS_MAIN}"@;
        reveal_strlit("traefik.http.routers.traefik-dashboard-secure.tls.domains[0].main=${DNS_MAIN}");
        reveal_strlit("DNS_MAIN");
        assert(lacks(s, '$', 0, 48)) by {
            reveal_with_fuel(lacks, 49);
        }
        assert(lacks(s, '$', 48, 66)) by {
            reveal_with_fuel(lacks, 19);
        }
        lemma_lacks_join(s, '$', 0, 48, 66);
        lemma_skip_lacking_dollar(s, 0, 66);
        assert(placeholders_from(s, 66) =~~= seq!["DNS_MAIN"@] + placeholders_from(s, 77)) by {
            reveal_with_fuel(placeholders_from, 12);
            reveal_with_fuel(placeholder_name, 12);
        }
        assert(placeholders_from(s, 0) =~~= seq!["DNS_MAIN"@]);
    }
}

/// The placeholders of texts 4 to 7 of the list.
proof fn lemma_traefik_labels_placeholders_1()
    ensures
        placeholders_from("traefik.http.routers.traefik-dashboard-secure.tls.domains[0].sans=${DNS_LIST}"@, 0) =~~= seq!["DNS_LIST"@],
        placeholders_from("traefik.http.routers.traefik-dashboard-secure.tls=true"@, 0) =~~= Seq::<Seq<char>>::empty(),
        placeholders_from("traefik.http.routers.traefik-dashboard-secure.entrypoints=https"@, 0) =~~= Seq::<Seq<char>>::empty(),
        placeholders_from("traefik.http.routers.traefik-dashboard-secure.middlewares=gzip@file,x-forwarded-proto@file,ipallowlist-internal@file,dashboard-auth@file"@, 0) =~~= Seq::<Seq<char>>::empty(),
{
    assert(placeholders_from("traefik.http.routers.traefik-dashboard-secure.tls.domains[0].sans=${DNS_LIST}"@, 0) =~~= seq!["DNS_LIST"@]) by {
        let s = "traefik.http.routers.traefik-dashboard-secure.tls.domains[0].sans=${DNS_LIST}"@;
        reveal_strlit("traefik.http.routers.traefik-dashboard-secure.tls.domains[0].sans=${DNS_LIST}");
        reveal_strlit("DNS_LIST");
        assert(lacks(s, '$', 0, 48)) by {
            reveal_with_fuel(lacks, 49);
        }
        assert(lacks(s, '$', 48, 66)) by {
            reveal_with_fuel(lacks, 19);
        }
        lemma_lacks_join(s, '$', 0, 48, 66);
        lemma_skip_lacking_dollar(s, 0, 66);
        assert(placeholders_from(s, 66) =~~= seq!["DNS_LIST"@] + placeholders_from(s, 77)) by {
            reveal_with_fuel(placeholders_from, 12);
            reveal_with_fuel(placeholder_name, 12);
        }
        assert(placeholders_from(s, 0) =~~= seq!["DNS_LIST"@]);
    }
    assert(placeholders_from("traefik.http.routers.traefik-dashboard-secure.tls=true"@, 0) =~~= Seq::<Seq<char>>::empty()) by {
        let s = "traefik.http.routers.traefik-dashboard-secure.tls=true"@;
        reveal_strlit("traefik.http.routers.traefik-dashboard-secure.tls=true");
        assert(lacks(s, '$', 0, 48)) by {
            reveal_with_fuel(lacks, 49);
        }
        assert(lacks(s, '$', 48, 54)) by {
            reveal_with_fuel(lacks, 7);
        }
        lemma_lacks_join(s, '$', 0, 48, 54);
        lemma_skip_lacking_dollar(s, 0, 54);
        assert(placeholders_from(s, 0) =~~= Seq::<Seq<char>>::empty());
    }
    assert(placeholders_from("traefik.http.routers.traefik-dashboard-secure.entrypoints=https"@, 0) =~~= Seq::<Seq<char>>::empty()) by {
        let s = "traefik.http.routers.traefik-dashboard-secure.entrypoints=https"@;
        reveal_strlit("traefik.http.routers.traefik-dashboard-secure.entrypoints=https");
        assert(lacks(s, '$', 0, 48)) by {
            reveal_with_fuel(lacks, 49);
        }
        assert(lacks(s, '$', 48, 63)) by {
            reveal_with_fuel(lacks, 16);
        }
        lemma_lacks_join(s, '$', 0, 48, 63);
        lemma_skip_lacking_dollar(s, 0, 63);
        assert(placeholders_from(s, 0) =~~= Seq::<Seq<char>>::empty());
    }
    assert(placeholders_from("traefik.http.routers.traefik-dashboard-secure.middlewares=gzip@file,x-forwarded-proto@file,ipallowlist-internal@file,dashboard-auth@file"@, 0) =~~= Seq::<Seq<char>>::empty()) by {
        let s = "traefik.http.routers.traefik-dashboard-secure.middlewares=gzip@file,x-forwarded-proto@file,ipallowlist-internal@file,dashboard-auth@file"@;
        reveal_strlit("traefik.http.routers.traefik-dashboard-secure.middlewares=gzip@file,x-forwarded-proto@file,ipallowlist-internal@file,dashboard-auth@file");
        assert(lacks(s, '$', 0, 48)) by {
            reveal_with_fuel(lacks, 49);
        }
        assert(lacks(s, '$', 48, 96)) by {
            reveal_with_fuel(lacks, 49);
        }
        assert(lacks(s, '$', 96, 136)) by {
            reveal_with_fuel(lacks, 41);
        }
        lemma_lacks_join(s, '$', 0, 48, 96);
        lemma_lacks_join(s, '$', 0, 96, 136);
        lemma_skip_lacking_dollar(s, 0, 136);
        assert(placeholders_from(s, 0) =~~= Seq::<Seq<char>>::empty());
    }
}

/// The placeholders of texts 8 to 11 of the list.
proof fn lemma_traefik_labels_placeholders_2()
    ensures
        placeholders_from("traefik.http.routers.traefik-dashboard-secure.rule=Host(`${SERVICE_DOMAIN}`)"@, 0) =~~= seq!["SERVICE_DOMAIN"@],
        placeholders_from("traefik.http.routers.traefik-dashboard-secure.service=dashboard@internal"@, 0) =~~= Seq::<Seq<char>>::empty(),
        placeholders_from("traefik.http.routers.traefik-dashboard-nosecure.entrypoints=http"@, 0) =~~= Seq::<Seq<char>>::empty(),
        placeholders_from("traefik.http.routers.traefik-dashboard-nosecure.middlewares=redir-https@file"@, 0) =~~= Seq::<Seq<char>>::empty(),
{
    assert(placeholders_from("traefik.http.routers.traefik-dashboard-secure.rule=Host(`${SERVICE_DOMAIN}`)"@, 0) =~~= seq!["SERVICE_DOMAIN"@]) by {
        let s = "traefik.http.routers.traefik-dashboard-secure.rule=Host(`${SERVICE_DOMAIN}`)"@;
        reveal_strlit("traefik.http.routers.traefik-dashboard-secure.rule=Host(`${SERVICE_DOMAIN}`)");
        reveal_strlit("SERVICE_DOMAIN");
        assert(lacks(s, '$', 0, 48)) by {
            reveal_with_fuel(lacks, 49);
        }
        assert(lacks(s, '$', 48, 57)) by {
            reveal_with_fuel(lacks, 10);
        }
        lemma_lacks_join(s, '$', 0, 48, 57);
        lemma_skip_lacking_dollar(s, 0, 57);
        assert(placeholders_from(s, 57) =~~= seq!["SERVICE_DOMAIN"@] + placeholders_from(s, 74)) by {
            reveal_with_fuel(placeholders_from, 18);
            reveal_with_fuel(placeholder_name, 18);
        }
        assert(lacks(s, '$', 74, 76)) by {
            reveal_with_fuel(lacks, 3);
        }
        lemma_skip_lacking_dollar(s, 74, 76);
        assert(placeholders_from(s, 0) =~~= seq!["SERVICE_DOMAIN"@]);
    }
    assert(placeholders_from("traefik.http.routers.traefik-dashboard-secure.service=dashboard@internal"@, 0) =~~= Seq::<Seq<char>>::empty()) by {
        let s = "traefik.http.routers.traefik-dashboard-secure.service=dashboard@internal"@;
        reveal_strlit("traefik.http.routers.traefik-dashboard-secure.service=dashboard@internal");
        assert(lacks(s, '$', 0, 48)) by {
            reveal_with_fuel(lacks, 49);
        }
        assert(lacks(s, '$', 48, 72)) by {
            reveal_with_fuel(lacks, 25);
        }
        lemma_lacks_join(s, '$', 0, 48, 72);
        lemma_skip_lacking_dollar(s, 0, 72);
        assert(placeholders_from(s, 0) =~~= Seq::<Seq<char>>::empty());
    }
    assert(placeholders_from("traefik.http.routers.traefik-dashboard-nosecure.entrypoints=http"@, 0) =~~= Seq::<Seq<char>>::empty()) by {
        let s = "traefik.http.routers.traefik-dashboard-nosecure.entrypoints=http"@;
        reveal_strlit("traefik.http.routers.traefik-dashboard-nosecure.entrypoints=http");
        assert(lacks(s, '$', 0, 48)) by {
            reveal_with_fuel(lacks, 49);
        }
        assert(lacks(s, '$', 48, 64)) by {
            reveal_with_fuel(lacks, 17);
        }
        lemma_lacks_join(s, '$', 0, 48, 64);
        lemma_skip_lacking_dollar(s, 0, 64);
        assert(placeholders_from(s, 0) =~~= Seq::<Seq<char>>::empty());
    }
    assert(placeholders_from("traefik.http.routers.traefik-dashboard-nosecure.middlewares=redir-https@file"@, 0) =~~= Seq::<Seq<char>>::empty()) by {
        let s = "traefik.http.routers.traefik-dashboard-nosecure.middlewares=redir-https@file"@;
        reveal_strlit("traefik.http.routers.traefik-dashboard-nosecure.middlewares=redir-https@file");
        assert(lacks(s, '$', 0, 48)) by {
            reveal_with_fuel(lacks, 49);
        }
        assert(lacks(s, '$', 48, 76)) by {
            reveal_with_fuel(lacks, 29);
        }
        lemma_lacks_join(s, '$', 0, 48, 76);
        lemma_skip_lacking_dollar(s, 0, 76);
        assert(placeholders_from(s, 0) =~~= Seq::<Seq<char>>::empty());
    }
}

/// The placeholders of texts 12 to 15 of the list.
proof fn lemma_traefik_labels_placeholders_3()
    ensures
        placeholders_from("traefik.http.routers.traefik-dashboard-nosecure.rule=Host(`${SERVICE_DOMAIN}`)"@, 0) =~~= seq!["SERVICE_DOMAIN"@],
        placeholders_from("traefik.http.routers.traefik-dashboard-nosecure.service=noop@internal"@, 0) =~~= Seq::<Seq<char>>::empty(),
        placeholders_from("traefik.http.routers.traefik-dashboard-api.tls=true"@, 0) =~~= Seq::<Seq<char>>::empty(),
        placeholders_from("traefik.http.routers.traefik-dashboard-api.entrypoints=https"@, 0) =~~= Seq::<Seq<char>>::empty(),
{
    assert(placeholders_from("traefik.http.routers.traefik-dashboard-nosecure.rule=Host(`${SERVICE_DOMAIN}`)"@, 0) =~~= seq!["SERVICE_DOMAIN"@]) by {
        let s = "traefik.http.routers.traefik-dashboard-nosecure.rule=Host(`${SERVICE_DOMAIN}`)"@;
        reveal_strlit("traefik.http.routers.traefik-dashboard-nosecure.rule=Host(`${SERVICE_DOMAIN}`)");
        reveal_strlit("SERVICE_DOMAIN");
        assert(lacks(s, '$', 0, 48)) by {
            reveal_with_fuel(lacks, 49);
        }
        assert(lacks(s, '$', 48, 59)) by {
            reveal_with_fuel(lacks, 12);
        }
        lemma_lacks_join(s, '$', 0, 48, 59);
        lemma_skip_lacking_dollar(s, 0, 59);
        assert(placeholders_from(s, 59) =~~= seq!["SERVICE_DOMAIN"@] + placeholders_from(s, 76)) by {
            reveal_with_fuel(placeholders_from, 18);
            reveal_with_fuel(placeholder_name, 18);
        }
        assert(lacks(s, '$', 76, 78)) by {
            reveal_with_fuel(lacks, 3);
        }
        lemma_skip_lacking_dollar(s, 76, 78);
        assert(placeholders_from(s, 0) =~~= seq!["SERVICE_DOMAIN"@]);
    }
    assert(placeholders_from("traefik.http.routers.traefik-dashboard-nosecure.service=noop@internal"@, 0) =~~= Seq::<Seq<char>>::empty()) by {
        let s = "traefik.http.routers.traefik-dashboard-nosecure.service=noop@internal"@;
        reveal_strlit("traefik.http.routers.traefik-dashboard-nosecure.service=noop@internal");
        assert(lacks(s, '$', 0, 48)) by {
            reveal_with_fuel(lacks, 49);
        }
        assert(lacks(s, '$', 48, 69)) by {
            reveal_with_fuel(lacks, 22);
        }
        lemma_lacks_join(s, '$', 0, 48, 69);
        lemma_skip_lacking_dollar(s, 0, 69);
        assert(placeholders_from(s, 0) =~~= Seq::<Seq<char>>::empty());
    }
    assert(placeholders_from("traefik.http.routers.traefik-dashboard-api.tls=true"@, 0) =~~= Seq::<Seq<char>>::empty()) by {
        let s = "traefik.http.routers.traefik-dashboard-api.tls=true"@;
        reveal_strlit("traefik.http.routers.traefik-dashboard-api.tls=true");
        assert(lacks(s, '$', 0, 48)) by {
            reveal_with_fuel(lacks, 49);
        }
        assert(lacks(s, '$', 48, 51)) by {
            reveal_with_fuel(lacks, 4);
        }
        lemma_lacks_join(s, '$', 0, 48, 51);
        lemma_skip_lacking_dollar(s, 0, 51);
        assert(placeholders_from(s, 0) =~~= Seq::<Seq<char>>::empty());
    }
    assert(placeholders_from("traefik.http.routers.traefik-dashboard-api.entrypoints=https"@, 0) =~~= Seq::<Seq<char>>::empty()) by {
        let s = "traefik.http.routers.traefik-dashboard-api.entrypoints=https"@;
        reveal_strlit("traefik.http.routers.traefik-dashboard-api.entrypoints=https");
        assert(lacks(s, '$', 0, 48)) by {
            reveal_with_fuel(lacks, 49);
        }
        assert(lacks(s, '$', 48, 60)) by {
            reveal_with_fuel(lacks, 13);
        }
        lemma_lacks_join(s, '$', 0, 48, 60);
        lemma_skip_lacking_dollar(s, 0, 60);
        assert(placeholders_from(s, 0) =~~= Seq::<Seq<char>>::empty());
    }
}

/// The placeholders of texts 16 to 18 of the list.
proof fn lemma_traefik_labels_placeholders_4()
    ensures
        placeholders_from("traefik.http.routers.traefik-dashboard-api.middlewares=gzip@file,ipallowlist-internal@file"@, 0) =~~= Seq::<Seq<char>>::empty(),
        placeholders_from("traefik.http.routers.traefik-dashboard-api.rule=Host(`${SERVICE_DOMAIN}`) && (PathPrefix(`/api`) || PathPrefix(`/dashboard`))"@, 0) =~~= seq!["SERVICE_DOMAIN"@],
        placeholders_from("traefik.http.routers.traefik-dashboard-api.service=api@internal"@, 0) =~~= Seq::<Seq<char>>::empty(),
{
    assert(placeholders_from("traefik.http.routers.traefik-dashboard-api.middlewares=gzip@file,ipallowlist-internal@file"@, 0) =~~= Seq::<Seq<char>>::empty()) by {
        let s = "traefik.http.routers.traefik-dashboard-api.middlewares=gzip@file,ipallowlist-internal@file"@;
        reveal_strlit("traefik.http.routers.traefik-dashboard-api.middlewares=gzip@file,ipallowlist-internal@file");
        assert(lacks(s, '$', 0, 48)) by {
            reveal_with_fuel(lacks, 49);
        }
        assert(lacks(s, '$', 48, 90)) by {
            reveal_with_fuel(lacks, 43);
        }
        lemma_lacks_join(s, '$', 0, 48, 90);
        lemma_skip_lacking_dollar(s, 0, 90);
        assert(placeholders_from(s, 0) =~~= Seq::<Seq<char>>::empty());
    }
    assert(placeholders_from("traefik.http.routers.traefik-dashboard-api.rule=Host(`${SERVICE_DOMAIN}`) && (PathPrefix(`/api`) || PathPrefix(`/dashboard`))"@, 0) =~~= seq!["SERVICE_DOMAIN"@]) by {
        let s = "traefik.http.routers.traefik-dashboard-api.rule=Host(`${SERVICE_DOMAIN}`) && (PathPrefix(`/api`) || PathPrefix(`/dashboard`))"@;
        reveal_strlit("traefik.http.routers.traefik-dashboard-api.rule=Host(`${SERVICE_DOMAIN}`) && (PathPrefix(`/api`) || PathPrefix(`/dashboard`))");
        reveal_strlit("SERVICE_DOMAIN");
        assert(lacks(s, '$', 0, 48)) by {
            reveal_with_fuel(lacks, 49);
        }
        assert(lacks(s, '$', 48, 54)) by {
            reveal_with_fuel(lacks, 7);
        }
        lemma_lacks_join(s, '$', 0, 48, 54);
        lemma_skip_lacking_dollar(s, 0, 54);
        assert(placeholders_from(s, 54) =~~= seq!["SERVICE_DOMAIN"@] + placeholders_from(s, 71)) by {
            reveal_with_fuel(placeholders_from, 18);
            reveal_with_fuel(placeholder_name, 18);
        }
        assert(lacks(s, '$', 71, 119)) by {
            reveal_with_fuel(lacks, 49);
        }
        assert(lacks(s, '$', 119, 125)) by {
            reveal_with_fuel(lacks, 7);
        }
        lemma_lacks_join(s, '$', 71, 119, 125);
        lemma_skip_lacking_dollar(s, 71, 125);
        assert(placeholders_from(s, 0) =~~= seq!["SERVICE_DOMAIN"@]);
    }
    assert(placeholders_from("traefik.http.routers.traefik-dashboard-api.service=api@internal"@, 0) =~~= Seq::<Seq<char>>::empty()) by {
        let s = "traefik.http.routers.traefik-dashboard-api.service=api@internal"@;
        reveal_strlit("traefik.http.routers.traefik-dashboard-api.service=api@internal");
        assert(lacks(s, '$', 0, 48)) by {
            reveal_with_fuel(lacks, 49);
        }
        assert(lacks(s, '$', 48, 63)) by {
            reveal_with_fuel(lacks, 16);
        }
        lemma_lacks_join(s, '$', 0, 48, 63);
        lemma_skip_lacking_dollar(s, 0, 63);
        assert(placeholders_from(s, 0) =~~= Seq::<Seq<char>>::empty());
    }
}

/// The placeholders of the Traefik labels.
proof fn lemma_traefik_labels_placeholders()
    ensures
        all_placeholders(traefik_labels_spec()) =~~= seq!["DNS_MAIN"@, "DNS_LIST"@, "SERVICE_DOMAIN"@, "SERVICE_DOMAIN"@, "SERVICE_DOMAIN"@],
{
    lemma_traefik_labels_placeholders_0();
    lemma_traefik_labels_placeholders_1();
    lemma_traefik_labels_placeholders_2();
    lemma_traefik_labels_placeholders_3();
    lemma_traefik_labels_placeholders_4();
    let t = traefik_labels_spec();
    assert(t[0] == "traefik.enable=true"@);
    assert(t[1] =~= "traefik.docker.network=traefik"@) by {
        reveal_strlit("traefik.docker.network=");
        reveal_strlit("traefik");
        reveal_strlit("traefik.docker.network=traefik");
    }
    assert(t[2] == "traefik.http.routers.traefik-dashboard-secure.tls.certresolver=cloudflare"@);
    assert(t[3] == "traefik.http.routers.traefik-dashboard-secure.tls.domains[0].main=${DNS_MAIN}"@);
    assert(t[4] == "traefik.http.routers.traefik-dashboard-secure.tls.domains[0].sans=${DNS_LIST}"@);
    assert(t[5] == "traefik.http.routers.traefik-dashboard-secure.tls=true"@);
    assert(t[6] == "traefik.http.routers.traefik-dashboard-secure.entrypoints=https"@);
    assert(t[7] =~= "traefik.http.routers.traefik-dashboard-secure.middlewares=gzip@file,x-forwarded-proto@file,ipallowlist-internal@file,dashboard-auth@file"@) by {
        reveal_strlit("traefik.http.routers.traefik-dashboard-secure.middlewares=");
        reveal_strlit("gzip");
        reveal_strlit("redir-https");
        reveal_strlit("x-forwarded-proto");
        reveal_strlit("ipallowlist-internal");
        reveal_strlit("dashboard-auth");
        reveal_strlit("@file");
        reveal_strlit(",");
        reveal_strlit("gzip@file,x-forwarded-proto@file,ipallowlist-internal@file,dashboard-auth@file");
        assert(dashboard_chain() =~= "gzip@file,x-forwarded-proto@file,ipallowlist-internal@file,dashboard-auth@file"@);
        reveal_strlit("traefik.http.routers.traefik-dashboard-secure.middlewares=gzip@file,x-forwarded-proto@file,ipallowlist-internal@file,dashboard-auth@file");
    }
    assert(t[8] == "traefik.http.routers.traefik-dashboard-secure.rule=Host(`${SERVICE_DOMAIN}`)"@);
    assert(t[9] == "traefik.http.routers.traefik-dashboard-secure.service=dashboard@internal"@);
    assert(t[10] == "traefik.http.routers.traefik-dashboard-nosecure.entrypoints=http"@);
    assert(t[11] =~= "traefik.http.routers.traefik-dashboard-nosecure.middlewares=redir-https@file"@) by {
        reveal_strlit("traefik.http.routers.traefik-dashboard-nosecure.middlewares=");
        reveal_strlit("gzip");
        reveal_strlit("redir-https");
        reveal_strlit("x-forwarded-proto");
        reveal_strlit("ipallowlist-internal");
        reveal_strlit("dashboard-auth");
        reveal_strlit("@file");
        reveal_strlit(",");
        reveal_strlit("traefik.http.routers.traefik-dashboard-nosecure.middlewares=redir-https@file");
    }
    assert(t[12] == "traefik.http.routers.traefik-dashboard-nosecure.rule=Host(`${SERVICE_DOMAIN}`)"@);
    assert(t[13] == "traefik.http.routers.traefik-dashboard-nosecure.service=noop@internal"@);
    assert(t[14] == "traefik.http.routers.traefik-dashboard-api.tls=true"@);
    assert(t[15] == "traefik.http.routers.traefik-dashboard-api.entrypoints=https"@);
    assert(t[16] =~= "traefik.http.routers.traefik-dashboard-api.middlewares=gzip@file,ipallowlist-internal@file"@) by {
        reveal_strlit("traefik.http.routers.traefik-dashboard-api.middlewares=");
        reveal_strlit("gzip");
        reveal_strlit("redir-https");
        reveal_strlit("x-forwarded-proto");
        reveal_strlit("ipallowlist-internal");
        reveal_strlit("dashboard-auth");
        reveal_strlit("@file");
        reveal_strlit(",");
        reveal_strlit("gzip@file,ipallowlist-internal@file");
        assert(api_chain() =~= "gzip@file,ipallowlist-internal@file"@);
        reveal_strlit("traefik.http.routers.traefik-dashboard-api.middlewares=gzip@file,ipallowlist-internal@file");
    }
    assert(t[17] == "traefik.http.routers.traefik-dashboard-api.rule=Host(`${SERVICE_DOMAIN}`) && (PathPrefix(`/api`) || PathPrefix(`/dashboard`))"@);
    assert(t[18] == "traefik.http.routers.traefik-dashboard-api.service=api@internal"@);
    reveal_with_fuel(texts_placeholders, 20);
}

/// The placeholders of texts 0 to 3 of the list.
proof fn lemma_traefik_tail_placeholders_0()
    ensures
        placeholders_from("/etc/localtime:/etc/localtime:ro"@, 0) =~~= Seq::<Seq<char>>::empty(),
        placeholders_from("/etc/timezone:/etc/timezone:ro"@, 0) =~~= Seq::<Seq<char>>::empty(),
        placeholders_from("/var/run/docker.sock:/var/run/docker.sock:ro"@, 0) =~~= Seq::<Seq<char>>::empty(),
        placeholders_from("./config/:/etc/traefik/config/:ro"@, 0) =~~= Seq::<Seq<char>>::empty(),
{
    assert(placeholders_from("/etc/localtime:/etc/localtime:ro"@, 0) =~~= Seq::<Seq<char>>::empty()) by {
        let s = "/etc/localtime:/etc/localtime:ro"@;
        reveal_strlit("/etc/localtime:/etc/localtime:ro");
        assert(lacks(s, '$', 0, 32)) by {
            reveal_with_fuel(lacks, 33);
        }
        lemma_skip_lacking_dollar(s, 0, 32);
        assert(placeholders_from(s, 0) =~~= Seq::<Seq<char>>::empty());
    }
    assert(placeholders_from("/etc/timezone:/etc/timezone:ro"@, 0) =~~= Seq::<Seq<char>>::empty()) by {
        let s = "/etc/timezone:/etc/timezone:ro"@;
        reveal_strlit("/etc/timezone:/etc/timezone:ro");
        assert(lacks(s, '$', 0, 30)) by {
            reveal_with_fuel(lacks, 31);
        }
        lemma_skip_lacking_dollar(s, 0, 30);
        assert(placeholders_from(s, 0) =~~= Seq::<Seq<char>>::empty());
    }
    assert(placeholders_from("/var/run/docker.sock:/var/run/docker.sock:ro"@, 0) =~~= Seq::<Seq<char>>::empty()) by {
        let s = "/var/run/docker.sock:/var/run/docker.sock:ro"@;
        reveal_strlit("/var/run/docker.sock:/var/run/docker.sock:ro");
        assert(lacks(s, '$', 0, 44)) by {
            reveal_with_fuel(lacks, 45);
        }
        lemma_skip_lacking_dollar(s, 0, 44);
        assert(placeholders_from(s, 0) =~~= Seq::<Seq<char>>::empty());
    }
    assert(placeholders_from("./config/:/etc/traefik/config/:ro"@, 0) =~~= Seq::<Seq<char>>::empty()) by {
        let s = "./config/:/etc/traefik/config/:ro"@;
        reveal_strlit("./config/:/etc/traefik/config/:ro");
        assert(lacks(s, '$', 0, 33)) by {
            reveal_with_fuel(lacks, 34);
        }
        lemma_skip_lacking_dollar(s, 0, 33);
        assert(placeholders_from(s, 0) =~~= Seq::<Seq<char>>::empty());
    }
}

/// The placeholders of texts 4 to 6 of the list.
proof fn lemma_traefik_tail_placeholders_1()
    ensures
        placeholders_from("./ssl/:/data/ssl/"@, 0) =~~= Seq::<Seq<char>>::empty(),
        placeholders_from("CMD-SHELL"@, 0) =~~= Seq::<Seq<char>>::empty(),
        placeholders_from("wget -q --spider --proxy off localhost:8080/ping || exit 1"@, 0) =~~= Seq::<Seq<char>>::empty(),
{
    assert(placeholders_from("./ssl/:/data/ssl/"@, 0) =~~= Seq::<Seq<char>>::empty()) by {
        let s = "./ssl/:/data/ssl/"@;
        reveal_strlit("./ssl/:/data/ssl/");
        assert(lacks(s, '$', 0, 17)) by {
            reveal_with_fuel(lacks, 18);
        }
        lemma_skip_lacking_dollar(s, 0, 17);
        assert(placeholders_from(s, 0) =~~= Seq::<Seq<char>>::empty());
    }
    assert(placeholders_from("CMD-SHELL"@, 0) =~~= Seq::<Seq<char>>::empty()) by {
        let s = "CMD-SHELL"@;
        reveal_strlit("CMD-SHELL");
        assert(lacks(s, '$', 0, 9)) by {
            reveal_with_fuel(lacks, 10);
        }
        lemma_skip_lacking_dollar(s, 0, 9);
        assert(placeholders_from(s, 0) =~~= Seq::<Seq<char>>::empty());
    }
    assert(placeholders_from("wget -q --spider --proxy off localhost:8080/ping || exit 1"@, 0) =~~= Seq::<Seq<char>>::empty()) by {
        let s = "wget -q --spider --proxy off localhost:8080/ping || exit 1"@;
        reveal_strlit("wget -q --spider --proxy off localhost:8080/ping || exit 1");
        assert(lacks(s, '$', 0, 48)) by {
            reveal_with_fuel(lacks, 49);
        }
        assert(lacks(s, '$', 48, 58)) by {
            reveal_with_fuel(lacks, 11);
        }
        lemma_lacks_join(s, '$', 0, 48, 58);
        lemma_skip_lacking_dollar(s, 0, 58);
        assert(placeholders_from(s, 0) =~~= Seq::<Seq<char>>::empty());
    }
}

/// The placeholders of the Traefik volumes and health check.
proof fn lemma_traefik_tail_placeholders()
    ensures
        all_placeholders(traefik_volumes_and_check()) =~~= Seq::<Seq<char>>::empty(),
{
    lemma_traefik_tail_placeholders_0();
    lemma_traefik_tail_placeholders_1();
    let t = traefik_volumes_and_check();
    assert(t[0] == "/etc/localtime:/etc/localtime:ro"@);
    assert(t[1] == "/etc/timezone:/etc/timezone:ro"@);
    assert(t[2] == "/var/run/docker.sock:/var/run/docker.sock:ro"@);
    assert(t[3] == "./config/:/etc/traefik/config/:ro"@);
    assert(t[4] == "./ssl/:/data/ssl/"@);
    assert(t[5] == "CMD-SHELL"@);
    assert(t[6] == "wget -q --spider --proxy off localhost:8080/ping || exit 1"@);
    reveal_with_fuel(texts_placeholders, 8);
}

/// The Traefik `.env` file has a line `VAR=value` for each of its variables, whatever the parameters.
pub proof fn lemma_traefik_env_lines(cfg: InfraConfig)
    ensures
        sets_var(traefik_env_spec(cfg), "TRAEFIK_VERSION"@, cfg.traefik_version@),
        sets_var(traefik_env_spec(cfg), "SERVICE_HTTP_PORT"@, decimal(cfg.http_port as nat)),
        sets_var(traefik_env_spec(cfg), "SERVICE_HTTPS_PORT"@, decimal(cfg.https_port as nat)),
        sets_var(traefik_env_spec(cfg), "SERVICE_DOMAIN"@, cfg.service_domain@),
        sets_var(traefik_env_spec(cfg), "DNS_MAIN"@, cfg.domain@),
        sets_var(traefik_env_spec(cfg), "DNS_LIST"@, "*."@ + cfg.domain@),
        sets_var(traefik_env_spec(cfg), "ACME_EMAIL"@, cfg.acme_email@),
        sets_var(traefik_env_spec(cfg), "ACME_PROVIDER"@, "cloudflare"@),
        sets_var(traefik_env_spec(cfg), "CF_DNS_API_TOKEN"@, cfg.cf_api_token@),
        sets_var(traefik_env_spec(cfg), "TZ"@, cfg.timezone@),
{
    broadcast use lemma_sets_extend;
    reveal_strlit("=");
    reveal_strlit("\n");
    let env = traefik_env_spec(cfg);
    assert(sets_var(env, "TRAEFIK_VERSION"@, cfg.traefik_version@)) by {
        reveal_strlit("# Traefik 版本\n");
        reveal_strlit("TRAEFIK_VERSION=");
        reveal_strlit("TRAEFIK_VERSION");
        let a = "# Traefik 版本\n"@;
        assert("TRAEFIK_VERSION="@ + cfg.traefik_version@ =~= "TRAEFIK_VERSION"@ + "="@ + cfg.traefik_version@);
        lemma_sets_line_pieces(a, "TRAEFIK_VERSION="@, cfg.traefik_version@, "\n"@, "TRAEFIK_VERSION"@, cfg.traefik_version@);
    }
    assert(sets_var(env, "SERVICE_HTTP_PORT"@, decimal(cfg.http_port as nat))) by {
        reveal_strlit("# 服务端口\n");
        reveal_strlit("SERVICE_HTTP_PORT=");
        reveal_strlit("SERVICE_HTTP_PORT");
        let a = "# Traefik 版本\n"@ + "TRAEFIK_VERSION="@ + cfg.traefik_version@ + "\n"@ + "\n"@ + "# 服务端口\n"@;
        assert("SERVICE_HTTP_PORT="@ + decimal(cfg.http_port as nat) =~= "SERVICE_HTTP_PORT"@ + "="@ + decimal(cfg.http_port as nat));
        lemma_sets_line_pieces(a, "SERVICE_HTTP_PORT="@, decimal(cfg.http_port as nat), "\n"@, "SERVICE_HTTP_PORT"@, decimal(cfg.http_port as nat));
    }
    assert(sets_var(env, "SERVICE_HTTPS_PORT"@, decimal(cfg.https_port as nat))) by {
        reveal_strlit("SERVICE_HTTPS_PORT=");
        reveal_strlit("SERVICE_HTTPS_PORT");
        let a = "# Traefik 版本\n"@ + "TRAEFIK_VERSION="@ + cfg.traefik_version@ + "\n"@ + "\n"@ + "# 服务端口\n"@ + "SERVICE_HTTP_PORT="@ + decimal(cfg.http_port as nat) + "\n"@;
        assert("SERVICE_HTTPS_PORT="@ + decimal(cfg.https_port as nat) =~= "SERVICE_HTTPS_PORT"@ + "="@ + decimal(cfg.https_port as nat));
        lemma_sets_line_pieces(a, "SERVICE_HTTPS_PORT="@, decimal(cfg.https_port as nat), "\n"@, "SERVICE_HTTPS_PORT"@, decimal(cfg.https_port as nat));
    }
    assert(sets_var(env, "SERVICE_DOMAIN"@, cfg.service_domain@)) by {
        reveal_strlit("SERVICE_DOMAIN=");
        reveal_strlit("SERVICE_DOMAIN");
        let a = "# Traefik 版本\n"@ + "TRAEFIK_VERSION="@ + cfg.traefik_version@ + "\n"@ + "\n"@ + "# 服务端口\n"@ + "SERVICE_HTTP_PORT="@ + decimal(cfg.http_port as nat) + "\n"@ + "SERVICE_HTTPS_PORT="@ + decimal(cfg.https_port as nat) + "\n"@;
        assert("SERVICE_DOMAIN="@ + cfg.service_domain@ =~= "SERVICE_DOMAIN"@ + "="@ + cfg.service_domain@);
        lemma_sets_line_pieces(a, "SERVICE_DOMAIN="@, cfg.service_domain@, "\n"@, "SERVICE_DOMAIN"@, cfg.service_domain@);
    }
    assert(sets_var(env, "DNS_MAIN"@, cfg.domain@)) by {
        reveal_strlit("# DNS / ACME\n");
        reveal_strlit("DNS_MAIN=");
        reveal_strlit("DNS_MAIN");
        let a = "# Traefik 版本\n"@ + "TRAEFIK_VERSION="@ + cfg.traefik_version@ + "\n"@ + "\n"@ + "# 服务端口\n"@ + "SERVICE_HTTP_PORT="@ + decimal(cfg.http_port as nat) + "\n"@ + "SERVICE_HTTPS_PORT="@ + decimal(cfg.https_port as nat) + "\n"@ + "SERVICE_DOMAIN="@ + cfg.service_domain@ + "\n"@ + "\n"@ + "# DNS / ACME\n"@;
        assert("DNS_MAIN="@ + cfg.domain@ =~= "DNS_MAIN"@ + "="@ + cfg.domain@);
        lemma_sets_line_pieces(a, "DNS_MAIN="@, cfg.domain@, "\n"@, "DNS_MAIN"@, cfg.domain@);
    }
    assert(sets_var(env, "DNS_LIST"@, "*."@ + cfg.domain@)) by {
        reveal_strlit("DNS_LIST=*.");
        reveal_strlit("*.");
        reveal_strlit("DNS_LIST");
        let a = "# Traefik 版本\n"@ + "TRAEFIK_VERSION="@ + cfg.traefik_version@ + "\n"@ + "\n"@ + "# 服务端口\n"@ + "SERVICE_HTTP_PORT="@ + decimal(cfg.http_port as nat) + "\n"@ + "SERVICE_HTTPS_PORT="@ + decimal(cfg.https_port as nat) + "\n"@ + "SERVICE_DOMAIN="@ + cfg.service_domain@ + "\n"@ + "\n"@ + "# DNS / ACME\n"@ + "DNS_MAIN="@ + cfg.domain@ + "\n"@;
        assert("DNS_LIST=*."@ + cfg.domain@ =~= "DNS_LIST"@ + "="@ + ("*."@ + cfg.domain@));
        lemma_sets_line_pieces(a, "DNS_LIST=*."@, cfg.domain@, "\n"@, "DNS_LIST"@, "*."@ + cfg.domain@);
    }
    assert(sets_var(env, "ACME_EMAIL"@, cfg.acme_email@)) by {
        reveal_strlit("ACME_EMAIL=");
        reveal_strlit("ACME_EMAIL");
        let a = "# Traefik 版本\n"@ + "TRAEFIK_VERSION="@ + cfg.traefik_version@ + "\n"@ + "\n"@ + "# 服务端口\n"@ + "SERVICE_HTTP_PORT="@ + decimal(cfg.http_port as nat) + "\n"@ + "SERVICE_HTTPS_PORT="@ + decimal(cfg.https_port as nat) + "\n"@ + "SERVICE_DOMAIN="@ + cfg.service_domain@ + "\n"@ + "\n"@ + "# DNS / ACME\n"@ + "DNS_MAIN="@ + cfg.domain@ + "\n"@ + "DNS_LIST=*."@ + cfg.domain@ + "\n"@;
        assert("ACME_EMAIL="@ + cfg.acme_email@ =~= "ACME_EMAIL"@ + "="@ + cfg.acme_email@);
        lemma_sets_line_pieces(a, "ACME_EMAIL="@, cfg.acme_email@, "\n"@, "ACME_EMAIL"@, cfg.acme_email@);
    }
    assert(sets_var(env, "ACME_PROVIDER"@, "cloudflare"@)) by {
        reveal_strlit("ACME_PROVIDER=cloudflare\n");
        reveal_strlit("cloudflare");
        reveal_strlit("ACME_PROVIDER");
        let a = "# Traefik 版本\n"@ + "TRAEFIK_VERSION="@ + cfg.traefik_version@ + "\n"@ + "\n"@ + "# 服务端口\n"@ + "SERVICE_HTTP_PORT="@ + decimal(cfg.http_port as nat) + "\n"@ + "SERVICE_HTTPS_PORT="@ + decimal(cfg.https_port as nat) + "\n"@ + "SERVICE_DOMAIN="@ + cfg.service_domain@ + "\n"@ + "\n"@ + "# DNS / ACME\n"@ + "DNS_MAIN="@ + cfg.domain@ + "\n"@ + "DNS_LIST=*."@ + cfg.domain@ + "\n"@ + "ACME_EMAIL="@ + cfg.acme_email@ + "\n"@;
        assert("ACME_PROVIDER=cloudflare\n"@ =~= "ACME_PROVIDER"@ + "="@ + "cloudflare"@ + "\n"@);
        lemma_sets_line(a, "ACME_PROVIDER=cloudflare\n"@, "ACME_PROVIDER"@, "cloudflare"@);
    }
    assert(sets_var(env, "CF_DNS_API_TOKEN"@, cfg.cf_api_token@)) by {
        reveal_strlit("ACME_PROVIDER=cloudflare\n");
        reveal_strlit("CF_DNS_API_TOKEN=");
        reveal_strlit("CF_DNS_API_TOKEN");
        let a = "# Traefik 版本\n"@ + "TRAEFIK_VERSION="@ + cfg.traefik_version@ + "\n"@ + "\n"@ + "# 服务端口\n"@ + "SERVICE_HTTP_PORT="@ + decimal(cfg.http_port as nat) + "\n"@ + "SERVICE_HTTPS_PORT="@ + decimal(cfg.https_port as nat) + "\n"@ + "SERVICE_DOMAIN="@ + cfg.service_domain@ + "\n"@ + "\n"@ + "# DNS / ACME\n"@ + "DNS_MAIN="@ + cfg.domain@ + "\n"@ + "DNS_LIST=*."@ + cfg.domain@ + "\n"@ + "ACME_EMAIL="@ + cfg.acme_email@ + "\n"@ + "ACME_PROVIDER=cloudflare\n"@;
        assert("CF_DNS_API_TOKEN="@ + cfg.cf_api_token@ =~= "CF_DNS_API_TOKEN"@ + "="@ + cfg.cf_api_token@);
        lemma_sets_line_pieces(a, "CF_DNS_API_TOKEN="@, cfg.cf_api_token@, "\n"@, "CF_DNS_API_TOKEN"@, cfg.cf_api_token@);
    }
    assert(sets_var(env, "TZ"@, cfg.timezone@)) by {
        reveal_strlit("TZ=");
        reveal_strlit("TZ");
        let a = "# Traefik 版本\n"@ + "TRAEFIK_VERSION="@ + cfg.traefik_version@ + "\n"@ + "\n"@ + "# 服务端口\n"@ + "SERVICE_HTTP_PORT="@ + decimal(cfg.http_port as nat) + "\n"@ + "SERVICE_HTTPS_PORT="@ + decimal(cfg.https_port as nat) + "\n"@ + "SERVICE_DOMAIN="@ + cfg.service_domain@ + "\n"@ + "\n"@ + "# DNS / ACME\n"@ + "DNS_MAIN="@ + cfg.domain@ + "\n"@ + "DNS_LIST=*."@ + cfg.domain@ + "\n"@ + "ACME_EMAIL="@ + cfg.acme_email@ + "\n"@ + "ACME_PROVIDER=cloudflare\n"@ + "CF_DNS_API_TOKEN="@ + cfg.cf_api_token@ + "\n"@ + "\n"@;
        assert("TZ="@ + cfg.timezone@ =~= "TZ"@ + "="@ + cfg.timezone@);
        lemma_sets_line_pieces(a, "TZ="@, cfg.timezone@, "\n"@, "TZ"@, cfg.timezone@);
    }
}

/// The placeholders of the Traefik compose project.
pub open spec fn traefik_placeholders() -> Seq<Seq<char>> {
    seq!["TRAEFIK_VERSION"@, "SERVICE_HTTP_PORT"@, "SERVICE_HTTPS_PORT"@, "ACME_EMAIL"@, "ACME_PROVIDER"@, "DNS_MAIN"@, "DNS_LIST"@, "SERVICE_DOMAIN"@]
}

/// Every `${VAR}` placeholder in the texts of the Traefik service is one of
/// `traefik_placeholders()`, each of which is used, and the Traefik `.env`
/// file has a line `VAR=...` for it, whatever the parameters.
pub proof fn lemma_traefik_env_sets_placeholders(c: DockerCompose, cfg: InfraConfig)
    requires
        is_traefik_compose(c),
    ensures
        forall|k: int|
            0 <= k < all_placeholders(service_texts(c.services@[0].1)).len() ==> traefik_placeholders().contains(#[trigger] all_placeholders(service_texts(c.services@[0].1))[k])
                && defines_var(traefik_env_spec(cfg), all_placeholders(service_texts(c.services@[0].1))[k]),
        forall|m: int| 0 <= m < traefik_placeholders().len() ==> all_placeholders(service_texts(c.services@[0].1)).contains(#[trigger] traefik_placeholders()[m]),
{
    let texts = service_texts(c.services@[0].1);
    assert(texts =~= traefik_image_and_ports() + traefik_command_spec() + traefik_labels_spec() + traefik_volumes_and_check());
    lemma_all_placeholders_append(traefik_image_and_ports(), traefik_command_spec());
    lemma_all_placeholders_append(traefik_image_and_ports() + traefik_command_spec(), traefik_labels_spec());
    lemma_all_placeholders_append(traefik_image_and_ports() + traefik_command_spec() + traefik_labels_spec(), traefik_volumes_and_check());
    lemma_traefik_head_placeholders();
    lemma_traefik_command_placeholders();
    lemma_traefik_labels_placeholders();
    lemma_traefik_tail_placeholders();
    let p = all_placeholders(service_texts(c.services@[0].1));
    assert(p =~~= seq!["TRAEFIK_VERSION"@, "SERVICE_HTTP_PORT"@, "SERVICE_HTTP_PORT"@, "SERVICE_HTTPS_PORT"@, "SERVICE_HTTPS_PORT"@, "SERVICE_HTTPS_PORT"@, "SERVICE_HTTPS_PORT"@, "SERVICE_HTTP_PORT"@, "SERVICE_HTTPS_PORT"@, "SERVICE_HTTPS_PORT"@, "ACME_EMAIL"@, "ACME_PROVIDER"@, "DNS_MAIN"@, "DNS_LIST"@, "SERVICE_DOMAIN"@, "SERVICE_DOMAIN"@, "SERVICE_DOMAIN"@]);
    lemma_traefik_env_lines(cfg);
    let env = traefik_env_spec(cfg);
    lemma_sets_defines(env, "TRAEFIK_VERSION"@, cfg.traefik_version@);
    lemma_sets_defines(env, "SERVICE_HTTP_PORT"@, decimal(cfg.http_port as nat));
    lemma_sets_defines(env, "SERVICE_HTTPS_PORT"@, decimal(cfg.https_port as nat));
    lemma_sets_defines(env, "ACME_EMAIL"@, cfg.acme_email@);
    lemma_sets_defines(env, "ACME_PROVIDER"@, "cloudflare"@);
    lemma_sets_defines(env, "DNS_MAIN"@, cfg.domain@);
    lemma_sets_defines(env, "DNS_LIST"@, "*."@ + cfg.domain@);
    lemma_sets_defines(env, "SERVICE_DOMAIN"@, cfg.service_domain@);
    let vars = traefik_placeholders();
    assert(vars[0] == "TRAEFIK_VERSION"@ && p[0] == "TRAEFIK_VERSION"@);
    assert(vars[1] == "SERVICE_HTTP_PORT"@ && p[1] == "SERVICE_HTTP_PORT"@);
    assert(vars[2] == "SERVICE_HTTPS_PORT"@ && p[3] == "SERVICE_HTTPS_PORT"@);
    assert(vars[3] == "ACME_EMAIL"@ && p[10] == "ACME_EMAIL"@);
    assert(vars[4] == "ACME_PROVIDER"@ && p[11] == "ACME_PROVIDER"@);
    assert(vars[5] == "DNS_MAIN"@ && p[12] == "DNS_MAIN"@);
    assert(vars[6] == "DNS_LIST"@ && p[13] == "DNS_LIST"@);
    assert(vars[7] == "SERVICE_DOMAIN"@ && p[14] == "SERVICE_DOMAIN"@);
}

/// The image, ports, environment, volumes and health-check test of the
/// PostgreSQL service.
pub open spec fn postgres_texts() -> Seq<Seq<char>> {
    seq!["postgres:${POSTGRES_VERSION}"@, "5433:5432"@, "POSTGRES_USER=${POSTGRES_USER}"@, "POSTGRES_PASSWORD=${POSTGRES_PASSWORD}"@, "POSTGRES_DB=${POSTGRES_DB}"@, "PGDATA=/var/lib/postgresql/data/pgdata"@, "${DATA_ROOT}/postgres:/var/lib/postgresql/data"@, "CMD-SHELL"@, "pg_isready -U ${POSTGRES_USER} -d ${POSTGRES_DB}"@]
}

/// The placeholders of texts 0 to 3 of the list.
proof fn lemma_postgres_service_placeholders_0()
    ensures
        placeholders_from("postgres:${POSTGRES_VERSION}"@, 0) =~~= seq!["POSTGRES_VERSION"@],
        placeholders_from("5433:5432"@, 0) =~~= Seq::<Seq<char>>::empty(),
        placeholders_from("POSTGRES_USER=${POSTGRES_USER}"@, 0) =~~= seq!["POSTGRES_USER"@],
        placeholders_from("POSTGRES_PASSWORD=${POSTGRES_PASSWORD}"@, 0) =~~= seq!["POSTGRES_PASSWORD"@],
{
    assert(placeholders_from("postgres:${POSTGRES_VERSION}"@, 0) =~~= seq!["POSTGRES_VERSION"@]) by {
        let s = "postgres:${POSTGRES_VERSION}"@;
        reveal_strlit("postgres:${POSTGRES_VERSION}");
        reveal_strlit("POSTGRES_VERSION");
        assert(lacks(s, '$', 0, 9)) by {
            reveal_with_fuel(lacks, 10);
        }
        lemma_skip_lacking_dollar(s, 0, 9);
        assert(placeholders_from(s, 9) =~~= seq!["POSTGRES_VERSION"@] + placeholders_from(s, 28)) by {
            reveal_with_fuel(placeholders_from, 20);
            reveal_with_fuel(placeholder_name, 20);
        }
        assert(placeholders_from(s, 0) =~~= seq!["POSTGRES_VERSION"@]);
    }
    assert(placeholders_from("5433:5432"@, 0) =~~= Seq::<Seq<char>>::empty()) by {
        let s = "5433:5432"@;
        reveal_strlit("5433:5432");
        assert(lacks(s, '$', 0, 9)) by {
            reveal_with_fuel(lacks, 10);
        }
        lemma_skip_lacking_dollar(s, 0, 9);
        assert(placeholders_from(s, 0) =~~= Seq::<Seq<char>>::empty());
    }
    assert(placeholders_from("POSTGRES_USER=${POSTGRES_USER}"@, 0) =~~= seq!["POSTGRES_USER"@]) by {
        let s = "POSTGRES_USER=${POSTGRES_USER}"@;
        reveal_strlit("POSTGRES_USER=${POSTGRES_USER}");
        reveal_strlit("POSTGRES_USER");
        assert(lacks(s, '$', 0, 14)) by {
            reveal_with_fuel(lacks, 15);
        }
        lemma_skip_lacking_dollar(s, 0, 14);
        assert(placeholders_from(s, 14) =~~= seq!["POSTGRES_USER"@] + placeholders_from(s, 30)) by {
            reveal_with_fuel(placeholders_from, 17);
            reveal_with_fuel(placeholder_name, 17);
        }
        assert(placeholders_from(s, 0) =~~= seq!["POSTGRES_USER"@]);
    }
    assert(placeholders_from("POSTGRES_PASSWORD=${POSTGRES_PASSWORD}"@, 0) =~~= seq!["POSTGRES_PASSWORD"@]) by {
        let s = "POSTGRES_PASSWORD=${POSTGRES_PASSWORD}"@;
        reveal_strlit("POSTGRES_PASSWORD=${POSTGRES_PASSWORD}");
        reveal_strlit("POSTGRES_PASSWORD");
        assert(lacks(s, '$', 0, 18)) by {
            reveal_with_fuel(lacks, 19);
        }
        lemma_skip_lacking_dollar(s, 0, 18);
        assert(placeholders_from(s, 18) =~~= seq!["POSTGRES_PASSWORD"@] + placeholders_from(s, 38)) by {
            reveal_with_fuel(placeholders_from, 21);
            reveal_with_fuel(placeholder_name, 21);
        }
        assert(placeholders_from(s, 0) =~~= seq!["POSTGRES_PASSWORD"@]);
    }
}

/// The placeholders of texts 4 to 7 of the list.
proof fn lemma_postgres_service_placeholders_1()
    ensures
        placeholders_from("POSTGRES_DB=${POSTGRES_DB}"@, 0) =~~= seq!["POSTGRES_DB"@],
        placeholders_from("PGDATA=/var/lib/postgresql/data/pgdata"@, 0) =~~= Seq::<Seq<char>>::empty(),
        placeholders_from("${DATA_ROOT}/postgres:/var/lib/postgresql/data"@, 0) =~~= seq!["DATA_ROOT"@],
        placeholders_from("CMD-SHELL"@, 0) =~~= Seq::<Seq<char>>::empty(),
{
    assert(placeholders_from("POSTGRES_DB=${POSTGRES_DB}"@, 0) =~~= seq!["POSTGRES_DB"@]) by {
        let s = "POSTGRES_DB=${POSTGRES_DB}"@;
        reveal_strlit("POSTGRES_DB=${POSTGRES_DB}");
        reveal_strlit("POSTGRES_DB");
        assert(lacks(s, '$', 0, 12)) by {
            reveal_with_fuel(lacks, 13);
        }
        lemma_skip_lacking_dollar(s, 0, 12);
        assert(placeholders_from(s, 12) =~~= seq!["POSTGRES_DB"@] + placeholders_from(s, 26)) by {
            reveal_with_fuel(placeholders_from, 15);
            reveal_with_fuel(placeholder_name, 15);
        }
        assert(placeholders_from(s, 0) =~~= seq!["POSTGRES_DB"@]);
    }
    assert(placeholders_from("PGDATA=/var/lib/postgresql/data/pgdata"@, 0) =~~= Seq::<Seq<char>>::empty()) by {
        let s = "PGDATA=/var/lib/postgresql/data/pgdata"@;
        reveal_strlit("PGDATA=/var/lib/postgresql/data/pgdata");
        assert(lacks(s, '$', 0, 38)) by {
            reveal_with_fuel(lacks, 39);
        }
        lemma_skip_lacking_dollar(s, 0, 38);
        assert(placeholders_from(s, 0) =~~= Seq::<Seq<char>>::empty());
    }
    assert(placeholders_from("${DATA_ROOT}/postgres:/var/lib/postgresql/data"@, 0) =~~= seq!["DATA_ROOT"@]) by {
        let s = "${DATA_ROOT}/postgres:/var/lib/postgresql/data"@;
        reveal_strlit("${DATA_ROOT}/postgres:/var/lib/postgresql/data");
        reveal_strlit("DATA_ROOT");
        assert(placeholders_from(s, 0) =~~= seq!["DATA_ROOT"@] + placeholders_from(s, 12)) by {
            reveal_with_fuel(placeholders_from, 13);
            reveal_with_fuel(placeholder_name, 13);
        }
        assert(lacks(s, '$', 12, 46)) by {
            reveal_with_fuel(lacks, 35);
        }
        lemma_skip_lacking_dollar(s, 12, 46);
        assert(placeholders_from(s, 0) =~~= seq!["DATA_ROOT"@]);
    }
    assert(placeholders_from("CMD-SHELL"@, 0) =~~= Seq::<Seq<char>>::empty()) by {
        let s = "CMD-SHELL"@;
        reveal_strlit("CMD-SHELL");
        assert(lacks(s, '$', 0, 9)) by {
            reveal_with_fuel(lacks, 10);
        }
        lemma_skip_lacking_dollar(s, 0, 9);
        assert(placeholders_from(s, 0) =~~= Seq::<Seq<char>>::empty());
    }
}

/// The placeholders of text 8 of the list.
proof fn lemma_postgres_service_placeholders_2()
    ensures
        placeholders_from("pg_isready -U ${POSTGRES_USER} -d ${POSTGRES_DB}"@, 0) =~~= seq!["POSTGRES_USER"@, "POSTGRES_DB"@],
{
    let s = "pg_isready -U ${POSTGRES_USER} -d ${POSTGRES_DB}"@;
    reveal_strlit("pg_isready -U ${POSTGRES_USER} -d ${POSTGRES_DB}");
    reveal_strlit("POSTGRES_USER");
    reveal_strlit("POSTGRES_DB");
    assert(lacks(s, '$', 0, 14)) by {
        reveal_with_fuel(lacks, 15);
    }
    lemma_skip_lacking_dollar(s, 0, 14);
    assert(placeholders_from(s, 14) =~~= seq!["POSTGRES_USER"@] + placeholders_from(s, 30)) by {
        reveal_with_fuel(placeholders_from, 17);
        reveal_with_fuel(placeholder_name, 17);
    }
    assert(lacks(s, '$', 30, 34)) by {
        reveal_with_fuel(lacks, 5);
    }
    lemma_skip_lacking_dollar(s, 30, 34);
    assert(placeholders_from(s, 34) =~~= seq!["POSTGRES_DB"@] + placeholders_from(s, 48)) by {
        reveal_with_fuel(placeholders_from, 15);
        reveal_with_fuel(placeholder_name, 15);
    }
    assert(placeholders_from(s, 0) =~~= seq!["POSTGRES_USER"@, "POSTGRES_DB"@]);
}

/// The placeholders of the PostgreSQL service.
proof fn lemma_postgres_service_placeholders()
    ensures
        all_placeholders(postgres_texts()) =~~= seq!["POSTGRES_VERSION"@, "POSTGRES_USER"@, "POSTGRES_PASSWORD"@, "POSTGRES_DB"@, "DATA_ROOT"@, "POSTGRES_USER"@, "POSTGRES_DB"@],
{
    lemma_postgres_service_placeholders_0();
    lemma_postgres_service_placeholders_1();
    lemma_postgres_service_placeholders_2();
    let t = postgres_texts();
    assert(t[0] == "postgres:${POSTGRES_VERSION}"@);
    assert(t[1] == "5433:5432"@);
    assert(t[2] == "POSTGRES_USER=${POSTGRES_USER}"@);
    assert(t[3] == "POSTGRES_PASSWORD=${POSTGRES_PASSWORD}"@);
    assert(t[4] == "POSTGRES_DB=${POSTGRES_DB}"@);
    assert(t[5] == "PGDATA=/var/lib/postgresql/data/pgdata"@);
    assert(t[6] == "${DATA_ROOT}/postgres:/var/lib/postgresql/data"@);
    assert(t[7] == "CMD-SHELL"@);
    assert(t[8] == "pg_isready -U ${POSTGRES_USER} -d ${POSTGRES_DB}"@);
    reveal_with_fuel(texts_placeholders, 10);
}

/// The PostgreSQL `.env` file has a line `VAR=value` for each of its variables, whatever the parameters.
pub proof fn lemma_postgres_env_lines(cfg: InfraConfig)
    ensures
        sets_var(postgres_env_spec(cfg), "POSTGRES_VERSION"@, cfg.postgres_version@),
        sets_var(postgres_env_spec(cfg), "POSTGRES_USER"@, cfg.pg_user@),
        sets_var(postgres_env_spec(cfg), "POSTGRES_PASSWORD"@, cfg.pg_password@),
        sets_var(postgres_env_spec(cfg), "POSTGRES_DB"@, cfg.pg_db@),
        sets_var(postgres_env_spec(cfg), "DATA_ROOT"@, "./data"@),
        sets_var(postgres_env_spec(cfg), "TZ"@, cfg.timezone@),
{
    broadcast use lemma_sets_extend;
    reveal_strlit("=");
    reveal_strlit("\n");
    let env = postgres_env_spec(cfg);
    assert(sets_var(env, "POSTGRES_VERSION"@, cfg.postgres_version@)) by {
        reveal_strlit("# PostgreSQL 版本\n");
        reveal_strlit("POSTGRES_VERSION=");
        reveal_strlit("POSTGRES_VERSION");
        let a = "# PostgreSQL 版本\n"@;
        assert("POSTGRES_VERSION="@ + cfg.postgres_version@ =~= "POSTGRES_VERSION"@ + "="@ + cfg.postgres_version@);
        lemma_sets_line_pieces(a, "POSTGRES_VERSION="@, cfg.postgres_version@, "\n"@, "POSTGRES_VERSION"@, cfg.postgres_version@);
    }
    assert(sets_var(env, "POSTGRES_USER"@, cfg.pg_user@)) by {
        reveal_strlit("# 认证\n");
        reveal_strlit("POSTGRES_USER=");
        reveal_strlit("POSTGRES_USER");
        let a = "# PostgreSQL 版本\n"@ + "POSTGRES_VERSION="@ + cfg.postgres_version@ + "\n"@ + "# 认证\n"@;
        assert("POSTGRES_USER="@ + cfg.pg_user@ =~= "POSTGRES_USER"@ + "="@ + cfg.pg_user@);
        lemma_sets_line_pieces(a, "POSTGRES_USER="@, cfg.pg_user@, "\n"@, "POSTGRES_USER"@, cfg.pg_user@);
    }
    assert(sets_var(env, "POSTGRES_PASSWORD"@, cfg.pg_password@)) by {
        reveal_strlit("POSTGRES_PASSWORD=");
        reveal_strlit("POSTGRES_PASSWORD");
        let a = "# PostgreSQL 版本\n"@ + "POSTGRES_VERSION="@ + cfg.postgres_version@ + "\n"@ + "# 认证\n"@ + "POSTGRES_USER="@ + cfg.pg_user@ + "\n"@;
        assert("POSTGRES_PASSWORD="@ + cfg.pg_password@ =~= "POSTGRES_PASSWORD"@ + "="@ + cfg.pg_password@);
        lemma_sets_line_pieces(a, "POSTGRES_PASSWORD="@, cfg.pg_password@, "\n"@, "POSTGRES_PASSWORD"@, cfg.pg_password@);
    }
    assert(sets_var(env, "POSTGRES_DB"@, cfg.pg_db@)) by {
        reveal_strlit("POSTGRES_DB=");
        reveal_strlit("POSTGRES_DB");
        let a = "# PostgreSQL 版本\n"@ + "POSTGRES_VERSION="@ + cfg.postgres_version@ + "\n"@ + "# 认证\n"@ + "POSTGRES_USER="@ + cfg.pg_user@ + "\n"@ + "POSTGRES_PASSWORD="@ + cfg.pg_password@ + "\n"@;
        assert("POSTGRES_DB="@ + cfg.pg_db@ =~= "POSTGRES_DB"@ + "="@ + cfg.pg_db@);
        lemma_sets_line_pieces(a, "POSTGRES_DB="@, cfg.pg_db@, "\n"@, "POSTGRES_DB"@, cfg.pg_db@);
    }
    assert(sets_var(env, "DATA_ROOT"@, "./data"@)) by {
        reveal_strlit("# 数据目录\n");
        reveal_strlit("DATA_ROOT=./data\n");
        reveal_strlit("./data");
        reveal_strlit("DATA_ROOT");
        let a = "# PostgreSQL 版本\n"@ + "POSTGRES_VERSION="@ + cfg.postgres_version@ + "\n"@ + "# 认证\n"@ + "POSTGRES_USER="@ + cfg.pg_user@ + "\n"@ + "POSTGRES_PASSWORD="@ + cfg.pg_password@ + "\n"@ + "POSTGRES_DB="@ + cfg.pg_db@ + "\n"@ + "# 数据目录\n"@;
        assert("DATA_ROOT=./data\n"@ =~= "DATA_ROOT"@ + "="@ + "./data"@ + "\n"@);
        lemma_sets_line(a, "DATA_ROOT=./data\n"@, "DATA_ROOT"@, "./data"@);
    }
    assert(sets_var(env, "TZ"@, cfg.timezone@)) by {
        reveal_strlit("TZ=");
        reveal_strlit("TZ");
        let a = "# PostgreSQL 版本\n"@ + "POSTGRES_VERSION="@ + cfg.postgres_version@ + "\n"@ + "# 认证\n"@ + "POSTGRES_USER="@ + cfg.pg_user@ + "\n"@ + "POSTGRES_PASSWORD="@ + cfg.pg_password@ + "\n"@ + "POSTGRES_DB="@ + cfg.pg_db@ + "\n"@ + "# 数据目录\n"@ + "DATA_ROOT=./data\n"@ + "\n"@;
        assert("TZ="@ + cfg.timezone@ =~= "TZ"@ + "="@ + cfg.timezone@);
        lemma_sets_line_pieces(a, "TZ="@, cfg.timezone@, "\n"@, "TZ"@, cfg.timezone@);
    }
}

/// The placeholders of the PostgreSQL compose project.
pub open spec fn postgres_placeholders() -> Seq<Seq<char>> {
    seq!["POSTGRES_VERSION"@, "POSTGRES_USER"@, "POSTGRES_PASSWORD"@, "POSTGRES_DB"@, "DATA_ROOT"@]
}

/// Every `${VAR}` placeholder in the texts of the PostgreSQL service is one of
/// `postgres_placeholders()`, each of which is used, and the PostgreSQL `.env`
/// file has a line `VAR=...` for it, whatever the parameters.
pub proof fn lemma_postgres_env_sets_placeholders(c: DockerCompose, cfg: InfraConfig)
    requires
        is_postgres_compose(c),
    ensures
        forall|k: int|
            0 <= k < all_placeholders(service_texts(c.services@[0].1)).len() ==> postgres_placeholders().contains(#[trigger] all_placeholders(service_texts(c.services@[0].1))[k])
                && defines_var(postgres_env_spec(cfg), all_placeholders(service_texts(c.services@[0].1))[k]),
        forall|m: int| 0 <= m < postgres_placeholders().len() ==> all_placeholders(service_texts(c.services@[0].1)).contains(#[trigger] postgres_placeholders()[m]),
{
    let texts = service_texts(c.services@[0].1);
    assert(texts =~= postgres_texts());
    lemma_postgres_service_placeholders();
    let p = all_placeholders(service_texts(c.services@[0].1));
    assert(p =~~= seq!["POSTGRES_VERSION"@, "POSTGRES_USER"@, "POSTGRES_PASSWORD"@, "POSTGRES_DB"@, "DATA_ROOT"@, "POSTGRES_USER"@, "POSTGRES_DB"@]);
    lemma_postgres_env_lines(cfg);
    let env = postgres_env_spec(cfg);
    lemma_sets_defines(env, "POSTGRES_VERSION"@, cfg.postgres_version@);
    lemma_sets_defines(env, "POSTGRES_USER"@, cfg.pg_user@);
    lemma_sets_defines(env, "POSTGRES_PASSWORD"@, cfg.pg_password@);
    lemma_sets_defines(env, "POSTGRES_DB"@, cfg.pg_db@);
    lemma_sets_defines(env, "DATA_ROOT"@, "./data"@);
    let vars = postgres_placeholders();
    assert(vars[0] == "POSTGRES_VERSION"@ && p[0] == "POSTGRES_VERSION"@);
    assert(vars[1] == "POSTGRES_USER"@ && p[1] == "POSTGRES_USER"@);
    assert(vars[2] == "POSTGRES_PASSWORD"@ && p[2] == "POSTGRES_PASSWORD"@);
    assert(vars[3] == "POSTGRES_DB"@ && p[3] == "POSTGRES_DB"@);
    assert(vars[4] == "DATA_ROOT"@ && p[4] == "DATA_ROOT"@);
}

/// A router whose name starts with `traefik-dashboard` is a dashboard router.
proof fn lemma_dashboard_prefix(r: Seq<char>)
    requires
        has_prefix(r, "traefik-dashboard"@),
    ensures
        is_dashboard_router(r),
{
    reveal_strlit("traefik-dashboard");
    reveal_strlit("dashboard");
    assert(r.subrange(8, 17) =~= r.subrange(0, 17).subrange(8, 17));
    assert(r.subrange(8, 17) =~= "dashboard"@);
    lemma_occurs_contains(r, "dashboard"@, 8);
}

/// The routers that labels 0 to 3 of the Traefik service name are dashboard routers.
proof fn lemma_traefik_label_routers_0()
    ensures
        router_label(traefik_labels_spec()[0]) matches Some((r, p, v)) ==> is_dashboard_router(r),
        router_label(traefik_labels_spec()[1]) matches Some((r, p, v)) ==> is_dashboard_router(r),
        router_label(traefik_labels_spec()[2]) matches Some((r, p, v)) ==> is_dashboard_router(r),
        router_label(traefik_labels_spec()[3]) matches Some((r, p, v)) ==> is_dashboard_router(r),
{
    let t = traefik_labels_spec();
    let d = "traefik-dashboard"@;
    reveal_strlit("traefik-dashboard");
    reveal_strlit("traefik.http.routers.");
    assert(lacks(d, '=', 0, 17) && lacks(d, '.', 0, 17)) by {
        reveal_with_fuel(lacks, 18);
    }
    lemma_lacks(d, '=', 0, 17);
    lemma_lacks(d, '.', 0, 17);
    assert(t[0] == "traefik.enable=true"@);
    assert(router_label("traefik.enable=true"@) is None) by {
        reveal_strlit("traefik.enable=true");
        let s = "traefik.enable=true"@;
        lemma_trim_clean(s);
    }
    assert(t[1] =~= "traefik.docker.network=traefik"@) by {
        reveal_strlit("traefik.docker.network=");
        reveal_strlit("traefik");
        reveal_strlit("traefik.docker.network=traefik");
    }
    assert(router_label("traefik.docker.network=traefik"@) is None) by {
        reveal_strlit("traefik.docker.network=traefik");
        let s = "traefik.docker.network=traefik"@;
        lemma_trim_clean(s);
        assert(s.subrange(0, 21)[8] != "traefik.http.routers."@[8]);
    }
    assert(t[2] == "traefik.http.routers.traefik-dashboard-secure.tls.certresolver=cloudflare"@);
    assert(router_label("traefik.http.routers.traefik-dashboard-secure.tls.certresolver=cloudflare"@) matches Some((r, p, v)) ==> is_dashboard_router(r)) by {
        reveal_strlit("traefik.http.routers.traefik-dashboard-secure.tls.certresolver=cloudflare");
        let s = "traefik.http.routers.traefik-dashboard-secure.tls.certresolver=cloudflare"@;
        lemma_trim_clean(s);
        let rest = s.subrange(38, s.len() as int);
        assert(s =~= "traefik.http.routers."@ + d + rest);
        lemma_router_name_prefix(s, d, rest);
        if let Some((r, p, v)) = router_label(s) {
            lemma_dashboard_prefix(r);
        }
    }
    assert(t[3] == "traefik.http.routers.traefik-dashboard-secure.tls.domains[0].main=${DNS_MAIN}"@);
    assert(router_label("traefik.http.routers.traefik-dashboard-secure.tls.domains[0].main=${DNS_MAIN}"@) matches Some((r, p, v)) ==> is_dashboard_router(r)) by {
        reveal_strlit("traefik.http.routers.traefik-dashboard-secure.tls.domains[0].main=${DNS_MAIN}");
        let s = "traefik.http.routers.traefik-dashboard-secure.tls.domains[0].main=${DNS_MAIN}"@;
        lemma_trim_clean(s);
        let rest = s.subrange(38, s.len() as int);
        assert(s =~= "traefik.http.routers."@ + d + rest);
        lemma_router_name_prefix(s, d, rest);
        if let Some((r, p, v)) = router_label(s) {
            lemma_dashboard_prefix(r);
        }
    }
}

/// The routers that labels 4 to 7 of the Traefik service name are dashboard routers.
proof fn lemma_traefik_label_routers_1()
    ensures
        router_label(traefik_labels_spec()[4]) matches Some((r, p, v)) ==> is_dashboard_router(r),
        router_label(traefik_labels_spec()[5]) matches Some((r, p, v)) ==> is_dashboard_router(r),
        router_label(traefik_labels_spec()[6]) matches Some((r, p, v)) ==> is_dashboard_router(r),
        router_label(traefik_labels_spec()[7]) matches Some((r, p, v)) ==> is_dashboard_router(r),
{
    let t = traefik_labels_spec();
    let d = "traefik-dashboard"@;
    reveal_strlit("traefik-dashboard");
    reveal_strlit("traefik.http.routers.");
    assert(lacks(d, '=', 0, 17) && lacks(d, '.', 0, 17)) by {
        reveal_with_fuel(lacks, 18);
    }
    lemma_lacks(d, '=', 0, 17);
    lemma_lacks(d, '.', 0, 17);
    assert(t[4] == "traefik.http.routers.traefik-dashboard-secure.tls.domains[0].sans=${DNS_LIST}"@);
    assert(router_label("traefik.http.routers.traefik-dashboard-secure.tls.domains[0].sans=${DNS_LIST}"@) matches Some((r, p, v)) ==> is_dashboard_router(r)) by {
        reveal_strlit("traefik.http.routers.traefik-dashboard-secure.tls.domains[0].sans=${DNS_LIST}");
        let s = "traefik.http.routers.traefik-dashboard-secure.tls.domains[0].sans=${DNS_LIST}"@;
        lemma_trim_clean(s);
        let rest = s.subrange(38, s.len() as int);
        assert(s =~= "traefik.http.routers."@ + d + rest);
        lemma_router_name_prefix(s, d, rest);
        if let Some((r, p, v)) = router_label(s) {
            lemma_dashboard_prefix(r);
        }
    }
    assert(t[5] == "traefik.http.routers.traefik-dashboard-secure.tls=true"@);
    assert(router_label("traefik.http.routers.traefik-dashboard-secure.tls=true"@) matches Some((r, p, v)) ==> is_dashboard_router(r)) by {
        reveal_strlit("traefik.http.routers.traefik-dashboard-secure.tls=true");
        let s = "traefik.http.routers.traefik-dashboard-secure.tls=true"@;
        lemma_trim_clean(s);
        let rest = s.subrange(38, s.len() as int);
        assert(s =~= "traefik.http.routers."@ + d + rest);
        lemma_router_name_prefix(s, d, rest);
        if let Some((r, p, v)) = router_label(s) {
            lemma_dashboard_prefix(r);
        }
    }
    assert(t[6] == "traefik.http.routers.traefik-dashboard-secure.entrypoints=https"@);
    assert(router_label("traefik.http.routers.traefik-dashboard-secure.entrypoints=https"@) matches Some((r, p, v)) ==> is_dashboard_router(r)) by {
        reveal_strlit("traefik.http.routers.traefik-dashboard-secure.entrypoints=https");
        let s = "traefik.http.routers.traefik-dashboard-secure.entrypoints=https"@;
        lemma_trim_clean(s);
        let rest = s.subrange(38, s.len() as int);
        assert(s =~= "traefik.http.routers."@ + d + rest);
        lemma_router_name_prefix(s, d, rest);
        if let Some((r, p, v)) = router_label(s) {
            lemma_dashboard_prefix(r);
        }
    }
    assert(t[7] =~= "traefik.http.routers.traefik-dashboard-secure.middlewares=gzip@file,x-forwarded-proto@file,ipallowlist-internal@file,dashboard-auth@file"@) by {
        reveal_strlit("traefik.http.routers.traefik-dashboard-secure.middlewares=");
        reveal_strlit("gzip");
        reveal_strlit("redir-https");
        reveal_strlit("x-forwarded-proto");
        reveal_strlit("ipallowlist-internal");
        reveal_strlit("dashboard-auth");
        reveal_strlit("@file");
        reveal_strlit(",");
        reveal_strlit("gzip@file,x-forwarded-proto@file,ipallowlist-internal@file,dashboard-auth@file");
        assert(dashboard_chain() =~= "gzip@file,x-forwarded-proto@file,ipallowlist-internal@file,dashboard-auth@file"@);
        reveal_strlit("traefik.http.routers.traefik-dashboard-secure.middlewares=gzip@file,x-forwarded-proto@file,ipallowlist-internal@file,dashboard-auth@file");
    }
    assert(router_label("traefik.http.routers.traefik-dashboard-secure.middlewares=gzip@file,x-forwarded-proto@file,ipallowlist-internal@file,dashboard-auth@file"@) matches Some((r, p, v)) ==> is_dashboard_router(r)) by {
        reveal_strlit("traefik.http.routers.traefik-dashboard-secure.middlewares=gzip@file,x-forwarded-proto@file,ipallowlist-internal@file,dashboard-auth@file");
        let s = "traefik.http.routers.traefik-dashboard-secure.middlewares=gzip@file,x-forwarded-proto@file,ipallowlist-internal@file,dashboard-auth@file"@;
        lemma_trim_clean(s);
        let rest = s.subrange(38, s.len() as int);
        assert(s =~= "traefik.http.routers."@ + d + rest);
        lemma_router_name_prefix(s, d, rest);
        if let Some((r, p, v)) = router_label(s) {
            lemma_dashboard_prefix(r);
        }
    }
}

/// The routers that labels 8 to 11 of the Traefik service name are dashboard routers.
proof fn lemma_traefik_label_routers_2()
    ensures
        router_label(traefik_labels_spec()[8]) matches Some((r, p, v)) ==> is_dashboard_router(r),
        router_label(traefik_labels_spec()[9]) matches Some((r, p, v)) ==> is_dashboard_router(r),
        router_label(traefik_labels_spec()[10]) matches Some((r, p, v)) ==> is_dashboard_router(r),
        router_label(traefik_labels_spec()[11]) matches Some((r, p, v)) ==> is_dashboard_router(r),
{
    let t = traefik_labels_spec();
    let d = "traefik-dashboard"@;
    reveal_strlit("traefik-dashboard");
    reveal_strlit("traefik.http.routers.");
    assert(lacks(d, '=', 0, 17) && lacks(d, '.', 0, 17)) by {
        reveal_with_fuel(lacks, 18);
    }
    lemma_lacks(d, '=', 0, 17);
    lemma_lacks(d, '.', 0, 17);
    assert(t[8] == "traefik.http.routers.traefik-dashboard-secure.rule=Host(`${SERVICE_DOMAIN}`)"@);
    assert(router_label("traefik.http.routers.traefik-dashboard-secure.rule=Host(`${SERVICE_DOMAIN}`)"@) matches Some((r, p, v)) ==> is_dashboard_router(r)) by {
        reveal_strlit("traefik.http.routers.traefik-dashboard-secure.rule=Host(`${SERVICE_DOMAIN}`)");
        let s = "traefik.http.routers.traefik-dashboard-secure.rule=Host(`${SERVICE_DOMAIN}`)"@;
        lemma_trim_clean(s);
        let rest = s.subrange(38, s.len() as int);
        assert(s =~= "traefik.http.routers."@ + d + rest);
        lemma_router_name_prefix(s, d, rest);
        if let Some((r, p, v)) = router_label(s) {
            lemma_dashboard_prefix(r);
        }
    }
    assert(t[9] == "traefik.http.routers.traefik-dashboard-secure.service=dashboard@internal"@);
    assert(router_label("traefik.http.routers.traefik-dashboard-secure.service=dashboard@internal"@) matches Some((r, p, v)) ==> is_dashboard_router(r)) by {
        reveal_strlit("traefik.http.routers.traefik-dashboard-secure.service=dashboard@internal");
        let s = "traefik.http.routers.traefik-dashboard-secure.service=dashboard@internal"@;
        lemma_trim_clean(s);
        let rest = s.subrange(38, s.len() as int);
        assert(s =~= "traefik.http.routers."@ + d + rest);
        lemma_router_name_prefix(s, d, rest);
        if let Some((r, p, v)) = router_label(s) {
            lemma_dashboard_prefix(r);
        }
    }
    assert(t[10] == "traefik.http.routers.traefik-dashboard-nosecure.entrypoints=http"@);
    assert(router_label("traefik.http.routers.traefik-dashboard-nosecure.entrypoints=http"@) matches Some((r, p, v)) ==> is_dashboard_router(r)) by {
        reveal_strlit("traefik.http.routers.traefik-dashboard-nosecure.entrypoints=http");
        let s = "traefik.http.routers.traefik-dashboard-nosecure.entrypoints=http"@;
        lemma_trim_clean(s);
        let rest = s.subrange(38, s.len() as int);
        assert(s =~= "traefik.http.routers."@ + d + rest);
        lemma_router_name_prefix(s, d, rest);
        if let Some((r, p, v)) = router_label(s) {
            lemma_dashboard_prefix(r);
        }
    }
    assert(t[11] =~= "traefik.http.routers.traefik-dashboard-nosecure.middlewares=redir-https@file"@) by {
        reveal_strlit("traefik.http.routers.traefik-dashboard-nosecure.middlewares=");
        reveal_strlit("gzip");
        reveal_strlit("redir-https");
        reveal_strlit("x-forwarded-proto");
        reveal_strlit("ipallowlist-internal");
        reveal_strlit("dashboard-auth");
        reveal_strlit("@file");
        reveal_strlit(",");
        reveal_strlit("traefik.http.routers.traefik-dashboard-nosecure.middlewares=redir-https@file");
    }
    assert(router_label("traefik.http.routers.traefik-dashboard-nosecure.middlewares=redir-https@file"@) matches Some((r, p, v)) ==> is_dashboard_router(r)) by {
        reveal_strlit("traefik.http.routers.traefik-dashboard-nosecure.middlewares=redir-https@file");
        let s = "traefik.http.routers.traefik-dashboard-nosecure.middlewares=redir-https@file"@;
        lemma_trim_clean(s);
        let rest = s.subrange(38, s.len() as int);
        assert(s =~= "traefik.http.routers."@ + d + rest);
        lemma_router_name_prefix(s, d, rest);
        if let Some((r, p, v)) = router_label(s) {
            lemma_dashboard_prefix(r);
        }
    }
}

/// The routers that labels 12 to 15 of the Traefik service name are dashboard routers.
proof fn lemma_traefik_label_routers_3()
    ensures
        router_label(traefik_labels_spec()[12]) matches Some((r, p, v)) ==> is_dashboard_router(r),
        router_label(traefik_labels_spec()[13]) matches Some((r, p, v)) ==> is_dashboard_router(r),
        router_label(traefik_labels_spec()[14]) matches Some((r, p, v)) ==> is_dashboard_router(r),
        router_label(traefik_labels_spec()[15]) matches Some((r, p, v)) ==> is_dashboard_router(r),
{
    let t = traefik_labels_spec();
    let d = "traefik-dashboard"@;
    reveal_strlit("traefik-dashboard");
    reveal_strlit("traefik.http.routers.");
    assert(lacks(d, '=', 0, 17) && lacks(d, '.', 0, 17)) by {
        reveal_with_fuel(lacks, 18);
    }
    lemma_lacks(d, '=', 0, 17);
    lemma_lacks(d, '.', 0, 17);
    assert(t[12] == "traefik.http.routers.traefik-dashboard-nosecure.rule=Host(`${SERVICE_DOMAIN}`)"@);
    assert(router_label("traefik.http.routers.traefik-dashboard-nosecure.rule=Host(`${SERVICE_DOMAIN}`)"@) matches Some((r, p, v)) ==> is_dashboard_router(r)) by {
        reveal_strlit("traefik.http.routers.traefik-dashboard-nosecure.rule=Host(`${SERVICE_DOMAIN}`)");
        let s = "traefik.http.routers.traefik-dashboard-nosecure.rule=Host(`${SERVICE_DOMAIN}`)"@;
        lemma_trim_clean(s);
        let rest = s.subrange(38, s.len() as int);
        assert(s =~= "traefik.http.routers."@ + d + rest);
        lemma_router_name_prefix(s, d, rest);
        if let Some((r, p, v)) = router_label(s) {
            lemma_dashboard_prefix(r);
        }
    }
    assert(t[13] == "traefik.http.routers.traefik-dashboard-nosecure.service=noop@internal"@);
    assert(router_label("traefik.http.routers.traefik-dashboard-nosecure.service=noop@internal"@) matches Some((r, p, v)) ==> is_dashboard_router(r)) by {
        reveal_strlit("traefik.http.routers.traefik-dashboard-nosecure.service=noop@internal");
        let s = "traefik.http.routers.traefik-dashboard-nosecure.service=noop@internal"@;
        lemma_trim_clean(s);
        let rest = s.subrange(38, s.len() as int);
        assert(s =~= "traefik.http.routers."@ + d + rest);
        lemma_router_name_prefix(s, d, rest);
        if let Some((r, p, v)) = router_label(s) {
            lemma_dashboard_prefix(r);
        }
    }
    assert(t[14] == "traefik.http.routers.traefik-dashboard-api.tls=true"@);
    assert(router_label("traefik.http.routers.traefik-dashboard-api.tls=true"@) matches Some((r, p, v)) ==> is_dashboard_router(r)) by {
        reveal_strlit("traefik.http.routers.traefik-dashboard-api.tls=true");
        let s = "traefik.http.routers.traefik-dashboard-api.tls=true"@;
        lemma_trim_clean(s);
        let rest = s.subrange(38, s.len() as int);
        assert(s =~= "traefik.http.routers."@ + d + rest);
        lemma_router_name_prefix(s, d, rest);
        if let Some((r, p, v)) = router_label(s) {
            lemma_dashboard_prefix(r);
        }
    }
    assert(t[15] == "traefik.http.routers.traefik-dashboard-api.entrypoints=https"@);
    assert(router_label("traefik.http.routers.traefik-dashboard-api.entrypoints=https"@) matches Some((r, p, v)) ==> is_dashboard_router(r)) by {
        reveal_strlit("traefik.http.routers.traefik-dashboard-api.entrypoints=https");
        let s = "traefik.http.routers.traefik-dashboard-api.entrypoints=https"@;
        lemma_trim_clean(s);
        let rest = s.subrange(38, s.len() as int);
        assert(s =~= "traefik.http.routers."@ + d + rest);
        lemma_router_name_prefix(s, d, rest);
        if let Some((r, p, v)) = router_label(s) {
            lemma_dashboard_prefix(r);
        }
    }
}

/// The routers that labels 16 to 18 of the Traefik service name are dashboard routers.
proof fn lemma_traefik_label_routers_4()
    ensures
        router_label(traefik_labels_spec()[16]) matches Some((r, p, v)) ==> is_dashboard_router(r),
        router_label(traefik_labels_spec()[17]) matches Some((r, p, v)) ==> is_dashboard_router(r),
        router_label(traefik_labels_spec()[18]) matches Some((r, p, v)) ==> is_dashboard_router(r),
{
    let t = traefik_labels_spec();
    let d = "traefik-dashboard"@;
    reveal_strlit("traefik-dashboard");
    reveal_strlit("traefik.http.routers.");
    assert(lacks(d, '=', 0, 17) && lacks(d, '.', 0, 17)) by {
        reveal_with_fuel(lacks, 18);
    }
    lemma_lacks(d, '=', 0, 17);
    lemma_lacks(d, '.', 0, 17);
    assert(t[16] =~= "traefik.http.routers.traefik-dashboard-api.middlewares=gzip@file,ipallowlist-internal@file"@) by {
        reveal_strlit("traefik.http.routers.traefik-dashboard-api.middlewares=");
        reveal_strlit("gzip");
        reveal_strlit("redir-https");
        reveal_strlit("x-forwarded-proto");
        reveal_strlit("ipallowlist-internal");
        reveal_strlit("dashboard-auth");
        reveal_strlit("@file");
        reveal_strlit(",");
        reveal_strlit("gzip@file,ipallowlist-internal@file");
        assert(api_chain() =~= "gzip@file,ipallowlist-internal@file"@);
        reveal_strlit("traefik.http.routers.traefik-dashboard-api.middlewares=gzip@file,ipallowlist-internal@file");
    }
    assert(router_label("traefik.http.routers.traefik-dashboard-api.middlewares=gzip@file,ipallowlist-internal@file"@) matches Some((r, p, v)) ==> is_dashboard_router(r)) by {
        reveal_strlit("traefik.http.routers.traefik-dashboard-api.middlewares=gzip@file,ipallowlist-internal@file");
        let s = "traefik.http.routers.traefik-dashboard-api.middlewares=gzip@file,ipallowlist-internal@file"@;
        lemma_trim_clean(s);
        let rest = s.subrange(38, s.len() as int);
        assert(s =~= "traefik.http.routers."@ + d + rest);
        lemma_router_name_prefix(s, d, rest);
        if let Some((r, p, v)) = router_label(s) {
            lemma_dashboard_prefix(r);
        }
    }
    assert(t[17] == "traefik.http.routers.traefik-dashboard-api.rule=Host(`${SERVICE_DOMAIN}`) && (PathPrefix(`/api`) || PathPrefix(`/dashboard`))"@);
    assert(router_label("traefik.http.routers.traefik-dashboard-api.rule=Host(`${SERVICE_DOMAIN}`) && (PathPrefix(`/api`) || PathPrefix(`/dashboard`))"@) matches Some((r, p, v)) ==> is_dashboard_router(r)) by {
        reveal_strlit("traefik.http.routers.traefik-dashboard-api.rule=Host(`${SERVICE_DOMAIN}`) && (PathPrefix(`/api`) || PathPrefix(`/dashboard`))");
        let s = "traefik.http.routers.traefik-dashboard-api.rule=Host(`${SERVICE_DOMAIN}`) && (PathPrefix(`/api`) || PathPrefix(`/dashboard`))"@;
        lemma_trim_clean(s);
        let rest = s.subrange(38, s.len() as int);
        assert(s =~= "traefik.http.routers."@ + d + rest);
        lemma_router_name_prefix(s, d, rest);
        if let Some((r, p, v)) = router_label(s) {
            lemma_dashboard_prefix(r);
        }
    }
    assert(t[18] == "traefik.http.routers.traefik-dashboard-api.service=api@internal"@);
    assert(router_label("traefik.http.routers.traefik-dashboard-api.service=api@internal"@) matches Some((r, p, v)) ==> is_dashboard_router(r)) by {
        reveal_strlit("traefik.http.routers.traefik-dashboard-api.service=api@internal");
        let s = "traefik.http.routers.traefik-dashboard-api.service=api@internal"@;
        lemma_trim_clean(s);
        let rest = s.subrange(38, s.len() as int);
        assert(s =~= "traefik.http.routers."@ + d + rest);
        lemma_router_name_prefix(s, d, rest);
        if let Some((r, p, v)) = router_label(s) {
            lemma_dashboard_prefix(r);
        }
    }
}

/// The Traefik service's own labels define no route: every router to which
/// they give a host is a dashboard router.
pub proof fn lemma_traefik_labels_give_no_routes()
    ensures
        routes_of_labels(traefik_labels_spec()).len() == 0,
{
    lemma_traefik_label_routers_0();
    lemma_traefik_label_routers_1();
    lemma_traefik_label_routers_2();
    lemma_traefik_label_routers_3();
    lemma_traefik_label_routers_4();
    let t = traefik_labels_spec();
    assert forall|router: Seq<char>, host: Seq<char>| has_host_rule(t, router, host) implies is_dashboard_router(router) by {
        let i = choose|i: int| 0 <= i < t.len() && #[trigger] host_rule(t[i], router, host);
        if i == 0 {
        } else if i == 1 {
        } else if i == 2 {
        } else if i == 3 {
        } else if i == 4 {
        } else if i == 5 {
        } else if i == 6 {
        } else if i == 7 {
        } else if i == 8 {
        } else if i == 9 {
        } else if i == 10 {
        } else if i == 11 {
        } else if i == 12 {
        } else if i == 13 {
        } else if i == 14 {
        } else if i == 15 {
        } else if i == 16 {
        } else if i == 17 {
        } else {
        }
    }
    lemma_dashboard_routers_give_no_routes(t);
}

} // verus!

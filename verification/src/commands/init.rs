//! Initialising the environment: the base settings, the infrastructure
//! parameters asked for, and where the infrastructure projects live.
use vstd::prelude::*;
use crate::config::Config;
use crate::paths::{join, join_path};
use crate::services::auth::{htpasswd_entry_spec, htpasswd_sha1_entry};
use crate::services::database::{generate_password, PASSWORD_CHARSET};
use crate::services::infra_generator::InfraConfig;
use crate::text::owned;

verus! {

/// Sets the applications root, the data root and the domain.
pub fn apply_base_settings(config: &mut Config, apps_root: &str, data_root: &str, domain: &str)
    ensures
        final(config).paths.apps_root@ == apps_root@,
        final(config).paths.data_root@ == data_root@,
        final(config).home.domain@ == domain@,
        final(config).shared_resources == old(config).shared_resources,
{
    config.paths.apps_root = owned(apps_root);
    config.paths.data_root = owned(data_root);
    config.home.domain = owned(domain);
}

/// The directory of the infrastructure projects.
pub fn infra_dir(config: &Config) -> (r: String)
    ensures
        r@ == join_path(config.paths.apps_root@, "infra"@),
{
    join(config.paths.apps_root.as_str(), "infra")
}

/// The directory of the infrastructure project `project` (`traefik` or
/// `postgres`).
pub fn infra_project_dir(config: &Config, project: &str) -> (r: String)
    ensures
        r@ == join_path(join_path(config.paths.apps_root@, "infra"@), project@),
{
    join(infra_dir(config).as_str(), project)
}

/// The compose file whose presence shows that the infrastructure exists.
pub fn infra_marker(config: &Config) -> (r: String)
    ensures
        r@ == join_path(join_path(join_path(config.paths.apps_root@, "infra"@), "traefik"@), "docker-compose.yml"@),
{
    join(infra_project_dir(config, "traefik").as_str(), "docker-compose.yml")
}

/// The host name proposed for the Traefik dashboard: `traefik.<domain>`.
pub fn default_dashboard_domain(domain: &str) -> (r: String)
    ensures
        r@ == "traefik."@ + domain@,
{
    let mut r = owned("traefik.");
    r.append(domain);
    r
}

/// The ACME e-mail proposed: `admin@<domain>`.
pub fn default_acme_email(domain: &str) -> (r: String)
    ensures
        r@ == "admin@"@ + domain@,
{
    let mut r = owned("admin@");
    r.append(domain);
    r
}

/// The answers given while collecting the infrastructure parameters.
#[derive(Debug, Clone, PartialEq, Eq)]
pub struct InfraAnswers {
    /// Traefik version.
    pub traefik_version: String,
    /// Host name of the dashboard.
    pub service_domain: String,
    /// ACME e-mail.
    pub acme_email: String,
    /// Cloudflare API token.
    pub cf_api_token: String,
    /// HTTP port.
    pub http_port: u16,
    /// HTTPS port.
    pub https_port: u16,
    /// PostgreSQL version.
    pub postgres_version: String,
    /// PostgreSQL administrator.
    pub pg_user: String,
    /// The administrator password typed, empty to use the generated one.
    pub pg_password: String,
    /// A freshly generated password.
    pub generated_password: String,
    /// Default database.
    pub pg_db: String,
    /// Time zone.
    pub timezone: String,
}

/// The answers proposed for `domain` before anything is typed: Traefik
/// `v3.7.5` on ports 80 and 443 with the dashboard at `traefik.<domain>` and
/// ACME mail to `admin@<domain>`; PostgreSQL `16.14` with administrator
/// `admin`, database `defaultdb` and time zone `Asia/Shanghai`; no token and
/// no typed password, so that a fresh password of 20 characters is used.
pub fn default_infra_answers(domain: &str) -> (r: InfraAnswers)
    ensures
        r.traefik_version@ == "v3.7.5"@,
        r.service_domain@ == "traefik."@ + domain@,
        r.acme_email@ == "admin@"@ + domain@,
        r.cf_api_token@ == Seq::<char>::empty(),
        r.http_port == 80,
        r.https_port == 443,
        r.postgres_version@ == "16.14"@,
        r.pg_user@ == "admin"@,
        r.pg_password@ == Seq::<char>::empty(),
        r.generated_password@.len() == 20,
        forall|i: int| 0 <= i < 20 ==> PASSWORD_CHARSET@.contains(#[trigger] r.generated_password@[i]),
        r.pg_db@ == "defaultdb"@,
        r.timezone@ == "Asia/Shanghai"@,
{
    InfraAnswers {
        traefik_version: owned("v3.7.5"),
        service_domain: default_dashboard_domain(domain),
        acme_email: default_acme_email(domain),
        cf_api_token: String::new(),
        http_port: 80,
        https_port: 443,
        postgres_version: owned("16.14"),
        pg_user: owned("admin"),
        pg_password: String::new(),
        generated_password: generate_password(20),
        pg_db: owned("defaultdb"),
        timezone: owned("Asia/Shanghai"),
    }
}

/// The infrastructure parameters for `domain` from the answers: the
/// password typed, or the generated one when none was typed; the projects
/// under `infra` in the applications root; no dashboard user yet.
pub fn collect_infra_config(domain: &str, config: &Config, answers: InfraAnswers) -> (r: InfraConfig)
    ensures
        r.domain@ == domain@,
        r.acme_email == answers.acme_email,
        r.cf_api_token == answers.cf_api_token,
        r.service_domain == answers.service_domain,
        r.http_port == answers.http_port,
        r.https_port == answers.https_port,
        r.traefik_version == answers.traefik_version,
        r.postgres_version == answers.postgres_version,
        r.pg_user == answers.pg_user,
        r.pg_password@ == if answers.pg_password@.len() == 0 {
            answers.generated_password@
        } else {
            answers.pg_password@
        },
        r.pg_db == answers.pg_db,
        r.infra_path@ == join_path(config.paths.apps_root@, "infra"@),
        r.timezone == answers.timezone,
        r.dashboard_user is None,
{
    let pg_password = if answers.pg_password.unicode_len() == 0 {
        answers.generated_password
    } else {
        answers.pg_password
    };
    InfraConfig {
        domain: owned(domain),
        acme_email: answers.acme_email,
        cf_api_token: answers.cf_api_token,
        service_domain: answers.service_domain,
        http_port: answers.http_port,
        https_port: answers.https_port,
        traefik_version: answers.traefik_version,
        postgres_version: answers.postgres_version,
        pg_user: answers.pg_user,
        pg_password,
        pg_db: answers.pg_db,
        infra_path: infra_dir(config),
        timezone: answers.timezone,
        dashboard_user: None,
    }
}

/// The parameters with a dashboard user `username` authenticated by
/// `password` (stored as its htpasswd entry).
pub fn with_dashboard_user(cfg: InfraConfig, username: &str, password: &str) -> (r: InfraConfig)
    ensures
        r.dashboard_user matches Some(u) && u.0@ == username@ && u.1@ == htpasswd_entry_spec(username@, password@),
        r.domain == cfg.domain,
        r.acme_email == cfg.acme_email,
        r.cf_api_token == cfg.cf_api_token,
        r.service_domain == cfg.service_domain,
        r.http_port == cfg.http_port,
        r.https_port == cfg.https_port,
        r.traefik_version == cfg.traefik_version,
        r.postgres_version == cfg.postgres_version,
        r.pg_user == cfg.pg_user,
        r.pg_password == cfg.pg_password,
        r.pg_db == cfg.pg_db,
        r.infra_path == cfg.infra_path,
        r.timezone == cfg.timezone,
{
    let entry = htpasswd_sha1_entry(username, password);
    let mut cfg = cfg;
    cfg.dashboard_user = Some((owned(username), entry));
    cfg
}

} // verus!

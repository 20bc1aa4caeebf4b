use homespace::config::{config_path, dirs_home, Config, HomeConfig, PathsConfig, SharedResourceConfig};
use homespace::models::app::{
    App, DatabaseConfig, NetworkMode, PortMapping, PortProtocol, Service, TraefikRoute,
};
use homespace::models::compose::{ComposeLogging, ComposeService, ComposeServiceNetwork, DockerCompose};
use homespace::models::middleware::Middleware;
use homespace::models::status::ContainerState;
use homespace::paths::{is_relative, join};
use homespace::services::database::{
    create_database_and_user, generate_password, read_infra_pg_db, read_infra_pg_password,
    read_infra_pg_user, PASSWORD_CHARSET,
};
use homespace::services::docker::{compose_args, lists_name, ComposeOp};
use homespace::services::git::{
    commit_message, git_add_args, git_commit_args, git_dir, git_init_args, git_rm_args, relative_path,
};
use homespace::services::infra_generator::{
    build_postgres_compose, build_postgres_env, build_traefik_compose, build_traefik_env, generate_infra,
    traefik_users_file, InfraAction, InfraConfig,
};
use homespace::services::scanner::{
    build_summary, check_domain_conflict, check_port_conflict, extract_host, extract_path_prefix,
    get_app_status, parse_app, parse_compose_service, parse_env_var, parse_traefik_routes, sort_apps,
};
use homespace::text::{decimal_string, parse_unsigned_exec};

fn empty_compose_service() -> ComposeService {
    ComposeService {
        image: None,
        container_name: None,
        command: None,
        restart: None,
        network_mode: None,
        networks: None,
        ports: None,
        volumes: None,
        environment: None,
        env_file: None,
        labels: None,
        depends_on: None,
        healthcheck: None,
        user: None,
        logging: None,
    }
}

fn strings(v: &[&str]) -> Vec<String> {
    v.iter().map(|s| s.to_string()).collect()
}

fn service(name: &str, subdomain: Option<&str>, host_port: Option<u16>) -> Service {
    Service {
        name: name.to_string(),
        image: "img".to_string(),
        command: None,
        internal_ports: vec![],
        network_mode: NetworkMode::Bridge,
        routes: subdomain
            .map(|s| vec![TraefikRoute { subdomain: s.to_string(), path_prefix: None, tls: true }])
            .unwrap_or_default(),
        port_mappings: host_port
            .map(|p| vec![PortMapping { host_port: p, container_port: 80, protocol: PortProtocol::Tcp }])
            .unwrap_or_default(),
        volumes: vec![],
        shared_mounts: vec![],
        env_vars: vec![],
        database: DatabaseConfig::NoDatabase,
        middlewares: vec![],
    }
}

fn app(name: &str, services: Vec<Service>) -> App {
    App { name: name.to_string(), description: String::new(), path: format!("/srv/{}", name), data_root: None, services }
}

fn infra_config() -> InfraConfig {
    InfraConfig {
        domain: "home.lan".to_string(),
        acme_email: "admin@home.lan".to_string(),
        cf_api_token: "cf-token".to_string(),
        service_domain: "traefik.home.lan".to_string(),
        http_port: 80,
        https_port: 443,
        traefik_version: "v3.7.5".to_string(),
        postgres_version: "16.14".to_string(),
        pg_user: "admin".to_string(),
        pg_password: "s3cr3t!".to_string(),
        pg_db: "defaultdb".to_string(),
        infra_path: "/srv/infra".to_string(),
        timezone: "Asia/Shanghai".to_string(),
        dashboard_user: None,
    }
}

// ── configuration ──

#[test]
fn default_configuration() {
    let c = Config::load_or_default(None, "/home/me");
    assert_eq!(c.paths.apps_root, "/home/me/HomeLab");
    assert_eq!(c.paths.data_root, "/mnt/data");
    assert_eq!(c.home.domain, "example.com");
    assert!(c.shared_resources.is_empty());
    let stored = Config {
        paths: PathsConfig { apps_root: "/a".to_string(), data_root: "/d".to_string() },
        home: HomeConfig { domain: "x.org".to_string() },
        shared_resources: vec![],
    };
    assert_eq!(Config::load_or_default(Some(stored.clone()), "/home/me"), stored);
    assert_eq!(config_path("/home/me"), "/home/me/.config/homespace/config.toml");
    assert_eq!(dirs_home(Some("/root".to_string())), "/root");
    assert_eq!(dirs_home(None), "/tmp");
}

fn resource(path: &str) -> SharedResourceConfig {
    SharedResourceConfig { path: path.to_string(), description: "d".to_string(), read_only: false, uid: None, gid: None }
}

#[test]
fn shared_resources_read_back_what_was_added() {
    let mut c = Config::load_or_default(None, "/home/me");
    c.add_shared_resource("music", resource("/m"));
    c.add_shared_resource("books", resource("/b"));
    c.add_shared_resource("music", resource("/m2"));
    let all = c.get_shared_resources();
    assert_eq!(all.iter().map(|r| r.name.as_str()).collect::<Vec<_>>(), vec!["books", "music"]);
    assert_eq!(c.get_shared_resource("music").unwrap().path, "/m2");
    assert!(c.remove_shared_resource("books"));
    assert!(!c.remove_shared_resource("books"));
    assert_eq!(c.get_shared_resource("books"), None);
    assert_eq!(c.get_shared_resources().len(), 1);
}

#[test]
fn infrastructure_paths() {
    let c = Config::load_or_default(None, "/h");
    assert_eq!(c.traefik_compose_path(), "/h/HomeLab/infra/traefik/docker-compose.yml");
    assert_eq!(c.postgres_compose_path(), "/h/HomeLab/infra/postgres/docker-compose.yml");
    assert_eq!(c.postgres_env_path(), "/h/HomeLab/infra/postgres/.env");
}

#[test]
fn json_file_logging() {
    let l = ComposeLogging::json_file("10m");
    assert_eq!(l.driver, "json-file");
    assert_eq!(l.options, Some(vec![("max-size".to_string(), "10m".to_string())]));
}

// ── paths, git, docker ──

#[test]
fn path_joining() {
    assert_eq!(join("/a", "b"), "/a/b");
    assert_eq!(join("/a/", "b"), "/a/b");
    assert_eq!(join("/a", "/b"), "/b");
    assert_eq!(join("", "b"), "b");
    assert!(is_relative("./data"));
    assert!(!is_relative("/data"));
}

#[test]
fn git_arguments() {
    assert_eq!(relative_path("/srv/apps", "/srv/apps/blog"), "blog");
    assert_eq!(relative_path("/srv/apps", "/other/blog"), "/other/blog");
    assert_eq!(git_add_args("/srv/apps", "/srv/apps/blog"), strings(&["-C", "/srv/apps", "add", "blog"]));
    assert_eq!(
        git_rm_args("/srv/apps", "/srv/apps/blog", true),
        strings(&["-C", "/srv/apps", "rm", "-r", "--cached", "blog"])
    );
    assert_eq!(git_rm_args("/srv/apps", "/srv/apps/blog", false), strings(&["-C", "/srv/apps", "rm", "-r", "blog"]));
    assert_eq!(git_init_args("/srv/apps"), strings(&["-C", "/srv/apps", "init"]));
    assert_eq!(
        git_commit_args("/srv/apps", "homespace: add blog"),
        strings(&["-C", "/srv/apps", "commit", "-m", "homespace: add blog"])
    );
    assert_eq!(commit_message("remove", "blog"), "homespace: remove blog");
    assert_eq!(git_dir("/srv/apps"), "/srv/apps/.git");
}

#[test]
fn docker_arguments_and_listings() {
    assert_eq!(
        compose_args("/srv/blog", ComposeOp::Down { remove_volumes: true }),
        strings(&["compose", "-f", "/srv/blog/docker-compose.yml", "down", "-v"])
    );
    assert_eq!(
        compose_args("/srv/blog", ComposeOp::Ps),
        strings(&["compose", "-f", "/srv/blog/docker-compose.yml", "ps", "--format", "json"])
    );
    assert!(lists_name("bridge\n  traefik \nhost\n", "traefik"));
    assert!(!lists_name("bridge\ntraefik-old\n", "traefik"));
    assert!(!lists_name("", "traefik"));
}

// ── scanner ──

#[test]
fn env_lines() {
    assert_eq!(parse_env_var("  DATA_ROOT = x", "DATA_ROOT"), None);
    assert_eq!(parse_env_var("DATA_ROOT=\"/mnt/ssd\" ", "DATA_ROOT"), Some("/mnt/ssd".to_string()));
    assert_eq!(parse_env_var("#DATA_ROOT=/x", "DATA_ROOT"), None);
    assert_eq!(parse_env_var("DATA_ROOT=", "DATA_ROOT"), None);
    assert_eq!(parse_env_var("APP_DESCRIPTION='My app'", "APP_DESCRIPTION"), Some("My app".to_string()));
}

#[test]
fn compose_services_are_read() {
    let mut svc = empty_compose_service();
    svc.image = Some("ghost:5".to_string());
    svc.ports = Some(strings(&["8080:2368", "53:53/udp", "bad", "9000:x/tcp"]));
    svc.labels = Some(strings(&[
        "traefik.enable=true",
        "traefik.http.routers.blog.rule=Host(`blog.home.lan`) && PathPrefix(`/api`)",
        "traefik.http.routers.blog.tls=false",
        "traefik.http.routers.blog.middlewares=gzip@file, ipallowlist-internal@file,unknown@file",
        "traefik.http.routers.traefik-dashboard.rule=Host(`traefik.home.lan`)",
    ]));
    svc.volumes = Some(strings(&["./content:/var/lib/ghost/content", "/etc/localtime:/etc/localtime:ro", "./cfg:/cfg:ro"]));
    svc.networks = Some(vec![("postgres".to_string(), ComposeServiceNetwork { aliases: None })]);
    svc.network_mode = Some("traefik".to_string());
    let s = parse_compose_service("blog", &svc);
    assert_eq!(s.image, "ghost:5");
    assert_eq!(s.internal_ports, vec![2368, 53, 0]);
    assert_eq!(
        s.port_mappings,
        vec![
            PortMapping { host_port: 8080, container_port: 2368, protocol: PortProtocol::Tcp },
            PortMapping { host_port: 53, container_port: 53, protocol: PortProtocol::Udp },
            PortMapping { host_port: 9000, container_port: 0, protocol: PortProtocol::Tcp },
        ]
    );
    assert_eq!(
        s.routes,
        vec![TraefikRoute { subdomain: "blog.home.lan".to_string(), path_prefix: Some("/api".to_string()), tls: false }]
    );
    assert_eq!(s.middlewares, vec![Middleware::Gzip, Middleware::IpAllowlistInternal]);
    assert_eq!(s.volumes.len(), 2);
    assert!(s.volumes[1].read_only);
    assert_eq!(s.network_mode, NetworkMode::External("traefik".to_string()));
    assert_eq!(
        s.database,
        DatabaseConfig::SharedPostgres { db_name: String::new(), user: String::new(), auto_create: false }
    );
    assert_eq!(extract_host("Host(`a.b`)"), Some("a.b".to_string()));
    assert_eq!(extract_path_prefix("Host(`a.b`)"), None);
}

#[test]
fn applications_are_read_from_their_files() {
    let compose = DockerCompose {
        version: Some("3.8".to_string()),
        services: vec![("web".to_string(), empty_compose_service())],
        networks: vec![],
        volumes: vec![],
    };
    let a = parse_app("/srv/apps/blog", Some(&compose), Some("APP_DESCRIPTION=Blog\nDATA_ROOT=./d1\nDATA_ROOT=./d2\n"));
    assert_eq!(a.name, "blog");
    assert_eq!(a.description, "Blog");
    assert_eq!(a.data_root, Some("./d2".to_string()));
    assert_eq!(a.services.len(), 1);
    let bare = parse_app("/srv/apps/wiki/", None, None);
    assert_eq!(bare.name, "wiki");
    assert!(bare.services.is_empty());
}

#[test]
fn statuses_from_compose_ps() {
    let a = app("blog", vec![service("web", Some("blog.lan"), None), service("db", None, None)]);
    let out = "{\"Service\":\"web\",\"State\":\"running\"}\nnot json\n{\"Service\":\"db\",\"State\":\"paused\"}\n{\"State\":\"\"}\n";
    let st = get_app_status(&a, Some(out));
    assert_eq!(st.len(), 3);
    assert_eq!(st[0].name, "web");
    assert_eq!(st[0].state, ContainerState::Running);
    assert_eq!(st[0].routes, vec!["blog.lan".to_string()]);
    assert_eq!(st[1].state, ContainerState::Paused);
    assert_eq!(st[2].name, "?");
    assert_eq!(st[2].state, ContainerState::NotFound);
    let none = get_app_status(&a, None);
    assert_eq!(none.len(), 2);
    assert!(none.iter().all(|s| s.state == ContainerState::NotFound));
    let summary = build_summary(&a, &st);
    assert_eq!(summary.status_summary, "partial");
    assert_eq!(summary.routes, vec!["blog.lan".to_string()]);
    assert_eq!(summary.database, "-");
    assert_eq!(build_summary(&a, &none).status_summary, "stopped");
    assert_eq!(build_summary(&app("x", vec![]), &[]).status_summary, "stopped");
}

#[test]
fn conflicts_name_the_first_user() {
    let apps = vec![
        app("blog", vec![service("web", Some("blog.lan"), Some(8080))]),
        app("wiki", vec![service("app", Some("wiki.lan"), Some(8080))]),
    ];
    assert_eq!(check_port_conflict(8080, &apps), Some("端口 8080 已被 blog 的 service 'web' 占用".to_string()));
    assert_eq!(check_port_conflict(9090, &apps), None);
    assert_eq!(check_domain_conflict("wiki.lan", &apps), Some("域名 wiki.lan 已被 wiki 的 service 'app' 注册".to_string()));
    assert_eq!(check_domain_conflict("other.lan", &apps), None);
}

#[test]
fn infra_listed_first_then_by_name() {
    let sorted = sort_apps(vec![app("wiki", vec![]), app("blog", vec![]), app("infra", vec![]), app("auth", vec![])]);
    let names: Vec<&str> = sorted.iter().map(|a| a.name.as_str()).collect();
    assert_eq!(names, vec!["infra", "auth", "blog", "wiki"]);
}

// ── infrastructure and database ──

#[test]
fn infrastructure_plan() {
    let actions = generate_infra(&infra_config());
    assert_eq!(actions.len(), 16);
    assert_eq!(actions[0], InfraAction::CreateDir("/srv/infra/traefik/config".to_string()));
    match &actions[14] {
        InfraAction::WriteFile(path, content) => {
            assert_eq!(path, "/srv/infra/postgres/.env");
            assert_eq!(content, &build_postgres_env(&infra_config()));
        }
        other => panic!("unexpected action {:?}", other),
    }
    assert!(build_traefik_env(&infra_config()).contains("SERVICE_HTTPS_PORT=443\n"));
    let mut with_user = infra_config();
    with_user.dashboard_user = Some(("admin".to_string(), "admin:{SHA}x".to_string()));
    assert_eq!(
        traefik_users_file(&with_user),
        "# Dashboard 认证用户（由 homespace 生成）\n# 添加更多用户: htpasswd -nB <username> >> config/users.txt\nadmin:{SHA}x\n"
    );
}

#[test]
fn credentials_read_back_from_generated_env() {
    let env = build_postgres_env(&infra_config());
    assert_eq!(read_infra_pg_password(&env), Some("s3cr3t!".to_string()));
    assert_eq!(read_infra_pg_user(&env), "admin");
    assert_eq!(read_infra_pg_db(&env), "defaultdb");
    assert_eq!(read_infra_pg_password(""), None);
    assert_eq!(read_infra_pg_user(""), "admin");
    assert_eq!(read_infra_pg_db(""), "postgres");
    assert_eq!(read_infra_pg_password("POSTGRES_PASSWORD = \"quoted\"\n"), Some("quoted".to_string()));
}

#[test]
fn generated_passwords() {
    let p = generate_password(20);
    assert_eq!(p.chars().count(), 20);
    assert!(p.chars().all(|c| PASSWORD_CHARSET.contains(c)));
    assert_eq!(generate_password(0), "");
    let env = build_postgres_env(&InfraConfig { pg_password: p.clone(), ..infra_config() });
    assert_eq!(read_infra_pg_password(&env), Some(p));
}

#[test]
fn database_creation_arguments() {
    let args = create_database_and_user("blog", "bloguser", "pw", "postgres", "admin", "apw", "defaultdb");
    assert_eq!(args.len(), 16);
    assert_eq!(&args[..8], &strings(&["run", "--rm", "--network", "postgres", "-e", "PGPASSWORD=apw", "postgres:16", "psql"])[..]);
    assert_eq!(&args[8..14], &strings(&["-h", "postgres", "-U", "admin", "-d", "defaultdb"])[..]);
    assert_eq!(args[14], "-c");
    assert!(args[15].contains("CREATE USER \"bloguser\" WITH PASSWORD 'pw';"));
    assert!(args[15].contains("\\c \"blog\"\nGRANT ALL ON SCHEMA public TO \"bloguser\";\n"));
}

// ── middleware and text ──

#[test]
fn middleware_names_round_trip() {
    for m in Middleware::all() {
        assert_eq!(Middleware::from_name(m.name()), Some(m));
        assert_eq!(Middleware::from_name(&m.label_ref()), Some(m));
    }
    assert_eq!(Middleware::from_name("nope@file"), None);
    assert_eq!(Middleware::app_applicable_all(), vec![Middleware::Gzip, Middleware::XForwardedProto, Middleware::IpAllowlistInternal]);
    assert_eq!(Middleware::Gzip.filename(), "middleware-gzip.yml");
    assert_eq!(Middleware::IpAllowlistInternal.label_ref(), "ipallowlist-internal@file");
}

#[test]
fn middleware_yaml_defines_own_name() {
    for m in Middleware::all() {
        let header = format!("\nhttp:\n  middlewares:\n    {}:\n", m.name());
        assert!(m.yaml_content().contains(&header), "{}", m.name());
    }
}

#[test]
fn dashboard_routers_give_no_routes() {
    let compose = build_traefik_compose();
    assert!(parse_traefik_routes(&compose.services[0].1).is_empty());
}

#[test]
fn route_host_comes_from_rule_label() {
    let mut svc = empty_compose_service();
    svc.labels = Some(strings(&[
        "traefik.http.routers.blog.rule=Host(`blog.home.lan`) && PathPrefix(`/api`)",
        "traefik.http.routers.blog.tls=false",
        "traefik.http.routers.traefik-dashboard.rule=Host(`traefik.home.lan`)",
    ]));
    let routes = parse_traefik_routes(&svc);
    assert_eq!(routes.len(), 1);
    assert_eq!(routes[0].subdomain, "blog.home.lan");
    assert_eq!(routes[0].path_prefix, Some("/api".to_string()));
    assert!(!routes[0].tls);
}

fn has_line_starting(env: &str, prefix: &str) -> bool {
    env.lines().any(|l| l.starts_with(prefix))
}

#[test]
fn env_files_set_every_placeholder() {
    let cfg = infra_config();
    let traefik_env = build_traefik_env(&cfg);
    let traefik = build_traefik_compose();
    let t = &traefik.services[0].1;
    let mut traefik_texts: Vec<String> = vec![t.image.clone().unwrap()];
    traefik_texts.extend(t.ports.clone().unwrap());
    traefik_texts.extend(t.command.clone().unwrap());
    traefik_texts.extend(t.labels.clone().unwrap());
    for var in [
        "TRAEFIK_VERSION", "SERVICE_HTTP_PORT", "SERVICE_HTTPS_PORT", "SERVICE_DOMAIN", "DNS_MAIN", "DNS_LIST",
        "ACME_EMAIL", "ACME_PROVIDER",
    ] {
        let placeholder = format!("${{{}}}", var);
        assert!(traefik_texts.iter().any(|x| x.contains(&placeholder)), "{}", var);
        assert!(has_line_starting(&traefik_env, &format!("{}=", var)), "{}", var);
    }
    let postgres_env = build_postgres_env(&cfg);
    let postgres = build_postgres_compose();
    let p = &postgres.services[0].1;
    let mut postgres_texts: Vec<String> = vec![p.image.clone().unwrap()];
    postgres_texts.extend(p.environment.clone().unwrap());
    postgres_texts.extend(p.volumes.clone().unwrap());
    for var in ["POSTGRES_VERSION", "DATA_ROOT", "POSTGRES_USER", "POSTGRES_PASSWORD", "POSTGRES_DB"] {
        let placeholder = format!("${{{}}}", var);
        assert!(postgres_texts.iter().any(|x| x.contains(&placeholder)), "{}", var);
        assert!(has_line_starting(&postgres_env, &format!("{}=", var)), "{}", var);
    }
    assert!(has_line_starting(&postgres_env, "POSTGRES_PASSWORD=s3cr3t!"));
    for line in ["POSTGRES_VERSION=16.14", "POSTGRES_USER=admin", "POSTGRES_DB=defaultdb", "DATA_ROOT=./data", "TZ=Asia/Shanghai"] {
        assert!(postgres_env.lines().any(|l| l == line), "{}", line);
    }
    for line in ["TRAEFIK_VERSION=v3.7.5", "SERVICE_HTTP_PORT=80", "DNS_LIST=*.home.lan", "ACME_PROVIDER=cloudflare"] {
        assert!(traefik_env.lines().any(|l| l == line), "{}", line);
    }
    let mut traefik_all = traefik_texts.clone();
    traefik_all.extend(t.volumes.clone().unwrap());
    traefik_all.extend(t.healthcheck.clone().unwrap().test.unwrap());
    let mut postgres_all = postgres_texts.clone();
    postgres_all.extend(p.ports.clone().unwrap());
    postgres_all.extend(p.healthcheck.clone().unwrap().test.unwrap());
    for (texts, env) in [(&traefik_all, &traefik_env), (&postgres_all, &postgres_env)] {
        for text in texts.iter() {
            let mut rest = text.as_str();
            while let Some(i) = rest.find("${") {
                let after = &rest[i + 2..];
                let j = after.find('}').unwrap();
                assert!(has_line_starting(env, &format!("{}=", &after[..j])), "{}", &after[..j]);
                rest = &after[j + 1..];
            }
        }
    }
}

#[test]
fn decimal_numbers_parse_back() {
    for n in [0u64, 7, 80, 443, 65535] {
        let d = decimal_string(n);
        let chars: Vec<char> = d.chars().collect();
        assert_eq!(parse_unsigned_exec(&chars, 65535), Some(n));
    }
    let big: Vec<char> = "65536".chars().collect();
    assert_eq!(parse_unsigned_exec(&big, 65535), None);
}

#[test]
fn app_name_is_last_path_component() {
    assert_eq!(parse_app("/srv/apps/blog", None, None).name, "blog");
    assert_eq!(parse_app("/srv/apps/blog/", None, None).name, "blog");
    assert_eq!(parse_app("/srv/apps/blog/.", None, None).name, "blog");
    assert_eq!(parse_app("/srv/apps//wiki//", None, None).name, "wiki");
    assert_eq!(parse_app("/srv/apps/..", None, None).name, "unknown");
    assert_eq!(parse_app("/", None, None).name, "unknown");
}

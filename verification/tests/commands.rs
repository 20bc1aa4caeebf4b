use homespace::commands::add::{
    app_dir, configure_database, creation_steps, databases_to_create, CreationStep, default_mount_point, default_route_domain,
    default_service_name, image_reference, insert_env_var, new_app, owner_env, parse_env_entry, parse_port_list,
    print_summary, select_network_mode, select_protocol, shared_mount, shared_resource_item,
    validate_app_name, NameError,
};
use homespace::commands::add_static::{
    archive_kind, build_static_app, extract_command, validate_archive, validate_domain,
    ArchiveError, ArchiveKind, DomainError, DEFAULT_NGINX_CONF,
};
use homespace::commands::edit::{edit_choice, edit_step, EditAnswers, EditChoice};
use homespace::commands::find_app;
use homespace::commands::init::{
    apply_base_settings, collect_infra_config, default_acme_email, default_dashboard_domain,
    default_infra_answers, infra_dir, infra_marker, infra_project_dir, with_dashboard_user, InfraAnswers,
};
use homespace::commands::lifecycle::{self, done_line, parse_action, start_line, LifecycleError};
use homespace::commands::list;
use homespace::commands::remove::{
    databases_of, drop_database_step, forced_data_dir_exec, is_infra_app, plan_removal,
    purged_data_dir_exec, removal_action, removal_git_args, RemoveAction,
};
use homespace::commands::resource::{self, owner_id, ResourceCommand, ResourceError};
use homespace::commands::show::{self, ShowError};
use homespace::commands::status::{self, CheckOutcome, StatusChecks};
use homespace::commands::upgrade::{
    current_version, select_targets, update_env_version, version_prefix, UpgradeError,
};
use homespace::config::{Config, HomeConfig, PathsConfig};
use homespace::models::app::{
    App, DatabaseConfig, NetworkMode, PortMapping, PortProtocol, Service, SharedResource,
    SharedResourceMount, TraefikRoute, Volume,
};
use homespace::models::middleware::Middleware;
use homespace::services::database::PASSWORD_CHARSET;
use homespace::services::docker::ComposeOp;

fn service(name: &str, subdomains: &[&str], host_ports: &[u16], db: DatabaseConfig) -> Service {
    Service {
        name: name.to_string(),
        image: "nginx:1.27".to_string(),
        command: None,
        internal_ports: vec![80],
        network_mode: NetworkMode::Bridge,
        routes: subdomains
            .iter()
            .map(|s| TraefikRoute { subdomain: s.to_string(), path_prefix: None, tls: true })
            .collect(),
        port_mappings: host_ports
            .iter()
            .map(|p| PortMapping { host_port: *p, container_port: 80, protocol: PortProtocol::Tcp })
            .collect(),
        volumes: vec![],
        shared_mounts: vec![],
        env_vars: vec![],
        database: db,
        middlewares: vec![],
    }
}

fn app(name: &str, services: Vec<Service>) -> App {
    App {
        name: name.to_string(),
        description: format!("{} app", name),
        path: format!("/srv/apps/{}", name),
        data_root: None,
        services,
    }
}

fn config() -> Config {
    Config {
        paths: PathsConfig { apps_root: "/srv/apps".to_string(), data_root: "/mnt/data".to_string() },
        home: HomeConfig { domain: "example.com".to_string() },
        shared_resources: vec![],
    }
}

fn shared_pg(db: &str, user: &str, auto: bool) -> DatabaseConfig {
    DatabaseConfig::SharedPostgres { db_name: db.to_string(), user: user.to_string(), auto_create: auto }
}

// ── lifecycle ──

#[test]
fn lifecycle_start_runs_compose_up() {
    let apps = vec![app("blog", vec![service("web", &[], &[], DatabaseConfig::NoDatabase)])];
    let args = lifecycle::run("blog", &apps, "start").unwrap();
    assert_eq!(args, vec!["compose", "-f", "/srv/apps/blog/docker-compose.yml", "up", "-d"]);
}

#[test]
fn lifecycle_each_action_has_its_operation() {
    assert_eq!(parse_action("stop"), Some(ComposeOp::Stop));
    assert_eq!(parse_action("restart"), Some(ComposeOp::Restart));
    assert_eq!(parse_action("pull"), Some(ComposeOp::Pull));
    assert_eq!(parse_action("build"), Some(ComposeOp::Build));
    assert_eq!(parse_action("start"), Some(ComposeOp::Up));
    assert_eq!(parse_action("Start"), None);
}

#[test]
fn lifecycle_progress_lines() {
    assert_eq!(start_line("blog", ComposeOp::Up), "🚀 正在启动 blog...");
    assert_eq!(start_line("blog", ComposeOp::Pull), "⬇️  正在拉取 blog 的最新镜像...");
    assert_eq!(done_line("blog", ComposeOp::Stop), "  ✅ blog 停止完成");
    assert_eq!(done_line("blog", ComposeOp::Build), "  ✅ blog 构建完成");
}

#[test]
fn lifecycle_unknown_app_is_refused_first() {
    let apps = vec![app("blog", vec![])];
    assert_eq!(lifecycle::run("wiki", &apps, "dance"), Err(LifecycleError::AppNotFound));
}

#[test]
fn lifecycle_unknown_action_is_refused() {
    let apps = vec![app("blog", vec![])];
    assert_eq!(lifecycle::run("blog", &apps, "dance"), Err(LifecycleError::UnknownAction));
}

#[test]
fn find_app_takes_the_first_of_equal_names() {
    let mut second = app("blog", vec![]);
    second.path = "/elsewhere".to_string();
    let apps = vec![app("wiki", vec![]), app("blog", vec![]), second];
    assert_eq!(find_app(&apps, "blog"), Some(1));
    assert_eq!(find_app(&apps, "nope"), None);
}

// ── list ──

#[test]
fn list_without_apps_prints_hint() {
    let lines = list::run(&[], &[]);
    assert_eq!(
        lines,
        vec!["未发现任何应用。请先运行 homespace init 或确保 apps_root 下有 docker-compose.yml 文件。"]
    );
}

#[test]
fn list_prints_header_and_rows() {
    let mut a = app(
        "blog",
        vec![
            service("web", &["blog.example.com"], &[], shared_pg("blog", "blog", true)),
            service("worker", &[], &[], DatabaseConfig::NoDatabase),
        ],
    );
    a.data_root = Some("./data".to_string());
    let ps = "{\"Service\":\"web\",\"State\":\"running\"}\n{\"Service\":\"worker\",\"State\":\"exited\"}\n";
    let lines = list::run(&[a], &[Some(ps.to_string())]);
    assert_eq!(lines.len(), 4);
    assert_eq!(
        lines[0],
        format!("  {:<14} {:<12} {:<10} {:<32} {:<14} {:<}", "App", "Services", "Status", "Routes", "DB", "Data Path")
    );
    assert_eq!(lines[1], format!("  {:-<14} {:-<12} {:-<10} {:-<32} {:-<14} {:-<}", "", "", "", "", "", ""));
    assert_eq!(
        lines[2],
        format!(
            "  {:<14} {:<12} {}{:<9} {:<32} {:<14} {:<}",
            "blog", "web", "🟡", " partial", "blog.example.com", "infra PG", "./data"
        )
    );
    assert_eq!(lines[3], format!("  {:<14} {:<12} {:<10} {:<32} {:<14} {:<}", "", "worker", "", "-", "", ""));
}

#[test]
fn list_marks_apps_without_ps_output_stopped() {
    let a = app("wiki", vec![service("wiki", &[], &[], DatabaseConfig::NoDatabase)]);
    let lines = list::run(&[a], &[]);
    assert_eq!(
        lines[2],
        format!("  {:<14} {:<12} {}{:<9} {:<32} {:<14} {:<}", "wiki", "wiki", "🔴", " stopped", "-", "-", "-")
    );
}

// ── show ──

#[test]
fn show_unknown_app_is_refused() {
    assert_eq!(show::run("nope", &[], None), Err(ShowError::AppNotFound));
}

#[test]
fn show_prints_details_and_hides_secrets() {
    let mut s = service("web", &["blog.example.com"], &[8080], shared_pg("blog", "bloguser", false));
    s.routes[0].path_prefix = Some("/api".to_string());
    s.command = Some(vec!["serve".to_string(), "--port".to_string(), "80".to_string()]);
    s.volumes = vec![Volume { host_path: "./data".to_string(), container_path: "/data".to_string(), read_only: true }];
    s.shared_mounts = vec![SharedResourceMount {
        resource_name: "media".to_string(),
        container_path: "/media".to_string(),
        read_only: false,
    }];
    s.env_vars = vec![
        ("DB_PASSWORD".to_string(), "hunter2".to_string()),
        ("Api_Secret_Key".to_string(), "xyz".to_string()),
        ("TZ".to_string(), "UTC".to_string()),
    ];
    let a = app("blog", vec![s, service("cache", &[], &[], DatabaseConfig::NoDatabase)]);
    let ps = "{\"Service\":\"web\",\"State\":\"running\"}\n";
    let lines = show::run("blog", &[a], Some(ps)).unwrap();
    let expected: Vec<String> = vec![
        "📦 blog — blog app\n",
        "  路径: /srv/apps/blog",
        "  数据根: 全局默认",
        "  服务数: 2",
        "",
        "  ┌─ Service: web",
        "  │  镜像: nginx:1.27",
        "  │  命令: serve --port 80",
        "  │  状态: Running",
        "  │  监听端口: 80",
        "  │  网络: bridge",
        "  │  Traefik 路由:",
        "  │    - https://blog.example.com/api",
        "  │      (TLS 启用)",
        "  │  端口映射:",
        "  │    8080:80/Tcp",
        "  │  数据库: infra PostgreSQL",
        "  │    DB: blog, User: bloguser",
        "  │  挂载卷:",
        "  │    ./data → /data (ro)",
        "  │  共享资源挂载:",
        "  │    [media] → /media ",
        "  │  环境变量:",
        "  │    DB_PASSWORD=********",
        "  │    Api_Secret_Key=********",
        "  │    TZ=UTC",
        "  │",
        "  ┌─ Service: cache",
        "  │  镜像: nginx:1.27",
        "  │  状态: unknown",
        "  │  监听端口: 80",
        "  │  网络: bridge",
    ]
    .into_iter()
    .map(String::from)
    .collect();
    assert_eq!(lines, expected);
}

// ── resource ──

#[test]
fn resource_subcommands() {
    assert_eq!(resource::run_sub("list"), Ok(ResourceCommand::List));
    assert_eq!(resource::run_sub("add"), Ok(ResourceCommand::Add));
    assert_eq!(resource::run_sub("remove"), Ok(ResourceCommand::Remove));
    assert_eq!(resource::run_sub("purge"), Err(ResourceError::UnknownSubcommand));
}

#[test]
fn resource_list_empty_prints_hint() {
    assert_eq!(resource::list(&config()), vec!["暂无共享资源定义。", "使用 homespace resource add 添加。"]);
}

#[test]
fn resource_add_then_list() {
    let mut c = config();
    assert_eq!(resource::add(&mut c, "media", "/mnt/media", "Films", true, "1000", "100"), Ok(()));
    assert_eq!(resource::add(&mut c, "books", "/mnt/books", "Library", false, "", "7"), Ok(()));
    let lines = resource::list(&c);
    assert_eq!(lines.len(), 4);
    assert_eq!(
        lines[0],
        format!("  {:<16} {:<40} {:<6} {:<20} {:<}", "Name", "Path", "Mode", "UID:GID", "Description")
    );
    assert_eq!(lines[1], format!("  {:-<16} {:-<40} {:-<6} {:-<20} {:-<}", "", "", "", "", ""));
    assert_eq!(lines[2], format!("  {:<16} {:<40} {:<6} {:<20} {:<}", "books", "/mnt/books", "r/w", "-", "Library"));
    assert_eq!(lines[3], format!("  {:<16} {:<40} {:<6} {:<20} {:<}", "media", "/mnt/media", "r/o", "1000:100", "Films"));
}

#[test]
fn resource_add_refusals_leave_config_unchanged() {
    let mut c = config();
    resource::add(&mut c, "media", "/mnt/media", "Films", true, "", "").unwrap();
    let before = c.clone();
    assert_eq!(resource::add(&mut c, "media", "/x", "", false, "", ""), Err(ResourceError::AlreadyExists));
    assert_eq!(resource::add(&mut c, "music", "/x", "", false, "abc", ""), Err(ResourceError::InvalidUid));
    assert_eq!(resource::add(&mut c, "music", "/x", "", false, "1000", "-1"), Err(ResourceError::InvalidGid));
    assert_eq!(c, before);
    assert_eq!(resource::check_new_resource(&c, "media"), Err(ResourceError::AlreadyExists));
    assert_eq!(resource::check_new_resource(&c, "music"), Ok(()));
}

#[test]
fn owner_ids_parse_like_u32() {
    assert_eq!(owner_id(""), Some(None));
    assert_eq!(owner_id("1000"), Some(Some(1000)));
    assert_eq!(owner_id("+7"), Some(Some(7)));
    assert_eq!(owner_id("4294967295"), Some(Some(u32::MAX)));
    assert_eq!(owner_id("4294967296"), None);
    assert_eq!(owner_id(" 5"), None);
}

// ── add ──

#[test]
fn app_names_are_checked_in_order() {
    assert_eq!(validate_app_name("", true), Err(NameError::Empty));
    assert_eq!(validate_app_name("my app", true), Err(NameError::HasSpace));
    assert_eq!(validate_app_name("my-app", true), Err(NameError::Exists));
    assert_eq!(validate_app_name("my-app", false), Ok(()));
    assert_eq!(app_dir(&config(), "my-app"), "/srv/apps/my-app");
}

#[test]
fn proposed_names_and_domains() {
    assert_eq!(image_reference("library/alpine", "3.20"), "library/alpine:3.20");
    assert_eq!(default_service_name("blog", 1, 0), "blog");
    assert_eq!(default_service_name("blog", 3, 1), "blog-svc2");
    assert_eq!(default_route_domain("blog", "example.com", 1, 0), "blog.example.com");
    assert_eq!(default_route_domain("blog", "example.com", 2, 1), "blog-2.example.com");
}

#[test]
fn port_lists_skip_bad_entries() {
    assert_eq!(parse_port_list("80, 443,abc,70000, 8080 "), vec![80, 443, 8080]);
    assert_eq!(parse_port_list(""), Vec::<u16>::new());
    assert_eq!(parse_port_list(","), Vec::<u16>::new());
}

#[test]
fn menu_choices_map_to_settings() {
    assert_eq!(select_network_mode(0, ""), NetworkMode::Bridge);
    assert_eq!(select_network_mode(1, ""), NetworkMode::Host);
    assert_eq!(select_network_mode(2, "traefik"), NetworkMode::External("traefik".to_string()));
    assert_eq!(select_network_mode(7, "x"), NetworkMode::Bridge);
    assert_eq!(select_protocol(0), PortProtocol::Tcp);
    assert_eq!(select_protocol(1), PortProtocol::Udp);
    assert_eq!(configure_database(false, true, "a", "b", true), DatabaseConfig::NoDatabase);
    assert_eq!(configure_database(true, false, "a", "b", true), DatabaseConfig::NoDatabase);
    assert_eq!(configure_database(true, true, "a", "b", true), shared_pg("a", "b", true));
}

#[test]
fn shared_resource_mounts() {
    let res = SharedResource {
        name: "media".to_string(),
        path: "/mnt/media".to_string(),
        description: String::new(),
        read_only: true,
        uid: Some(1000),
        gid: Some(100),
    };
    assert_eq!(shared_resource_item(&res), "media (/mnt/media, r/o)");
    assert_eq!(default_mount_point(&res), "/media");
    let m = shared_mount(&res, "/data/media", false);
    assert!(m.read_only);
    assert_eq!(m.container_path, "/data/media");
    assert_eq!(owner_env(&res), Some(("1000".to_string(), "100".to_string())));
    let mut rw = res.clone();
    rw.read_only = false;
    rw.gid = None;
    assert!(!shared_mount(&rw, "/m", false).read_only);
    assert_eq!(owner_env(&rw), None);
}

#[test]
fn env_entries_replace_earlier_values() {
    let mut env: Vec<(String, String)> = Vec::new();
    insert_env_var(&mut env, "PUID".to_string(), "1000".to_string());
    insert_env_var(&mut env, "TZ".to_string(), "UTC".to_string());
    insert_env_var(&mut env, "PUID".to_string(), "33".to_string());
    assert_eq!(env, vec![("PUID".to_string(), "33".to_string()), ("TZ".to_string(), "UTC".to_string())]);
    assert_eq!(parse_env_entry(" KEY = a=b "), Some(("KEY".to_string(), "a=b".to_string())));
    assert_eq!(parse_env_entry("no-equals"), None);
}

#[test]
fn summary_before_generation() {
    let mut s = service("web", &["blog.example.com"], &[8080], shared_pg("blog", "blog", true));
    s.shared_mounts = vec![SharedResourceMount {
        resource_name: "media".to_string(),
        container_path: "/media".to_string(),
        read_only: true,
    }];
    s.middlewares = vec![Middleware::Gzip, Middleware::IpAllowlistInternal];
    s.network_mode = NetworkMode::External("traefik".to_string());
    let a = new_app(&config(), "blog", "My blog", None, vec![s]);
    assert_eq!(a.path, "/srv/apps/blog");
    let lines = print_summary(&a, &config());
    let expected: Vec<String> = vec![
        "  应用: blog (My blog)",
        "  路径: /srv/apps/blog",
        "  数据根: /mnt/data (全局)",
        "",
        "  ┌─ Service: web",
        "  │  镜像: nginx:1.27",
        "  │  端口: 80",
        "  │  网络: external (traefik)",
        "  │  🌐 https://blog.example.com",
        "  │  📡 8080:80/Tcp",
        "  │  🗄️  infra PG: DB=blog, User=blog",
        "  │  📁 [media] → /media",
        "  │  ⚙️  Middlewares: gzip, ipallowlist-internal",
        "",
    ]
    .into_iter()
    .map(String::from)
    .collect();
    assert_eq!(lines, expected);
}

#[test]
fn databases_created_only_when_automatic() {
    let a = app(
        "blog",
        vec![
            service("a", &[], &[], shared_pg("one", "u1", true)),
            service("b", &[], &[], shared_pg("two", "u2", false)),
            service("c", &[], &[], DatabaseConfig::NoDatabase),
        ],
    );
    assert_eq!(databases_to_create(&a), vec![("one".to_string(), "u1".to_string())]);
    assert_eq!(
        databases_of(&a),
        vec![("one".to_string(), "u1".to_string()), ("two".to_string(), "u2".to_string())]
    );
}

#[test]
fn creation_steps_follow_the_options() {
    let a = app(
        "blog",
        vec![
            service("web", &[], &[], shared_pg("blog", "bloguser", true)),
            service("cache", &[], &[], shared_pg("cache", "c", false)),
        ],
    );
    let c = config();
    assert_eq!(
        creation_steps(&a, &c, "add", true, false, true, true),
        vec![
            CreationStep::GenerateFiles,
            CreationStep::CreateDatabase { db_name: "blog".to_string(), user: "bloguser".to_string() },
            CreationStep::Git(vec!["-C".to_string(), "/srv/apps".to_string(), "add".to_string(), "blog".to_string()]),
            CreationStep::Git(vec![
                "-C".to_string(),
                "/srv/apps".to_string(),
                "commit".to_string(),
                "-m".to_string(),
                "homespace: add blog".to_string(),
            ]),
            CreationStep::Docker(vec![
                "compose".to_string(),
                "-f".to_string(),
                "/srv/apps/blog/docker-compose.yml".to_string(),
                "up".to_string(),
                "-d".to_string(),
            ]),
        ]
    );
    assert_eq!(
        creation_steps(&a, &c, "add", true, true, true, false),
        vec![
            CreationStep::GenerateFiles,
            CreationStep::CreateDatabase { db_name: "blog".to_string(), user: "bloguser".to_string() },
        ]
    );
    assert_eq!(creation_steps(&app("x", vec![]), &c, "add-static", false, false, false, false), vec![CreationStep::GenerateFiles]);
}

// ── add-static ──

#[test]
fn archive_kinds_by_extension() {
    assert_eq!(archive_kind("site.zip"), Some(ArchiveKind::Zip));
    assert_eq!(archive_kind("site.tar.gz"), Some(ArchiveKind::TarGz));
    assert_eq!(archive_kind("site.tgz"), Some(ArchiveKind::TarGz));
    assert_eq!(archive_kind("site.tar.bz2"), Some(ArchiveKind::TarBz2));
    assert_eq!(archive_kind("site.tar.xz"), Some(ArchiveKind::TarXz));
    assert_eq!(archive_kind("site.rar"), None);
    assert_eq!(validate_archive(false, false, "a.zip"), Err(ArchiveError::NotFound));
    assert_eq!(validate_archive(true, false, "a.zip"), Err(ArchiveError::NotAFile));
    assert_eq!(validate_archive(true, true, "a.7z"), Err(ArchiveError::Unsupported));
    assert_eq!(validate_archive(true, true, "a.tgz"), Ok(ArchiveKind::TarGz));
}

#[test]
fn extraction_commands() {
    assert_eq!(
        extract_command(ArchiveKind::Zip, "/tmp/s.zip", "/srv/site"),
        ("unzip".to_string(), vec!["-o".to_string(), "/tmp/s.zip".to_string(), "-d".to_string(), "/srv/site".to_string()])
    );
    assert_eq!(
        extract_command(ArchiveKind::TarXz, "/tmp/s.tar.xz", "/srv/site").1,
        vec!["xJf", "/tmp/s.tar.xz", "-C", "/srv/site"]
    );
    assert_eq!(extract_command(ArchiveKind::TarBz2, "a", "b").1[0], "xjf");
    assert_eq!(extract_command(ArchiveKind::TarGz, "a", "b").1[0], "xzf");
}

#[test]
fn static_site_app() {
    let a = build_static_app("docs", "/srv/apps/docs", "docs.example.com");
    assert_eq!(a.description, "静态网站 — https://docs.example.com");
    assert_eq!(a.services.len(), 1);
    let s = &a.services[0];
    assert_eq!(s.image, "nginx:alpine");
    assert_eq!(s.internal_ports, vec![80]);
    assert_eq!(s.routes[0].subdomain, "docs.example.com");
    assert_eq!(s.volumes[0].host_path, "./site");
    assert_eq!(s.volumes[1].container_path, "/etc/nginx/conf.d/default.conf");
    assert!(DEFAULT_NGINX_CONF.starts_with("server {\n    listen 80;"));
}

#[test]
fn static_site_domains_are_checked() {
    let apps = vec![app("blog", vec![service("web", &["blog.example.com"], &[], DatabaseConfig::NoDatabase)])];
    assert_eq!(validate_domain("", &apps), Err(DomainError::Empty));
    assert_eq!(
        validate_domain("blog.example.com", &apps),
        Err(DomainError::Conflict("域名 blog.example.com 已被 blog 的 service 'web' 注册".to_string()))
    );
    assert_eq!(validate_domain("docs.example.com", &apps), Ok(()));
}

// ── remove ──

#[test]
fn infra_projects_are_recognised() {
    assert!(is_infra_app("traefik"));
    assert!(is_infra_app("postgres"));
    assert!(!is_infra_app("infra"));
    assert_eq!(removal_action(0), RemoveAction::Stop);
    assert_eq!(removal_action(1), RemoveAction::Down);
    assert_eq!(removal_action(2), RemoveAction::Purge);
    assert_eq!(removal_action(9), RemoveAction::Down);
}

#[test]
fn removal_plans() {
    let a = app("blog", vec![]);
    let c = config();
    let p = plan_removal(&a, &c, true, true, RemoveAction::Stop);
    assert_eq!(p.compose_args, vec!["compose", "-f", "/srv/apps/blog/docker-compose.yml", "down", "-v"]);
    assert_eq!(p.data_dir, Some("/mnt/data/blog".to_string()));
    let p = plan_removal(&a, &c, false, false, RemoveAction::Stop);
    assert_eq!(p.compose_args, vec!["compose", "-f", "/srv/apps/blog/docker-compose.yml", "stop"]);
    assert_eq!(p.data_dir, None);
    let p = plan_removal(&a, &c, false, false, RemoveAction::Purge);
    assert_eq!(p.compose_args[3..], ["down".to_string(), "-v".to_string()]);
    assert_eq!(p.data_dir, Some("/mnt/data/blog".to_string()));
}

#[test]
fn removal_git_runs() {
    let a = app("blog", vec![]);
    let c = config();
    assert_eq!(
        removal_git_args(&a, &c, false, true, false, true),
        vec![
            vec!["-C", "/srv/apps", "rm", "-r", "--cached", "blog"],
            vec!["-C", "/srv/apps", "commit", "-m", "homespace: remove blog"],
        ]
    );
    assert_eq!(removal_git_args(&a, &c, true, false, false, true), vec![vec!["-C", "/srv/apps", "rm", "-r", "blog"]]);
    assert!(removal_git_args(&a, &c, true, true, true, true).is_empty());
    assert!(removal_git_args(&a, &c, true, true, false, false).is_empty());
}

#[test]
fn data_directories_of_removal() {
    let mut a = app("blog", vec![]);
    let mut c = config();
    c.paths.data_root = "data".to_string();
    assert_eq!(forced_data_dir_exec(&a, &c), "/srv/apps/blog/data/blog");
    assert_eq!(purged_data_dir_exec(&a, &c), "data/blog");
    a.data_root = Some("./store".to_string());
    assert_eq!(forced_data_dir_exec(&a, &c), "/srv/apps/blog/./store/blog");
    assert_eq!(purged_data_dir_exec(&a, &c), "/srv/apps/blog/./store/blog");
}

#[test]
fn databases_dropped_only_with_password() {
    assert_eq!(drop_database_step(false, false, "d", "u", "postgres", "admin", "pw", "postgres"), None);
    assert_eq!(drop_database_step(true, false, "d", "u", "postgres", "admin", "", "postgres"), None);
    let args = drop_database_step(false, true, "d", "u", "postgres", "admin", "pw", "postgres").unwrap();
    assert_eq!(args[5], "PGPASSWORD=pw");
    assert_eq!(args[15], "\nDROP DATABASE IF EXISTS \"d\";\nDROP USER IF EXISTS \"u\";\n");
}

// ── upgrade ──

#[test]
fn upgrade_targets() {
    let one = app("blog", vec![service("web", &[], &[], DatabaseConfig::NoDatabase)]);
    assert_eq!(select_targets(&one, None), Ok(vec![0]));
    let two = app(
        "blog",
        vec![
            service("web", &[], &[], DatabaseConfig::NoDatabase),
            service("db", &[], &[], DatabaseConfig::NoDatabase),
        ],
    );
    assert_eq!(select_targets(&two, None), Ok(vec![0, 1]));
    assert_eq!(select_targets(&two, Some("db")), Ok(vec![1]));
    assert_eq!(select_targets(&two, Some("cache")), Err(UpgradeError::ServiceNotFound));
}

#[test]
fn version_variables() {
    assert_eq!(version_prefix("my-app"), "MY_APP");
    let content = "# versions\nMY_APP_VERSION=1.0\nOTHER=1\n";
    assert_eq!(update_env_version(content, "MY_APP", "2.0"), "# versions\nMY_APP_VERSION=2.0\nOTHER=1\n");
    assert_eq!(update_env_version("OTHER=1\n", "MY_APP", "2.0"), "OTHER=1\nMY_APP_VERSION=2.0\n");
    assert_eq!(current_version(content, "MY_APP"), Some("1.0".to_string()));
    assert_eq!(current_version("OTHER=1\n", "MY_APP"), None);
    let updated = update_env_version(content, "MY_APP", "2.0");
    assert_eq!(current_version(&updated, "MY_APP"), Some("2.0".to_string()));
    let appended = update_env_version("OTHER=1\n", "MY_APP", "3.1");
    assert_eq!(current_version(&appended, "MY_APP"), Some("3.1".to_string()));
    assert_eq!(update_env_version("", "WEB", "1"), "WEB_VERSION=1\n");
}

// ── init ──

#[test]
fn base_settings_and_infra_paths() {
    let mut c = config();
    apply_base_settings(&mut c, "/home/me/HomeLab", "/data", "home.lan");
    assert_eq!(c.paths.apps_root, "/home/me/HomeLab");
    assert_eq!(c.home.domain, "home.lan");
    assert_eq!(infra_dir(&c), "/home/me/HomeLab/infra");
    assert_eq!(infra_project_dir(&c, "postgres"), "/home/me/HomeLab/infra/postgres");
    assert_eq!(infra_marker(&c), "/home/me/HomeLab/infra/traefik/docker-compose.yml");
    assert_eq!(default_dashboard_domain("home.lan"), "traefik.home.lan");
    assert_eq!(default_acme_email("home.lan"), "admin@home.lan");
}

fn answers(password: &str) -> InfraAnswers {
    InfraAnswers {
        traefik_version: "v3.7.5".to_string(),
        service_domain: "traefik.home.lan".to_string(),
        acme_email: "admin@home.lan".to_string(),
        cf_api_token: "token".to_string(),
        http_port: 80,
        https_port: 443,
        postgres_version: "16.14".to_string(),
        pg_user: "admin".to_string(),
        pg_password: password.to_string(),
        generated_password: "generated".to_string(),
        pg_db: "defaultdb".to_string(),
        timezone: "Asia/Shanghai".to_string(),
    }
}

#[test]
fn infra_config_takes_typed_or_generated_password() {
    let c = config();
    let typed = collect_infra_config("home.lan", &c, answers("typed"));
    assert_eq!(typed.pg_password, "typed");
    assert_eq!(typed.infra_path, "/srv/apps/infra");
    assert_eq!(typed.domain, "home.lan");
    let generated = collect_infra_config("home.lan", &c, answers(""));
    assert_eq!(generated.pg_password, "generated");
    let with_user = with_dashboard_user(generated, "admin", "test123");
    assert_eq!(
        with_user.dashboard_user,
        Some(("admin".to_string(), "admin:{SHA}cojt0Pw//L6ToM8G41aOKFIWh7w=".to_string()))
    );
}

#[test]
fn infra_config_from_default_answers() {
    let c = config();
    let d = default_infra_answers("home.lan");
    assert_eq!(d.cf_api_token, "");
    assert_eq!(d.pg_password, "");
    let generated = d.generated_password.clone();
    let mut answers = d;
    answers.cf_api_token = "cf-token".to_string();
    let ic = collect_infra_config("home.lan", &c, answers);
    assert_eq!(ic.domain, "home.lan");
    assert_eq!(ic.service_domain, "traefik.home.lan");
    assert_eq!(ic.acme_email, "admin@home.lan");
    assert_eq!(ic.cf_api_token, "cf-token");
    assert_eq!(ic.http_port, 80);
    assert_eq!(ic.https_port, 443);
    assert_eq!(ic.traefik_version, "v3.7.5");
    assert_eq!(ic.postgres_version, "16.14");
    assert_eq!(ic.pg_user, "admin");
    assert_eq!(ic.pg_db, "defaultdb");
    assert_eq!(ic.timezone, "Asia/Shanghai");
    assert_eq!(ic.infra_path, "/srv/apps/infra");
    assert_eq!(ic.dashboard_user, None);
    assert_eq!(ic.pg_password, generated);
    assert_eq!(ic.pg_password.chars().count(), 20);
    assert!(ic.pg_password.chars().all(|ch| PASSWORD_CHARSET.contains(ch)));
}

// ── status ──

#[test]
fn status_report() {
    let checks = StatusChecks {
        traefik_container: CheckOutcome::Yes,
        traefik_ping: CheckOutcome::No,
        traefik_network: CheckOutcome::Failed("boom".to_string()),
        postgres_network: CheckOutcome::No,
        postgres_connection: CheckOutcome::Yes,
        ssl_dir_exists: true,
        acme_size: Some(1234),
        compose_exists: true,
        compose_ps: Some("NAME STATUS\ntraefik Up\n".to_string()),
    };
    let lines = status::run(&config(), &checks);
    let expected: Vec<String> = vec![
        "🔍 homespace - 基础设施状态\n",
        "Traefik 容器状态: ✅ 存在",
        "Traefik /ping 端点: ⚠️  无响应",
        "",
        "Docker 网络 traefik: ⚠️  检查失败: boom",
        "Docker 网络 postgres: ❌ 不存在",
        "PostgreSQL 连接测试: ✅ 连接成功",
        "\nSSL 证书: ",
        "  证书目录: /srv/apps/infra/traefik/ssl ✅",
        "  acme.json: 1234 bytes",
        "  ⚠️  证书到期时间需手动检查 (acme.json 为 Traefik 内部格式)",
        "\nTraefik docker-compose.yml: /srv/apps/infra/traefik/docker-compose.yml",
        "  ✅ 文件存在",
        "\n  容器状态:",
        "    NAME STATUS",
        "    traefik Up",
    ]
    .into_iter()
    .map(String::from)
    .collect();
    assert_eq!(lines, expected);
    assert_eq!(status::acme_file(&config()), "/srv/apps/infra/traefik/ssl/acme.json");
}

#[test]
fn status_report_without_infra() {
    let checks = StatusChecks {
        traefik_container: CheckOutcome::No,
        traefik_ping: CheckOutcome::No,
        traefik_network: CheckOutcome::Yes,
        postgres_network: CheckOutcome::Yes,
        postgres_connection: CheckOutcome::Failed("x".to_string()),
        ssl_dir_exists: false,
        acme_size: None,
        compose_exists: false,
        compose_ps: None,
    };
    let lines = status::run(&config(), &checks);
    assert_eq!(lines[6], "PostgreSQL 连接测试: ⚠️  测试失败: x");
    assert_eq!(lines[8], "  ⚠️  证书目录未找到: /srv/apps/infra/traefik/ssl");
    assert_eq!(lines[10], "  ❌ 文件不存在，infra 可能未部署");
    assert_eq!(lines.len(), 11);
}

// ── edit ──

fn no_answers() -> EditAnswers {
    EditAnswers {
        new_name: String::new(),
        new_description: String::new(),
        new_image: String::new(),
        new_version: String::new(),
        new_ports: String::new(),
    }
}

#[test]
fn edit_menu_steps() {
    let a = app("blog", vec![service("web", &["a.example.com", "b.example.com"], &[], DatabaseConfig::NoDatabase)]);
    assert_eq!(edit_choice(0), EditChoice::Basics);
    assert_eq!(edit_choice(7), EditChoice::Done);
    let mut ans = no_answers();
    ans.new_name = "journal".to_string();
    ans.new_description = "A journal".to_string();
    assert_eq!(
        edit_step(&a, EditChoice::Basics, &ans),
        (true, vec!["  ⚠️  重命名功能需要在后续版本中完善".to_string(), "  ℹ️  描述更新将在重新生成时生效".to_string()])
    );
    assert_eq!(edit_step(&a, EditChoice::Service, &no_answers()).0, false);
    let mut ports = no_answers();
    ports.new_ports = "80".to_string();
    assert_eq!(edit_step(&a, EditChoice::Service, &ports).0, true);
    assert_eq!(
        edit_step(&a, EditChoice::Routes, &no_answers()).1,
        vec![
            "⚠️  Traefik 路由修改功能将在后续版本完善",
            "    当前路由:",
            "      - https://a.example.com",
            "      - https://b.example.com",
        ]
    );
    assert_eq!(edit_step(&a, EditChoice::Environment, &no_answers()).1[2], "    /srv/apps/blog/.env");
    assert_eq!(edit_step(&a, EditChoice::Done, &no_answers()), (false, vec![]));
}

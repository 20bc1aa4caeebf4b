//! The infrastructure report: containers, networks, database, certificates
//! and the Traefik project, from the outcome of each check.
use vstd::prelude::*;
use crate::config::Config;
use crate::paths::{join, join_path};
use crate::text::{
    append_strings, char_views, chars_of, decimal, decimal_string, lines, lines_exec, owned,
    push_chars, string_views, trim, trim_exec,
};

verus! {

/// The outcome of a yes-or-no check that can fail.
#[derive(Debug, Clone, PartialEq, Eq)]
pub enum CheckOutcome {
    /// The check answered yes.
    Yes,
    /// The check answered no.
    No,
    /// The check could not be made; why.
    Failed(String),
}

/// What the checks of the infrastructure found.
#[derive(Debug, Clone, PartialEq, Eq)]
pub struct StatusChecks {
    /// Whether the Traefik container exists.
    pub traefik_container: CheckOutcome,
    /// Whether Traefik answers its `/ping` endpoint.
    pub traefik_ping: CheckOutcome,
    /// Whether the `traefik` network exists.
    pub traefik_network: CheckOutcome,
    /// Whether the `postgres` network exists.
    pub postgres_network: CheckOutcome,
    /// Whether PostgreSQL accepts connections.
    pub postgres_connection: CheckOutcome,
    /// Whether the certificate directory exists.
    pub ssl_dir_exists: bool,
    /// The size of `acme.json`, when it exists and could be read.
    pub acme_size: Option<u64>,
    /// Whether the Traefik compose file exists.
    pub compose_exists: bool,
    /// What `docker compose ps` printed for Traefik, when it succeeded.
    pub compose_ps: Option<String>,
}

/// The certificate directory of Traefik.
pub open spec fn ssl_dir_of(config: Config) -> Seq<char> {
    join_path(join_path(join_path(config.paths.apps_root@, "infra"@), "traefik"@), "ssl"@)
}

/// The certificate directory of Traefik.
pub fn ssl_dir(config: &Config) -> (r: String)
    ensures
        r@ == ssl_dir_of(*config),
{
    let infra = join(config.paths.apps_root.as_str(), "infra");
    join(join(infra.as_str(), "traefik").as_str(), "ssl")
}

/// The ACME certificate store of Traefik.
pub fn acme_file(config: &Config) -> (r: String)
    ensures
        r@ == join_path(ssl_dir_of(*config), "acme.json"@),
{
    join(ssl_dir(config).as_str(), "acme.json")
}

/// The line of one check: `label`, then the words for yes or no, or the
/// words for failure followed by the reason.
pub open spec fn outcome_line(label: Seq<char>, o: CheckOutcome, yes: Seq<char>, no: Seq<char>, failed: Seq<char>) -> Seq<char> {
    label + match o {
        CheckOutcome::Yes => yes,
        CheckOutcome::No => no,
        CheckOutcome::Failed(e) => failed + e@,
    }
}

/// The certificate lines.
pub open spec fn ssl_lines(config: Config, c: StatusChecks) -> Seq<Seq<char>> {
    if c.ssl_dir_exists {
        seq!["  证书目录: "@ + ssl_dir_of(config) + " ✅"@] + match c.acme_size {
            Some(n) => seq![
                "  acme.json: "@ + decimal(n as nat) + " bytes"@,
                "  ⚠️  证书到期时间需手动检查 (acme.json 为 Traefik 内部格式)"@,
            ],
            None => Seq::empty(),
        }
    } else {
        seq!["  ⚠️  证书目录未找到: "@ + ssl_dir_of(config)]
    }
}

/// The lines of the Traefik project.
pub open spec fn compose_lines(c: StatusChecks) -> Seq<Seq<char>> {
    if c.compose_exists {
        seq!["  ✅ 文件存在"@] + match c.compose_ps {
            Some(out) => if trim(out@).len() > 0 {
                seq!["\n  容器状态:"@] + lines(out@).map_values(|l: Seq<char>| "    "@ + l)
            } else {
                Seq::empty()
            },
            None => Seq::empty(),
        }
    } else {
        seq!["  ❌ 文件不存在，infra 可能未部署"@]
    }
}

/// The lines `status` prints.
pub open spec fn status_lines(config: Config, c: StatusChecks) -> Seq<Seq<char>> {
    seq![
        "🔍 homespace - 基础设施状态\n"@,
        outcome_line("Traefik 容器状态: "@, c.traefik_container, "✅ 存在"@, "❌ 未找到"@, "⚠️  检查失败: "@),
        outcome_line("Traefik /ping 端点: "@, c.traefik_ping, "✅ 响应正常"@, "⚠️  无响应"@, "⚠️  检查失败: "@),
        Seq::empty(),
        outcome_line("Docker 网络 traefik: "@, c.traefik_network, "✅ 存在"@, "❌ 不存在"@, "⚠️  检查失败: "@),
        outcome_line("Docker 网络 postgres: "@, c.postgres_network, "✅ 存在"@, "❌ 不存在"@, "⚠️  检查失败: "@),
        outcome_line(
            "PostgreSQL 连接测试: "@,
            c.postgres_connection,
            "✅ 连接成功"@,
            "⚠️  无法连接（网络或容器可能未启动）"@,
            "⚠️  测试失败: "@,
        ),
        "\nSSL 证书: "@,
    ] + ssl_lines(config, c) + seq![
        "\nTraefik docker-compose.yml: "@ + join_path(join_path(join_path(config.paths.apps_root@, "infra"@), "traefik"@), "docker-compose.yml"@),
    ] + compose_lines(c)
}

/// The line of one check.
fn outcome_line_exec(label: &str, o: &CheckOutcome, yes: &str, no: &str, failed: &str) -> (r: String)
    ensures
        r@ == outcome_line(label@, *o, yes@, no@, failed@),
{
    let mut r = owned(label);
    match o {
        CheckOutcome::Yes => r.append(yes),
        CheckOutcome::No => r.append(no),
        CheckOutcome::Failed(e) => {
            r.append(failed);
            r.append(e.as_str());
        },
    }
    r
}

/// The lines of the Traefik project.
fn compose_lines_exec(c: &StatusChecks) -> (out: Vec<String>)
    ensures
        string_views(out@) == compose_lines(*c),
{
    if !c.compose_exists {
        let out = vec![owned("  ❌ 文件不存在，infra 可能未部署")];
        assert(string_views(out@) =~= compose_lines(*c));
        return out;
    }
    let mut out = vec![owned("  ✅ 文件存在")];
    match &c.compose_ps {
        Some(ps) => {
            let v = chars_of(ps.as_str());
            if trim_exec(&v).len() > 0 {
                out.push(owned("\n  容器状态:"));
                let ls = lines_exec(&v);
                let ghost lv = char_views(ls@);
                let ghost head = string_views(out@);
                let mut i: usize = 0;
                while i < ls.len()
                    invariant
                        i <= ls.len(),
                        lv == char_views(ls@),
                        string_views(out@) == head + lv.take(i as int).map_values(|l: Seq<char>| "    "@ + l),
                    decreases ls.len() - i,
                {
                    let mut l = owned("    ");
                    push_chars(&mut l, &ls[i]);
                    assert(lv[i as int] == ls@[i as int]@);
                    let ghost prev = string_views(out@);
                    let ghost lview = l@;
                    out.push(l);
                    assert(string_views(out@) =~= prev.push(lview));
                    assert(lv.take(i + 1).map_values(|l: Seq<char>| "    "@ + l) =~= lv.take(i as int).map_values(
                        |l: Seq<char>| "    "@ + l,
                    ).push("    "@ + lv[i as int]));
                    i = i + 1;
                }
                assert(lv.take(ls.len() as int) =~= lv);
            }
        },
        None => {},
    }
    assert(string_views(out@) =~= compose_lines(*c));
    out
}

/// The lines `status` prints for the outcome of the checks: the Traefik
/// container and ping, the two networks, the PostgreSQL connection, the
/// certificate directory, and the Traefik project with its containers.
pub fn run(config: &Config, checks: &StatusChecks) -> (r: Vec<String>)
    ensures
        string_views(r@) == status_lines(*config, *checks),
{
    let ssl = ssl_dir(config);
    let mut out = vec![
        owned("🔍 homespace - 基础设施状态\n"),
        outcome_line_exec("Traefik 容器状态: ", &checks.traefik_container, "✅ 存在", "❌ 未找到", "⚠️  检查失败: "),
        outcome_line_exec("Traefik /ping 端点: ", &checks.traefik_ping, "✅ 响应正常", "⚠️  无响应", "⚠️  检查失败: "),
        String::new(),
        outcome_line_exec("Docker 网络 traefik: ", &checks.traefik_network, "✅ 存在", "❌ 不存在", "⚠️  检查失败: "),
        outcome_line_exec("Docker 网络 postgres: ", &checks.postgres_network, "✅ 存在", "❌ 不存在", "⚠️  检查失败: "),
        outcome_line_exec(
            "PostgreSQL 连接测试: ",
            &checks.postgres_connection,
            "✅ 连接成功",
            "⚠️  无法连接（网络或容器可能未启动）",
            "⚠️  测试失败: ",
        ),
        owned("\nSSL 证书: "),
    ];
    let ghost s0 = string_views(out@);
    if checks.ssl_dir_exists {
        let mut l = owned("  证书目录: ");
        l.append(ssl.as_str());
        l.append(" ✅");
        out.push(l);
        match checks.acme_size {
            Some(n) => {
                let mut a = owned("  acme.json: ");
                a.append(decimal_string(n).as_str());
                a.append(" bytes");
                out.push(a);
                out.push(owned("  ⚠️  证书到期时间需手动检查 (acme.json 为 Traefik 内部格式)"));
            },
            None => {},
        }
    } else {
        let mut l = owned("  ⚠️  证书目录未找到: ");
        l.append(ssl.as_str());
        out.push(l);
    }
    assert(string_views(out@) =~= s0 + ssl_lines(*config, *checks));
    let ghost s1 = string_views(out@);
    let mut t = owned("\nTraefik docker-compose.yml: ");
    t.append(config.traefik_compose_path().as_str());
    out.push(t);
    assert(string_views(out@) =~= s1 + seq![
        "\nTraefik docker-compose.yml: "@ + join_path(join_path(join_path(config.paths.apps_root@, "infra"@), "traefik"@), "docker-compose.yml"@),
    ]);
    append_strings(&mut out, compose_lines_exec(checks));
    assert(string_views(out@) =~~= status_lines(*config, *checks));
    out
}

} // verus!

//! The table of all applications and their state.
use vstd::prelude::*;
use crate::commands::{find_service, service_index};
use crate::models::app::{App, Service};
use crate::models::status::{ContainerState, ServiceStatus};
use crate::paths::opt_view;
use crate::services::scanner::{
    all_subdomains, build_summary, get_app_status, running_count, status_summary_of, status_view,
    statuses_of, uses_shared_postgres, StatusView,
};
use crate::text::{append_dashes, append_padded, owned, pad_right, str_eq, string_views};

verus! {

/// `s` padded with spaces to `w` characters (`{:<w}`).
pub open spec fn padded(s: Seq<char>, w: nat) -> Seq<char> {
    pad_right(s, w, ' ')
}

/// `w` dashes (`{:-<w}` of an empty string).
pub open spec fn dashes(w: nat) -> Seq<char> {
    pad_right(Seq::empty(), w, '-')
}

/// The number of running services among status views.
pub open spec fn running_views(vs: Seq<StatusView>) -> nat
    decreases vs.len(),
{
    if vs.len() == 0 {
        0
    } else {
        running_views(vs.drop_last()) + if vs.last().1 == ContainerState::Running {
            1nat
        } else {
            0nat
        }
    }
}

/// The state word of an application whose services have the statuses `vs`.
pub open spec fn state_word(vs: Seq<StatusView>) -> Seq<char> {
    let running = running_views(vs);
    let total = vs.len();
    if running == total && total > 0 {
        "running"@
    } else if running == 0 {
        "stopped"@
    } else if running > 0 {
        "partial"@
    } else {
        "not deployed"@
    }
}

/// `running_views` counts the running views: the number of all views exactly
/// when all run, zero exactly when none runs.
proof fn lemma_running_views_count(vs: Seq<StatusView>)
    ensures
        running_views(vs) <= vs.len(),
        running_views(vs) == vs.len() <==> forall|i: int|
            0 <= i < vs.len() ==> #[trigger] vs[i].1 == ContainerState::Running,
        running_views(vs) == 0 <==> forall|i: int|
            0 <= i < vs.len() ==> #[trigger] vs[i].1 != ContainerState::Running,
    decreases vs.len(),
{
    if vs.len() > 0 {
        let pre = vs.drop_last();
        lemma_running_views_count(pre);
        let last = vs.len() - 1;
        if forall|i: int| 0 <= i < vs.len() ==> #[trigger] vs[i].1 == ContainerState::Running {
            assert(vs[last].1 == ContainerState::Running);
            assert forall|i: int| 0 <= i < pre.len() implies #[trigger] pre[i].1 == ContainerState::Running by {
                assert(vs[i].1 == ContainerState::Running);
            }
        }
        if forall|i: int| 0 <= i < vs.len() ==> #[trigger] vs[i].1 != ContainerState::Running {
            assert(vs[last].1 != ContainerState::Running);
            assert forall|i: int| 0 <= i < pre.len() implies #[trigger] pre[i].1 != ContainerState::Running by {
                assert(vs[i].1 != ContainerState::Running);
            }
        }
        if running_views(vs) == vs.len() {
            assert forall|i: int| 0 <= i < vs.len() implies #[trigger] vs[i].1 == ContainerState::Running by {
                if i < last {
                    assert(pre[i].1 == ContainerState::Running);
                }
            }
        }
        if running_views(vs) == 0 {
            assert forall|i: int| 0 <= i < vs.len() implies #[trigger] vs[i].1 != ContainerState::Running by {
                if i < last {
                    assert(pre[i].1 != ContainerState::Running);
                }
            }
        }
    }
}

/// The state word `list` shows for an application: `running` when it has at
/// least one service and all run, `stopped` when none runs (or it has none),
/// `partial` when some run and some do not.
pub proof fn lemma_state_word_words(vs: Seq<StatusView>)
    ensures
        vs.len() > 0 && (forall|i: int| 0 <= i < vs.len() ==> #[trigger] vs[i].1 == ContainerState::Running)
            ==> state_word(vs) == "running"@,
        (forall|i: int| 0 <= i < vs.len() ==> #[trigger] vs[i].1 != ContainerState::Running)
            ==> state_word(vs) == "stopped"@,
        (exists|i: int| 0 <= i < vs.len() && #[trigger] vs[i].1 == ContainerState::Running)
            && (exists|j: int| 0 <= j < vs.len() && #[trigger] vs[j].1 != ContainerState::Running)
            ==> state_word(vs) == "partial"@,
{
    lemma_running_views_count(vs);
}

/// The state word of statuses is that of their views.
proof fn lemma_state_word(sts: Seq<ServiceStatus>)
    ensures
        status_summary_of(sts) == state_word(sts.map_values(|s: ServiceStatus| status_view(s))),
{
    lemma_running_views(sts);
}

/// Counting running services commutes with taking views.
proof fn lemma_running_views(sts: Seq<ServiceStatus>)
    ensures
        running_count(sts) == running_views(sts.map_values(|s: ServiceStatus| status_view(s))),
    decreases sts.len(),
{
    if sts.len() > 0 {
        lemma_running_views(sts.drop_last());
        assert(sts.drop_last().map_values(|s: ServiceStatus| status_view(s)) =~= sts.map_values(
            |s: ServiceStatus| status_view(s),
        ).drop_last());
    }
}

/// The icon shown before a state word.
pub open spec fn state_icon(word: Seq<char>) -> Seq<char> {
    if word == "running"@ {
        "🟢"@
    } else if word == "stopped"@ {
        "🔴"@
    } else if word == "partial"@ {
        "🟡"@
    } else {
        "⚪"@
    }
}

/// The line shown when there is no application.
pub open spec fn no_apps_line() -> Seq<char> {
    "未发现任何应用。请先运行 homespace init 或确保 apps_root 下有 docker-compose.yml 文件。"@
}

/// The two header lines of the table.
pub open spec fn header_lines() -> Seq<Seq<char>> {
    seq![
        "  "@ + padded("App"@, 14) + " "@ + padded("Services"@, 12) + " "@ + padded("Status"@, 10) + " "@
            + padded("Routes"@, 32) + " "@ + padded("DB"@, 14) + " "@ + "Data Path"@,
        "  "@ + dashes(14) + " "@ + dashes(12) + " "@ + dashes(10) + " "@ + dashes(32) + " "@ + dashes(14)
            + " "@,
    ]
}

/// The name of the first service, empty when there is none.
pub open spec fn first_service_name(svcs: Seq<Service>) -> Seq<char> {
    if svcs.len() > 0 {
        svcs[0].name@
    } else {
        Seq::empty()
    }
}

/// The first routed host name of all services, `-` when there is none.
pub open spec fn first_route_label(svcs: Seq<Service>) -> Seq<char> {
    if all_subdomains(svcs).len() == 0 {
        "-"@
    } else {
        all_subdomains(svcs)[0]
    }
}

/// `infra PG` when a service uses the shared PostgreSQL, `-` otherwise.
pub open spec fn database_label(svcs: Seq<Service>) -> Seq<char> {
    if uses_shared_postgres(svcs) {
        "infra PG"@
    } else {
        "-"@
    }
}

/// The application's own data root, `-` when it has none.
pub open spec fn data_path_label(app: App) -> Seq<char> {
    match app.data_root {
        Some(d) => d@,
        None => "-"@,
    }
}

/// The first row of an application.
pub open spec fn app_row(app: App, vs: Seq<StatusView>) -> Seq<char> {
    let word = state_word(vs);
    "  "@ + padded(app.name@, 14) + " "@ + padded(first_service_name(app.services@), 12) + " "@ + state_icon(word)
        + padded(" "@ + word, 9) + " "@ + padded(first_route_label(app.services@), 32) + " "@ + padded(
        database_label(app.services@),
        14,
    ) + " "@ + data_path_label(app)
}

/// The first host name routed to the first service named `name`, `-` when
/// there is no such route.
pub open spec fn named_route_label(svcs: Seq<Service>, name: Seq<char>) -> Seq<char> {
    match service_index(svcs, name) {
        Some(j) => if svcs[j].routes@.len() > 0 {
            svcs[j].routes@[0].subdomain@
        } else {
            "-"@
        },
        None => "-"@,
    }
}

/// The row of a further service of an application.
pub open spec fn service_row(svcs: Seq<Service>, name: Seq<char>) -> Seq<char> {
    "  "@ + padded(Seq::empty(), 14) + " "@ + padded(name, 12) + " "@ + padded(Seq::empty(), 10) + " "@
        + padded(named_route_label(svcs, name), 32) + " "@ + padded(Seq::empty(), 14) + " "@
}

/// The rows of the services after the first, in order.
pub open spec fn service_rows(svcs: Seq<Service>, n: nat) -> Seq<Seq<char>>
    decreases n,
{
    if n <= 1 {
        Seq::empty()
    } else {
        service_rows(svcs, (n - 1) as nat) + seq![service_row(svcs, svcs[n - 1].name@)]
    }
}

/// The rows of an application whose services have the statuses `vs`.
pub open spec fn app_rows(app: App, vs: Seq<StatusView>) -> Seq<Seq<char>> {
    seq![app_row(app, vs)] + service_rows(app.services@, app.services@.len())
}

/// The `ps` output given for the `i`-th application, none past the end.
pub open spec fn ps_at(ps: Seq<Option<Seq<char>>>, i: int) -> Option<Seq<char>> {
    if 0 <= i < ps.len() {
        ps[i]
    } else {
        None
    }
}

/// The rows of the first `n` applications.
pub open spec fn rows_upto(apps: Seq<App>, ps: Seq<Option<Seq<char>>>, n: nat) -> Seq<Seq<char>>
    decreases n,
{
    if n == 0 {
        Seq::empty()
    } else {
        rows_upto(apps, ps, (n - 1) as nat) + app_rows(
            apps[n - 1],
            statuses_of(apps[n - 1], ps_at(ps, n - 1)),
        )
    }
}

/// The lines `list` shows for `apps`, where `ps[i]` is the output of
/// `docker compose ps --format json` for `apps[i]` (none when it failed).
pub open spec fn list_lines(apps: Seq<App>, ps: Seq<Option<Seq<char>>>) -> Seq<Seq<char>> {
    if apps.len() == 0 {
        seq![no_apps_line()]
    } else {
        header_lines() + rows_upto(apps, ps, apps.len())
    }
}

/// The icon shown before a state word.
fn state_icon_exec(word: &str) -> (r: &'static str)
    ensures
        r@ == state_icon(word@),
{
    if str_eq(word, "running") {
        "🟢"
    } else if str_eq(word, "stopped") {
        "🔴"
    } else if str_eq(word, "partial") {
        "🟡"
    } else {
        "⚪"
    }
}

/// The first host name routed to the first service named `name`.
fn named_route_label_exec(svcs: &[Service], name: &str) -> (r: String)
    ensures
        r@ == named_route_label(svcs@, name@),
{
    match find_service(svcs, name) {
        Some(j) => if svcs[j].routes.len() > 0 {
            svcs[j].routes[0].subdomain.clone()
        } else {
            owned("-")
        },
        None => owned("-"),
    }
}

/// The rows of one application.
fn app_rows_exec(app: &App, ps: Option<&str>) -> (r: Vec<String>)
    ensures
        string_views(r@) == app_rows(*app, statuses_of(*app, match ps {
            Some(o) => Some(o@),
            None => None,
        })),
{
    let statuses = get_app_status(app, ps);
    let summary = build_summary(app, &statuses);
    let ghost vs = statuses_of(*app, match ps {
        Some(o) => Some(o@),
        None => None,
    });
    proof {
        lemma_state_word(statuses@);
    }
    let mut row = owned("  ");
    append_padded(&mut row, summary.name.as_str(), 14);
    row.append(" ");
    if summary.service_names.len() > 0 {
        append_padded(&mut row, summary.service_names[0].as_str(), 12);
    } else {
        append_padded(&mut row, "", 12);
    }
    row.append(" ");
    row.append(state_icon_exec(summary.status_summary.as_str()));
    let mut word = owned(" ");
    word.append(summary.status_summary.as_str());
    append_padded(&mut row, word.as_str(), 9);
    row.append(" ");
    if summary.routes.len() == 0 {
        append_padded(&mut row, "-", 32);
    } else {
        append_padded(&mut row, summary.routes[0].as_str(), 32);
    }
    row.append(" ");
    append_padded(&mut row, summary.database.as_str(), 14);
    row.append(" ");
    row.append(summary.data_path.as_str());
    proof {
        assert(string_views(summary.service_names@).len() == app.services@.len());
        if summary.service_names.len() > 0 {
            assert(string_views(summary.service_names@)[0] == summary.service_names@[0]@);
        }
        assert(string_views(summary.routes@).len() == summary.routes@.len());
        if summary.routes.len() > 0 {
            assert(string_views(summary.routes@)[0] == summary.routes@[0]@);
        }
        reveal_strlit("");
        reveal_strlit("-");
    }
    assert(row@ =~= app_row(*app, vs));
    let mut rows = vec![row];
    let n = app.services.len();
    let mut k: usize = 1;
    assert(string_views(rows@) =~= seq![app_row(*app, vs)] + service_rows(app.services@, 1));
    while k < n
        invariant
            1 <= k,
            k <= n || k == 1,
            n == app.services.len(),
            vs == statuses_of(*app, match ps {
                Some(o) => Some(o@),
                None => None,
            }),
            string_views(rows@) == seq![app_row(*app, vs)] + service_rows(app.services@, k as nat),
        decreases n - k,
    {
        let name = app.services[k].name.as_str();
        let mut line = owned("  ");
        append_padded(&mut line, "", 14);
        line.append(" ");
        append_padded(&mut line, name, 12);
        line.append(" ");
        append_padded(&mut line, "", 10);
        line.append(" ");
        append_padded(&mut line, named_route_label_exec(app.services.as_slice(), name).as_str(), 32);
        line.append(" ");
        append_padded(&mut line, "", 14);
        line.append(" ");
        proof {
            reveal_strlit("");
        }
        assert(line@ =~= service_row(app.services@, app.services@[k as int].name@));
        let ghost before = string_views(rows@);
        rows.push(line);
        assert(string_views(rows@) =~= before + seq![service_row(app.services@, app.services@[k as int].name@)]);
        k = k + 1;
    }
    proof {
        if n == 0 {
            assert(service_rows(app.services@, 0) =~= service_rows(app.services@, 1));
            assert(string_views(rows@) == seq![app_row(*app, vs)] + service_rows(app.services@, 0));
        } else {
            assert(k == n);
        }
        assert(string_views(rows@) == app_rows(*app, vs));
    }
    rows
}

/// The lines `list` shows for `apps`: a header and, for each application, a
/// row with its first service, state, first route, database and data path,
/// then one row for each further service. `ps_outputs[i]` is what
/// `docker compose ps --format json` printed for `apps[i]`, none when it
/// failed (or when `ps_outputs` is shorter).
pub fn run(apps: &[App], ps_outputs: &[Option<String>]) -> (r: Vec<String>)
    ensures
        string_views(r@) == list_lines(apps@, ps_outputs@.map_values(|o: Option<String>| opt_view(o))),
{
    let ghost ps = ps_outputs@.map_values(|o: Option<String>| opt_view(o));
    if apps.len() == 0 {
        let r = vec![owned("未发现任何应用。请先运行 homespace init 或确保 apps_root 下有 docker-compose.yml 文件。")];
        assert(string_views(r@) =~= list_lines(apps@, ps));
        return r;
    }
    let mut h1 = owned("  ");
    append_padded(&mut h1, "App", 14);
    h1.append(" ");
    append_padded(&mut h1, "Services", 12);
    h1.append(" ");
    append_padded(&mut h1, "Status", 10);
    h1.append(" ");
    append_padded(&mut h1, "Routes", 32);
    h1.append(" ");
    append_padded(&mut h1, "DB", 14);
    h1.append(" ");
    h1.append("Data Path");
    let mut h2 = owned("  ");
    append_dashes(&mut h2, 14);
    h2.append(" ");
    append_dashes(&mut h2, 12);
    h2.append(" ");
    append_dashes(&mut h2, 10);
    h2.append(" ");
    append_dashes(&mut h2, 32);
    h2.append(" ");
    append_dashes(&mut h2, 14);
    h2.append(" ");
    let mut out = vec![h1, h2];
    assert(string_views(out@) =~= header_lines() + rows_upto(apps@, ps, 0));
    let mut i: usize = 0;
    while i < apps.len()
        invariant
            i <= apps.len(),
            ps == ps_outputs@.map_values(|o: Option<String>| opt_view(o)),
            string_views(out@) == header_lines() + rows_upto(apps@, ps, i as nat),
        decreases apps.len() - i,
    {
        let p: Option<&str> = if i < ps_outputs.len() {
            match &ps_outputs[i] {
                Some(s) => Some(s.as_str()),
                None => None,
            }
        } else {
            None
        };
        assert(match p {
            Some(o) => Some(o@),
            None => None,
        } == ps_at(ps, i as int));
        let rows = app_rows_exec(&apps[i], p);
        let ghost before = string_views(out@);
        let mut k: usize = 0;
        while k < rows.len()
            invariant
                k <= rows.len(),
                string_views(out@) == before + string_views(rows@).take(k as int),
            decreases rows.len() - k,
        {
            let ghost prev = out@;
            out.push(rows[k].clone());
            assert(string_views(out@) =~= string_views(prev).push(rows@[k as int]@));
            assert(string_views(rows@).take(k + 1) =~= string_views(rows@).take(k as int).push(rows@[k as int]@));
            assert(string_views(out@) =~= before + string_views(rows@).take(k + 1));
            k = k + 1;
        }
        assert(string_views(rows@).take(rows.len() as int) =~= string_views(rows@));
        i = i + 1;
        assert(string_views(out@) =~= header_lines() + rows_upto(apps@, ps, i as nat));
    }
    assert(list_lines(apps@, ps) == header_lines() + rows_upto(apps@, ps, apps.len() as nat));
    out
}

} // verus!

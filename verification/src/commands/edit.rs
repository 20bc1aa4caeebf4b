//! Editing an application: the menu, what each choice reports, and whether
//! it marks the application as modified.
use vstd::prelude::*;
use crate::models::app::App;
use crate::paths::{join, join_path};
use crate::services::scanner::all_subdomains;
use crate::text::{owned, str_eq, string_views};

verus! {

/// A choice of the edit menu.
#[derive(Debug, Clone, Copy, PartialEq, Eq, Structural)]
pub enum EditChoice {
    /// Name and description.
    Basics,
    /// Image, version and ports of a service.
    Service,
    /// Traefik routes.
    Routes,
    /// Port mappings.
    PortMappings,
    /// Database.
    Database,
    /// Volumes and mounts.
    Volumes,
    /// Environment variables.
    Environment,
    /// Finish editing.
    Done,
}

/// The choice at position `selection` of the menu.
pub open spec fn edit_choice_at(selection: nat) -> EditChoice {
    if selection == 0 {
        EditChoice::Basics
    } else if selection == 1 {
        EditChoice::Service
    } else if selection == 2 {
        EditChoice::Routes
    } else if selection == 3 {
        EditChoice::PortMappings
    } else if selection == 4 {
        EditChoice::Database
    } else if selection == 5 {
        EditChoice::Volumes
    } else if selection == 6 {
        EditChoice::Environment
    } else {
        EditChoice::Done
    }
}

/// The choice at position `selection` of the eight-item menu.
pub fn edit_choice(selection: usize) -> (r: EditChoice)
    requires
        selection < 8,
    ensures
        r == edit_choice_at(selection as nat),
{
    if selection == 0 {
        EditChoice::Basics
    } else if selection == 1 {
        EditChoice::Service
    } else if selection == 2 {
        EditChoice::Routes
    } else if selection == 3 {
        EditChoice::PortMappings
    } else if selection == 4 {
        EditChoice::Database
    } else if selection == 5 {
        EditChoice::Volumes
    } else if selection == 6 {
        EditChoice::Environment
    } else {
        EditChoice::Done
    }
}

/// What the user typed for a choice (empty answers keep the value).
#[derive(Debug, Clone, PartialEq, Eq)]
pub struct EditAnswers {
    /// New application name.
    pub new_name: String,
    /// New description.
    pub new_description: String,
    /// New image of the chosen service.
    pub new_image: String,
    /// New version of the chosen service.
    pub new_version: String,
    /// New comma-separated ports of the chosen service.
    pub new_ports: String,
}

/// Whether a choice marks the application as modified, and the lines it
/// reports.
pub open spec fn edit_outcome(app: App, choice: EditChoice, a: EditAnswers) -> (bool, Seq<Seq<char>>) {
    match choice {
        EditChoice::Basics => {
            let rename = if a.new_name@.len() > 0 && a.new_name@ != app.name@ {
                seq!["  ⚠️  重命名功能需要在后续版本中完善"@]
            } else {
                Seq::empty()
            };
            let desc = if a.new_description@.len() > 0 {
                seq!["  ℹ️  描述更新将在重新生成时生效"@]
            } else {
                Seq::empty()
            };
            (a.new_description@.len() > 0, rename + desc)
        },
        EditChoice::Service => if app.services@.len() == 0 {
            (false, seq!["  该应用没有服务定义"@])
        } else {
            (
                a.new_image@.len() > 0 || a.new_version@.len() > 0 || a.new_ports@.len() > 0,
                seq!["⚠️  服务配置变更将在重新生成 compose 时应用"@],
            )
        },
        EditChoice::Routes => (
            false,
            seq!["⚠️  Traefik 路由修改功能将在后续版本完善"@, "    当前路由:"@] + all_subdomains(
                app.services@,
            ).map_values(|s: Seq<char>| "      - https://"@ + s),
        ),
        EditChoice::PortMappings => (false, seq!["⚠️  端口映射修改功能将在后续版本完善"@]),
        EditChoice::Database => (false, seq!["⚠️  数据库配置修改功能将在后续版本完善"@]),
        EditChoice::Volumes => (false, seq!["⚠️  数据卷修改功能将在后续版本完善"@]),
        EditChoice::Environment => (
            false,
            seq![
                "⚠️  环境变量修改功能将在后续版本完善"@,
                "    请直接编辑 .env 文件:"@,
                "    "@ + join_path(app.path@, ".env"@),
            ],
        ),
        EditChoice::Done => (false, Seq::empty()),
    }
}

/// Whether a choice, with the answers given for it, marks `app` as
/// modified, and the lines it reports. Changes are not applied to the
/// application: they take effect when its files are generated again.
pub fn edit_step(app: &App, choice: EditChoice, answers: &EditAnswers) -> (r: (bool, Vec<String>))
    ensures
        (r.0, string_views(r.1@)) == edit_outcome(*app, choice, *answers),
{
    match choice {
        EditChoice::Basics => {
            let mut out: Vec<String> = Vec::new();
            let named = answers.new_name.unicode_len() > 0 && !str_eq(answers.new_name.as_str(), app.name.as_str());
            if named {
                out.push(owned("  ⚠️  重命名功能需要在后续版本中完善"));
            }
            let described = answers.new_description.unicode_len() > 0;
            if described {
                out.push(owned("  ℹ️  描述更新将在重新生成时生效"));
            }
            assert(string_views(out@) =~= edit_outcome(*app, choice, *answers).1);
            (described, out)
        },
        EditChoice::Service => {
            if app.services.len() == 0 {
                let out = vec![owned("  该应用没有服务定义")];
                assert(string_views(out@) =~= edit_outcome(*app, choice, *answers).1);
                (false, out)
            } else {
                let out = vec![owned("⚠️  服务配置变更将在重新生成 compose 时应用")];
                assert(string_views(out@) =~= edit_outcome(*app, choice, *answers).1);
                (
                    answers.new_image.unicode_len() > 0 || answers.new_version.unicode_len() > 0
                        || answers.new_ports.unicode_len() > 0,
                    out,
                )
            }
        },
        EditChoice::Routes => {
            let mut out = vec![owned("⚠️  Traefik 路由修改功能将在后续版本完善"), owned("    当前路由:")];
            let ghost head = string_views(out@);
            let mut i: usize = 0;
            while i < app.services.len()
                invariant
                    i <= app.services.len(),
                    string_views(out@) == head + all_subdomains(app.services@.take(i as int)).map_values(
                        |s: Seq<char>| "      - https://"@ + s,
                    ),
                decreases app.services.len() - i,
            {
                assert(app.services@.take(i + 1).drop_last() =~= app.services@.take(i as int));
                let svc = &app.services[i];
                let ghost base = string_views(out@);
                let mut k: usize = 0;
                while k < svc.routes.len()
                    invariant
                        k <= svc.routes.len(),
                        string_views(out@) == base + svc.routes@.take(k as int).map_values(
                            |r: crate::models::app::TraefikRoute| "      - https://"@ + r.subdomain@,
                        ),
                    decreases svc.routes.len() - k,
                {
                    let mut l = owned("      - https://");
                    l.append(svc.routes[k].subdomain.as_str());
                    let ghost prev = string_views(out@);
                    let ghost lview = l@;
                    out.push(l);
                    assert(string_views(out@) =~= prev.push(lview));
                    assert(svc.routes@.take(k + 1).map_values(
                        |r: crate::models::app::TraefikRoute| "      - https://"@ + r.subdomain@,
                    ) =~= svc.routes@.take(k as int).map_values(
                        |r: crate::models::app::TraefikRoute| "      - https://"@ + r.subdomain@,
                    ).push("      - https://"@ + svc.routes@[k as int].subdomain@));
                    k = k + 1;
                }
                assert(svc.routes@.take(svc.routes.len() as int) =~= svc.routes@);
                proof {
                    let f = |s: Seq<char>| "      - https://"@ + s;
                    let prefix = all_subdomains(app.services@.take(i as int));
                    let subs = crate::services::scanner::subdomains(*svc);
                    assert(svc.routes@.map_values(
                        |r: crate::models::app::TraefikRoute| "      - https://"@ + r.subdomain@,
                    ) =~= subs.map_values(f));
                    assert((prefix + subs).map_values(f) =~= prefix.map_values(f) + subs.map_values(f));
                }
                i = i + 1;
            }
            assert(app.services@.take(app.services.len() as int) =~= app.services@);
            (false, out)
        },
        EditChoice::PortMappings => {
            let out = vec![owned("⚠️  端口映射修改功能将在后续版本完善")];
            assert(string_views(out@) =~= edit_outcome(*app, choice, *answers).1);
            (false, out)
        },
        EditChoice::Database => {
            let out = vec![owned("⚠️  数据库配置修改功能将在后续版本完善")];
            assert(string_views(out@) =~= edit_outcome(*app, choice, *answers).1);
            (false, out)
        },
        EditChoice::Volumes => {
            let out = vec![owned("⚠️  数据卷修改功能将在后续版本完善")];
            assert(string_views(out@) =~= edit_outcome(*app, choice, *answers).1);
            (false, out)
        },
        EditChoice::Environment => {
            let mut l = owned("    ");
            l.append(join(app.path.as_str(), ".env").as_str());
            let out = vec![owned("⚠️  环境变量修改功能将在后续版本完善"), owned("    请直接编辑 .env 文件:"), l];
            assert(string_views(out@) =~= edit_outcome(*app, choice, *answers).1);
            (false, out)
        },
        EditChoice::Done => {
            let out: Vec<String> = Vec::new();
            assert(string_views(out@) =~= edit_outcome(*app, choice, *answers).1);
            (false, out)
        },
    }
}

} // verus!

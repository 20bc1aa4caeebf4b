//! Removing an application: which containers to stop or delete, which data
//! directory to purge, and which shared databases go with it.
use vstd::prelude::*;
use crate::config::Config;
use crate::models::app::{App, DatabaseConfig, Service};
use crate::paths::{is_relative, is_relative_path, join, join_path};
use crate::services::database::{drop_database_and_user, drop_sql_spec, psql_args_spec};
use crate::services::docker::{compose_args, compose_args_spec, ComposeOp};
use crate::services::git::{commit_message, git_commit_args, git_rm_args, git_rm_args_spec};
use crate::text::{str_eq, string_views};

verus! {

/// The infrastructure projects, whose removal asks for confirmation.
pub open spec fn is_infra_name(name: Seq<char>) -> bool {
    name == "traefik"@ || name == "postgres"@
}

/// Whether `name` is one of the infrastructure projects.
pub fn is_infra_app(name: &str) -> (r: bool)
    ensures
        r == is_infra_name(name@),
{
    str_eq(name, "traefik") || str_eq(name, "postgres")
}

/// What to do with an application that is removed interactively.
#[derive(Debug, Clone, Copy, PartialEq, Eq, Structural)]
pub enum RemoveAction {
    /// Stop the containers only.
    Stop,
    /// Stop and delete the containers, keep the data.
    Down,
    /// Delete the containers and volumes, and the data directory.
    Purge,
}

/// The action of a choice in the menu (stop, down, purge); down by default.
pub fn removal_action(selection: usize) -> (r: RemoveAction)
    ensures
        r == if selection == 0 {
            RemoveAction::Stop
        } else if selection == 2 {
            RemoveAction::Purge
        } else {
            RemoveAction::Down
        },
{
    if selection == 0 {
        RemoveAction::Stop
    } else if selection == 2 {
        RemoveAction::Purge
    } else {
        RemoveAction::Down
    }
}

/// `dir/name`, with a relative `dir` taken in the application directory.
pub open spec fn data_dir_under(app: App, dir: Seq<char>) -> Seq<char> {
    if is_relative_path(dir) {
        join_path(join_path(app.path@, dir), app.name@)
    } else {
        join_path(dir, app.name@)
    }
}

/// The data directory purged by a forced removal: under the application's
/// data root, or else the global one, a relative root taken in the
/// application directory.
pub open spec fn forced_data_dir(app: App, config: Config) -> Seq<char> {
    match app.data_root {
        Some(d) => data_dir_under(app, d@),
        None => data_dir_under(app, config.paths.data_root@),
    }
}

/// The data directory purged by an interactive removal: under the
/// application's data root (a relative one taken in the application
/// directory), or else under the global data root as it is.
pub open spec fn purged_data_dir(app: App, config: Config) -> Seq<char> {
    match app.data_root {
        Some(d) => data_dir_under(app, d@),
        None => join_path(config.paths.data_root@, app.name@),
    }
}

/// `dir/name`, a relative `dir` taken in the application directory.
fn data_dir_under_exec(app: &App, dir: &str) -> (r: String)
    ensures
        r@ == data_dir_under(*app, dir@),
{
    if is_relative(dir) {
        let base = join(app.path.as_str(), dir);
        join(base.as_str(), app.name.as_str())
    } else {
        join(dir, app.name.as_str())
    }
}

/// The data directory a forced removal with purge deletes.
pub fn forced_data_dir_exec(app: &App, config: &Config) -> (r: String)
    ensures
        r@ == forced_data_dir(*app, *config),
{
    match &app.data_root {
        Some(d) => data_dir_under_exec(app, d.as_str()),
        None => data_dir_under_exec(app, config.paths.data_root.as_str()),
    }
}

/// The data directory an interactive purge deletes.
pub fn purged_data_dir_exec(app: &App, config: &Config) -> (r: String)
    ensures
        r@ == purged_data_dir(*app, *config),
{
    match &app.data_root {
        Some(d) => data_dir_under_exec(app, d.as_str()),
        None => join(config.paths.data_root.as_str(), app.name.as_str()),
    }
}

/// Both ways of removal purge the same directory, unless the application
/// has no data root of its own and the global one is relative.
pub proof fn lemma_data_dirs_agree(app: App, config: Config)
    requires
        app.data_root is Some || !is_relative_path(config.paths.data_root@),
    ensures
        forced_data_dir(app, config) == purged_data_dir(app, config),
{
}

/// What a removal does to the containers and the data.
#[derive(Debug, Clone, PartialEq, Eq)]
pub struct RemovalPlan {
    /// The `docker` arguments run on the application.
    pub compose_args: Vec<String>,
    /// The data directory to delete, if any (when it exists).
    pub data_dir: Option<String>,
}

/// The compose operation of a removal.
pub open spec fn removal_op(force: bool, purge: bool, action: RemoveAction) -> ComposeOp {
    if force {
        ComposeOp::Down { remove_volumes: purge }
    } else {
        match action {
            RemoveAction::Stop => ComposeOp::Stop,
            RemoveAction::Down => ComposeOp::Down { remove_volumes: false },
            RemoveAction::Purge => ComposeOp::Down { remove_volumes: true },
        }
    }
}

/// The data directory a removal deletes, if any.
pub open spec fn removal_data_dir(app: App, config: Config, force: bool, purge: bool, action: RemoveAction) -> Option<Seq<char>> {
    if force {
        if purge {
            Some(forced_data_dir(app, config))
        } else {
            None
        }
    } else if action == RemoveAction::Purge {
        Some(purged_data_dir(app, config))
    } else {
        None
    }
}

/// What removing `app` does: forced (`down`, with `-v` and the data
/// directory when purging), or by the chosen action.
pub fn plan_removal(app: &App, config: &Config, force: bool, purge: bool, action: RemoveAction) -> (r: RemovalPlan)
    ensures
        string_views(r.compose_args@) == compose_args_spec(app.path@, removal_op(force, purge, action)),
        crate::paths::opt_view(r.data_dir) == removal_data_dir(*app, *config, force, purge, action),
{
    if force {
        let args = compose_args(app.path.as_str(), ComposeOp::Down { remove_volumes: purge });
        let data_dir = if purge {
            Some(forced_data_dir_exec(app, config))
        } else {
            None
        };
        RemovalPlan { compose_args: args, data_dir }
    } else {
        match action {
            RemoveAction::Stop => RemovalPlan {
                compose_args: compose_args(app.path.as_str(), ComposeOp::Stop),
                data_dir: None,
            },
            RemoveAction::Down => RemovalPlan {
                compose_args: compose_args(app.path.as_str(), ComposeOp::Down { remove_volumes: false }),
                data_dir: None,
            },
            RemoveAction::Purge => RemovalPlan {
                compose_args: compose_args(app.path.as_str(), ComposeOp::Down { remove_volumes: true }),
                data_dir: Some(purged_data_dir_exec(app, config)),
            },
        }
    }
}

/// The shared databases of an application: name and user of each service's
/// shared PostgreSQL database, in service order.
pub open spec fn shared_databases(svcs: Seq<Service>) -> Seq<(Seq<char>, Seq<char>)>
    decreases svcs.len(),
{
    if svcs.len() == 0 {
        Seq::empty()
    } else {
        shared_databases(svcs.drop_last()) + match svcs.last().database {
            DatabaseConfig::SharedPostgres { db_name, user, .. } => seq![(db_name@, user@)],
            DatabaseConfig::NoDatabase => Seq::empty(),
        }
    }
}

/// The shared databases of an application.
pub fn databases_of(app: &App) -> (r: Vec<(String, String)>)
    ensures
        r@.map_values(|p: (String, String)| (p.0@, p.1@)) == shared_databases(app.services@),
{
    let mut r: Vec<(String, String)> = Vec::new();
    let mut i: usize = 0;
    while i < app.services.len()
        invariant
            i <= app.services.len(),
            r@.map_values(|p: (String, String)| (p.0@, p.1@)) == shared_databases(app.services@.take(i as int)),
        decreases app.services.len() - i,
    {
        assert(app.services@.take(i + 1).drop_last() =~= app.services@.take(i as int));
        match &app.services[i].database {
            DatabaseConfig::SharedPostgres { db_name, user, .. } => {
                r.push((db_name.clone(), user.clone()));
            },
            DatabaseConfig::NoDatabase => {},
        }
        assert(r@.map_values(|p: (String, String)| (p.0@, p.1@)) =~= shared_databases(app.services@.take(i + 1)));
        i = i + 1;
    }
    assert(app.services@.take(app.services.len() as int) =~= app.services@);
    r
}

/// The `docker` arguments that drop a shared database and its user when the
/// removal drops it (forced, or confirmed) and the administrator password
/// is known; none otherwise.
pub fn drop_database_step(
    force: bool,
    confirmed: bool,
    db_name: &str,
    user: &str,
    postgres_network: &str,
    admin_user: &str,
    admin_password: &str,
    admin_db: &str,
) -> (r: Option<Vec<String>>)
    ensures
        (force || confirmed) && admin_password@.len() > 0 ==> (r matches Some(args) && string_views(args@)
            == psql_args_spec(postgres_network@, admin_user@, admin_password@, admin_db@, drop_sql_spec(db_name@, user@))),
        !((force || confirmed) && admin_password@.len() > 0) ==> r is None,
{
    if (force || confirmed) && admin_password.unicode_len() > 0 {
        Some(drop_database_and_user(db_name, user, postgres_network, admin_user, admin_password, admin_db))
    } else {
        None
    }
}

/// The `git` runs that follow a removal, with Git enabled in a repository:
/// removing the application from the repository (from the index only, the
/// files kept, unless purging) and, when asked, committing it.
pub open spec fn removal_git_spec(app: App, config: Config, purge: bool, commit: bool, no_git: bool, is_repo: bool) -> Seq<Seq<Seq<char>>> {
    let root = config.paths.apps_root@;
    if !no_git && is_repo {
        seq![git_rm_args_spec(root, app.path@, !purge)] + if commit {
            seq![seq!["-C"@, root, "commit"@, "-m"@, "homespace: "@ + "remove"@ + " "@ + app.name@]]
        } else {
            Seq::empty()
        }
    } else {
        Seq::empty()
    }
}

/// The `git` runs that follow the removal of `app`.
pub fn removal_git_args(app: &App, config: &Config, purge: bool, commit: bool, no_git: bool, is_repo: bool) -> (r: Vec<Vec<String>>)
    ensures
        r@.map_values(|a: Vec<String>| string_views(a@)) == removal_git_spec(*app, *config, purge, commit, no_git, is_repo),
{
    let mut r: Vec<Vec<String>> = Vec::new();
    if !no_git && is_repo {
        let rm = git_rm_args(config.paths.apps_root.as_str(), app.path.as_str(), !purge);
        let ghost rm_view = string_views(rm@);
        r.push(rm);
        assert(r@.map_values(|a: Vec<String>| string_views(a@)) =~= seq![rm_view]);
        if commit {
            let message = commit_message("remove", app.name.as_str());
            let c = git_commit_args(config.paths.apps_root.as_str(), message.as_str());
            let ghost c_view = string_views(c@);
            r.push(c);
            assert(r@.map_values(|a: Vec<String>| string_views(a@)) =~= seq![rm_view, c_view]);
        }
    }
    assert(r@.map_values(|a: Vec<String>| string_views(a@)) =~= removal_git_spec(*app, *config, purge, commit, no_git, is_repo));
    r
}

} // verus!

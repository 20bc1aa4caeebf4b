//! Starting, stopping, restarting, pulling and building an application.
use vstd::prelude::*;
use crate::commands::{app_index, find_app};
use crate::models::app::App;
use crate::services::docker::{compose_args, compose_args_spec, ComposeOp};
use crate::text::string_views;
use crate::text::{owned, str_eq};

verus! {

/// Why a lifecycle operation was refused.
#[derive(Debug, Clone, Copy, PartialEq, Eq, Structural)]
pub enum LifecycleError {
    /// No application has the given name.
    AppNotFound,
    /// The action is none of `start`, `stop`, `restart`, `pull`, `build`.
    UnknownAction,
}

/// The compose operation an action names.
pub open spec fn action_op(action: Seq<char>) -> Option<ComposeOp> {
    if action == "start"@ {
        Some(ComposeOp::Up)
    } else if action == "stop"@ {
        Some(ComposeOp::Stop)
    } else if action == "restart"@ {
        Some(ComposeOp::Restart)
    } else if action == "pull"@ {
        Some(ComposeOp::Pull)
    } else if action == "build"@ {
        Some(ComposeOp::Build)
    } else {
        None
    }
}

/// The compose operation an action names.
pub fn parse_action(action: &str) -> (r: Option<ComposeOp>)
    ensures
        r == action_op(action@),
{
    if str_eq(action, "start") {
        Some(ComposeOp::Up)
    } else if str_eq(action, "stop") {
        Some(ComposeOp::Stop)
    } else if str_eq(action, "restart") {
        Some(ComposeOp::Restart)
    } else if str_eq(action, "pull") {
        Some(ComposeOp::Pull)
    } else if str_eq(action, "build") {
        Some(ComposeOp::Build)
    } else {
        None
    }
}

/// The `docker` arguments that carry out `action` (`start`, `stop`,
/// `restart`, `pull` or `build`) on the application named `app_name` among
/// `apps`. The application is looked up first, then the action.
pub fn run(app_name: &str, apps: &[App], action: &str) -> (r: Result<Vec<String>, LifecycleError>)
    ensures
        match app_index(apps@, app_name@) {
            None => r == Err::<Vec<String>, LifecycleError>(LifecycleError::AppNotFound),
            Some(i) => match action_op(action@) {
                None => r == Err::<Vec<String>, LifecycleError>(LifecycleError::UnknownAction),
                Some(op) => r matches Ok(args) && string_views(args@) == compose_args_spec(apps@[i].path@, op),
            },
        },
{
    let i = match find_app(apps, app_name) {
        Some(i) => i,
        None => return Err(LifecycleError::AppNotFound),
    };
    match parse_action(action) {
        Some(op) => Ok(compose_args(apps[i].path.as_str(), op)),
        None => Err(LifecycleError::UnknownAction),
    }
}

/// The line announcing a lifecycle operation on `app_name`.
pub open spec fn start_line_spec(app_name: Seq<char>, op: ComposeOp) -> Seq<char> {
    match op {
        ComposeOp::Up => "🚀 正在启动 "@ + app_name + "..."@,
        ComposeOp::Stop => "⏹️  正在停止 "@ + app_name + "..."@,
        ComposeOp::Restart => "🔄 正在重启 "@ + app_name + "..."@,
        ComposeOp::Pull => "⬇️  正在拉取 "@ + app_name + " 的最新镜像..."@,
        _ => "🔨 正在构建 "@ + app_name + "..."@,
    }
}

/// The line reporting a finished lifecycle operation on `app_name`.
pub open spec fn done_line_spec(app_name: Seq<char>, op: ComposeOp) -> Seq<char> {
    match op {
        ComposeOp::Up => "  ✅ "@ + app_name + " 启动完成"@,
        ComposeOp::Stop => "  ✅ "@ + app_name + " 停止完成"@,
        ComposeOp::Restart => "  ✅ "@ + app_name + " 重启完成"@,
        ComposeOp::Pull => "  ✅ "@ + app_name + " 镜像拉取完成"@,
        _ => "  ✅ "@ + app_name + " 构建完成"@,
    }
}

/// The line announcing a lifecycle operation.
pub fn start_line(app_name: &str, op: ComposeOp) -> (r: String)
    ensures
        r@ == start_line_spec(app_name@, op),
{
    let mut r = match op {
        ComposeOp::Up => owned("🚀 正在启动 "),
        ComposeOp::Stop => owned("⏹️  正在停止 "),
        ComposeOp::Restart => owned("🔄 正在重启 "),
        ComposeOp::Pull => owned("⬇️  正在拉取 "),
        _ => owned("🔨 正在构建 "),
    };
    r.append(app_name);
    match op {
        ComposeOp::Pull => r.append(" 的最新镜像..."),
        _ => r.append("..."),
    }
    r
}

/// The line reporting a finished lifecycle operation.
pub fn done_line(app_name: &str, op: ComposeOp) -> (r: String)
    ensures
        r@ == done_line_spec(app_name@, op),
{
    let mut r = owned("  ✅ ");
    r.append(app_name);
    match op {
        ComposeOp::Up => r.append(" 启动完成"),
        ComposeOp::Stop => r.append(" 停止完成"),
        ComposeOp::Restart => r.append(" 重启完成"),
        ComposeOp::Pull => r.append(" 镜像拉取完成"),
        _ => r.append(" 构建完成"),
    }
    r
}

} // verus!

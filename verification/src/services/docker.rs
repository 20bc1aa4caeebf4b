//! The `docker` invocations of the tool, and the reading of their output.
use vstd::prelude::*;
use crate::paths::{join, join_path};
use crate::text::{chars_eq, chars_of, char_views, lines, lines_exec, owned, string_views, trim, trim_exec};

verus! {

/// A `docker compose` operation on one project.
#[derive(Debug, Clone, Copy, PartialEq, Eq, Structural)]
pub enum ComposeOp {
    /// `up -d`: create and start the containers in the background.
    Up,
    /// `down`, with `-v` when volumes are removed too.
    Down {
        /// Whether named volumes are removed.
        remove_volumes: bool,
    },
    /// `stop`.
    Stop,
    /// `restart`.
    Restart,
    /// `pull`.
    Pull,
    /// `build`.
    Build,
    /// `ps --format json`.
    Ps,
}

/// The compose file of the project in `app_dir`.
pub open spec fn compose_file_of(app_dir: Seq<char>) -> Seq<char> {
    join_path(app_dir, "docker-compose.yml"@)
}

/// The arguments that select an operation.
pub open spec fn op_args(op: ComposeOp) -> Seq<Seq<char>> {
    match op {
        ComposeOp::Up => seq!["up"@, "-d"@],
        ComposeOp::Down { remove_volumes } => if remove_volumes {
            seq!["down"@, "-v"@]
        } else {
            seq!["down"@]
        },
        ComposeOp::Stop => seq!["stop"@],
        ComposeOp::Restart => seq!["restart"@],
        ComposeOp::Pull => seq!["pull"@],
        ComposeOp::Build => seq!["build"@],
        ComposeOp::Ps => seq!["ps"@, "--format"@, "json"@],
    }
}

/// The arguments of `docker` that run `op` on the project in `app_dir`.
pub open spec fn compose_args_spec(app_dir: Seq<char>, op: ComposeOp) -> Seq<Seq<char>> {
    seq!["compose"@, "-f"@, compose_file_of(app_dir)] + op_args(op)
}

/// The arguments of `docker` that run `op` on the project in `app_dir`.
pub fn compose_args(app_dir: &str, op: ComposeOp) -> (r: Vec<String>)
    ensures
        string_views(r@) == compose_args_spec(app_dir@, op),
{
    let mut r = vec![owned("compose"), owned("-f"), join(app_dir, "docker-compose.yml")];
    match op {
        ComposeOp::Up => {
            r.push(owned("up"));
            r.push(owned("-d"));
        },
        ComposeOp::Down { remove_volumes } => {
            r.push(owned("down"));
            if remove_volumes {
                r.push(owned("-v"));
            }
        },
        ComposeOp::Stop => r.push(owned("stop")),
        ComposeOp::Restart => r.push(owned("restart")),
        ComposeOp::Pull => r.push(owned("pull")),
        ComposeOp::Build => r.push(owned("build")),
        ComposeOp::Ps => {
            r.push(owned("ps"));
            r.push(owned("--format"));
            r.push(owned("json"));
        },
    }
    assert(string_views(r@) =~= compose_args_spec(app_dir@, op));
    r
}

/// Some line of `output`, trimmed, is exactly `name` (how `docker network ls`
/// and `docker ps` listings are searched).
pub open spec fn lists_name_spec(output: Seq<char>, name: Seq<char>) -> bool {
    exists|i: int| 0 <= i < lines(output).len() && trim(#[trigger] lines(output)[i]) == name
}

/// Whether a one-name-per-line listing `output` holds `name`.
pub fn lists_name(output: &str, name: &str) -> (r: bool)
    ensures
        r == lists_name_spec(output@, name@),
{
    let ls = lines_exec(&chars_of(output));
    let key = chars_of(name);
    let ghost lv = char_views(ls@);
    let mut i: usize = 0;
    while i < ls.len()
        invariant
            i <= ls.len(),
            lv == char_views(ls@),
            lv == lines(output@),
            key@ == name@,
            forall|j: int| 0 <= j < i ==> trim(#[trigger] lv[j]) != name@,
        decreases ls.len() - i,
    {
        let t = trim_exec(&ls[i]);
        assert(lv[i as int] == ls@[i as int]@);
        if chars_eq(&t, &key) {
            return true;
        }
        i = i + 1;
    }
    false
}

} // verus!

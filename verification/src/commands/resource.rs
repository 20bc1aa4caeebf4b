//! The shared resource directories of the global configuration: the
//! subcommands, the listing, and adding one from what the user typed.
use vstd::prelude::*;
use crate::commands::list::{dashes, padded};
use crate::config::{describes, lookup_resource, Config, SharedResourceConfig};
use crate::models::app::SharedResource;
use crate::text::{
    append_dashes, append_padded, chars_of, decimal, decimal_string, owned, parse_unsigned,
    parse_unsigned_exec, str_eq, string_views,
};

verus! {

/// A `resource` subcommand.
#[derive(Debug, Clone, Copy, PartialEq, Eq, Structural)]
pub enum ResourceCommand {
    /// List the shared resources.
    List,
    /// Add a shared resource.
    Add,
    /// Remove a shared resource.
    Remove,
}

/// Why a `resource` request was refused.
#[derive(Debug, Clone, Copy, PartialEq, Eq, Structural)]
pub enum ResourceError {
    /// The subcommand is none of `list`, `add`, `remove`.
    UnknownSubcommand,
    /// A resource with that name exists already.
    AlreadyExists,
    /// The UID is not a number.
    InvalidUid,
    /// The GID is not a number.
    InvalidGid,
}

/// The subcommand a word names.
pub open spec fn subcommand_of(s: Seq<char>) -> Option<ResourceCommand> {
    if s == "list"@ {
        Some(ResourceCommand::List)
    } else if s == "add"@ {
        Some(ResourceCommand::Add)
    } else if s == "remove"@ {
        Some(ResourceCommand::Remove)
    } else {
        None
    }
}

/// The subcommand named `subcommand` (`list`, `add` or `remove`).
pub fn run_sub(subcommand: &str) -> (r: Result<ResourceCommand, ResourceError>)
    ensures
        r == match subcommand_of(subcommand@) {
            Some(c) => Ok::<ResourceCommand, ResourceError>(c),
            None => Err(ResourceError::UnknownSubcommand),
        },
{
    if str_eq(subcommand, "list") {
        Ok(ResourceCommand::List)
    } else if str_eq(subcommand, "add") {
        Ok(ResourceCommand::Add)
    } else if str_eq(subcommand, "remove") {
        Ok(ResourceCommand::Remove)
    } else {
        Err(ResourceError::UnknownSubcommand)
    }
}

/// `u:g` when both owner ids are set, `-` otherwise.
pub open spec fn owner_label(uid: Option<u32>, gid: Option<u32>) -> Seq<char> {
    match (uid, gid) {
        (Some(u), Some(g)) => decimal(u as nat) + ":"@ + decimal(g as nat),
        _ => "-"@,
    }
}

/// The row of one resource.
pub open spec fn resource_row(r: SharedResource) -> Seq<char> {
    let mode = if r.read_only {
        "r/o"@
    } else {
        "r/w"@
    };
    "  "@ + padded(r.name@, 16) + " "@ + padded(r.path@, 40) + " "@ + padded(mode, 6) + " "@ + padded(
        owner_label(r.uid, r.gid),
        20,
    ) + " "@ + r.description@
}

/// The row of a configured resource.
pub open spec fn entry_row(e: (String, SharedResourceConfig)) -> Seq<char> {
    let mode = if e.1.read_only {
        "r/o"@
    } else {
        "r/w"@
    };
    "  "@ + padded(e.0@, 16) + " "@ + padded(e.1.path@, 40) + " "@ + padded(mode, 6) + " "@ + padded(
        owner_label(e.1.uid, e.1.gid),
        20,
    ) + " "@ + e.1.description@
}

/// The lines `resource list` prints for the configured resources `es`.
pub open spec fn resource_list_lines(es: Seq<(String, SharedResourceConfig)>) -> Seq<Seq<char>> {
    if es.len() == 0 {
        seq!["暂无共享资源定义。"@, "使用 homespace resource add 添加。"@]
    } else {
        seq![
            "  "@ + padded("Name"@, 16) + " "@ + padded("Path"@, 40) + " "@ + padded("Mode"@, 6) + " "@
                + padded("UID:GID"@, 20) + " "@ + "Description"@,
            "  "@ + dashes(16) + " "@ + dashes(40) + " "@ + dashes(6) + " "@ + dashes(20) + " "@,
        ] + es.map_values(|e: (String, SharedResourceConfig)| entry_row(e))
    }
}

/// The row of one resource.
fn resource_row_exec(r: &SharedResource) -> (line: String)
    ensures
        line@ == resource_row(*r),
{
    let mut line = owned("  ");
    append_padded(&mut line, r.name.as_str(), 16);
    line.append(" ");
    append_padded(&mut line, r.path.as_str(), 40);
    line.append(" ");
    append_padded(&mut line, if r.read_only {
        "r/o"
    } else {
        "r/w"
    }, 6);
    line.append(" ");
    let owner = match (r.uid, r.gid) {
        (Some(u), Some(g)) => {
            let mut s = decimal_string(u as u64);
            s.append(":");
            s.append(decimal_string(g as u64).as_str());
            s
        },
        _ => owned("-"),
    };
    append_padded(&mut line, owner.as_str(), 20);
    line.append(" ");
    line.append(r.description.as_str());
    line
}

/// The lines `resource list` prints: a table of the shared resources in
/// name order with path, mode, owner and description, or a hint when there
/// is none.
pub fn list(config: &Config) -> (r: Vec<String>)
    ensures
        string_views(r@) == resource_list_lines(config.shared_resources@),
{
    let resources = config.get_shared_resources();
    let ghost es = config.shared_resources@;
    if resources.len() == 0 {
        let r = vec![owned("暂无共享资源定义。"), owned("使用 homespace resource add 添加。")];
        assert(string_views(r@) =~= resource_list_lines(es));
        return r;
    }
    let mut h1 = owned("  ");
    append_padded(&mut h1, "Name", 16);
    h1.append(" ");
    append_padded(&mut h1, "Path", 40);
    h1.append(" ");
    append_padded(&mut h1, "Mode", 6);
    h1.append(" ");
    append_padded(&mut h1, "UID:GID", 20);
    h1.append(" ");
    h1.append("Description");
    let mut h2 = owned("  ");
    append_dashes(&mut h2, 16);
    h2.append(" ");
    append_dashes(&mut h2, 40);
    h2.append(" ");
    append_dashes(&mut h2, 6);
    h2.append(" ");
    append_dashes(&mut h2, 20);
    h2.append(" ");
    let mut out = vec![h1, h2];
    let ghost head = string_views(out@);
    let mut i: usize = 0;
    while i < resources.len()
        invariant
            i <= resources.len() == es.len(),
            es == config.shared_resources@,
            forall|j: int| 0 <= j < resources.len() ==> describes(#[trigger] resources[j], es[j].0@, es[j].1),
            string_views(out@) == head + es.take(i as int).map_values(|e: (String, SharedResourceConfig)| entry_row(e)),
        decreases resources.len() - i,
    {
        let line = resource_row_exec(&resources[i]);
        assert(describes(resources[i as int], es[i as int].0@, es[i as int].1));
        assert(line@ == entry_row(es[i as int]));
        let ghost before = out@;
        out.push(line);
        assert(es.take(i + 1).map_values(|e: (String, SharedResourceConfig)| entry_row(e)) =~= es.take(i as int).map_values(
            |e: (String, SharedResourceConfig)| entry_row(e),
        ).push(entry_row(es[i as int])));
        assert(string_views(out@) =~= string_views(before).push(entry_row(es[i as int])));
        i = i + 1;
    }
    assert(es.take(es.len() as int) =~= es);
    assert(string_views(out@) =~= resource_list_lines(es));
    out
}

/// An owner id as typed: none when left empty, the number otherwise; not
/// a valid id when it is not a decimal number that fits in 32 bits.
pub open spec fn owner_id_of(text: Seq<char>) -> Option<Option<u32>> {
    if text.len() == 0 {
        Some(None)
    } else {
        match parse_unsigned(text, 0xffff_ffff) {
            Some(v) => Some(Some(v as u32)),
            None => None,
        }
    }
}

/// An owner id as typed (see `owner_id_of`).
pub fn owner_id(text: &str) -> (r: Option<Option<u32>>)
    ensures
        r == owner_id_of(text@),
{
    let v = chars_of(text);
    if v.len() == 0 {
        return Some(None);
    }
    match parse_unsigned_exec(&v, 0xffff_ffff) {
        Some(n) => Some(Some(n as u32)),
        None => None,
    }
}

/// Refuses a name that is already taken.
pub fn check_new_resource(config: &Config, name: &str) -> (r: Result<(), ResourceError>)
    requires
        config.wf(),
    ensures
        r is Err <==> lookup_resource(config.shared_resources@, name@) is Some,
        r is Err ==> r == Err::<(), ResourceError>(ResourceError::AlreadyExists),
{
    match config.get_shared_resource(name) {
        Some(_) => Err(ResourceError::AlreadyExists),
        None => Ok(()),
    }
}

/// The resource that `resource add` stores for the answers given: the
/// UID typed, and the GID typed (asked only when a UID was given).
pub open spec fn added_resource(
    path: Seq<char>,
    description: Seq<char>,
    read_only: bool,
    uid: Option<u32>,
    gid_text: Seq<char>,
) -> Option<(Option<u32>, Option<u32>)> {
    match uid {
        None => Some((None, None)),
        Some(u) => match owner_id_of(gid_text) {
            Some(g) => Some((Some(u), g)),
            None => None,
        },
    }
}

/// Adds the shared resource `name` from what the user typed. Refused, with
/// the configuration unchanged, when the name is taken, or when the UID or,
/// after a UID, the GID is not a number; the GID is ignored without a UID.
pub fn add(
    config: &mut Config,
    name: &str,
    path: &str,
    description: &str,
    read_only: bool,
    uid_text: &str,
    gid_text: &str,
) -> (r: Result<(), ResourceError>)
    requires
        old(config).wf(),
    ensures
        final(config).wf(),
        lookup_resource(old(config).shared_resources@, name@) is Some ==> r == Err::<(), ResourceError>(
            ResourceError::AlreadyExists,
        ),
        lookup_resource(old(config).shared_resources@, name@) is None ==> match owner_id_of(uid_text@) {
            None => r == Err::<(), ResourceError>(ResourceError::InvalidUid),
            Some(uid) => match added_resource(path@, description@, read_only, uid, gid_text@) {
                None => r == Err::<(), ResourceError>(ResourceError::InvalidGid),
                Some(ids) => r is Ok,
            },
        },
        r is Err ==> *final(config) == *old(config),
        r is Ok ==> {
            &&& final(config).paths == old(config).paths
            &&& final(config).home == old(config).home
            &&& lookup_resource(final(config).shared_resources@, name@) matches Some(c) && c.path@ == path@
                && c.description@ == description@ && c.read_only == read_only && Some((c.uid, c.gid))
                == added_resource(path@, description@, read_only, owner_id_of(uid_text@)->0, gid_text@)
            &&& forall|k: Seq<char>|
                k != name@ ==> lookup_resource(final(config).shared_resources@, k) == lookup_resource(
                    old(config).shared_resources@,
                    k,
                )
        },
{
    if check_new_resource(config, name).is_err() {
        return Err(ResourceError::AlreadyExists);
    }
    let uid = match owner_id(uid_text) {
        Some(u) => u,
        None => return Err(ResourceError::InvalidUid),
    };
    let gid = match uid {
        Some(_) => match owner_id(gid_text) {
            Some(g) => g,
            None => return Err(ResourceError::InvalidGid),
        },
        None => None,
    };
    config.add_shared_resource(
        name,
        SharedResourceConfig {
            path: owned(path),
            description: owned(description),
            read_only,
            uid,
            gid,
        },
    );
    Ok(())
}

} // verus!

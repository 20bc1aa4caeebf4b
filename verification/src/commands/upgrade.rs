//! Upgrading the image version of an application's services: which
//! services, and how the version variables of its `.env` file change.
use vstd::prelude::*;
use crate::commands::{find_service, first_index, is_first, lemma_first_index, service_index};
use crate::services::database::reads_back;
use crate::models::app::{App, Service};
use crate::services::scanner::{env_value, parse_env_var};
use crate::text::{
    char_views, chars_of, has_prefix, has_prefix_exec, is_ws, join_with, lemma_lines_append,
    lemma_lines_cons, lemma_lines_have_no_newline, lemma_lines_of_joined, lemma_trim_clean,
    lemma_trim_fixed, lemma_trim_strip_cr, lines, lines_exec, owned, strip_cr, string_of, string_views, to_upper, trim, trim_exec, uppercase,
};

verus! {

/// Why an upgrade was refused.
#[derive(Debug, Clone, Copy, PartialEq, Eq, Structural)]
pub enum UpgradeError {
    /// The application has no service with the given name.
    ServiceNotFound,
}

/// The positions of the services to upgrade: the one named, when a name
/// is given; otherwise every service (the only one of a single-service
/// application).
pub open spec fn upgrade_targets(svcs: Seq<Service>, name: Option<Seq<char>>) -> Option<Seq<int>> {
    match name {
        Some(n) => match service_index(svcs, n) {
            Some(i) => Some(seq![i]),
            None => None,
        },
        None => Some(Seq::new(svcs.len(), |i: int| i)),
    }
}

/// The positions of the services of `app` to upgrade.
pub fn select_targets(app: &App, service_name: Option<&str>) -> (r: Result<Vec<usize>, UpgradeError>)
    ensures
        match upgrade_targets(app.services@, match service_name {
            Some(n) => Some(n@),
            None => None,
        }) {
            Some(t) => r matches Ok(v) && v@.map_values(|i: usize| i as int) == t,
            None => r == Err::<Vec<usize>, UpgradeError>(UpgradeError::ServiceNotFound),
        },
{
    match service_name {
        Some(n) => match find_service(app.services.as_slice(), n) {
            Some(i) => {
                let v = vec![i];
                assert(v@.map_values(|i: usize| i as int) =~= seq![i as int]);
                Ok(v)
            },
            None => Err(UpgradeError::ServiceNotFound),
        },
        None => {
            let mut v: Vec<usize> = Vec::new();
            let mut i: usize = 0;
            while i < app.services.len()
                invariant
                    i <= app.services.len(),
                    v@.map_values(|k: usize| k as int) == Seq::new(i as nat, |k: int| k),
                decreases app.services.len() - i,
            {
                let ghost prev = v@;
                v.push(i);
                assert(v@.map_values(|k: usize| k as int) =~= prev.map_values(|k: usize| k as int).push(i as int));
                assert(v@.map_values(|k: usize| k as int) =~= Seq::new((i + 1) as nat, |k: int| k));
                i = i + 1;
            }
            Ok(v)
        },
    }
}

/// The prefix of a service's variables: its name in upper case, `-`
/// replaced by `_`.
pub open spec fn var_prefix(service_name: Seq<char>) -> Seq<char> {
    uppercase(service_name).map_values(|c: char| if c == '-' {
        '_'
    } else {
        c
    })
}

/// The prefix of a service's variables.
pub fn version_prefix(service_name: &str) -> (r: String)
    ensures
        r@ == var_prefix(service_name@),
{
    let up = chars_of(to_upper(service_name).as_str());
    let mut out: Vec<char> = Vec::new();
    let mut i: usize = 0;
    while i < up.len()
        invariant
            i <= up.len(),
            out@ == up@.take(i as int).map_values(|c: char| if c == '-' {
                '_'
            } else {
                c
            }),
        decreases up.len() - i,
    {
        let c = if up[i] == '-' {
            '_'
        } else {
            up[i]
        };
        out.push(c);
        assert(up@.take(i + 1) =~= up@.take(i as int).push(up@[i as int]));
        assert(out@ =~= up@.take(i + 1).map_values(|c: char| if c == '-' {
            '_'
        } else {
            c
        }));
        i = i + 1;
    }
    assert(up@.take(up.len() as int) =~= up@);
    string_of(&out)
}

/// The line that sets the version variable of `prefix`.
pub open spec fn version_line(prefix: Seq<char>, version: Seq<char>) -> Seq<char> {
    prefix + "_VERSION="@ + version
}

/// A line sets the version variable of `prefix` (trimmed, it starts with
/// `<prefix>_VERSION=` and is no comment).
pub open spec fn sets_version(line: Seq<char>, prefix: Seq<char>) -> bool {
    has_prefix(trim(line), prefix + "_VERSION="@) && !has_prefix(trim(line), "#"@)
}

/// Each line, with those that set the version of `prefix` replaced.
pub open spec fn replaced_lines(ls: Seq<Seq<char>>, prefix: Seq<char>, version: Seq<char>) -> Seq<Seq<char>> {
    ls.map_values(|l: Seq<char>| if sets_version(l, prefix) {
        version_line(prefix, version)
    } else {
        l
    })
}

/// The `.env` content after setting the version of `prefix` to `version`:
/// every line setting it rewritten (the lines joined by newlines, with a
/// final one), or the setting appended when no line sets it.
pub open spec fn updated_env(content: Seq<char>, prefix: Seq<char>, version: Seq<char>) -> Seq<char> {
    let ls = lines(content);
    if exists|i: int| 0 <= i < ls.len() && sets_version(#[trigger] ls[i], prefix) {
        join_with(replaced_lines(ls, prefix, version), "\n"@) + "\n"@
    } else {
        content + version_line(prefix, version) + "\n"@
    }
}

/// Whether a line sets the version variable of `prefix`.
fn sets_version_exec(line: &[char], prefix: &str) -> (r: bool)
    ensures
        r == sets_version(line@, prefix@),
{
    let t = trim_exec(line);
    let mut key = chars_of(prefix);
    push_chars_vec(&mut key, "_VERSION=");
    let hash = chars_of("#");
    has_prefix_exec(&t, &key) && !has_prefix_exec(&t, &hash)
}

/// Appends the characters of `s` to `v`.
fn push_chars_vec(v: &mut Vec<char>, s: &str)
    ensures
        final(v)@ == old(v)@ + s@,
{
    let c = chars_of(s);
    let ghost v0 = v@;
    let mut i: usize = 0;
    while i < c.len()
        invariant
            i <= c.len(),
            v@ == v0 + c@.take(i as int),
        decreases c.len() - i,
    {
        v.push(c[i]);
        i = i + 1;
        assert(v@ =~= v0 + c@.take(i as int));
    }
    assert(c@.take(c.len() as int) =~= c@);
}

/// The `.env` content after setting the version of `prefix` to `version`.
pub fn update_env_version(content: &str, prefix: &str, version: &str) -> (r: String)
    ensures
        r@ == updated_env(content@, prefix@, version@),
{
    let ls = lines_exec(&chars_of(content));
    let ghost lv = char_views(ls@);
    let mut found = false;
    let mut out: Vec<String> = Vec::new();
    let mut i: usize = 0;
    while i < ls.len()
        invariant
            i <= ls.len(),
            lv == char_views(ls@),
            lv == lines(content@),
            string_views(out@) == replaced_lines(lv.take(i as int), prefix@, version@),
            found == exists|j: int| 0 <= j < i && sets_version(#[trigger] lv[j], prefix@),
        decreases ls.len() - i,
    {
        assert(lv[i as int] == ls@[i as int]@);
        let line = if sets_version_exec(&ls[i], prefix) {
            found = true;
            let mut l = owned(prefix);
            l.append("_VERSION=");
            l.append(version);
            l
        } else {
            string_of(&ls[i])
        };
        let ghost before = string_views(out@);
        let ghost lview = line@;
        out.push(line);
        assert(string_views(out@) =~= before.push(lview));
        assert(lv.take(i + 1) =~= lv.take(i as int).push(lv[i as int]));
        assert(string_views(out@) =~= replaced_lines(lv.take(i + 1), prefix@, version@));
        i = i + 1;
    }
    assert(lv.take(ls.len() as int) =~= lv);
    if found {
        let mut r = crate::text::join_strings(out.as_slice(), "\n");
        r.append("\n");
        r
    } else {
        let mut r = owned(content);
        r.append(prefix);
        r.append("_VERSION=");
        r.append(version);
        r.append("\n");
        r
    }
}

/// A line the reader takes the version of `prefix` from sets that version.
proof fn lemma_read_line_sets(line: Seq<char>, prefix: Seq<char>)
    ensures
        env_value(line, prefix + "_VERSION"@) is Some ==> sets_version(line, prefix),
{
    reveal_strlit("_VERSION");
    reveal_strlit("=");
    reveal_strlit("_VERSION=");
    reveal_strlit("#");
    assert(prefix + "_VERSION"@ + "="@ =~= prefix + "_VERSION="@);
    let t = trim(line);
    if env_value(line, prefix + "_VERSION"@) is Some && has_prefix(t, "#"@) {
        assert(t.subrange(0, 1)[0] == t[0]);
    }
}

/// The line setting the version of `prefix` reads back the version.
proof fn lemma_version_line_reads(prefix: Seq<char>, version: Seq<char>)
    requires
        prefix.len() > 0,
        !is_ws(prefix[0]),
        prefix[0] != '#',
        version.len() > 0,
        reads_back(version),
    ensures
        env_value(strip_cr(version_line(prefix, version)), prefix + "_VERSION"@) == Some(version),
        sets_version(version_line(prefix, version), prefix),
{
    reveal_strlit("_VERSION");
    reveal_strlit("=");
    reveal_strlit("_VERSION=");
    reveal_strlit("#");
    let x = version_line(prefix, version);
    let key = prefix + "_VERSION"@;
    lemma_trim_fixed(version);
    assert(x[0] == prefix[0]);
    assert(x.last() == version.last());
    assert(strip_cr(x) == x);
    lemma_trim_clean(x);
    assert(x =~= key + "="@ + version);
    assert(x.subrange(0, (key.len() + 1) as int) =~= key + "="@);
    assert(x.subrange((key.len() + 1) as int, x.len() as int) =~= version);
    assert(x.subrange(0, (prefix.len() + 9) as int) =~= prefix + "_VERSION="@);
    if has_prefix(x, "#"@) {
        assert(x.subrange(0, 1)[0] == x[0]);
    }
}

/// The version read from lines is that of the lines after a run of lines
/// that do not set it.
proof fn lemma_version_skip(ls1: Seq<Seq<char>>, ls2: Seq<Seq<char>>, prefix: Seq<char>)
    requires
        forall|i: int| 0 <= i < ls1.len() ==> !sets_version(#[trigger] ls1[i], prefix),
    ensures
        env_version(ls1 + ls2, prefix) == env_version(ls2, prefix),
    decreases ls1.len(),
{
    if ls1.len() > 0 {
        lemma_read_line_sets(ls1[0], prefix);
        assert((ls1 + ls2)[0] == ls1[0]);
        assert((ls1 + ls2).drop_first() =~= ls1.drop_first() + ls2);
        assert forall|i: int| 0 <= i < ls1.drop_first().len() implies !sets_version(#[trigger] ls1.drop_first()[i], prefix) by {
            assert(ls1.drop_first()[i] == ls1[i + 1]);
        }
        lemma_version_skip(ls1.drop_first(), ls2, prefix);
    } else {
        assert(ls1 + ls2 =~= ls2);
    }
}

/// After the version of a service is set in a `.env` content, the content
/// reads back that version, when the content is empty or ends with a line
/// break, the prefix starts with no white space or comment mark, and the
/// version is one the reader keeps as it is.
pub proof fn lemma_version_read_back(content: Seq<char>, prefix: Seq<char>, version: Seq<char>)
    requires
        prefix.len() > 0,
        !is_ws(prefix[0]),
        prefix[0] != '#',
        !prefix.contains('\n'),
        version.len() > 0,
        reads_back(version),
        content.len() == 0 || content.last() == '\n',
    ensures
        env_version(lines(updated_env(content, prefix, version)), prefix) == Some(version),
{
    reveal_strlit("_VERSION=");
    reveal_strlit("\n");
    let ls = lines(content);
    let l = version_line(prefix, version);
    lemma_version_line_reads(prefix, version);
    assert(!l.contains('\n')) by {
        if l.contains('\n') {
            let k = choose|k: int| 0 <= k < l.len() && l[k] == '\n';
            if k < prefix.len() {
                assert(prefix[k] == '\n');
            } else if k >= prefix.len() + 9 {
                assert(version[k - prefix.len() - 9] == '\n');
            }
        }
    }
    assert(env_version(seq![strip_cr(l)], prefix) == Some(version));
    if exists|i: int| 0 <= i < ls.len() && sets_version(#[trigger] ls[i], prefix) {
        let f = |x: Seq<char>| sets_version(x, prefix);
        lemma_first_index(ls, f);
        let j = first_index(ls, f)->0;
        assert(is_first(ls, f, j));
        let r = replaced_lines(ls, prefix, version);
        lemma_lines_have_no_newline(content);
        assert forall|i: int| 0 <= i < r.len() implies !(#[trigger] r[i]).contains('\n') by {
            if !sets_version(ls[i], prefix) {
                assert(r[i] == ls[i]);
            }
        }
        lemma_lines_of_joined(r);
        let m = r.map_values(|x: Seq<char>| strip_cr(x));
        assert(updated_env(content, prefix, version) == join_with(r, "\n"@) + "\n"@);
        assert(m =~= m.take(j) + m.skip(j));
        assert forall|i: int| 0 <= i < m.take(j).len() implies !sets_version(#[trigger] m.take(j)[i], prefix) by {
            assert(!f(ls[i]));
            assert(r[i] == ls[i]);
            lemma_trim_strip_cr(ls[i]);
        }
        lemma_version_skip(m.take(j), m.skip(j), prefix);
        assert(m.skip(j)[0] == strip_cr(l));
    } else {
        let tail = l + "\n"@;
        assert(updated_env(content, prefix, version) =~= content + tail);
        lemma_lines_append(content, tail);
        assert(tail =~= l + seq!['\n'] + Seq::<char>::empty());
        lemma_lines_cons(l, Seq::empty());
        assert(lines(Seq::<char>::empty()) =~= Seq::<Seq<char>>::empty());
        assert(lines(tail) =~= seq![strip_cr(l)]);
        lemma_version_skip(ls, seq![strip_cr(l)], prefix);
    }
}

/// The version the first line setting `<prefix>_VERSION` gives, if any.
pub open spec fn env_version(ls: Seq<Seq<char>>, prefix: Seq<char>) -> Option<Seq<char>>
    decreases ls.len(),
{
    if ls.len() == 0 {
        None
    } else {
        match env_value(ls[0], prefix + "_VERSION"@) {
            Some(v) => Some(v),
            None => env_version(ls.drop_first(), prefix),
        }
    }
}

/// The current version of the service whose variables have the prefix
/// `prefix`, as the `.env` content sets it.
pub fn current_version(content: &str, prefix: &str) -> (r: Option<String>)
    ensures
        crate::paths::opt_view(r) == env_version(lines(content@), prefix@),
{
    let ls = lines_exec(&chars_of(content));
    let ghost lv = char_views(ls@);
    let mut key = owned(prefix);
    key.append("_VERSION");
    let n = ls.len();
    let mut i: usize = 0;
    assert(lv.subrange(0, n as int) =~= lv);
    while i < n
        invariant
            i <= n == ls.len(),
            lv == char_views(ls@),
            lv == lines(content@),
            lv.len() == n,
            key@ == prefix@ + "_VERSION"@,
            env_version(lv, prefix@) == env_version(lv.subrange(i as int, n as int), prefix@),
        decreases n - i,
    {
        proof {
            crate::text::lemma_suffix_step(lv, i as int);
            assert(lv[i as int] == ls@[i as int]@);
        }
        let line = string_of(&ls[i]);
        if let Some(v) = parse_env_var(line.as_str(), key.as_str()) {
            return Some(v);
        }
        i = i + 1;
    }
    assert(lv.subrange(n as int, n as int) =~= Seq::<Seq<char>>::empty());
    None
}

} // verus!

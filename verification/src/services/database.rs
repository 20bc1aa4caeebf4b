//! Shared PostgreSQL: passwords, the infrastructure credentials read from its
//! `.env` file, and the `psql` invocations that create and drop databases.
use vstd::prelude::*;
use crate::services::infra_generator::{postgres_env_spec, InfraConfig};
use crate::text::{
    contains, find, lemma_occurs_contains, char_views, chars_of, has_prefix, has_prefix_exec, is_ws, lemma_find_char, lemma_lines_cons,
    lemma_suffix_step, lemma_trim_clean, lemma_trim_fixed, lemma_trimmed_prefix, lines, lines_exec,
    owned, push_char, split_once, split_once_exec, string_of, string_views, strip_cr, trim,
    trim_char, trim_char_exec, trim_exec,
};

verus! {

/// The characters passwords are drawn from.
pub const PASSWORD_CHARSET: &'static str = "abcdefghijklmnopqrstuvwxyzABCDEFGHIJKLMNOPQRSTUVWXYZ0123456789!@#$%^&*";

/// A random number below `bound` (`rand::random_range(0..bound)`, which
/// draws it uniformly); only that it is below `bound` is stated.
#[verifier::external_body]
fn random_below(bound: usize) -> (r: usize)
    requires
        bound > 0,
    ensures
        r < bound,
{
    rand::random_range(0..bound)
}

/// A random password of `length` characters from `PASSWORD_CHARSET`.
pub fn generate_password(length: usize) -> (r: String)
    ensures
        r@.len() == length,
        forall|i: int| 0 <= i < r@.len() ==> PASSWORD_CHARSET@.contains(#[trigger] r@[i]),
{
    let charset = chars_of(PASSWORD_CHARSET);
    proof {
        reveal_strlit("abcdefghijklmnopqrstuvwxyzABCDEFGHIJKLMNOPQRSTUVWXYZ0123456789!@#$%^&*");
    }
    let mut r = String::new();
    let mut i: usize = 0;
    while i < length
        invariant
            i <= length,
            charset@ == PASSWORD_CHARSET@,
            charset.len() == 70,
            r@.len() == i,
            forall|k: int| 0 <= k < r@.len() ==> PASSWORD_CHARSET@.contains(#[trigger] r@[k]),
        decreases length - i,
    {
        let idx = random_below(charset.len());
        let c = charset[idx];
        let ghost before = r@;
        push_char(&mut r, c);
        assert forall|k: int| 0 <= k < r@.len() implies PASSWORD_CHARSET@.contains(#[trigger] r@[k]) by {
            if k < before.len() {
                assert(r@[k] == before[k]);
            } else {
                assert(r@[k] == charset@[idx as int]);
            }
        }
        i = i + 1;
    }
    r
}

/// The value that a line of the infrastructure `.env` gives to `key`, when it
/// starts (after trimming) with `key=` or `key =`: the text after the first
/// `=`, trimmed and stripped of surrounding `"` and then `'`.
pub open spec fn pg_line_value(line: Seq<char>, key: Seq<char>) -> Option<Seq<char>> {
    let t = trim(line);
    if has_prefix(t, key + "="@) || has_prefix(t, key + " ="@) {
        let after = match split_once(t, '=') {
            Some((_, v)) => v,
            None => Seq::empty(),
        };
        Some(trim_char(trim_char(trim(after), '"'), '\''))
    } else {
        None
    }
}

/// The value the first line setting `key` gives it.
pub open spec fn pg_env_value(ls: Seq<Seq<char>>, key: Seq<char>) -> Option<Seq<char>>
    decreases ls.len(),
{
    if ls.len() == 0 {
        None
    } else {
        match pg_line_value(ls[0], key) {
            Some(v) => Some(v),
            None => pg_env_value(ls.drop_first(), key),
        }
    }
}

/// The value a line gives to `key`.
fn pg_line_value_exec(line: &[char], key: &str) -> (r: Option<Vec<char>>)
    ensures
        r matches Some(v) ==> pg_line_value(line@, key@) == Some(v@),
        r is None ==> pg_line_value(line@, key@) is None,
{
    let t = trim_exec(line);
    let mut p1 = chars_of(key);
    p1.push('=');
    let mut p2 = chars_of(key);
    p2.push(' ');
    p2.push('=');
    proof {
        reveal_strlit("=");
        reveal_strlit(" =");
        assert(p1@ =~= key@ + "="@);
        assert(p2@ =~= key@ + " ="@);
    }
    if has_prefix_exec(&t, &p1) || has_prefix_exec(&t, &p2) {
        let after = match split_once_exec(&t, '=') {
            Some((_, v)) => v,
            None => Vec::new(),
        };
        let v = trim_exec(&after);
        let v = trim_char_exec(&v, '"');
        Some(trim_char_exec(&v, '\''))
    } else {
        None
    }
}

/// The value the first line of `content` setting `key` gives it.
pub fn infra_env_value(content: &str, key: &str) -> (r: Option<String>)
    ensures
        crate::paths::opt_view(r) == pg_env_value(lines(content@), key@),
{
    let ls = lines_exec(&chars_of(content));
    let ghost lv = char_views(ls@);
    let n = ls.len();
    let mut i: usize = 0;
    assert(lv.subrange(0, n as int) =~= lv);
    while i < n
        invariant
            i <= n == ls.len(),
            lv == char_views(ls@),
            lv == lines(content@),
            lv.len() == n,
            pg_env_value(lv, key@) == pg_env_value(lv.subrange(i as int, n as int), key@),
        decreases n - i,
    {
        proof {
            lemma_suffix_step(lv, i as int);
            assert(lv[i as int] == ls@[i as int]@);
        }
        if let Some(v) = pg_line_value_exec(&ls[i], key) {
            return Some(string_of(&v));
        }
        i = i + 1;
    }
    assert(lv.subrange(n as int, n as int) =~= Seq::<Seq<char>>::empty());
    None
}

/// The administrator password set by `POSTGRES_PASSWORD` in the content of
/// the infrastructure `.env` file; none when no line sets it.
pub fn read_infra_pg_password(content: &str) -> (r: Option<String>)
    ensures
        crate::paths::opt_view(r) == pg_env_value(lines(content@), "POSTGRES_PASSWORD"@),
{
    infra_env_value(content, "POSTGRES_PASSWORD")
}

/// The administrator user set by `POSTGRES_USER`, `admin` when no line sets
/// it (pass empty content when the file cannot be read).
pub fn read_infra_pg_user(content: &str) -> (r: String)
    ensures
        r@ == match pg_env_value(lines(content@), "POSTGRES_USER"@) {
            Some(v) => v,
            None => "admin"@,
        },
{
    match infra_env_value(content, "POSTGRES_USER") {
        Some(v) => v,
        None => owned("admin"),
    }
}

/// The administration database set by `POSTGRES_DB`, `postgres` when no line
/// sets it (pass empty content when the file cannot be read).
pub fn read_infra_pg_db(content: &str) -> (r: String)
    ensures
        r@ == match pg_env_value(lines(content@), "POSTGRES_DB"@) {
            Some(v) => v,
            None => "postgres"@,
        },
{
    match infra_env_value(content, "POSTGRES_DB") {
        Some(v) => v,
        None => owned("postgres"),
    }
}

/// A value that the `.env` reader gives back unchanged: on one line, with
/// no white space at its ends, and not wrapped in quotes.
pub open spec fn reads_back(v: Seq<char>) -> bool {
    &&& !v.contains('\n')
    &&& trim(v) == v
    &&& trim_char(v, '"') == v
    &&& trim_char(v, '\'') == v
}

/// The line `key=value` gives `value` to `key`.
proof fn lemma_setting_line(key: Seq<char>, v: Seq<char>)
    requires
        key.len() > 0,
        !is_ws(key[0]),
        !key.contains('='),
        reads_back(v),
    ensures
        pg_line_value(strip_cr(key + "="@ + v), key) == Some(v),
{
    reveal_strlit("=");
    let x = key + "="@ + v;
    assert(x[0] == key[0]);
    if v.len() > 0 {
        lemma_trim_fixed(v);
        assert(x.last() == v.last());
    } else {
        assert(x.last() == '=');
    }
    assert(strip_cr(x) == x);
    lemma_trim_clean(x);
    assert(x.subrange(0, (key.len() + 1) as int) =~= key + "="@);
    assert(x =~= key + seq!['='] + v);
    lemma_find_char(key, '=', v);
    assert(x.subrange((key.len() + 1) as int, x.len() as int) =~= v);
}

/// The value of `key` in lines that start with a line not setting it is
/// the value in the lines after it.
proof fn lemma_env_skip(ls: Seq<Seq<char>>, key: Seq<char>)
    requires
        ls.len() > 0,
        pg_line_value(ls[0], key) is None,
    ensures
        pg_env_value(ls, key) == pg_env_value(ls.drop_first(), key),
{
}

/// A line that starts (before any white space is trimmed) with a text that
/// differs from `key` at position `i` does not set `key`.
proof fn lemma_not_setting(line: Seq<char>, key: Seq<char>, i: int)
    requires
        line.len() > 0,
        !is_ws(line[0]),
        0 <= i < key.len(),
        i < line.len(),
        line[i] != key[i],
        i != key.len() - 1 || line[i] != ' ',
    ensures
        pg_line_value(strip_cr(line), key) is None,
{
    reveal_strlit("=");
    reveal_strlit(" =");
    if has_prefix(trim(strip_cr(line)), key + "="@) {
        lemma_trimmed_prefix(line, key + "="@);
        assert(line.subrange(0, (key.len() + 1) as int)[i] == (key + "="@)[i]);
    }
    if has_prefix(trim(strip_cr(line)), key + " ="@) {
        lemma_trimmed_prefix(line, key + " ="@);
        assert(line.subrange(0, (key.len() + 2) as int)[i] == (key + " ="@)[i]);
    }
}

/// The PostgreSQL `.env` written for the infrastructure gives back the
/// administrator password it was written with (its earlier lines being
/// single lines, the password one the reader keeps as it is).
pub proof fn lemma_password_read_back(cfg: InfraConfig)
    requires
        !cfg.postgres_version@.contains('\n'),
        !cfg.pg_user@.contains('\n'),
        reads_back(cfg.pg_password@),
    ensures
        pg_env_value(lines(postgres_env_spec(cfg)), "POSTGRES_PASSWORD"@) == Some(cfg.pg_password@),
{
    let key = "POSTGRES_PASSWORD"@;
    lemma_env_lines(cfg);
    lemma_password_line(cfg);
    lemma_no_password_before(cfg);
    let ls = lines(postgres_env_spec(cfg));
    let l1 = ls.drop_first();
    let l2 = l1.drop_first();
    let l3 = l2.drop_first();
    let l4 = l3.drop_first();
    assert(l4 == lines(env_after_user(cfg)));
    assert("POSTGRES_PASSWORD="@ + cfg.pg_password@ =~= key + "="@ + cfg.pg_password@) by {
        reveal_strlit("POSTGRES_PASSWORD=");
        reveal_strlit("POSTGRES_PASSWORD");
        reveal_strlit("=");
    }
    assert(key.len() > 0 && !is_ws(key[0]) && !key.contains('=')) by {
        reveal_strlit("POSTGRES_PASSWORD");
    }
    lemma_setting_line(key, cfg.pg_password@);
    lemma_env_skip(ls, key);
    lemma_env_skip(l1, key);
    lemma_env_skip(l2, key);
    lemma_env_skip(l3, key);
}

/// The first line after the administrator user line is the password line.
proof fn lemma_password_line(cfg: InfraConfig)
    requires
        !cfg.pg_password@.contains('\n'),
    ensures
        lines(env_after_user(cfg)).len() >= 1,
        lines(env_after_user(cfg))[0] == strip_cr("POSTGRES_PASSWORD="@ + cfg.pg_password@),
{
    reveal_strlit("POSTGRES_PASSWORD=");
    reveal_strlit("\n");
    let l4 = "POSTGRES_PASSWORD="@ + cfg.pg_password@;
    let r4 = "POSTGRES_DB="@ + cfg.pg_db@ + "\n"@ + "# 数据目录\n"@ + "DATA_ROOT=./data\n"@ + "\n"@ + "TZ="@
        + cfg.timezone@ + "\n"@;
    assert(env_after_user(cfg) =~= l4 + seq!['\n'] + r4);
    assert(!"POSTGRES_PASSWORD="@.contains('\n'));
    lemma_concat_lacks("POSTGRES_PASSWORD="@, cfg.pg_password@, '\n');
    lemma_lines_cons(l4, r4);
}

/// None of the lines before the password line sets `POSTGRES_PASSWORD`.
proof fn lemma_no_password_before(cfg: InfraConfig)
    ensures
        pg_line_value(strip_cr("# PostgreSQL 版本"@), "POSTGRES_PASSWORD"@) is None,
        pg_line_value(strip_cr("POSTGRES_VERSION="@ + cfg.postgres_version@), "POSTGRES_PASSWORD"@) is None,
        pg_line_value(strip_cr("# 认证"@), "POSTGRES_PASSWORD"@) is None,
        pg_line_value(strip_cr("POSTGRES_USER="@ + cfg.pg_user@), "POSTGRES_PASSWORD"@) is None,
{
    let key = "POSTGRES_PASSWORD"@;
    reveal_strlit("POSTGRES_PASSWORD");
    reveal_strlit("# PostgreSQL 版本");
    reveal_strlit("POSTGRES_VERSION=");
    reveal_strlit("# 认证");
    reveal_strlit("POSTGRES_USER=");
    lemma_not_setting("# PostgreSQL 版本"@, key, 0);
    lemma_not_setting("POSTGRES_VERSION="@ + cfg.postgres_version@, key, 9);
    lemma_not_setting("# 认证"@, key, 0);
    lemma_not_setting("POSTGRES_USER="@ + cfg.pg_user@, key, 9);
}

/// A text without `c` followed by another without `c` has none.
proof fn lemma_concat_lacks(a: Seq<char>, b: Seq<char>, c: char)
    requires
        !a.contains(c),
        !b.contains(c),
    ensures
        !(a + b).contains(c),
{
    if (a + b).contains(c) {
        let i = choose|i: int| 0 <= i < (a + b).len() && (a + b)[i] == c;
        if i < a.len() {
            assert(a[i] == c);
        } else {
            assert(b[i - a.len()] == c);
        }
    }
}

/// The rest of the PostgreSQL `.env` after its administrator user line.
pub open spec fn env_after_user(cfg: InfraConfig) -> Seq<char> {
    "POSTGRES_PASSWORD="@ + cfg.pg_password@ + "\n"@ + "POSTGRES_DB="@ + cfg.pg_db@ + "\n"@ + "# 数据目录\n"@
        + "DATA_ROOT=./data\n"@ + "\n"@ + "TZ="@ + cfg.timezone@ + "\n"@
}

/// The PostgreSQL `.env` written for the infrastructure gives back the
/// administrator user it was written with.
pub proof fn lemma_user_read_back(cfg: InfraConfig)
    requires
        !cfg.postgres_version@.contains('\n'),
        reads_back(cfg.pg_user@),
    ensures
        pg_env_value(lines(postgres_env_spec(cfg)), "POSTGRES_USER"@) == Some(cfg.pg_user@),
{
    let key = "POSTGRES_USER"@;
    lemma_env_lines(cfg);
    lemma_no_user_before(cfg);
    let ls = lines(postgres_env_spec(cfg));
    let l1 = ls.drop_first();
    let l2 = l1.drop_first();
    let l3 = l2.drop_first();
    assert("POSTGRES_USER="@ + cfg.pg_user@ =~= key + "="@ + cfg.pg_user@) by {
        reveal_strlit("POSTGRES_USER=");
        reveal_strlit("POSTGRES_USER");
        reveal_strlit("=");
    }
    assert(key.len() > 0 && !is_ws(key[0]) && !key.contains('=')) by {
        reveal_strlit("POSTGRES_USER");
    }
    lemma_setting_line(key, cfg.pg_user@);
    lemma_env_skip(ls, key);
    lemma_env_skip(l1, key);
    lemma_env_skip(l2, key);
}

/// None of the lines before the user line sets `POSTGRES_USER`.
proof fn lemma_no_user_before(cfg: InfraConfig)
    ensures
        pg_line_value(strip_cr("# PostgreSQL 版本"@), "POSTGRES_USER"@) is None,
        pg_line_value(strip_cr("POSTGRES_VERSION="@ + cfg.postgres_version@), "POSTGRES_USER"@) is None,
        pg_line_value(strip_cr("# 认证"@), "POSTGRES_USER"@) is None,
{
    let key = "POSTGRES_USER"@;
    reveal_strlit("POSTGRES_USER");
    reveal_strlit("# PostgreSQL 版本");
    reveal_strlit("POSTGRES_VERSION=");
    reveal_strlit("# 认证");
    lemma_not_setting("# PostgreSQL 版本"@, key, 0);
    lemma_not_setting("POSTGRES_VERSION="@ + cfg.postgres_version@, key, 9);
    lemma_not_setting("# 认证"@, key, 0);
}

/// The lines of the PostgreSQL `.env` after its administrator user line
/// start with the password and the database lines.
proof fn lemma_after_user_lines(cfg: InfraConfig)
    requires
        !cfg.pg_password@.contains('\n'),
        !cfg.pg_db@.contains('\n'),
    ensures
        lines(env_after_user(cfg)).len() >= 2,
        lines(env_after_user(cfg))[0] == strip_cr("POSTGRES_PASSWORD="@ + cfg.pg_password@),
        lines(env_after_user(cfg))[1] == strip_cr("POSTGRES_DB="@ + cfg.pg_db@),
{
    reveal_strlit("POSTGRES_PASSWORD=");
    reveal_strlit("POSTGRES_DB=");
    reveal_strlit("\n");
    let l4 = "POSTGRES_PASSWORD="@ + cfg.pg_password@;
    let l5 = "POSTGRES_DB="@ + cfg.pg_db@;
    let r5 = "# 数据目录\n"@ + "DATA_ROOT=./data\n"@ + "\n"@ + "TZ="@ + cfg.timezone@ + "\n"@;
    let r4 = l5 + seq!['\n'] + r5;
    assert(env_after_user(cfg) =~= l4 + seq!['\n'] + r4);
    assert(!"POSTGRES_PASSWORD="@.contains('\n'));
    lemma_concat_lacks("POSTGRES_PASSWORD="@, cfg.pg_password@, '\n');
    assert(!"POSTGRES_DB="@.contains('\n'));
    lemma_concat_lacks("POSTGRES_DB="@, cfg.pg_db@, '\n');
    lemma_lines_cons(l4, r4);
    lemma_lines_cons(l5, r5);
}

/// None of the lines before the database line of the PostgreSQL `.env`
/// sets `POSTGRES_DB`.
proof fn lemma_no_db_before(cfg: InfraConfig)
    ensures
        pg_line_value(strip_cr("# PostgreSQL 版本"@), "POSTGRES_DB"@) is None,
        pg_line_value(strip_cr("POSTGRES_VERSION="@ + cfg.postgres_version@), "POSTGRES_DB"@) is None,
        pg_line_value(strip_cr("# 认证"@), "POSTGRES_DB"@) is None,
        pg_line_value(strip_cr("POSTGRES_USER="@ + cfg.pg_user@), "POSTGRES_DB"@) is None,
        pg_line_value(strip_cr("POSTGRES_PASSWORD="@ + cfg.pg_password@), "POSTGRES_DB"@) is None,
{
    let key = "POSTGRES_DB"@;
    reveal_strlit("POSTGRES_DB");
    reveal_strlit("# PostgreSQL 版本");
    reveal_strlit("POSTGRES_VERSION=");
    reveal_strlit("# 认证");
    reveal_strlit("POSTGRES_USER=");
    reveal_strlit("POSTGRES_PASSWORD=");
    lemma_not_setting("# PostgreSQL 版本"@, key, 0);
    lemma_not_setting("POSTGRES_VERSION="@ + cfg.postgres_version@, key, 9);
    lemma_not_setting("# 认证"@, key, 0);
    lemma_not_setting("POSTGRES_USER="@ + cfg.pg_user@, key, 9);
    lemma_not_setting("POSTGRES_PASSWORD="@ + cfg.pg_password@, key, 9);
}

/// The PostgreSQL `.env` written for the infrastructure gives back the
/// default database it was written with.
pub proof fn lemma_db_read_back(cfg: InfraConfig)
    requires
        !cfg.postgres_version@.contains('\n'),
        !cfg.pg_user@.contains('\n'),
        !cfg.pg_password@.contains('\n'),
        reads_back(cfg.pg_db@),
    ensures
        pg_env_value(lines(postgres_env_spec(cfg)), "POSTGRES_DB"@) == Some(cfg.pg_db@),
{
    let key = "POSTGRES_DB"@;
    lemma_env_lines(cfg);
    lemma_after_user_lines(cfg);
    lemma_no_db_before(cfg);
    let ls = lines(postgres_env_spec(cfg));
    let l1 = ls.drop_first();
    let l2 = l1.drop_first();
    let l3 = l2.drop_first();
    let l4 = l3.drop_first();
    let l5 = l4.drop_first();
    assert(l4 == lines(env_after_user(cfg)));
    assert(l5[0] == strip_cr("POSTGRES_DB="@ + cfg.pg_db@));
    assert("POSTGRES_DB="@ + cfg.pg_db@ =~= key + "="@ + cfg.pg_db@) by {
        reveal_strlit("POSTGRES_DB=");
        reveal_strlit("POSTGRES_DB");
        reveal_strlit("=");
    }
    assert(key.len() > 0 && !is_ws(key[0]) && !key.contains('=')) by {
        reveal_strlit("POSTGRES_DB");
    }
    lemma_setting_line(key, cfg.pg_db@);
    lemma_env_skip(ls, key);
    lemma_env_skip(l1, key);
    lemma_env_skip(l2, key);
    lemma_env_skip(l3, key);
    lemma_env_skip(l4, key);
}

/// A password drawn from `PASSWORD_CHARSET` is read back unchanged.
pub proof fn lemma_generated_password_reads_back(p: Seq<char>)
    requires
        forall|i: int| 0 <= i < p.len() ==> PASSWORD_CHARSET@.contains(#[trigger] p[i]),
    ensures
        reads_back(p),
{
    reveal_strlit("abcdefghijklmnopqrstuvwxyzABCDEFGHIJKLMNOPQRSTUVWXYZ0123456789!@#$%^&*");
    let cs = PASSWORD_CHARSET@;
    assert forall|c: char| cs.contains(c) implies !is_ws(c) && c != '\n' && c != '"' && c != '\'' by {
        let k = choose|k: int| 0 <= k < cs.len() && cs[k] == c;
        assert(0 <= k < 70);
    }
    if p.contains('\n') {
        let i = choose|i: int| 0 <= i < p.len() && p[i] == '\n';
        assert(cs.contains(p[i]));
    }
    if p.len() > 0 {
        assert(cs.contains(p[0]));
        assert(cs.contains(p[p.len() - 1]));
        lemma_trim_clean(p);
    }
}

/// The first lines of the PostgreSQL `.env` written for the infrastructure:
/// the version comment, the version, the credentials comment and the user,
/// then the lines of the rest.
proof fn lemma_env_lines(cfg: InfraConfig)
    requires
        !cfg.postgres_version@.contains('\n'),
        !cfg.pg_user@.contains('\n'),
    ensures
        lines(postgres_env_spec(cfg)) == seq![
            strip_cr("# PostgreSQL 版本"@),
            strip_cr("POSTGRES_VERSION="@ + cfg.postgres_version@),
            strip_cr("# 认证"@),
            strip_cr("POSTGRES_USER="@ + cfg.pg_user@),
        ] + lines(env_after_user(cfg)),
{
    reveal_strlit("# PostgreSQL 版本\n");
    reveal_strlit("# PostgreSQL 版本");
    reveal_strlit("POSTGRES_VERSION=");
    reveal_strlit("\n");
    reveal_strlit("# 认证\n");
    reveal_strlit("# 认证");
    reveal_strlit("POSTGRES_USER=");
    let nl = seq!['\n'];
    let l0 = "# PostgreSQL 版本"@;
    let l1 = "POSTGRES_VERSION="@ + cfg.postgres_version@;
    let l2 = "# 认证"@;
    let l3 = "POSTGRES_USER="@ + cfg.pg_user@;
    let t3 = env_after_user(cfg);
    let t2 = l3 + nl + t3;
    let t1 = l2 + nl + t2;
    let t0 = l1 + nl + t1;
    assert(postgres_env_spec(cfg) =~= l0 + nl + t0);
    assert(!l0.contains('\n'));
    assert(!"POSTGRES_VERSION="@.contains('\n'));
    lemma_concat_lacks("POSTGRES_VERSION="@, cfg.postgres_version@, '\n');
    assert(!l2.contains('\n'));
    assert(!"POSTGRES_USER="@.contains('\n'));
    lemma_concat_lacks("POSTGRES_USER="@, cfg.pg_user@, '\n');
    lemma_lines_cons(l0, t0);
    lemma_lines_cons(l1, t1);
    lemma_lines_cons(l2, t2);
    lemma_lines_cons(l3, t3);
    assert(lines(postgres_env_spec(cfg)) =~= seq![strip_cr(l0), strip_cr(l1), strip_cr(l2), strip_cr(l3)] + lines(t3));
}

/// The SQL that creates database `db` and user `user` with password `pass`
/// when missing, and grants the user all rights on the database.
pub open spec fn create_sql_spec(db: Seq<char>, user: Seq<char>, pass: Seq<char>) -> Seq<char> {
    "\nDO $$ BEGIN\n    IF NOT EXISTS (SELECT FROM pg_catalog.pg_database WHERE datname = '"@ + db
        + "') THEN\n        CREATE DATABASE \""@ + db + "\";\n    END IF;\nEND $$;\nDO $$ BEGIN\n    IF NOT EXISTS (SELECT FROM pg_catalog.pg_roles WHERE rolname = '"@
        + user + "') THEN\n        CREATE USER \""@ + user + "\" WITH PASSWORD '"@ + pass
        + "';\n    END IF;\nEND $$;\nGRANT ALL PRIVILEGES ON DATABASE \""@ + db + "\" TO \""@ + user
        + "\";\n\\c \""@ + db + "\"\nGRANT ALL ON SCHEMA public TO \""@ + user + "\";\n"@
}

/// A text holds what stands between two parts of it.
proof fn lemma_contains_between(x: Seq<char>, t: Seq<char>, y: Seq<char>)
    ensures
        contains(x + t + y, t),
{
    let s = x + t + y;
    assert(s.subrange(x.len() as int, x.len() + t.len() as int) =~= t);
    lemma_occurs_contains(s, t, x.len() as int);
}

/// Text appended after a text keeps what it holds.
broadcast proof fn lemma_contains_extend(a: Seq<char>, x: Seq<char>, t: Seq<char>)
    requires
        contains(a, t),
    ensures
        #[trigger] contains(a + x, t),
{
    crate::text::lemma_find_from_occurs(a, t, 0);
    let i = find(a, t)->0;
    assert((a + x).subrange(i, i + t.len()) =~= a.subrange(i, i + t.len()));
    lemma_occurs_contains(a + x, t, i);
}

/// The create SQL creates the database named `db`.
pub proof fn lemma_create_sql_creates_db(db: Seq<char>, user: Seq<char>, pass: Seq<char>)
    ensures
        contains(create_sql_spec(db, user, pass), "CREATE DATABASE \""@ + db + "\";"@),
{
    broadcast use lemma_contains_extend;
    reveal_strlit("') THEN\n        CREATE DATABASE \"");
    reveal_strlit("\";\n    END IF;\nEND $$;\nDO $$ BEGIN\n    IF NOT EXISTS (SELECT FROM pg_catalog.pg_roles WHERE rolname = '");
    reveal_strlit("CREATE DATABASE \"");
    reveal_strlit("\";");
    let e = "\nDO $$ BEGIN\n    IF NOT EXISTS (SELECT FROM pg_catalog.pg_database WHERE datname = '"@ + db + "') THEN\n        CREATE DATABASE \""@ + db + "\";\n    END IF;\nEND $$;\nDO $$ BEGIN\n    IF NOT EXISTS (SELECT FROM pg_catalog.pg_roles WHERE rolname = '"@;
    let t = "CREATE DATABASE \""@ + db + "\";"@;
    let i: int = ("\nDO $$ BEGIN\n    IF NOT EXISTS (SELECT FROM pg_catalog.pg_database WHERE datname = '"@.len() + db.len() + 16) as int;
    assert(e.subrange(i, i + t.len()) =~= t);
    lemma_occurs_contains(e, t, i);
}

/// The create SQL creates the user named `user`, with password `pass`.
pub proof fn lemma_create_sql_creates_user(db: Seq<char>, user: Seq<char>, pass: Seq<char>)
    ensures
        contains(create_sql_spec(db, user, pass), "CREATE USER \""@ + user + "\" WITH PASSWORD '"@ + pass + "';"@),
{
    broadcast use lemma_contains_extend;
    reveal_strlit("') THEN\n        CREATE USER \"");
    reveal_strlit("\" WITH PASSWORD '");
    reveal_strlit("';\n    END IF;\nEND $$;\nGRANT ALL PRIVILEGES ON DATABASE \"");
    reveal_strlit("CREATE USER \"");
    reveal_strlit("';");
    let e = "\nDO $$ BEGIN\n    IF NOT EXISTS (SELECT FROM pg_catalog.pg_database WHERE datname = '"@ + db + "') THEN\n        CREATE DATABASE \""@ + db + "\";\n    END IF;\nEND $$;\nDO $$ BEGIN\n    IF NOT EXISTS (SELECT FROM pg_catalog.pg_roles WHERE rolname = '"@ + user + "') THEN\n        CREATE USER \""@ + user + "\" WITH PASSWORD '"@ + pass + "';\n    END IF;\nEND $$;\nGRANT ALL PRIVILEGES ON DATABASE \""@;
    let t = "CREATE USER \""@ + user + "\" WITH PASSWORD '"@ + pass + "';"@;
    let i: int = ("\nDO $$ BEGIN\n    IF NOT EXISTS (SELECT FROM pg_catalog.pg_database WHERE datname = '"@.len() + db.len() + "') THEN\n        CREATE DATABASE \""@.len() + db.len() + "\";\n    END IF;\nEND $$;\nDO $$ BEGIN\n    IF NOT EXISTS (SELECT FROM pg_catalog.pg_roles WHERE rolname = '"@.len() + user.len() + 16) as int;
    assert(e.subrange(i, i + t.len()) =~= t);
    lemma_occurs_contains(e, t, i);
}

/// The create SQL grants the user `user` all rights on the database `db`.
pub proof fn lemma_create_sql_grants_db(db: Seq<char>, user: Seq<char>, pass: Seq<char>)
    ensures
        contains(create_sql_spec(db, user, pass), "GRANT ALL PRIVILEGES ON DATABASE \""@ + db + "\" TO \""@ + user + "\";"@),
{
    broadcast use lemma_contains_extend;
    reveal_strlit("';\n    END IF;\nEND $$;\nGRANT ALL PRIVILEGES ON DATABASE \"");
    reveal_strlit("\" TO \"");
    reveal_strlit("\";\n\\c \"");
    reveal_strlit("GRANT ALL PRIVILEGES ON DATABASE \"");
    reveal_strlit("\";");
    let e = "\nDO $$ BEGIN\n    IF NOT EXISTS (SELECT FROM pg_catalog.pg_database WHERE datname = '"@ + db + "') THEN\n        CREATE DATABASE \""@ + db + "\";\n    END IF;\nEND $$;\nDO $$ BEGIN\n    IF NOT EXISTS (SELECT FROM pg_catalog.pg_roles WHERE rolname = '"@ + user + "') THEN\n        CREATE USER \""@ + user + "\" WITH PASSWORD '"@ + pass + "';\n    END IF;\nEND $$;\nGRANT ALL PRIVILEGES ON DATABASE \""@ + db + "\" TO \""@ + user + "\";\n\\c \""@;
    let t = "GRANT ALL PRIVILEGES ON DATABASE \""@ + db + "\" TO \""@ + user + "\";"@;
    let i: int = ("\nDO $$ BEGIN\n    IF NOT EXISTS (SELECT FROM pg_catalog.pg_database WHERE datname = '"@.len() + db.len() + "') THEN\n        CREATE DATABASE \""@.len() + db.len() + "\";\n    END IF;\nEND $$;\nDO $$ BEGIN\n    IF NOT EXISTS (SELECT FROM pg_catalog.pg_roles WHERE rolname = '"@.len() + user.len() + "') THEN\n        CREATE USER \""@.len() + user.len() + "\" WITH PASSWORD '"@.len() + pass.len() + 23) as int;
    assert(e.subrange(i, i + t.len()) =~= t);
    lemma_occurs_contains(e, t, i);
}

/// The create SQL connects to the database `db` before granting the schema.
pub proof fn lemma_create_sql_connects_db(db: Seq<char>, user: Seq<char>, pass: Seq<char>)
    ensures
        contains(create_sql_spec(db, user, pass), "\\c \""@ + db + "\""@),
{
    broadcast use lemma_contains_extend;
    reveal_strlit("\";\n\\c \"");
    reveal_strlit("\"\nGRANT ALL ON SCHEMA public TO \"");
    reveal_strlit("\\c \"");
    reveal_strlit("\"");
    let e = "\nDO $$ BEGIN\n    IF NOT EXISTS (SELECT FROM pg_catalog.pg_database WHERE datname = '"@ + db + "') THEN\n        CREATE DATABASE \""@ + db + "\";\n    END IF;\nEND $$;\nDO $$ BEGIN\n    IF NOT EXISTS (SELECT FROM pg_catalog.pg_roles WHERE rolname = '"@ + user + "') THEN\n        CREATE USER \""@ + user + "\" WITH PASSWORD '"@ + pass + "';\n    END IF;\nEND $$;\nGRANT ALL PRIVILEGES ON DATABASE \""@ + db + "\" TO \""@ + user + "\";\n\\c \""@ + db + "\"\nGRANT ALL ON SCHEMA public TO \""@;
    let t = "\\c \""@ + db + "\""@;
    let i: int = ("\nDO $$ BEGIN\n    IF NOT EXISTS (SELECT FROM pg_catalog.pg_database WHERE datname = '"@.len() + db.len() + "') THEN\n        CREATE DATABASE \""@.len() + db.len() + "\";\n    END IF;\nEND $$;\nDO $$ BEGIN\n    IF NOT EXISTS (SELECT FROM pg_catalog.pg_roles WHERE rolname = '"@.len() + user.len() + "') THEN\n        CREATE USER \""@.len() + user.len() + "\" WITH PASSWORD '"@.len() + pass.len() + "';\n    END IF;\nEND $$;\nGRANT ALL PRIVILEGES ON DATABASE \""@.len() + db.len() + "\" TO \""@.len() + user.len() + 3) as int;
    assert(e.subrange(i, i + t.len()) =~= t);
    lemma_occurs_contains(e, t, i);
}

/// The SQL that drops database `db` and user `user` when they exist.
pub open spec fn drop_sql_spec(db: Seq<char>, user: Seq<char>) -> Seq<char> {
    "\nDROP DATABASE IF EXISTS \""@ + db + "\";\nDROP USER IF EXISTS \""@ + user + "\";\n"@
}

/// The arguments of `docker` that run `sql` with `psql` in a throw-away
/// container on `network`, as `admin_user` on `admin_db`.
pub open spec fn psql_args_spec(
    network: Seq<char>,
    admin_user: Seq<char>,
    admin_password: Seq<char>,
    admin_db: Seq<char>,
    sql: Seq<char>,
) -> Seq<Seq<char>> {
    seq![
        "run"@,
        "--rm"@,
        "--network"@,
        network,
        "-e"@,
        "PGPASSWORD="@ + admin_password,
        "postgres:16"@,
        "psql"@,
        "-h"@,
        "postgres"@,
        "-U"@,
        admin_user,
        "-d"@,
        admin_db,
        "-c"@,
        sql,
    ]
}

/// The SQL that creates a database and its user.
pub fn create_database_sql(db: &str, user: &str, pass: &str) -> (r: String)
    ensures
        r@ == create_sql_spec(db@, user@, pass@),
{
    let mut b = owned("\nDO $$ BEGIN\n    IF NOT EXISTS (SELECT FROM pg_catalog.pg_database WHERE datname = '");
    b.append(db);
    b.append("') THEN\n        CREATE DATABASE \"");
    b.append(db);
    b.append("\";\n    END IF;\nEND $$;\nDO $$ BEGIN\n    IF NOT EXISTS (SELECT FROM pg_catalog.pg_roles WHERE rolname = '");
    b.append(user);
    b.append("') THEN\n        CREATE USER \"");
    b.append(user);
    b.append("\" WITH PASSWORD '");
    b.append(pass);
    b.append("';\n    END IF;\nEND $$;\nGRANT ALL PRIVILEGES ON DATABASE \"");
    b.append(db);
    b.append("\" TO \"");
    b.append(user);
    b.append("\";\n\\c \"");
    b.append(db);
    b.append("\"\nGRANT ALL ON SCHEMA public TO \"");
    b.append(user);
    b.append("\";\n");
    b
}

/// The SQL that drops a database and its user.
pub fn drop_database_sql(db: &str, user: &str) -> (r: String)
    ensures
        r@ == drop_sql_spec(db@, user@),
{
    let mut b = owned("\nDROP DATABASE IF EXISTS \"");
    b.append(db);
    b.append("\";\nDROP USER IF EXISTS \"");
    b.append(user);
    b.append("\";\n");
    b
}

/// The arguments of `docker` that run `sql` with `psql`.
pub fn psql_args(
    network: &str,
    admin_user: &str,
    admin_password: &str,
    admin_db: &str,
    sql: &str,
) -> (r: Vec<String>)
    ensures
        string_views(r@) == psql_args_spec(network@, admin_user@, admin_password@, admin_db@, sql@),
{
    let mut pw = owned("PGPASSWORD=");
    pw.append(admin_password);
    let r = vec![
        owned("run"),
        owned("--rm"),
        owned("--network"),
        owned(network),
        owned("-e"),
        pw,
        owned("postgres:16"),
        owned("psql"),
        owned("-h"),
        owned("postgres"),
        owned("-U"),
        owned(admin_user),
        owned("-d"),
        owned(admin_db),
        owned("-c"),
        owned(sql),
    ];
    assert(string_views(r@) =~= psql_args_spec(network@, admin_user@, admin_password@, admin_db@, sql@));
    r
}

/// The arguments of `docker` that create database `db_name` and user
/// `db_user` with `db_password` on the shared PostgreSQL.
pub fn create_database_and_user(
    db_name: &str,
    db_user: &str,
    db_password: &str,
    postgres_network: &str,
    admin_user: &str,
    admin_password: &str,
    admin_db: &str,
) -> (r: Vec<String>)
    ensures
        string_views(r@) == psql_args_spec(
            postgres_network@,
            admin_user@,
            admin_password@,
            admin_db@,
            create_sql_spec(db_name@, db_user@, db_password@),
        ),
{
    let sql = create_database_sql(db_name, db_user, db_password);
    psql_args(postgres_network, admin_user, admin_password, admin_db, sql.as_str())
}

/// The arguments of `docker` that drop database `db_name` and user `db_user`
/// from the shared PostgreSQL.
pub fn drop_database_and_user(
    db_name: &str,
    db_user: &str,
    postgres_network: &str,
    admin_user: &str,
    admin_password: &str,
    admin_db: &str,
) -> (r: Vec<String>)
    ensures
        string_views(r@) == psql_args_spec(
            postgres_network@,
            admin_user@,
            admin_password@,
            admin_db@,
            drop_sql_spec(db_name@, db_user@),
        ),
{
    let sql = drop_database_sql(db_name, db_user);
    psql_args(postgres_network, admin_user, admin_password, admin_db, sql.as_str())
}

} // verus!

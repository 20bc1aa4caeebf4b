//! The decisions and the output of the command-line subcommands. Prompting,
//! running `docker` and `git`, and touching files are left to the caller.
use vstd::prelude::*;
use crate::models::app::{App, Service};
use crate::text::str_eq;

pub mod add;
pub mod add_static;
pub mod edit;
pub mod init;
pub mod lifecycle;
pub mod list;
pub mod remove;
pub mod resource;
pub mod show;
pub mod status;
pub mod upgrade;

verus! {

/// `i` is the first position of `s` whose element satisfies `p`.
pub open spec fn is_first<T>(s: Seq<T>, p: spec_fn(T) -> bool, i: int) -> bool {
    &&& 0 <= i < s.len()
    &&& p(s[i])
    &&& forall|j: int| 0 <= j < i ==> !p(#[trigger] s[j])
}

/// The first position of `s` whose element satisfies `p`, if any.
pub open spec fn first_index<T>(s: Seq<T>, p: spec_fn(T) -> bool) -> Option<int> {
    if exists|i: int| is_first(s, p, i) {
        Some(choose|i: int| is_first(s, p, i))
    } else {
        None
    }
}

/// When some element satisfies `p`, a first one does.
proof fn lemma_first_exists<T>(s: Seq<T>, p: spec_fn(T) -> bool, j: int)
    requires
        0 <= j < s.len(),
        p(s[j]),
    ensures
        exists|i: int| is_first(s, p, i),
    decreases j,
{
    if exists|k: int| 0 <= k < j && p(s[k]) {
        let k = choose|k: int| 0 <= k < j && p(s[k]);
        lemma_first_exists(s, p, k);
    } else {
        assert(is_first(s, p, j));
    }
}

/// The first position satisfying `p` is unique, and there is one exactly
/// when some element satisfies `p`.
pub proof fn lemma_first_index<T>(s: Seq<T>, p: spec_fn(T) -> bool)
    ensures
        first_index(s, p) matches Some(i) ==> is_first(s, p, i),
        first_index(s, p) is None <==> forall|j: int| 0 <= j < s.len() ==> !p(#[trigger] s[j]),
        forall|i: int| is_first(s, p, i) ==> first_index(s, p) == Some(i),
{
    if exists|i: int| is_first(s, p, i) {
        let k = choose|i: int| is_first(s, p, i);
        assert forall|i: int| is_first(s, p, i) implies i == k by {
            if i < k {
                assert(!p(s[i]));
            } else if k < i {
                assert(!p(s[k]));
            }
        }
    } else {
        assert forall|j: int| 0 <= j < s.len() implies !p(#[trigger] s[j]) by {
            if p(s[j]) {
                lemma_first_exists(s, p, j);
            }
        }
    }
}

/// The lines `f` gives for each element of `s`, one after the other.
pub open spec fn concat_lines<T>(s: Seq<T>, f: spec_fn(T) -> Seq<Seq<char>>) -> Seq<Seq<char>>
    decreases s.len(),
{
    if s.len() == 0 {
        Seq::empty()
    } else {
        concat_lines(s.drop_last(), f) + f(s.last())
    }
}

/// One more element of a prefix adds its lines at the end.
pub proof fn lemma_concat_lines_step<T>(s: Seq<T>, f: spec_fn(T) -> Seq<Seq<char>>, k: int)
    requires
        0 <= k < s.len(),
    ensures
        concat_lines(s.take(k + 1), f) == concat_lines(s.take(k), f) + f(s[k]),
{
    assert(s.take(k + 1).drop_last() =~= s.take(k));
}

/// Has the name `name`.
pub open spec fn app_named(name: Seq<char>) -> spec_fn(App) -> bool {
    |a: App| a.name@ == name
}

/// Has the name `name`.
pub open spec fn service_named(name: Seq<char>) -> spec_fn(Service) -> bool {
    |s: Service| s.name@ == name
}

/// The position of the first application named `name`, if any.
pub open spec fn app_index(apps: Seq<App>, name: Seq<char>) -> Option<int> {
    first_index(apps, app_named(name))
}

/// The position of the first service named `name`, if any.
pub open spec fn service_index(svcs: Seq<Service>, name: Seq<char>) -> Option<int> {
    first_index(svcs, service_named(name))
}

/// The position of the first application named `name`.
pub fn find_app(apps: &[App], name: &str) -> (r: Option<usize>)
    ensures
        r matches Some(i) ==> app_index(apps@, name@) == Some(i as int),
        r is None ==> app_index(apps@, name@) is None,
{
    let ghost p = app_named(name@);
    let mut i: usize = 0;
    while i < apps.len()
        invariant
            i <= apps.len(),
            p == app_named(name@),
            forall|j: int| 0 <= j < i ==> !p(#[trigger] apps@[j]),
        decreases apps.len() - i,
    {
        if str_eq(apps[i].name.as_str(), name) {
            proof {
                lemma_first_index(apps@, p);
                assert(is_first(apps@, p, i as int));
            }
            return Some(i);
        }
        i = i + 1;
    }
    proof {
        lemma_first_index(apps@, p);
    }
    None
}

/// The position of the first service named `name`.
pub fn find_service(svcs: &[Service], name: &str) -> (r: Option<usize>)
    ensures
        r matches Some(i) ==> service_index(svcs@, name@) == Some(i as int),
        r is None ==> service_index(svcs@, name@) is None,
{
    let ghost p = service_named(name@);
    let mut i: usize = 0;
    while i < svcs.len()
        invariant
            i <= svcs.len(),
            p == service_named(name@),
            forall|j: int| 0 <= j < i ==> !p(#[trigger] svcs@[j]),
        decreases svcs.len() - i,
    {
        if str_eq(svcs[i].name.as_str(), name) {
            proof {
                lemma_first_index(svcs@, p);
                assert(is_first(svcs@, p, i as int));
            }
            return Some(i);
        }
        i = i + 1;
    }
    proof {
        lemma_first_index(svcs@, p);
    }
    None
}

} // verus!

//! The global configuration: paths, domain and shared resources.
use vstd::prelude::*;
use crate::models::app::SharedResource;
use crate::paths::{join, join_path};
use crate::text::{chars_of, lemma_str_lt_order, owned, str_less, str_lt};

verus! {

/// The global configuration.
#[derive(Debug, Clone, PartialEq, Eq)]
pub struct Config {
    /// Paths.
    pub paths: PathsConfig,
    /// Domain settings.
    pub home: HomeConfig,
    /// Shared resources by name, in ascending name order, names distinct.
    pub shared_resources: Vec<(String, SharedResourceConfig)>,
}

/// Path settings.
#[derive(Debug, Clone, PartialEq, Eq)]
pub struct PathsConfig {
    /// Root directory of the applications.
    pub apps_root: String,
    /// Root directory of application data.
    pub data_root: String,
}

/// Domain settings.
#[derive(Debug, Clone, PartialEq, Eq)]
pub struct HomeConfig {
    /// Main domain.
    pub domain: String,
}

/// A shared resource as stored in the configuration file.
#[derive(Debug, Clone, PartialEq, Eq)]
pub struct SharedResourceConfig {
    /// Host path.
    pub path: String,
    /// Description.
    pub description: String,
    /// Whether mounts are read-only.
    pub read_only: bool,
    /// Owning UID.
    pub uid: Option<u32>,
    /// Owning GID.
    pub gid: Option<u32>,
}

/// The names of a resource list are in strictly ascending order.
pub open spec fn names_ascending(s: Seq<(String, SharedResourceConfig)>) -> bool {
    forall|i: int, j: int| 0 <= i < j < s.len() ==> str_lt(#[trigger] s[i].0@, #[trigger] s[j].0@)
}

/// The position of the resource named `k`, if there is one.
pub open spec fn index_of_name(s: Seq<(String, SharedResourceConfig)>, k: Seq<char>) -> Option<int> {
    if exists|i: int| 0 <= i < s.len() && s[i].0@ == k {
        Some(choose|i: int| 0 <= i < s.len() && s[i].0@ == k)
    } else {
        None
    }
}

/// The resource named `k` in `s`, if there is one.
pub open spec fn lookup_resource(s: Seq<(String, SharedResourceConfig)>, k: Seq<char>) -> Option<
    SharedResourceConfig,
> {
    match index_of_name(s, k) {
        Some(i) => Some(s[i].1),
        None => None,
    }
}

/// `r` describes the configured resource `cfg` under the name `name`.
pub open spec fn describes(r: SharedResource, name: Seq<char>, cfg: SharedResourceConfig) -> bool {
    &&& r.name@ == name
    &&& r.path@ == cfg.path@
    &&& r.description@ == cfg.description@
    &&& r.read_only == cfg.read_only
    &&& r.uid == cfg.uid
    &&& r.gid == cfg.gid
}

/// In a list with ascending names, the entry at `i` is the one found by name.
proof fn lemma_lookup_at(s: Seq<(String, SharedResourceConfig)>, i: int)
    requires
        names_ascending(s),
        0 <= i < s.len(),
    ensures
        index_of_name(s, s[i].0@) == Some(i),
        lookup_resource(s, s[i].0@) == Some(s[i].1),
{
    let k = s[i].0@;
    assert(0 <= i < s.len() && s[i].0@ == k);
    let j = choose|j: int| 0 <= j < s.len() && s[j].0@ == k;
    assert(0 <= j < s.len() && s[j].0@ == k);
    lemma_str_lt_order(k, k, k);
    if j < i {
        assert(str_lt(s[j].0@, s[i].0@));
        assert(false);
    } else if j > i {
        assert(str_lt(s[i].0@, s[j].0@));
        assert(false);
    }
    assert(j == i);
}

/// The path of the configuration file under the home directory `home`.
pub open spec fn config_path_of(home: Seq<char>) -> Seq<char> {
    join_path(join_path(home, ".config/homespace"@), "config.toml"@)
}

/// The configuration used before `init` has written one.
pub open spec fn is_default_config(c: Config, home: Seq<char>) -> bool {
    &&& c.paths.apps_root@ == join_path(home, "HomeLab"@)
    &&& c.paths.data_root@ == "/mnt/data"@
    &&& c.home.domain@ == "example.com"@
    &&& c.shared_resources@.len() == 0
}

impl Config {
    /// The resource list has ascending, hence distinct, names.
    pub open spec fn wf(&self) -> bool {
        names_ascending(self.shared_resources@)
    }

    /// The stored configuration when there is one, otherwise the default
    /// whose applications live in `HomeLab` under `home`.
    pub fn load_or_default(loaded: Option<Config>, home: &str) -> (r: Config)
        ensures
            loaded matches Some(c) ==> r == c,
            loaded is None ==> is_default_config(r, home@) && r.wf(),
    {
        match loaded {
            Some(c) => c,
            None => Config {
                paths: PathsConfig { apps_root: join(home, "HomeLab"), data_root: owned("/mnt/data") },
                home: HomeConfig { domain: owned("example.com") },
                shared_resources: Vec::new(),
            },
        }
    }

    /// All shared resources, in ascending name order.
    pub fn get_shared_resources(&self) -> (r: Vec<SharedResource>)
        ensures
            r.len() == self.shared_resources.len(),
            forall|i: int|
                0 <= i < r.len() ==> describes(
                    #[trigger] r[i],
                    self.shared_resources[i].0@,
                    self.shared_resources[i].1,
                ),
    {
        let mut r: Vec<SharedResource> = Vec::new();
        let mut i: usize = 0;
        while i < self.shared_resources.len()
            invariant
                i <= self.shared_resources.len(),
                r.len() == i,
                forall|j: int|
                    0 <= j < i ==> describes(
                        #[trigger] r[j],
                        self.shared_resources[j].0@,
                        self.shared_resources[j].1,
                    ),
            decreases self.shared_resources.len() - i,
        {
            let (name, cfg) = &self.shared_resources[i];
            r.push(resource_of(name, cfg));
            i = i + 1;
        }
        r
    }

    /// The shared resource named `name`, if there is one.
    pub fn get_shared_resource(&self, name: &str) -> (r: Option<SharedResource>)
        requires
            self.wf(),
        ensures
            r is Some <==> lookup_resource(self.shared_resources@, name@) is Some,
            r matches Some(res) ==> describes(res, name@, lookup_resource(self.shared_resources@, name@)->0),
    {
        let key = chars_of(name);
        let mut i: usize = 0;
        while i < self.shared_resources.len()
            invariant
                i <= self.shared_resources.len(),
                self.wf(),
                key@ == name@,
                forall|j: int| 0 <= j < i ==> self.shared_resources[j].0@ != name@,
            decreases self.shared_resources.len() - i,
        {
            let (n, cfg) = &self.shared_resources[i];
            let nv = chars_of(n.as_str());
            if crate::text::chars_eq(&nv, &key) {
                proof {
                    lemma_lookup_at(self.shared_resources@, i as int);
                }
                return Some(resource_of(n, cfg));
            }
            i = i + 1;
        }
        None
    }

    /// Adds, or replaces, the shared resource named `name`.
    pub fn add_shared_resource(&mut self, name: &str, resource: SharedResourceConfig)
        requires
            old(self).wf(),
        ensures
            final(self).wf(),
            final(self).paths == old(self).paths,
            final(self).home == old(self).home,
            lookup_resource(final(self).shared_resources@, name@) == Some(resource),
            forall|k: Seq<char>|
                k != name@ ==> lookup_resource(final(self).shared_resources@, k) == lookup_resource(
                    old(self).shared_resources@,
                    k,
                ),
    {
        let key = chars_of(name);
        let ghost s0 = self.shared_resources@;
        let mut i: usize = 0;
        while i < self.shared_resources.len() && str_less(
            &chars_of(self.shared_resources[i].0.as_str()),
            &key,
        )
            invariant
                i <= self.shared_resources.len(),
                self.shared_resources@ == s0,
                names_ascending(s0),
                key@ == name@,
                forall|j: int| 0 <= j < i ==> str_lt(#[trigger] s0[j].0@, name@),
            decreases self.shared_resources.len() - i,
        {
            i = i + 1;
        }
        let n = self.shared_resources.len();
        let same = i < n && crate::text::chars_eq(&chars_of(self.shared_resources[i].0.as_str()), &key);
        let entry = (owned(name), resource);
        if same {
            self.shared_resources.set(i, entry);
        } else {
            self.shared_resources.insert(i, entry);
        }
        let ghost s1 = self.shared_resources@;
        proof {
            // Positions at or after `i` hold names after `name`.
            assert forall|j: int| i <= j < n && !(same && j == i) implies str_lt(name@, #[trigger] s0[j].0@) by {
                lemma_str_lt_order(s0[i as int].0@, name@, s0[j].0@);
                lemma_str_lt_order(name@, s0[i as int].0@, s0[j].0@);
                if j > i {
                    assert(str_lt(s0[i as int].0@, s0[j].0@));
                }
            }
            if same {
                assert forall|a: int, b: int| 0 <= a < b < s1.len() implies str_lt(#[trigger] s1[a].0@, #[trigger] s1[b].0@) by {
                    if a == i {
                        assert(str_lt(name@, s0[b].0@));
                    } else if b == i {
                        assert(str_lt(s0[a].0@, name@));
                    }
                }
            } else {
                assert forall|a: int, b: int| 0 <= a < b < s1.len() implies str_lt(#[trigger] s1[a].0@, #[trigger] s1[b].0@) by {
                    if a < i && b == i {
                        assert(str_lt(s0[a].0@, name@));
                    } else if a < i && b > i {
                        assert(s1[b] == s0[b - 1]);
                        assert(str_lt(s0[a].0@, s0[b - 1].0@));
                    } else if a == i {
                        assert(s1[b] == s0[b - 1]);
                        assert(str_lt(name@, s0[b - 1].0@));
                    } else if a > i {
                        assert(s1[a] == s0[a - 1]);
                        assert(s1[b] == s0[b - 1]);
                        assert(str_lt(s0[a - 1].0@, s0[b - 1].0@));
                    }
                }
            }
            assert(names_ascending(s1));
            assert(s1[i as int].0@ == name@);
            lemma_lookup_at(s1, i as int);
            assert forall|k: Seq<char>| k != name@ implies lookup_resource(s1, k) == lookup_resource(s0, k) by {
                if exists|j: int| 0 <= j < s0.len() && s0[j].0@ == k {
                    let j = choose|j: int| 0 <= j < s0.len() && s0[j].0@ == k;
                    lemma_lookup_at(s0, j);
                    let j1 = if same || j < i { j } else { j + 1 };
                    assert(s1[j1] == s0[j]);
                    lemma_lookup_at(s1, j1);
                } else {
                    assert forall|j: int| 0 <= j < s1.len() implies s1[j].0@ != k by {
                        if j != i {
                            let j0 = if same || j < i { j } else { j - 1 };
                            assert(s1[j] == s0[j0]);
                        }
                    }
                }
            }
        }
    }

    /// Removes the shared resource named `name`; whether there was one.
    pub fn remove_shared_resource(&mut self, name: &str) -> (r: bool)
        requires
            old(self).wf(),
        ensures
            r == (lookup_resource(old(self).shared_resources@, name@) is Some),
            final(self).wf(),
            final(self).paths == old(self).paths,
            final(self).home == old(self).home,
            lookup_resource(final(self).shared_resources@, name@) is None,
            forall|k: Seq<char>|
                k != name@ ==> lookup_resource(final(self).shared_resources@, k) == lookup_resource(
                    old(self).shared_resources@,
                    k,
                ),
    {
        let key = chars_of(name);
        let ghost s0 = self.shared_resources@;
        let mut i: usize = 0;
        while i < self.shared_resources.len()
            invariant
                i <= self.shared_resources.len(),
                self.shared_resources@ == s0,
                names_ascending(s0),
                self.paths == old(self).paths,
                self.home == old(self).home,
                s0 == old(self).shared_resources@,
                key@ == name@,
                forall|j: int| 0 <= j < i ==> s0[j].0@ != name@,
            decreases self.shared_resources.len() - i,
        {
            let nv = chars_of(self.shared_resources[i].0.as_str());
            if crate::text::chars_eq(&nv, &key) {
                let _ = self.shared_resources.remove(i);
                let ghost s1 = self.shared_resources@;
                proof {
                    lemma_lookup_at(s0, i as int);
                    assert forall|a: int, b: int| 0 <= a < b < s1.len() implies str_lt(#[trigger] s1[a].0@, #[trigger] s1[b].0@) by {
                        let a0 = if a < i { a } else { a + 1 };
                        let b0 = if b < i { b } else { b + 1 };
                        assert(s1[a] == s0[a0]);
                        assert(s1[b] == s0[b0]);
                    }
                    assert forall|j: int| 0 <= j < s1.len() implies s1[j].0@ != name@ by {
                        let j0 = if j < i { j } else { j + 1 };
                        assert(s1[j] == s0[j0]);
                        if j0 > i {
                            lemma_str_lt_order(name@, name@, name@);
                            assert(str_lt(s0[i as int].0@, s0[j0].0@));
                        }
                    }
                    assert forall|k: Seq<char>| k != name@ implies lookup_resource(s1, k) == lookup_resource(s0, k) by {
                        if exists|j: int| 0 <= j < s0.len() && s0[j].0@ == k {
                            let j = choose|j: int| 0 <= j < s0.len() && s0[j].0@ == k;
                            lemma_lookup_at(s0, j);
                            assert(j != i);
                            let j1 = if j < i { j } else { j - 1 };
                            assert(s1[j1] == s0[j]);
                            lemma_lookup_at(s1, j1);
                        } else {
                            assert forall|j: int| 0 <= j < s1.len() implies s1[j].0@ != k by {
                                let j0 = if j < i { j } else { j + 1 };
                                assert(s1[j] == s0[j0]);
                            }
                        }
                    }
                }
                return true;
            }
            i = i + 1;
        }
        false
    }

    /// The compose file of the Traefik project.
    pub fn traefik_compose_path(&self) -> (r: String)
        ensures
            r@ == join_path(join_path(join_path(self.paths.apps_root@, "infra"@), "traefik"@), "docker-compose.yml"@),
    {
        let infra = join(self.paths.apps_root.as_str(), "infra");
        let d = join(infra.as_str(), "traefik");
        join(d.as_str(), "docker-compose.yml")
    }

    /// The compose file of the PostgreSQL project.
    pub fn postgres_compose_path(&self) -> (r: String)
        ensures
            r@ == join_path(join_path(join_path(self.paths.apps_root@, "infra"@), "postgres"@), "docker-compose.yml"@),
    {
        let infra = join(self.paths.apps_root.as_str(), "infra");
        let d = join(infra.as_str(), "postgres");
        join(d.as_str(), "docker-compose.yml")
    }

    /// The `.env` file of the PostgreSQL project.
    pub fn postgres_env_path(&self) -> (r: String)
        ensures
            r@ == join_path(join_path(join_path(self.paths.apps_root@, "infra"@), "postgres"@), ".env"@),
    {
        let infra = join(self.paths.apps_root.as_str(), "infra");
        let d = join(infra.as_str(), "postgres");
        join(d.as_str(), ".env")
    }
}

/// A resource built from a configuration entry.
fn resource_of(name: &String, cfg: &SharedResourceConfig) -> (r: SharedResource)
    ensures
        describes(r, name@, *cfg),
{
    SharedResource {
        name: name.clone(),
        path: cfg.path.clone(),
        description: cfg.description.clone(),
        read_only: cfg.read_only,
        uid: cfg.uid,
        gid: cfg.gid,
    }
}

/// The path of the configuration file under the home directory `home`.
pub fn config_path(home: &str) -> (r: String)
    ensures
        r@ == config_path_of(home@),
{
    let d = join(home, ".config/homespace");
    join(d.as_str(), "config.toml")
}

/// The home directory: `home` when it is set, `/tmp` otherwise.
pub fn dirs_home(home: Option<String>) -> (r: String)
    ensures
        home matches Some(h) ==> r@ == h@,
        home is None ==> r@ == "/tmp"@,
{
    match home {
        Some(h) => h,
        None => owned("/tmp"),
    }
}

} // verus!

//! Global configuration: teams, regions and clusters.
//!
//! These records are the outermost layer of the configuration model.  A
//! service's metadata must name a team listed here, and the region supplies
//! the namespace fallback, gateway naming context and cluster identity that
//! resolution depends on.

use vstd::prelude::*;
use crate::kvmap::KvMap;

verus! {

/// One owner entry of a team.
#[derive(Debug, Clone, PartialEq, Eq)]
pub struct Owner {
    pub github: Option<String>,
}

/// A team in the global config.
#[derive(Debug, Clone, PartialEq, Eq)]
pub struct Team {
    pub name: String,
    /// Namespace override; wins over the region namespace when present.
    pub namespace: Option<String>,
    /// Support contact, back-filled into service metadata when the service
    /// does not set its own.
    pub support: Option<String>,
    /// Notification contact, back-filled likewise.
    pub notifications: Option<String>,
    /// Github team of admins, for code-owner generation.
    pub github_admins: Option<String>,
    pub owners: Vec<Owner>,
}

/// Gateway configuration of a region.
#[derive(Debug, Clone, PartialEq, Eq)]
pub struct KongRegionConfig {
    /// Suffix from which service hosts are derived.
    pub base_url: String,
    pub config_url: String,
    /// Extra gateway entries that no manifest declares.
    pub extra_apis: Vec<ExtraApi>,
}

/// A gateway entry configured directly on the region.
#[derive(Debug, Clone, PartialEq, Eq)]
pub struct ExtraApi {
    pub name: String,
    pub uris: Option<String>,
    pub hosts: Vec<String>,
    pub internal: bool,
    pub publicly_accessible: bool,
}

/// Secrets-manager address of a region.
#[derive(Debug, Clone, PartialEq, Eq)]
pub struct VaultRegionConfig {
    pub url: String,
}

/// One deployable region.
#[derive(Debug, Clone, PartialEq, Eq)]
pub struct Region {
    pub name: String,
    /// Namespace used whenever the owning team does not override it.
    pub namespace: String,
    pub environment: String,
    pub base_urls: KvMap,
    pub ip_whitelist: Vec<String>,
    pub kong: KongRegionConfig,
    pub vault: VaultRegionConfig,
}

/// A cluster a region runs on.
#[derive(Debug, Clone, PartialEq, Eq)]
pub struct Cluster {
    pub name: String,
    pub api: String,
}

/// Github organisation data for code-owner generation.
#[derive(Debug, Clone, PartialEq, Eq)]
pub struct GithubConfig {
    pub organisation: String,
}

/// The global configuration document.
#[derive(Debug, Clone, PartialEq, Eq)]
pub struct Config {
    pub teams: Vec<Team>,
    pub github: GithubConfig,
}

impl Team {
    /// A fresh copy with the same contents.
    pub fn duplicate(&self) -> (r: Team)
        ensures
            r.name == self.name,
            r.namespace == self.namespace,
            r.support == self.support,
            r.notifications == self.notifications,
            r.github_admins == self.github_admins,
            r.owners@ == self.owners@,
    {
        let mut owners: Vec<Owner> = Vec::new();
        let n = self.owners.len();
        let mut i: usize = 0;
        while i < n
            invariant
                n == self.owners@.len(),
                i <= n,
                owners@ =~= self.owners@.take(i as int),
            decreases n - i,
        {
            owners.push(Owner { github: crate::strutil::clone_opt_string(&self.owners[i].github) });
            i += 1;
        }
        proof {
            assert(self.owners@.take(n as int) =~= self.owners@);
        }
        Team {
            name: self.name.clone(),
            namespace: crate::strutil::clone_opt_string(&self.namespace),
            support: crate::strutil::clone_opt_string(&self.support),
            notifications: crate::strutil::clone_opt_string(&self.notifications),
            github_admins: crate::strutil::clone_opt_string(&self.github_admins),
            owners,
        }
    }
}

/// An elementwise copy of a team list; names are preserved exactly.
pub fn clone_teams(v: &Vec<Team>) -> (r: Vec<Team>)
    ensures
        r@.len() == v@.len(),
        forall|k: int| 0 <= k < v@.len() ==> (#[trigger] r@[k]).name == v@[k].name,
{
    let mut r: Vec<Team> = Vec::new();
    let n = v.len();
    let mut i: usize = 0;
    while i < n
        invariant
            n == v@.len(),
            i <= n,
            r@.len() == i,
            forall|k: int| 0 <= k < i ==> (#[trigger] r@[k]).name == v@[k].name,
        decreases n - i,
    {
        r.push(v[i].duplicate());
        i += 1;
    }
    r
}

/// Index of the first team with the given name, if any.
pub open spec fn spec_team_index(teams: Seq<Team>, name: Seq<char>) -> int
    decreases teams.len(),
{
    if teams.len() == 0 {
        -1
    } else if teams[0].name@ == name {
        0
    } else {
        let rest = spec_team_index(teams.drop_first(), name);
        if rest == -1 {
            -1
        } else {
            rest + 1
        }
    }
}

/// The first team with the given name, if any.
pub open spec fn spec_find_team(teams: Seq<Team>, name: Seq<char>) -> Option<Team> {
    if spec_team_index(teams, name) == -1 {
        None
    } else {
        Some(teams[spec_team_index(teams, name)])
    }
}

pub proof fn lemma_team_index(teams: Seq<Team>, name: Seq<char>)
    ensures
        spec_team_index(teams, name) == -1 ==> forall|i: int|
            0 <= i < teams.len() ==> teams[i].name@ != name,
        spec_team_index(teams, name) != -1 ==> {
            let k = spec_team_index(teams, name);
            &&& 0 <= k < teams.len()
            &&& teams[k].name@ == name
            &&& forall|i: int| 0 <= i < k ==> teams[i].name@ != name
        },
    decreases teams.len(),
{
    if teams.len() > 0 && teams[0].name@ != name {
        lemma_team_index(teams.drop_first(), name);
        assert(forall|i: int|
            1 <= i < teams.len() ==> teams[i] == teams.drop_first()[i - 1]);
    }
}

impl Config {
    /// Look a team up by name; the first match wins.
    pub fn find_team(&self, name: &String) -> (r: Option<&Team>)
        ensures
            match r {
                Some(t) => spec_find_team(self.teams@, name@) == Some(*t),
                None => spec_find_team(self.teams@, name@) is None,
            },
    {
        proof {
            lemma_team_index(self.teams@, name@);
        }
        let n = self.teams.len();
        let mut i: usize = 0;
        while i < n
            invariant
                n == self.teams@.len(),
                i <= n,
                forall|j: int| 0 <= j < i ==> self.teams@[j].name@ != name@,
            decreases n - i,
        {
            if self.teams[i].name == *name {
                proof {
                    lemma_team_index(self.teams@, name@);
                    let k = spec_team_index(self.teams@, name@);
                    if k != i as int {
                        if k == -1 {
                            assert(self.teams@[i as int].name@ == name@);
                        } else if k < i as int {
                            assert(self.teams@[k].name@ == name@);
                        } else {
                            assert(self.teams@[i as int].name@ != name@);
                        }
                    }
                }
                return Some(&self.teams[i]);
            }
            i += 1;
        }
        None
    }

    /// Position of the first team with the given name.
    pub fn team_index(&self, name: &String) -> (r: Option<usize>)
        ensures
            match r {
                Some(k) => spec_team_index(self.teams@, name@) == k as int,
                None => spec_team_index(self.teams@, name@) == -1,
            },
    {
        let n = self.teams.len();
        let mut i: usize = 0;
        while i < n
            invariant
                n == self.teams@.len(),
                i <= n,
                forall|j: int| 0 <= j < i ==> self.teams@[j].name@ != name@,
            decreases n - i,
        {
            if self.teams[i].name == *name {
                proof {
                    lemma_team_index(self.teams@, name@);
                    let k = spec_team_index(self.teams@, name@);
                    if k != i as int {
                        if k == -1 {
                            assert(self.teams@[i as int].name@ == name@);
                        } else if k < i as int {
                            assert(self.teams@[k].name@ == name@);
                        } else {
                            assert(self.teams@[i as int].name@ != name@);
                        }
                    }
                }
                return Some(i);
            }
            i += 1;
        }
        proof {
            lemma_team_index(self.teams@, name@);
            let k = spec_team_index(self.teams@, name@);
            if k != -1 {
                assert(self.teams@[k].name@ == name@);
            }
        }
        None
    }

    /// Whether a team of the given name is listed.
    pub fn has_team(&self, name: &String) -> (b: bool)
        ensures
            b == (spec_find_team(self.teams@, name@) is Some),
    {
        self.find_team(name).is_some()
    }
}

} // verus!

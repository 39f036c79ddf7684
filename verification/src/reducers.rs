//! Read-only reducers over resolved manifests and the global config:
//! version and image listings, team queries, reverse dependencies,
//! data-handling reports, code-owner lines, gateway status and cluster
//! information.  Each reducer computes plain data; printing it is the
//! caller's concern.

use vstd::prelude::*;
use vstd::string::*;
use crate::config::{spec_find_team, Cluster, Config, Region, Owner, Team};
use crate::kvmap::KvMap;
use crate::manifest::{Manifest, SimpleManifest};
use crate::semver_api::{parse_version, semver_accepts};
use crate::structs::DataHandling;
use crate::strutil::{clone_strings, concat3, concat_str, join_str, spec_join};

verus! {

/// The services of a listing that pin a well-formed semantic version, in
/// order.
pub open spec fn spec_version_names(s: Seq<SimpleManifest>) -> Seq<Seq<char>>
    decreases s.len(),
{
    if s.len() == 0 {
        Seq::empty()
    } else {
        let rest = spec_version_names(s.drop_last());
        let m = s.last();
        if m.version is Some && semver_accepts(m.version->Some_0@) {
            rest.push(m.base.name@)
        } else {
            rest
        }
    }
}

/// The pinned, well-formed versions of a region's services: one entry per
/// service whose manifest pins a version that parses; services without one
/// are not returned.
pub fn versions(mfs: &Vec<SimpleManifest>) -> (r: Vec<(String, semver::Version)>)
    ensures
        r@.map_values(|p: (String, semver::Version)| p.0@) == spec_version_names(mfs@),
{
    let mut out: Vec<(String, semver::Version)> = Vec::new();
    let n = mfs.len();
    let mut i: usize = 0;
    while i < n
        invariant
            n == mfs@.len(),
            i <= n,
            out@.map_values(|p: (String, semver::Version)| p.0@) =~= spec_version_names(
                mfs@.take(i as int),
            ),
        decreases n - i,
    {
        let m = &mfs[i];
        if let Some(v) = &m.version {
            if let Some(sv) = parse_version(v.as_str()) {
                out.push((m.base.name.clone(), sv));
            }
        }
        proof {
            assert(mfs@.take(i + 1).drop_last() =~= mfs@.take(i as int));
            assert(out@.map_values(|p: (String, semver::Version)| p.0@) =~= spec_version_names(
                mfs@.take(i + 1),
            ));
        }
        i += 1;
    }
    proof {
        assert(mfs@.take(n as int) =~= mfs@);
    }
    out
}

/// The (service, image) pairs of a listing, for services with a resolved
/// image, in order.
pub open spec fn spec_image_entries(s: Seq<SimpleManifest>) -> Seq<(Seq<char>, Seq<char>)>
    decreases s.len(),
{
    if s.len() == 0 {
        Seq::empty()
    } else {
        let rest = spec_image_entries(s.drop_last());
        let m = s.last();
        if m.image is Some {
            rest.push((m.base.name@, m.image->Some_0@))
        } else {
            rest
        }
    }
}

/// The images of a region's services; a service without one is not
/// returned.
pub fn images(mfs: &Vec<SimpleManifest>) -> (r: Vec<(String, String)>)
    ensures
        r@.map_values(|p: (String, String)| (p.0@, p.1@)) == spec_image_entries(mfs@),
{
    let mut out: Vec<(String, String)> = Vec::new();
    let n = mfs.len();
    let mut i: usize = 0;
    while i < n
        invariant
            n == mfs@.len(),
            i <= n,
            out@.map_values(|p: (String, String)| (p.0@, p.1@)) =~= spec_image_entries(
                mfs@.take(i as int),
            ),
        decreases n - i,
    {
        let m = &mfs[i];
        if let Some(img) = &m.image {
            out.push((m.base.name.clone(), img.clone()));
        }
        proof {
            assert(mfs@.take(i + 1).drop_last() =~= mfs@.take(i as int));
            assert(out@.map_values(|p: (String, String)| (p.0@, p.1@)) =~= spec_image_entries(
                mfs@.take(i + 1),
            ));
        }
        i += 1;
    }
    proof {
        assert(mfs@.take(n as int) =~= mfs@);
    }
    out
}

/// The names of the manifests owned by a team, in order.
pub open spec fn spec_team_services(s: Seq<Manifest>, team: Seq<char>) -> Seq<Seq<char>>
    decreases s.len(),
{
    if s.len() == 0 {
        Seq::empty()
    } else {
        let rest = spec_team_services(s.drop_last(), team);
        let m = s.last();
        if m.metadata is Some && m.metadata->Some_0.team@ == team {
            rest.push(m.name@)
        } else {
            rest
        }
    }
}

/// The services a team owns.
pub fn manifests_for_team(mfs: &Vec<Manifest>, team: &String) -> (r: Vec<String>)
    ensures
        r@.map_values(|n: String| n@) == spec_team_services(mfs@, team@),
{
    let mut out: Vec<String> = Vec::new();
    let n = mfs.len();
    let mut i: usize = 0;
    while i < n
        invariant
            n == mfs@.len(),
            i <= n,
            out@.map_values(|s: String| s@) =~= spec_team_services(mfs@.take(i as int), team@),
        decreases n - i,
    {
        let m = &mfs[i];
        let owned = match &m.metadata {
            Some(md) => md.team == *team,
            None => false,
        };
        if owned {
            out.push(m.name.clone());
        }
        proof {
            assert(mfs@.take(i + 1).drop_last() =~= mfs@.take(i as int));
            assert(out@.map_values(|s: String| s@) =~= spec_team_services(
                mfs@.take(i + 1),
                team@,
            ));
        }
        i += 1;
    }
    proof {
        assert(mfs@.take(n as int) =~= mfs@);
    }
    out
}

/// Whether a manifest declares a dependency on the named service.
pub open spec fn spec_depends_on(m: Manifest, service: Seq<char>) -> bool {
    exists|i: int| 0 <= i < m.dependencies@.len() && (#[trigger] m.dependencies@[i]).name@
        == service
}

/// The names of the manifests that depend on the named service, in order.
pub open spec fn spec_reverse_deps(s: Seq<Manifest>, service: Seq<char>) -> Seq<Seq<char>>
    decreases s.len(),
{
    if s.len() == 0 {
        Seq::empty()
    } else {
        let rest = spec_reverse_deps(s.drop_last(), service);
        if spec_depends_on(s.last(), service) {
            rest.push(s.last().name@)
        } else {
            rest
        }
    }
}

/// The services that declare a dependency on `service`.
pub fn reverse_dependencies(mfs: &Vec<Manifest>, service: &String) -> (r: Vec<String>)
    ensures
        r@.map_values(|n: String| n@) == spec_reverse_deps(mfs@, service@),
{
    let mut out: Vec<String> = Vec::new();
    let n = mfs.len();
    let mut i: usize = 0;
    while i < n
        invariant
            n == mfs@.len(),
            i <= n,
            out@.map_values(|s: String| s@) =~= spec_reverse_deps(mfs@.take(i as int), service@),
        decreases n - i,
    {
        let m = &mfs[i];
        let mut depends = false;
        let dn = m.dependencies.len();
        let mut j: usize = 0;
        while j < dn
            invariant
                dn == m.dependencies@.len(),
                j <= dn,
                depends == exists|k: int|
                    0 <= k < j && (#[trigger] m.dependencies@[k]).name@ == service@,
            decreases dn - j,
        {
            if m.dependencies[j].name == *service {
                depends = true;
            }
            j += 1;
        }
        if depends {
            out.push(m.name.clone());
        }
        proof {
            assert(mfs@.take(i + 1).drop_last() =~= mfs@.take(i as int));
            assert(depends == spec_depends_on(mfs@[i as int], service@));
            assert(out@.map_values(|s: String| s@) =~= spec_reverse_deps(
                mfs@.take(i + 1),
                service@,
            ));
        }
        i += 1;
    }
    proof {
        assert(mfs@.take(n as int) =~= mfs@);
    }
    out
}

/// Data-handling report over a set of manifests.
#[derive(Debug, Clone, PartialEq, Eq)]
pub struct GdprReport {
    /// One entry per service that declares a data-handling block.
    pub mappings: Vec<(String, DataHandling)>,
    /// Every service of the set.
    pub services: Vec<String>,
}

/// The (service, stores) pairs of the manifests that declare data
/// handling, in order.
pub open spec fn spec_gdpr_entries(s: Seq<Manifest>) -> Seq<
    (Seq<char>, Seq<crate::structs::DataStore>),
>
    decreases s.len(),
{
    if s.len() == 0 {
        Seq::empty()
    } else {
        let rest = spec_gdpr_entries(s.drop_last());
        let m = s.last();
        if m.data_handling is Some {
            rest.push((m.name@, m.data_handling->Some_0.stores@))
        } else {
            rest
        }
    }
}

/// Collect the data-handling declarations of a region's manifests.
pub fn show(mfs: &Vec<Manifest>) -> (r: GdprReport)
    ensures
        r.services@.map_values(|n: String| n@) == mfs@.map_values(|m: Manifest| m.name@),
        r.mappings@.map_values(|p: (String, DataHandling)| (p.0@, p.1.stores@))
            == spec_gdpr_entries(mfs@),
{
    let mut mappings: Vec<(String, DataHandling)> = Vec::new();
    let mut services: Vec<String> = Vec::new();
    let n = mfs.len();
    let mut i: usize = 0;
    while i < n
        invariant
            n == mfs@.len(),
            i <= n,
            services@.map_values(|s: String| s@) =~= mfs@.take(i as int).map_values(
                |m: Manifest| m.name@,
            ),
            mappings@.map_values(|p: (String, DataHandling)| (p.0@, p.1.stores@))
                =~= spec_gdpr_entries(mfs@.take(i as int)),
        decreases n - i,
    {
        let m = &mfs[i];
        if let Some(dh) = &m.data_handling {
            mappings.push((m.name.clone(), dh.duplicate()));
        }
        services.push(m.name.clone());
        proof {
            assert(mfs@.take(i + 1).drop_last() =~= mfs@.take(i as int));
            let pre = mfs@.take(i as int).map_values(|m: Manifest| m.name@);
            assert(services@.map_values(|s: String| s@) =~= pre.push(mfs@[i as int].name@));
            assert(mfs@.take(i + 1).map_values(|m: Manifest| m.name@) =~= pre.push(
                mfs@[i as int].name@,
            ));
            assert(mappings@.map_values(|p: (String, DataHandling)| (p.0@, p.1.stores@))
                =~= spec_gdpr_entries(mfs@.take(i + 1)));
        }
        i += 1;
    }
    proof {
        assert(mfs@.take(n as int) =~= mfs@);
    }
    GdprReport { mappings, services }
}

/// Flat summary of one region's cluster coordinates.
#[derive(Debug, Clone, PartialEq, Eq)]
pub struct ClusterInfo {
    pub region: String,
    pub namespace: String,
    pub environment: String,
    pub apiserver: String,
    pub cluster: String,
    pub vault: String,
    pub kong: String,
}

/// Assemble the cluster summary of a (region, cluster) pair.
pub fn clusterinfo(reg: &Region, clust: &Cluster) -> (r: ClusterInfo)
    ensures
        r.region == reg.name,
        r.namespace == reg.namespace,
        r.environment == reg.environment,
        r.apiserver == clust.api,
        r.cluster == clust.name,
        r.vault == reg.vault.url,
        r.kong == reg.kong.config_url,
{
    ClusterInfo {
        region: reg.name.clone(),
        namespace: reg.namespace.clone(),
        environment: reg.environment.clone(),
        apiserver: clust.api.clone(),
        cluster: clust.name.clone(),
        vault: reg.vault.url.clone(),
        kong: reg.kong.config_url.clone(),
    }
}

/// The secrets-manager address of a region; invariant over the region.
pub fn vault_url(region: &Region) -> (r: String)
    ensures
        r == region.vault.url,
{
    region.vault.url.clone()
}

/// The github handles of a team's owners, each prefixed with `@`.
pub open spec fn spec_owner_handles(owners: Seq<Owner>) -> Seq<Seq<char>> {
    owners.map_values(|o: Owner| seq!['@'] + o.github->Some_0@)
}

/// The mention list of a team: the admins team as `@org/admins` when one
/// is configured, then every owner's handle.
pub open spec fn spec_ghids(org: Seq<char>, t: Team) -> Seq<Seq<char>> {
    (match t.github_admins {
        Some(gha) => seq![seq!['@'] + org + seq!['/'] + gha@],
        None => Seq::<Seq<char>>::empty(),
    }) + spec_owner_handles(t.owners@)
}

/// One code-owner line: `services/<name>/* ` then the mention list joined
/// with spaces.
pub open spec fn spec_codeowner_line(org: Seq<char>, name: Seq<char>, t: Team) -> Seq<char> {
    seq!['s', 'e', 'r', 'v', 'i', 'c', 'e', 's', '/'] + name + seq!['/', '*', ' '] + spec_join(
        spec_ghids(org, t),
        seq![' '],
    )
}

/// The code-owner lines of a set of services: one line per service whose
/// team is known and has at least one owner, in order.
pub open spec fn spec_codeowner_lines(
    s: Seq<crate::manifest::BaseManifest>,
    conf: Config,
) -> Seq<Seq<char>>
    decreases s.len(),
{
    if s.len() == 0 {
        Seq::empty()
    } else {
        let rest = spec_codeowner_lines(s.drop_last(), conf);
        let m = s.last();
        match spec_find_team(conf.teams@, m.metadata.team@) {
            Some(t) => if t.owners@.len() > 0 {
                rest.push(spec_codeowner_line(conf.github.organisation@, m.name@, t))
            } else {
                rest
            },
            None => rest,
        }
    }
}

/// Generate one code-owner line per service, cross-referencing the team
/// list; a service whose team has no owners, or is unknown, yields none.
pub fn codeowners(conf: &Config, mfs: &Vec<crate::manifest::BaseManifest>) -> (r: Vec<String>)
    requires
        forall|i: int, j: int|
            0 <= i < conf.teams@.len() && 0 <= j < (#[trigger] conf.teams@[i]).owners@.len()
                ==> (#[trigger] conf.teams@[i].owners@[j]).github is Some,
    ensures
        r@.map_values(|l: String| l@) == spec_codeowner_lines(mfs@, *conf),
{
    let mut out: Vec<String> = Vec::new();
    let org = &conf.github.organisation;
    let n = mfs.len();
    let mut i: usize = 0;
    while i < n
        invariant
            n == mfs@.len(),
            org == conf.github.organisation,
            forall|a: int, b: int|
                0 <= a < conf.teams@.len() && 0 <= b < (#[trigger] conf.teams@[a]).owners@.len()
                    ==> (#[trigger] conf.teams@[a].owners@[b]).github is Some,
            i <= n,
            out@.map_values(|l: String| l@) =~= spec_codeowner_lines(mfs@.take(i as int), *conf),
        decreases n - i,
    {
        let m = &mfs[i];
        match conf.find_team(&m.metadata.team) {
            Some(t) => {
                proof {
                    crate::config::lemma_team_index(conf.teams@, m.metadata.team@);
                    let k = crate::config::spec_team_index(conf.teams@, m.metadata.team@);
                    assert(conf.teams@[k] == *t);
                    assert(forall|b: int|
                        0 <= b < t.owners@.len() ==> (#[trigger] t.owners@[b]).github is Some);
                }
                let mut ghids: Vec<String> = Vec::new();
                if let Some(gha) = &t.github_admins {
                    let head = concat3("@", org.as_str(), "/");
                    let handle = concat_str(head.as_str(), gha.as_str());
                    proof {
                        reveal_strlit("@");
                        reveal_strlit("/");
                        assert(handle@ =~= seq!['@'] + org@ + seq!['/'] + gha@);
                    }
                    ghids.push(handle);
                }
                proof {
                    assert(ghids@.map_values(|s: String| s@) =~= (match t.github_admins {
                        Some(gha) => seq![seq!['@'] + org@ + seq!['/'] + gha@],
                        None => Seq::<Seq<char>>::empty(),
                    }));
                }
                let on = t.owners.len();
                let mut j: usize = 0;
                while j < on
                    invariant
                        on == t.owners@.len(),
                        org == conf.github.organisation,
                        forall|b: int|
                            0 <= b < t.owners@.len() ==> (#[trigger] t.owners@[b]).github
                                is Some,
                        j <= on,
                        ghids@.map_values(|s: String| s@) =~= (match t.github_admins {
                            Some(gha) => seq![seq!['@'] + org@ + seq!['/'] + gha@],
                            None => Seq::<Seq<char>>::empty(),
                        }) + spec_owner_handles(t.owners@.take(j as int)),
                    decreases on - j,
                {
                    let o = &t.owners[j];
                    match &o.github {
                        Some(g) => {
                            let handle = concat_str("@", g.as_str());
                            proof {
                                reveal_strlit("@");
                                assert(handle@ =~= seq!['@'] + g@);
                            }
                            ghids.push(handle);
                        },
                        None => {
                            proof {
                                assert(false);
                            }
                        },
                    }
                    proof {
                        let prefix = (match &t.github_admins {
                            Some(gha) => seq![seq!['@'] + org@ + seq!['/'] + gha@],
                            None => Seq::<Seq<char>>::empty(),
                        });
                        let newh = seq!['@'] + t.owners@[j as int].github->Some_0@;
                        assert(t.owners@.take(j + 1).drop_last() =~= t.owners@.take(j as int));
                        assert(spec_owner_handles(t.owners@.take(j + 1)) =~= spec_owner_handles(
                            t.owners@.take(j as int),
                        ).push(newh));
                        assert(ghids@.map_values(|s: String| s@) =~= (prefix
                            + spec_owner_handles(t.owners@.take(j as int))).push(newh));
                        assert((prefix + spec_owner_handles(t.owners@.take(j as int))).push(newh)
                            =~= prefix + spec_owner_handles(t.owners@.take(j + 1)));
                    }
                    j += 1;
                }
                proof {
                    assert(t.owners@.take(on as int) =~= t.owners@);
                    assert(ghids@.map_values(|s: String| s@) =~= spec_ghids(org@, *t));
                }
                if t.owners.len() > 0 {
                    let joined = join_str(&ghids, " ");
                    let head = concat3("services/", m.name.as_str(), "/* ");
                    let line = concat_str(head.as_str(), joined.as_str());
                    proof {
                        reveal_strlit("services/");
                        reveal_strlit("/* ");
                        reveal_strlit(" ");
                        assert("services/"@ =~= seq!['s', 'e', 'r', 'v', 'i', 'c', 'e', 's', '/']);
                        assert("/* "@ =~= seq!['/', '*', ' ']);
                        assert(" "@ =~= seq![' ']);
                        assert(line@ =~= seq!['s', 'e', 'r', 'v', 'i', 'c', 'e', 's', '/']
                            + m.name@ + seq!['/', '*', ' '] + spec_join(
                            spec_ghids(conf.github.organisation@, *t),
                            seq![' '],
                        ));
                    }
                    out.push(line);
                }
            },
            None => {},
        }
        proof {
            assert(mfs@.take(i + 1).drop_last() =~= mfs@.take(i as int));
            assert(out@.map_values(|l: String| l@) =~= spec_codeowner_lines(
                mfs@.take(i + 1),
                *conf,
            ));
        }
        i += 1;
    }
    proof {
        assert(mfs@.take(n as int) =~= mfs@);
    }
    out
}

/// One gateway entry of the status report.
#[derive(Debug, Clone, PartialEq, Eq)]
pub struct APIServiceParams {
    pub hosts: String,
    pub uris: String,
    pub internal: bool,
    pub publicly_accessible: bool,
    pub websockets: bool,
}

/// Environment half of the status report.
#[derive(Debug, Clone, PartialEq, Eq)]
pub struct EnvironmentInfo {
    pub name: String,
    pub services_suffix: String,
    pub base_urls: KvMap,
    pub ip_whitelist: Vec<String>,
}

/// The gateway status of one region.
#[derive(Debug, Clone, PartialEq, Eq)]
pub struct APIStatusOutput {
    pub environment: EnvironmentInfo,
    pub services: Vec<(String, APIServiceParams)>,
}

/// Observable contents of one gateway entry.
pub open spec fn spec_params_view(p: APIServiceParams) -> (
    Seq<char>,
    Seq<char>,
    bool,
    bool,
    bool,
) {
    (p.hosts@, p.uris@, p.internal, p.publicly_accessible, p.websockets)
}

/// The entry a gateway-bearing manifest contributes.  A gate overrides the
/// publicly-accessible flag (the two agree on any validated manifest) and
/// supplies the websocket flag.
pub open spec fn spec_manifest_api_entry(m: Manifest) -> (
    Seq<char>,
    (Seq<char>, Seq<char>, bool, bool, bool),
)
    recommends
        m.kong is Some,
{
    let k = m.kong->Some_0;
    (
        m.name@,
        (
            spec_join(k.hosts@.map_values(|h: String| h@), seq![',']),
            match k.uris {
                Some(u) => u@,
                None => Seq::<char>::empty(),
            },
            k.internal,
            match m.gate {
                Some(g) => g.public,
                None => m.publicly_accessible,
            },
            match m.gate {
                Some(g) => g.websockets,
                None => false,
            },
        ),
    )
}

/// The entries of the gateway-bearing manifests, in order.
pub open spec fn spec_api_entries(s: Seq<Manifest>) -> Seq<
    (Seq<char>, (Seq<char>, Seq<char>, bool, bool, bool)),
>
    decreases s.len(),
{
    if s.len() == 0 {
        Seq::empty()
    } else {
        let rest = spec_api_entries(s.drop_last());
        if s.last().kong is Some {
            rest.push(spec_manifest_api_entry(s.last()))
        } else {
            rest
        }
    }
}

/// The entry one extra gateway api of the region contributes.
pub open spec fn spec_extra_entry(e: crate::config::ExtraApi) -> (
    Seq<char>,
    (Seq<char>, Seq<char>, bool, bool, bool),
) {
    (
        e.name@,
        (
            spec_join(e.hosts@.map_values(|h: String| h@), seq![',']),
            match e.uris {
                Some(u) => u@,
                None => Seq::<char>::empty(),
            },
            e.internal,
            e.publicly_accessible,
            false,
        ),
    )
}

/// The gateway status of a region: one entry per gateway-bearing manifest,
/// then one per extra api configured on the region.
pub fn apistatus(reg: &Region, mfs: &Vec<Manifest>) -> (r: APIStatusOutput)
    ensures
        r.environment.name == reg.name,
        r.environment.services_suffix == reg.kong.base_url,
        r.environment.base_urls@ == reg.base_urls@,
        r.environment.ip_whitelist@ == reg.ip_whitelist@,
        r.services@.map_values(|p: (String, APIServiceParams)| (p.0@, spec_params_view(p.1)))
            == spec_api_entries(mfs@) + reg.kong.extra_apis@.map_values(
            |e: crate::config::ExtraApi| spec_extra_entry(e),
        ),
{
    let mut services: Vec<(String, APIServiceParams)> = Vec::new();
    let n = mfs.len();
    let mut i: usize = 0;
    while i < n
        invariant
            n == mfs@.len(),
            i <= n,
            services@.map_values(|p: (String, APIServiceParams)| (p.0@, spec_params_view(p.1)))
                =~= spec_api_entries(mfs@.take(i as int)),
        decreases n - i,
    {
        let m = &mfs[i];
        if let Some(k) = &m.kong {
            let hosts = join_str(&k.hosts, ",");
            proof {
                reveal_strlit(",");
                assert(","@ =~= seq![',']);
                assert(hosts@ == spec_join(k.hosts@.map_values(|h: String| h@), seq![',']));
            }
            let uris = match &k.uris {
                Some(u) => u.clone(),
                None => String::new(),
            };
            let (publicly_accessible, websockets) = match &m.gate {
                Some(g) => (g.public, g.websockets),
                None => (m.publicly_accessible, false),
            };
            services.push(
                (
                    m.name.clone(),
                    APIServiceParams {
                        hosts,
                        uris,
                        internal: k.internal,
                        publicly_accessible,
                        websockets,
                    },
                ),
            );
        }
        proof {
            assert(mfs@.take(i + 1).drop_last() =~= mfs@.take(i as int));
            assert(services@.map_values(
                |p: (String, APIServiceParams)| (p.0@, spec_params_view(p.1)),
            ) =~= spec_api_entries(mfs@.take(i + 1)));
        }
        i += 1;
    }
    proof {
        assert(mfs@.take(n as int) =~= mfs@);
    }
    let en = reg.kong.extra_apis.len();
    let mut j: usize = 0;
    while j < en
        invariant
            en == reg.kong.extra_apis@.len(),
            j <= en,
            services@.map_values(|p: (String, APIServiceParams)| (p.0@, spec_params_view(p.1)))
                =~= spec_api_entries(mfs@) + reg.kong.extra_apis@.take(j as int).map_values(
                |e: crate::config::ExtraApi| spec_extra_entry(e),
            ),
        decreases en - j,
    {
        let e = &reg.kong.extra_apis[j];
        let hosts = join_str(&e.hosts, ",");
        proof {
            reveal_strlit(",");
            assert(","@ =~= seq![',']);
            assert(hosts@ == spec_join(e.hosts@.map_values(|h: String| h@), seq![',']));
        }
        let uris = match &e.uris {
            Some(u) => u.clone(),
            None => String::new(),
        };
        services.push(
            (
                e.name.clone(),
                APIServiceParams {
                    hosts,
                    uris,
                    internal: e.internal,
                    publicly_accessible: e.publicly_accessible,
                    websockets: false,
                },
            ),
        );
        proof {
            let pre = spec_api_entries(mfs@) + reg.kong.extra_apis@.take(j as int).map_values(
                |e: crate::config::ExtraApi| spec_extra_entry(e),
            );
            assert(services@.map_values(
                |p: (String, APIServiceParams)| (p.0@, spec_params_view(p.1)),
            ) =~= pre.push(spec_extra_entry(reg.kong.extra_apis@[j as int])));
            assert(spec_api_entries(mfs@) + reg.kong.extra_apis@.take(j + 1).map_values(
                |e: crate::config::ExtraApi| spec_extra_entry(e),
            ) =~= pre.push(spec_extra_entry(reg.kong.extra_apis@[j as int])));
        }
        j += 1;
    }
    proof {
        assert(reg.kong.extra_apis@.take(en as int) =~= reg.kong.extra_apis@);
    }
    APIStatusOutput {
        environment: EnvironmentInfo {
            name: reg.name.clone(),
            services_suffix: reg.kong.base_url.clone(),
            base_urls: reg.base_urls.duplicate(),
            ip_whitelist: clone_strings(&reg.ip_whitelist),
        },
        services,
    }
}

} // verus!

use shipcat::breakdown::{resources_region, ResourceBreakdown};
use shipcat::config::{
    clone_teams, Cluster, Config, ExtraApi, GithubConfig, KongRegionConfig, Owner, Region, Team,
    VaultRegionConfig,
};
use shipcat::kvmap::KvMap;
use shipcat::manifest::{ManifestDefaults, ManifestOverrides, ManifestSource, TemplateStore};
use shipcat::reducers::{
    apistatus, clusterinfo, codeowners, images, manifests_for_team, reverse_dependencies, show,
    vault_url, versions,
};
use shipcat::resources::{ResourceRequirementsSource, ResourcesSource};
use shipcat::structs::{DataHandling, DataStore, Dependency, Gate, KongSource, Metadata};

fn team(name: &str) -> Team {
    Team {
        name: name.into(),
        namespace: None,
        support: None,
        notifications: None,
        github_admins: Some("admins".into()),
        owners: vec![Owner { github: Some("alice".into()) }],
    }
}

fn config() -> Config {
    Config { teams: vec![team("platform")], github: GithubConfig { organisation: "acme".into() } }
}

fn region(name: &str) -> Region {
    Region {
        name: name.into(),
        namespace: "apps".into(),
        environment: "staging".into(),
        base_urls: KvMap::new(),
        ip_whitelist: vec!["10.0.0.0/8".into()],
        kong: KongRegionConfig {
            base_url: "svc.example.com".into(),
            config_url: "http://kong".into(),
            extra_apis: vec![ExtraApi {
                name: "legacy".into(),
                uris: Some("/legacy".into()),
                hosts: vec!["a".into(), "b".into()],
                internal: true,
                publicly_accessible: false,
            }],
        },
        vault: VaultRegionConfig { url: "http://vault".into() },
    }
}

fn source(name: &str, version: Option<&str>) -> ManifestSource {
    ManifestSource {
        name: Some(name.into()),
        external: false,
        disabled: false,
        regions: vec!["staging".into()],
        metadata: Some(Metadata { team: "platform".into(), support: None, notifications: None }),
        overrides: ManifestOverrides {
            version: version.map(|v| v.into()),
            defaults: ManifestDefaults {
                image_prefix: Some("registry/acme".into()),
                ..Default::default()
            },
            ..Default::default()
        },
    }
}

fn manifest(src: ManifestSource) -> shipcat::manifest::Manifest {
    src.build(&config(), &region("staging"), &TemplateStore::default()).unwrap()
}

#[test]
fn versions_lists_only_parseable_pinned_versions() {
    let conf = config();
    let reg = region("staging");
    let simples = vec![
        source("auth", Some("1.2.0")).build_simple(&conf, &reg).unwrap(),
        source("billing", None).build_simple(&conf, &reg).unwrap(),
        source("legacy", Some("not-semver")).build_simple(&conf, &reg).unwrap(),
    ];
    let out = versions(&simples);
    assert_eq!(out.len(), 1);
    assert_eq!(out[0].0, "auth".to_string());
    assert_eq!(out[0].1.to_string(), "1.2.0".to_string());
}

#[test]
fn images_lists_resolved_images() {
    let conf = config();
    let reg = region("staging");
    let simples = vec![source("auth", None).build_simple(&conf, &reg).unwrap()];
    let out = images(&simples);
    assert_eq!(out, vec![("auth".to_string(), "registry/acme/auth".to_string())]);
}

#[test]
fn codeowners_cross_references_teams() {
    let conf = config();
    let bases = vec![source("auth", None).build_base(&conf).unwrap()];
    let lines = codeowners(&conf, &bases);
    assert_eq!(lines, vec!["services/auth/* @acme/admins @alice".to_string()]);
}

#[test]
fn codeowners_skips_teams_without_owners() {
    let mut conf = config();
    conf.teams[0].owners.clear();
    let bases = vec![source("auth", None).build_base(&conf).unwrap()];
    assert!(codeowners(&conf, &bases).is_empty());
}

#[test]
fn gdpr_show_collects_declared_data_handling() {
    let mut src = source("auth", None);
    src.overrides.data_handling = Some(DataHandling {
        stores: vec![DataStore { backend: "pg".into(), encrypted: Some(true), pii: Some(true) }],
    });
    let mfs = vec![manifest(src), manifest(source("billing", None))];
    let report = show(&mfs);
    assert_eq!(report.services, vec!["auth".to_string(), "billing".to_string()]);
    assert_eq!(report.mappings.len(), 1);
    assert_eq!(report.mappings[0].0, "auth".to_string());
    assert_eq!(report.mappings[0].1.stores[0].backend, "pg".to_string());
}

#[test]
fn apistatus_reports_gateway_entries_and_extras() {
    let mut src = source("auth", None);
    src.overrides.kong = Some(KongSource { uris: Some("/auth".into()), internal: None, authorization: None });
    src.overrides.gate = Some(Gate { public: true, websockets: true });
    src.overrides.publicly_accessible = Some(true);
    let mfs = vec![manifest(src)];
    let reg = region("staging");
    let out = apistatus(&reg, &mfs);
    assert_eq!(out.environment.name, "staging".to_string());
    assert_eq!(out.environment.services_suffix, "svc.example.com".to_string());
    assert_eq!(out.services.len(), 2);
    let (name, params) = &out.services[0];
    assert_eq!(name, "auth");
    // The host comes from service name and region; the declared gate
    // block supplies the two flags.
    assert_eq!(params.hosts, "auth.svc.example.com".to_string());
    assert_eq!(params.uris, "/auth".to_string());
    assert!(params.publicly_accessible);
    assert!(params.websockets);
    let (ename, eparams) = &out.services[1];
    assert_eq!(ename, "legacy");
    assert_eq!(eparams.hosts, "a,b".to_string());
    assert!(eparams.internal);
    assert!(!eparams.websockets);
}

#[test]
fn clusterinfo_and_vault_url_expose_region_coordinates() {
    let reg = region("staging");
    let clust = Cluster { name: "blue".into(), api: "https://api".into() };
    let info = clusterinfo(&reg, &clust);
    assert_eq!(info.region, "staging".to_string());
    assert_eq!(info.namespace, "apps".to_string());
    assert_eq!(info.apiserver, "https://api".to_string());
    assert_eq!(info.cluster, "blue".to_string());
    assert_eq!(info.vault, "http://vault".to_string());
    assert_eq!(info.kong, "http://kong".to_string());
    assert_eq!(vault_url(&reg), "http://vault".to_string());
}

#[test]
fn team_and_dependency_queries_filter_manifests() {
    let mut dep = source("billing", None);
    dep.overrides.dependencies = Some(vec![Dependency { name: "auth".into() }]);
    let mfs = vec![manifest(source("auth", None)), manifest(dep)];
    assert_eq!(
        manifests_for_team(&mfs, &"platform".into()),
        vec!["auth".to_string(), "billing".to_string()]
    );
    assert!(manifests_for_team(&mfs, &"strangers".into()).is_empty());
    assert_eq!(reverse_dependencies(&mfs, &"auth".into()), vec!["billing".to_string()]);
    assert!(reverse_dependencies(&mfs, &"billing".into()).is_empty());
}

fn side(cpu: &str, memory: &str) -> ResourcesSource {
    ResourcesSource { cpu: Some(cpu.into()), memory: Some(memory.into()) }
}

#[test]
fn resources_region_partitions_by_team() {
    let conf = config();
    let mut src = source("auth", None);
    src.overrides.resources = Some(ResourceRequirementsSource {
        requests: side("500m", "1Gi"),
        limits: side("1", "2Gi"),
    });
    src.overrides.defaults.replica_count = Some(2);
    let mfs = vec![manifest(src)];
    let bd = resources_region(&conf, &mfs).unwrap();
    assert_eq!(bd.totals.base.millicores, 1000); // 500m x 2 replicas
    assert_eq!(bd.totals.base.memory_bytes, 2 * 1073741824);
    assert_eq!(bd.teams.len(), 1);
    assert_eq!(bd.teams[0].0, "platform".to_string());
    assert_eq!(bd.teams[0].1.base.millicores, 1000);
}

#[test]
fn breakdown_normalise_rounds_to_cores_and_gigs() {
    let conf = config();
    let mut src = source("auth", None);
    src.overrides.resources = Some(ResourceRequirementsSource {
        requests: side("1500m", "1600Mi"),
        limits: side("2", "2Gi"),
    });
    let mfs = vec![manifest(src)];
    let bd = resources_region(&conf, &mfs).unwrap().normalise();
    // 1500m rounds up to 2 cores; 1600Mi rounds to 2Gi.
    assert_eq!(bd.totals.base.millicores, 2000);
    assert_eq!(bd.totals.base.memory_bytes, 2 * 1073741824);
}

#[test]
fn breakdowns_absorb_across_regions() {
    let conf = config();
    let mut src = source("auth", None);
    src.overrides.resources = Some(ResourceRequirementsSource {
        requests: side("250m", "256Mi"),
        limits: side("1", "1Gi"),
    });
    let mfs = vec![manifest(src)];
    let mut total = ResourceBreakdown::new(clone_teams(&conf.teams));
    let per_region = resources_region(&conf, &mfs).unwrap();
    total.absorb(&per_region);
    total.absorb(&per_region);
    assert_eq!(total.totals.base.millicores, 500);
    assert_eq!(total.teams[0].1.base.memory_bytes, 2 * 256 * 1048576);
}

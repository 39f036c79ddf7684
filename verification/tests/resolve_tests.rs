use shipcat::config::{Config, GithubConfig, KongRegionConfig, Owner, Region, Team, VaultRegionConfig};
use shipcat::errors::ValidationError;
use shipcat::kvmap::KvMap;
use shipcat::manifest::{ManifestDefaults, ManifestOverrides, ManifestSource, TemplateStore};
use shipcat::structs::{ConfigMap, ConfigMappedFile, DataHandling, DataStore, Gate, Kafka, Metadata};

fn team(name: &str, namespace: Option<&str>) -> Team {
    Team {
        name: name.into(),
        namespace: namespace.map(|s| s.into()),
        support: Some("#support".into()),
        notifications: Some("#alerts".into()),
        github_admins: None,
        owners: vec![],
    }
}

fn config(teams: Vec<Team>) -> Config {
    Config { teams, github: GithubConfig { organisation: "acme".into() } }
}

fn region(name: &str, namespace: &str) -> Region {
    Region {
        name: name.into(),
        namespace: namespace.into(),
        environment: "staging".into(),
        base_urls: KvMap::new(),
        ip_whitelist: vec![],
        kong: KongRegionConfig {
            base_url: "svc.example.com".into(),
            config_url: "http://kong".into(),
            extra_apis: vec![],
        },
        vault: VaultRegionConfig { url: "http://vault".into() },
    }
}

fn source(name: &str) -> ManifestSource {
    ManifestSource {
        name: Some(name.into()),
        external: false,
        disabled: false,
        regions: vec!["dev-uk".into()],
        metadata: Some(Metadata { team: "platform".into(), support: None, notifications: None }),
        overrides: ManifestOverrides {
            defaults: ManifestDefaults {
                image_prefix: Some("registry/acme".into()),
                ..Default::default()
            },
            ..Default::default()
        },
    }
}

fn store() -> TemplateStore {
    TemplateStore::default()
}

// Namespace coalescing: all four combinations of team-exists and
// team-namespace-present, with the region namespace always available.
#[test]
fn namespace_uses_team_namespace_when_team_defines_one() {
    let conf = config(vec![team("platform", Some("platform-ns"))]);
    let reg = region("dev-uk", "apps");
    let ns = source("webapp").coalesce_namespace(&conf, &reg, "platform".into());
    assert_eq!(ns, "platform-ns".to_string());
}

#[test]
fn namespace_falls_back_when_team_has_no_namespace() {
    let conf = config(vec![team("platform", None)]);
    let reg = region("dev-uk", "apps");
    let ns = source("webapp").coalesce_namespace(&conf, &reg, "platform".into());
    assert_eq!(ns, "apps".to_string());
}

#[test]
fn namespace_falls_back_when_team_is_unknown() {
    let conf = config(vec![team("platform", Some("platform-ns"))]);
    let reg = region("dev-uk", "apps");
    let ns = source("webapp").coalesce_namespace(&conf, &reg, "strangers".into());
    assert_eq!(ns, "apps".to_string());
}

#[test]
fn namespace_falls_back_with_no_teams_at_all() {
    let conf = config(vec![]);
    let reg = region("dev-uk", "apps");
    let ns = source("webapp").coalesce_namespace(&conf, &reg, "platform".into());
    assert_eq!(ns, "apps".to_string());
}

#[test]
fn build_resolves_identity_and_derived_fields() {
    let conf = config(vec![team("platform", Some("platform-ns"))]);
    let reg = region("dev-uk", "apps");
    let mf = source("webapp").build(&conf, &reg, &store()).unwrap();
    assert_eq!(mf.name, "webapp".to_string());
    assert_eq!(mf.image, Some("registry/acme/webapp".into()));
    assert_eq!(mf.namespace, "platform-ns".to_string());
    assert_eq!(mf.region, "dev-uk".to_string());
    assert_eq!(mf.environment, "staging".to_string());
    assert_eq!(mf.image_size, Some(512));
    // Team-level contacts are back-filled.
    let md = mf.metadata.unwrap();
    assert_eq!(md.support, Some("#support".into()));
    assert_eq!(md.notifications, Some("#alerts".into()));
}

#[test]
fn explicit_image_wins_over_prefix() {
    let conf = config(vec![team("platform", None)]);
    let reg = region("dev-uk", "apps");
    let mut src = source("webapp");
    src.overrides.image = Some("registry/other/thing".into());
    let mf = src.build(&conf, &reg, &store()).unwrap();
    assert_eq!(mf.image, Some("registry/other/thing".into()));
}

#[test]
fn missing_name_is_fatal() {
    let conf = config(vec![team("platform", None)]);
    let reg = region("dev-uk", "apps");
    let mut src = source("webapp");
    src.name = None;
    assert_eq!(src.build(&conf, &reg, &store()).unwrap_err(), ValidationError::MissingName);
}

#[test]
fn missing_metadata_is_fatal() {
    let conf = config(vec![team("platform", None)]);
    let reg = region("dev-uk", "apps");
    let mut src = source("webapp");
    src.metadata = None;
    assert_eq!(
        src.build(&conf, &reg, &store()).unwrap_err(),
        ValidationError::MissingMetadata { service: "webapp".into() }
    );
}

#[test]
fn unknown_team_is_fatal() {
    let conf = config(vec![team("payments", None)]);
    let reg = region("dev-uk", "apps");
    let src = source("webapp");
    assert_eq!(
        src.build(&conf, &reg, &store()).unwrap_err(),
        ValidationError::UnknownTeam { team: "platform".into() }
    );
}

#[test]
fn missing_image_prefix_is_fatal() {
    let conf = config(vec![team("platform", None)]);
    let reg = region("dev-uk", "apps");
    let mut src = source("webapp");
    src.overrides.defaults.image_prefix = None;
    assert_eq!(
        src.build(&conf, &reg, &store()).unwrap_err(),
        ValidationError::MissingImagePrefix
    );
}

#[test]
fn gate_must_agree_with_publicly_accessible() {
    let conf = config(vec![team("platform", None)]);
    let reg = region("dev-uk", "apps");
    let mut src = source("webapp");
    src.overrides.gate = Some(Gate { public: true, websockets: false });
    src.overrides.publicly_accessible = Some(false);
    assert_eq!(
        src.build(&conf, &reg, &store()).unwrap_err(),
        ValidationError::GatePublicMismatch
    );
    // When the two flags agree, resolution keeps the declared gate block.
    let mut src = source("webapp");
    src.overrides.gate = Some(Gate { public: true, websockets: true });
    src.overrides.publicly_accessible = Some(true);
    let mf = src.build(&conf, &reg, &store()).unwrap();
    assert!(mf.publicly_accessible);
    assert_eq!(mf.gate, Some(Gate { public: true, websockets: true }));
}

#[test]
fn config_files_are_filled_from_templates() {
    let conf = config(vec![team("platform", None)]);
    let reg = region("dev-uk", "apps");
    let mut templates = TemplateStore::default();
    templates.shared.insert("app.conf".into(), "shared-conf".into());
    let mut src = source("webapp");
    src.overrides.configs = Some(ConfigMap {
        mount: "/config".into(),
        files: vec![ConfigMappedFile { name: "app.conf".into(), value: None }],
    });
    let mf = src.build(&conf, &reg, &templates).unwrap();
    let cm = mf.configs.unwrap();
    assert_eq!(cm.mount, "/config".to_string());
    assert_eq!(cm.files[0].value, Some("shared-conf".into()));
}

#[test]
fn per_service_template_wins_over_shared() {
    let mut templates = TemplateStore::default();
    templates.shared.insert("app.conf".into(), "shared-conf".into());
    templates.service.insert("app.conf".into(), "service-conf".into());
    assert_eq!(templates.read(&"app.conf".into()), Some(&"service-conf".into()));
}

#[test]
fn missing_template_is_fatal() {
    let conf = config(vec![team("platform", None)]);
    let reg = region("dev-uk", "apps");
    let mut src = source("webapp");
    src.overrides.configs = Some(ConfigMap {
        mount: "/config".into(),
        files: vec![ConfigMappedFile { name: "absent.conf".into(), value: None }],
    });
    assert_eq!(
        src.build(&conf, &reg, &store()).unwrap_err(),
        ValidationError::MissingTemplate { name: "absent.conf".into() }
    );
}

#[test]
fn kafka_topics_are_qualified_once() {
    let conf = config(vec![team("platform", None)]);
    let reg = region("dev-uk", "apps");
    let mut src = source("webapp");
    src.overrides.kafka = Some(Kafka {
        brokers: vec!["broker-1".into()],
        topics: vec!["events".into(), "webapp.dev-uk.audit".into()],
    });
    let mf = src.build(&conf, &reg, &store()).unwrap();
    let kf = mf.kafka.unwrap();
    // An unqualified topic gains the service.region prefix; an already
    // qualified one is kept as it is.
    assert_eq!(
        kf.topics,
        vec!["webapp.dev-uk.events".to_string(), "webapp.dev-uk.audit".to_string()]
    );
}

#[test]
fn data_handling_flags_are_defaulted() {
    let conf = config(vec![team("platform", None)]);
    let reg = region("dev-uk", "apps");
    let mut src = source("webapp");
    src.overrides.data_handling = Some(DataHandling {
        stores: vec![
            DataStore { backend: "pg".into(), encrypted: Some(true), pii: None },
            DataStore { backend: "s3".into(), encrypted: None, pii: None },
        ],
    });
    let mf = src.build(&conf, &reg, &store()).unwrap();
    let dh = mf.data_handling.unwrap();
    assert_eq!(dh.stores[0].encrypted, Some(true));
    assert_eq!(dh.stores[0].pii, Some(false));
    assert_eq!(dh.stores[1].encrypted, Some(false));
}

#[test]
fn resolution_is_idempotent_over_its_inputs() {
    let conf = config(vec![team("platform", Some("platform-ns"))]);
    let reg = region("dev-uk", "apps");
    let mut templates = TemplateStore::default();
    templates.shared.insert("app.conf".into(), "shared-conf".into());
    let mut a = source("webapp");
    a.overrides.configs = Some(ConfigMap {
        mount: "/config".into(),
        files: vec![ConfigMappedFile { name: "app.conf".into(), value: None }],
    });
    let b = a.clone();
    let first = a.build(&conf, &reg, &templates).unwrap();
    let second = b.build(&conf, &reg, &templates).unwrap();
    assert_eq!(first, second);
}

#[test]
fn build_simple_computes_enabled_flag() {
    let conf = config(vec![team("platform", None)]);
    let reg = region("dev-uk", "apps");
    let simple = source("webapp").build_simple(&conf, &reg).unwrap();
    assert!(simple.enabled);
    let other = region("prod-us", "apps");
    let simple = source("webapp").build_simple(&conf, &other).unwrap();
    assert!(!simple.enabled);
    let mut src = source("webapp");
    src.disabled = true;
    let simple = src.build_simple(&conf, &reg).unwrap();
    assert!(!simple.enabled);
}

#[test]
fn build_base_carries_identity() {
    let conf = config(vec![team("platform", None)]);
    let base = source("webapp").build_base(&conf).unwrap();
    assert_eq!(base.name, "webapp".to_string());
    assert_eq!(base.regions, vec!["dev-uk".to_string()]);
    assert_eq!(base.metadata.team, "platform".to_string());
}

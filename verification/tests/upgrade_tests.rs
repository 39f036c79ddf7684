use shipcat::config::{Config, GithubConfig, KongRegionConfig, Region, Team, VaultRegionConfig};
use shipcat::errors::UpgradeError;
use shipcat::kvmap::KvMap;
use shipcat::manifest::{ManifestDefaults, ManifestOverrides, ManifestSource, TemplateStore};
use shipcat::reconcile::{plan_job, reconcile_results};
use shipcat::structs::{HealthCheck, Metadata, RollingUpdate};
use shipcat::upgrade::{
    actions_on, conclude_job, resolve_version, step, UpgradeData, UpgradeEvent, UpgradeMode,
    UpgradeState, VersionDecision,
};

fn config() -> Config {
    Config {
        teams: vec![Team {
            name: "platform".into(),
            namespace: None,
            support: None,
            notifications: None,
            github_admins: None,
            owners: vec![],
        }],
        github: GithubConfig { organisation: "acme".into() },
    }
}

fn region(name: &str) -> Region {
    Region {
        name: name.into(),
        namespace: "apps".into(),
        environment: "staging".into(),
        base_urls: KvMap::new(),
        ip_whitelist: vec![],
        kong: KongRegionConfig {
            base_url: "svc.example.com".into(),
            config_url: "http://kong".into(),
            extra_apis: vec![],
        },
        vault: VaultRegionConfig { url: "http://vault".into() },
    }
}

fn manifest(name: &str, version: Option<&str>, reg: &str) -> shipcat::manifest::Manifest {
    let src = ManifestSource {
        name: Some(name.into()),
        external: false,
        disabled: false,
        regions: vec![reg.into()],
        metadata: Some(Metadata { team: "platform".into(), support: None, notifications: None }),
        overrides: ManifestOverrides {
            version: version.map(|v| v.into()),
            defaults: ManifestDefaults {
                image_prefix: Some("registry/acme".into()),
                ..Default::default()
            },
            ..Default::default()
        },
    };
    src.build(&config(), &region(reg), &TemplateStore::default()).unwrap()
}

#[test]
fn pinned_version_wins_and_cluster_state_decides_install() {
    let pinned = Some("1.2.0".to_string());
    let running = Some("1.1.9".to_string());
    assert_eq!(
        resolve_version(&pinned, &running, UpgradeMode::ApplyWait),
        VersionDecision::Deploy { install: false, version: "1.2.0".into() }
    );
    assert_eq!(
        resolve_version(&pinned, &None, UpgradeMode::ApplyWait),
        VersionDecision::Deploy { install: true, version: "1.2.0".into() }
    );
}

#[test]
fn running_version_is_the_fallback() {
    let running = Some("1.1.9".to_string());
    assert_eq!(
        resolve_version(&None, &running, UpgradeMode::ApplyWait),
        VersionDecision::Deploy { install: false, version: "1.1.9".into() }
    );
}

#[test]
fn unresolvable_without_any_version() {
    assert_eq!(
        resolve_version(&None, &None, UpgradeMode::ApplyWait),
        VersionDecision::Unresolvable
    );
}

#[test]
fn diff_mode_install_is_nothing_to_do() {
    let pinned = Some("1.2.0".to_string());
    assert_eq!(
        resolve_version(&pinned, &None, UpgradeMode::DiffOnly),
        VersionDecision::NothingToDo
    );
}

#[test]
fn state_machine_follows_the_transition_table() {
    // Pending leaves by the apply, to Installing or Upgrading.
    assert_eq!(
        step(UpgradeState::Pending, UpgradeMode::ApplyWait, true, UpgradeEvent::ApplyIssued),
        UpgradeState::Installing
    );
    assert_eq!(
        step(UpgradeState::Pending, UpgradeMode::ApplyWait, false, UpgradeEvent::ApplyIssued),
        UpgradeState::Upgrading
    );
    // Diff-only never leaves Pending.
    assert_eq!(
        step(UpgradeState::Pending, UpgradeMode::DiffOnly, true, UpgradeEvent::ApplyIssued),
        UpgradeState::Pending
    );
    // The three terminal transitions.
    assert_eq!(
        step(UpgradeState::Installing, UpgradeMode::ApplyWait, true, UpgradeEvent::ApplyRejected),
        UpgradeState::Failed
    );
    assert_eq!(
        step(
            UpgradeState::Upgrading,
            UpgradeMode::ApplyWait,
            false,
            UpgradeEvent::RolloutConfirmed
        ),
        UpgradeState::Succeeded
    );
    assert_eq!(
        step(
            UpgradeState::Upgrading,
            UpgradeMode::ApplyWait,
            false,
            UpgradeEvent::DeadlineExceeded
        ),
        UpgradeState::TimedOut
    );
    // Terminal states absorb events.
    assert_eq!(
        step(
            UpgradeState::Succeeded,
            UpgradeMode::ApplyWait,
            false,
            UpgradeEvent::DeadlineExceeded
        ),
        UpgradeState::Succeeded
    );
    assert_eq!(
        step(UpgradeState::Failed, UpgradeMode::ApplyWait, false, UpgradeEvent::RolloutConfirmed),
        UpgradeState::Failed
    );
}

#[test]
fn actions_follow_the_outcome() {
    let s = actions_on(UpgradeState::Succeeded);
    assert_eq!(s.notify, Some(true));
    assert!(!s.diagnostic_dump);
    assert!(s.remove_artifact);
    let t = actions_on(UpgradeState::TimedOut);
    assert_eq!(t.notify, Some(false));
    assert!(t.diagnostic_dump);
    assert!(t.remove_artifact);
    let f = actions_on(UpgradeState::Failed);
    assert_eq!(f.notify, None);
    assert!(f.diagnostic_dump);
    let p = actions_on(UpgradeState::Pending);
    assert_eq!(p.notify, None);
    assert!(!p.remove_artifact);
}

// A pinned service that is not deployed: install, apply, rollout confirms.
#[test]
fn pinned_install_succeeds_within_deadline() {
    let mf = manifest("auth", Some("1.2.0"), "staging");
    let hfile = "auth.helm.gen.yml".to_string();
    let ud = plan_job(&mf, &None, UpgradeMode::ApplyWait, &hfile).unwrap().unwrap();
    assert_eq!(ud.name, "auth".to_string());
    assert_eq!(ud.version, "1.2.0".to_string());
    assert!(!ud.exists); // install path
    let mut state = UpgradeState::Pending;
    state = step(state, UpgradeMode::ApplyWait, !ud.exists, UpgradeEvent::ApplyIssued);
    assert_eq!(state, UpgradeState::Installing);
    state = step(state, UpgradeMode::ApplyWait, !ud.exists, UpgradeEvent::RolloutConfirmed);
    assert_eq!(state, UpgradeState::Succeeded);
    let outcome = conclude_job(&ud, true, true, 0).unwrap().unwrap();
    assert_eq!(outcome.name, "auth".to_string());
    assert_eq!(outcome.version, "1.2.0".to_string());
}

// A service without a pinned version in an environment that requires one.
#[test]
fn missing_rolling_version_is_ignorable_at_batch_scope() {
    let mf = manifest("billing", None, "prod-pinned");
    let hfile = "billing.helm.gen.yml".to_string();
    let err = plan_job(&mf, &None, UpgradeMode::ApplyWait, &hfile).unwrap_err();
    assert_eq!(err, UpgradeError::MissingRollingVersion { service: "billing".into() });
    assert!(err.ignorable());
    // A batch holding only this job still reconciles successfully.
    let results = vec![Err(err)];
    assert!(reconcile_results(&results).is_ok());
}

// A rollout that never reports ready before the computed deadline.
#[test]
fn rollout_timeout_carries_service_and_wait() {
    let mut mf = manifest("slowpoke", Some("2.0.0"), "staging");
    mf.health = Some(HealthCheck { uri: "/health".into(), wait: 45 });
    mf.image_size = Some(1024);
    let wait = mf.estimate_wait_time();
    assert_eq!(wait, 45 + 1024 * 60 / 512); // one wave of one replica
    let hfile = "slowpoke.helm.gen.yml".to_string();
    let ud = plan_job(&mf, &Some("1.9.0".into()), UpgradeMode::ApplyWait, &hfile)
        .unwrap()
        .unwrap();
    assert!(ud.exists); // upgrade path
    let state = step(
        step(UpgradeState::Pending, UpgradeMode::ApplyWait, false, UpgradeEvent::ApplyIssued),
        UpgradeMode::ApplyWait,
        false,
        UpgradeEvent::DeadlineExceeded,
    );
    assert_eq!(state, UpgradeState::TimedOut);
    assert_eq!(
        conclude_job(&ud, true, false, wait).unwrap_err(),
        UpgradeError::RolloutTimeout { service: "slowpoke".into(), waited: wait }
    );
}

#[test]
fn estimate_wait_accounts_for_rolling_update_waves() {
    let mut mf = manifest("waves", Some("1.0.0"), "staging");
    mf.replica_count = Some(6);
    mf.rolling_update = Some(RollingUpdate { max_unavailable: None, max_surge: Some(2) });
    // 3 waves of (30s readiness + 512MB pull at 60s/512MB).
    assert_eq!(mf.estimate_wait_time(), (30 + 60) * 3);
}

#[test]
fn upgrade_data_is_derived_from_the_manifest() {
    let mf = manifest("auth", Some("1.2.0"), "staging");
    let hfile = "auth.helm.gen.yml".to_string();
    let ud = UpgradeData::new(&mf, &hfile, UpgradeMode::ApplyWait, true).unwrap().unwrap();
    assert_eq!(ud.name, "auth".to_string());
    assert_eq!(ud.version, "1.2.0".to_string());
    assert_eq!(ud.values_path, hfile);
    assert!(ud.exists);
    // Diff-only derives no upgrade data at all.
    assert_eq!(UpgradeData::new(&mf, &hfile, UpgradeMode::DiffOnly, true).unwrap(), None);
    // A manifest without any version cannot be deployed.
    let unversioned = manifest("billing", None, "staging");
    assert_eq!(
        UpgradeData::new(&unversioned, &hfile, UpgradeMode::Apply, false).unwrap_err(),
        UpgradeError::MissingRollingVersion { service: "billing".into() }
    );
}

#[test]
fn apply_failure_fails_the_job() {
    let ud = UpgradeData {
        name: "svc".into(),
        version: "1.0.0".into(),
        namespace: "apps".into(),
        region: "staging".into(),
        values_path: "svc.helm.gen.yml".into(),
        mode: UpgradeMode::ApplyWait,
        exists: true,
    };
    assert_eq!(
        conclude_job(&ud, false, false, 0).unwrap_err(),
        UpgradeError::ApplyFailure { service: "svc".into() }
    );
}

#[test]
fn failed_sanity_verification_is_fatal_for_the_job() {
    let mut mf = manifest("broken", Some("1.0.0"), "staging");
    // Shoehorning in an inverted autoscaling range must be caught by the
    // pre-deployment verification.
    mf.auto_scaling = Some(shipcat::structs::AutoScaling { min_replicas: 4, max_replicas: 1 });
    let hfile = "broken.helm.gen.yml".to_string();
    let err = plan_job(&mf, &None, UpgradeMode::ApplyWait, &hfile).unwrap_err();
    assert_eq!(
        err,
        UpgradeError::ManifestVerifyFailure {
            service: "broken".into(),
            reason: shipcat::errors::ValidationError::InvalidAutoScaling,
        }
    );
    assert!(!err.ignorable());
}

#[test]
fn diff_only_yields_no_upgrade_data() {
    let mf = manifest("quiet", Some("1.0.0"), "staging");
    let hfile = "quiet.helm.gen.yml".to_string();
    let out = plan_job(&mf, &Some("0.9.0".into()), UpgradeMode::DiffOnly, &hfile).unwrap();
    assert!(out.is_none());
}

// Batch aggregation: exactly one ignorable error among successes.
#[test]
fn batch_with_one_missing_version_succeeds() {
    let results: Vec<Result<Option<UpgradeData>, UpgradeError>> = vec![
        Ok(None),
        Err(UpgradeError::MissingRollingVersion { service: "billing".into() }),
        Ok(None),
    ];
    assert!(reconcile_results(&results).is_ok());
}

// Batch aggregation: one fatal error among successes is the batch result,
// returned only after every job has reported.
#[test]
fn batch_with_one_apply_failure_returns_it() {
    let results: Vec<Result<Option<UpgradeData>, UpgradeError>> = vec![
        Ok(None),
        Err(UpgradeError::ApplyFailure { service: "auth".into() }),
        Err(UpgradeError::RolloutTimeout { service: "later".into(), waited: 90 }),
    ];
    // The first fatal error in scan order wins; the later one is only
    // observable in logs.
    assert_eq!(
        reconcile_results(&results).unwrap_err(),
        UpgradeError::ApplyFailure { service: "auth".into() }
    );
}

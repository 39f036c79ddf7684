use shipcat::audit::{
    audit_deployment, audit_reconciliation, ensure_requirements, AuditDomainObject, AuditEvent,
};
use shipcat::errors::AuditError;
use shipcat::upgrade::{UpgradeData, UpgradeMode, UpgradeState};

fn upgrade_data() -> UpgradeData {
    UpgradeData {
        name: "auth".into(),
        version: "1.2.0".into(),
        namespace: "apps".into(),
        region: "staging".into(),
        values_path: "auth.helm.gen.yml".into(),
        mode: UpgradeMode::ApplyWait,
        exists: false,
    }
}

#[test]
fn deployment_payload_carries_coordinates_and_id() {
    let payload = AuditDomainObject::new_deployment(&Some(upgrade_data()), "abc123".into());
    match payload {
        AuditDomainObject::Deployment { id, region, manifests_revision, service, version } => {
            assert_eq!(id, "abc123-staging-auth-1.2.0".to_string());
            assert_eq!(region, "staging".to_string());
            assert_eq!(manifests_revision, "abc123".to_string());
            assert_eq!(service, "auth".to_string());
            assert_eq!(version, "1.2.0".to_string());
        },
        _ => panic!("expected a deployment payload"),
    }
}

#[test]
fn deployment_payload_without_data_is_unknown() {
    let payload = AuditDomainObject::new_deployment(&None, "abc123".into());
    match payload {
        AuditDomainObject::Deployment { id, region, service, version, .. } => {
            assert_eq!(id, "abc123-unknown-unknown-unknown".to_string());
            assert_eq!(region, "unknown".to_string());
            assert_eq!(service, "unknown".to_string());
            assert_eq!(version, "unknown".to_string());
        },
        _ => panic!("expected a deployment payload"),
    }
}

#[test]
fn reconciliation_payload_joins_revision_and_region() {
    let payload = AuditDomainObject::new_reconciliation(&"staging".into(), "abc123".into());
    match payload {
        AuditDomainObject::Reconciliation { id, region, manifests_revision } => {
            assert_eq!(id, "abc123-staging".to_string());
            assert_eq!(region, "staging".to_string());
            assert_eq!(manifests_revision, "abc123".to_string());
        },
        _ => panic!("expected a reconciliation payload"),
    }
}

#[test]
fn event_skeleton_is_empty_until_filled() {
    let ev = AuditEvent::new(
        UpgradeState::Pending,
        "2019-05-01T00:00:00.000Z".into(),
        Some("job-1".into()),
        None,
    );
    assert_eq!(ev.payload, AuditDomainObject::Empty);
    assert_eq!(ev.context_id, Some("job-1".into()));
    assert_eq!(ev.context_link, None);
}

#[test]
fn audit_events_compose_status_and_payload() {
    let ev = audit_deployment(
        UpgradeState::Succeeded,
        &upgrade_data(),
        "2019-05-01T00:00:00.000Z".into(),
        Some("job-1".into()),
        Some("https://ci/job-1".into()),
        "abc123".into(),
    );
    assert_eq!(ev.status, UpgradeState::Succeeded);
    assert!(matches!(ev.payload, AuditDomainObject::Deployment { .. }));
    let ev = audit_reconciliation(
        UpgradeState::Succeeded,
        &"staging".into(),
        "2019-05-01T00:00:00.000Z".into(),
        None,
        None,
        "abc123".into(),
    );
    assert!(matches!(ev.payload, AuditDomainObject::Reconciliation { .. }));
}

#[test]
fn audit_requirements_are_checked_in_order() {
    assert!(ensure_requirements(false, &None, &None).is_ok());
    assert!(ensure_requirements(true, &Some("id".into()), &Some("rev".into())).is_ok());
    assert_eq!(
        ensure_requirements(true, &None, &Some("rev".into())).unwrap_err(),
        AuditError::MissingAuditContextId
    );
    assert_eq!(
        ensure_requirements(true, &Some("id".into()), &None).unwrap_err(),
        AuditError::MissingAuditRevision
    );
}

use shipcat::container::{
    ContainerBuildParams, ContainerSource, JobSource, SidecarSource, RestartPolicy, WorkerSource,
};
use shipcat::errors::ValidationError;
use shipcat::resources::{ResourceRequirementsSource, ResourcesSource};
use shipcat::structs::AutoScaling;

fn params() -> ContainerBuildParams {
    ContainerBuildParams { image_prefix: Some("registry/acme".into()) }
}

fn named(name: &str) -> ContainerSource {
    ContainerSource { name: Some(name.into()), ..Default::default() }
}

#[test]
fn container_image_is_derived_from_the_prefix() {
    let c = named("worker").build(&params()).unwrap();
    assert_eq!(c.name, "worker".to_string());
    assert_eq!(c.image, Some("registry/acme/worker".into()));
    // An explicit image wins; no prefix and no image leaves none.
    let mut src = named("worker");
    src.image = Some("elsewhere/thing".into());
    assert_eq!(src.build(&params()).unwrap().image, Some("elsewhere/thing".into()));
    let bare = named("worker").build(&ContainerBuildParams::default()).unwrap();
    assert_eq!(bare.image, None);
}

#[test]
fn container_requires_a_name() {
    let src = ContainerSource::default();
    assert_eq!(
        src.build(&params()).unwrap_err(),
        ValidationError::MissingRequiredField { field: "name".into() }
    );
}

#[test]
fn worker_requires_a_replica_count() {
    let src = WorkerSource { container: named("bg"), ..Default::default() };
    assert_eq!(
        src.build(&params()).unwrap_err(),
        ValidationError::MissingRequiredField { field: "replicaCount".into() }
    );
}

#[test]
fn worker_autoscaling_bounds_must_be_ordered() {
    let src = WorkerSource {
        replica_count: Some(2),
        auto_scaling: Some(AutoScaling { min_replicas: 5, max_replicas: 2 }),
        container: named("bg"),
        ..Default::default()
    };
    assert_eq!(src.build(&params()).unwrap_err(), ValidationError::InvalidAutoScaling);
    let ok = WorkerSource {
        replica_count: Some(2),
        auto_scaling: Some(AutoScaling { min_replicas: 1, max_replicas: 4 }),
        container: named("bg"),
        http_port: Some(8081),
        ..Default::default()
    };
    let w = ok.build(&params()).unwrap();
    assert_eq!(w.replica_count, 2);
    assert_eq!(w.http_port, Some(8081));
}

#[test]
fn job_image_and_version_are_declared_together() {
    let mut with_image = JobSource { container: named("migrate"), ..Default::default() };
    with_image.container.image = Some("registry/tool".into());
    assert_eq!(
        with_image.build(&params()).unwrap_err(),
        ValidationError::ImageWithoutVersion
    );
    let mut with_version = JobSource { container: named("migrate"), ..Default::default() };
    with_version.container.version = Some("3.1.0".into());
    assert_eq!(
        with_version.build(&params()).unwrap_err(),
        ValidationError::VersionWithoutImage
    );
    let mut both = JobSource { container: named("migrate"), ..Default::default() };
    both.container.image = Some("registry/tool".into());
    both.container.version = Some("3.1.0".into());
    let job = both.build(&params()).unwrap();
    assert_eq!(job.restart_policy, RestartPolicy::Never);
    // Neither is fine too: the job runs the derived image.
    let neither = JobSource { container: named("migrate"), ..Default::default() };
    assert!(neither.build(&params()).is_ok());
}

#[test]
fn sidecar_builds_its_container() {
    let mut inner = named("envoy");
    inner.resources = Some(ResourceRequirementsSource {
        requests: ResourcesSource { cpu: Some("50m".into()), memory: Some("64Mi".into()) },
        limits: ResourcesSource { cpu: Some("100m".into()), memory: Some("128Mi".into()) },
    });
    let sc = SidecarSource(inner).build(&params()).unwrap();
    assert_eq!(sc.name, "envoy".to_string());
    assert!(sc.resources.is_some());
}

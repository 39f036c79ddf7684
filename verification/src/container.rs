//! The container spec builder.
//!
//! One build function turns a container fragment plus shared build
//! parameters into a runnable container spec; sidecars, workers and batch
//! jobs wrap it with their own local invariants (a worker needs a replica
//! count, a batch job may not name an image without a version or a version
//! without an image).

use vstd::prelude::*;
use vstd::string::*;
use crate::errors::{is_missing_field, ValidationError};
use crate::resources::{Resources, ResourceRequirementsSource};
use crate::structs::AutoScaling;
use crate::strutil::{clone_opt_string, clone_strings, concat3};

verus! {

/// Common optional-valued container fragment.
#[derive(Debug, Clone, PartialEq, Eq, Default)]
pub struct ContainerSource {
    pub name: Option<String>,
    pub image: Option<String>,
    pub version: Option<String>,
    pub resources: Option<ResourceRequirementsSource>,
    pub command: Option<Vec<String>>,
}

/// Shared build context handed to every container build.
#[derive(Debug, Clone, PartialEq, Eq, Default)]
pub struct ContainerBuildParams {
    /// Registry prefix from which an unnamed image is derived.
    pub image_prefix: Option<String>,
}

/// A resolved container spec.
#[derive(Debug, Clone, PartialEq, Eq)]
pub struct Container {
    pub name: String,
    pub image: Option<String>,
    pub version: Option<String>,
    pub resources: Option<Resources>,
    pub command: Vec<String>,
}

impl ContainerSource {
    /// The image the container runs: explicit image first, else
    /// `prefix/name` when a prefix is configured, else none.
    pub open spec fn spec_image_view(&self, params: ContainerBuildParams) -> Option<Seq<char>> {
        if self.image is Some {
            Some(self.image->Some_0@)
        } else if params.image_prefix is Some && self.name is Some {
            Some(params.image_prefix->Some_0@ + seq!['/'] + self.name->Some_0@)
        } else {
            None
        }
    }

    /// A fragment builds when it is named and its resources, if any, are
    /// complete and valid.
    pub open spec fn spec_ok(&self, params: ContainerBuildParams) -> bool {
        &&& self.name is Some
        &&& match self.resources {
            Some(rr) => rr.spec_ok(),
            None => true,
        }
    }

    /// The error an unbuildable fragment is refused with: the missing name
    /// first, then whatever its resource fragment is refused with.
    pub open spec fn spec_build_error(&self, params: ContainerBuildParams, e: ValidationError)
        -> bool {
        if self.name is None {
            is_missing_field(e, "name"@)
        } else {
            match self.resources {
                Some(rr) => rr.spec_build_error(e),
                None => false,
            }
        }
    }

    /// The relation between a fragment and the container it builds to.
    pub open spec fn spec_builds(&self, params: ContainerBuildParams, c: Container) -> bool {
        &&& c.name == self.name->Some_0
        &&& match (self.spec_image_view(params), c.image) {
            (Some(v), Some(img)) => img@ == v,
            (None, None) => true,
            _ => false,
        }
        &&& c.version == self.version
        &&& match (self.resources, c.resources) {
            (Some(rr), Some(res)) => res == rr.spec_built(),
            (None, None) => true,
            _ => false,
        }
        &&& c.command@ == match self.command {
            Some(cmd) => cmd@,
            None => Seq::<String>::empty(),
        }
    }

    /// Build one container spec from this fragment and the shared context.
    pub fn build(&self, params: &ContainerBuildParams) -> (r: Result<Container, ValidationError>)
        ensures
            r is Ok <==> self.spec_ok(*params),
            r is Ok ==> self.spec_builds(*params, r->Ok_0),
            r is Err ==> self.spec_build_error(*params, r->Err_0),
    {
        let name = match &self.name {
            Some(n) => n.clone(),
            None => {
                return Err(
                    ValidationError::MissingRequiredField { field: String::from_str("name") },
                );
            },
        };
        let image: Option<String> = match &self.image {
            Some(i) => Some(i.clone()),
            None => match &params.image_prefix {
                Some(p) => {
                    let derived = concat3(p.as_str(), "/", name.as_str());
                    proof {
                        reveal_strlit("/");
                        assert(derived@ =~= params.image_prefix->Some_0@ + seq!['/']
                            + self.name->Some_0@);
                    }
                    Some(derived)
                },
                None => None,
            },
        };
        let resources: Option<Resources> = match &self.resources {
            Some(rr) => match rr.build() {
                Ok(res) => Some(res),
                Err(e) => {
                    return Err(e);
                },
            },
            None => None,
        };
        let command: Vec<String> = match &self.command {
            Some(c) => clone_strings(c),
            None => Vec::new(),
        };
        Ok(Container { name, image, version: clone_opt_string(&self.version), resources, command })
    }
}

/// A side-car container fragment.
#[derive(Debug, Clone, PartialEq, Eq, Default)]
pub struct SidecarSource(pub ContainerSource);

impl SidecarSource {
    /// A sidecar is exactly its container.
    pub fn build(&self, params: &ContainerBuildParams) -> (r: Result<Container, ValidationError>)
        ensures
            r is Ok <==> self.0.spec_ok(*params),
            r is Ok ==> self.0.spec_builds(*params, r->Ok_0),
            r is Err ==> self.0.spec_build_error(*params, r->Err_0),
    {
        self.0.build(params)
    }
}

/// A worker fragment: a container that scales on its own.
#[derive(Debug, Clone, PartialEq, Eq, Default)]
pub struct WorkerSource {
    pub replica_count: Option<u32>,
    pub auto_scaling: Option<AutoScaling>,
    pub http_port: Option<u32>,
    pub container: ContainerSource,
}

/// A resolved worker.
#[derive(Debug, Clone, PartialEq, Eq)]
pub struct Worker {
    pub replica_count: u32,
    pub auto_scaling: Option<AutoScaling>,
    pub http_port: Option<u32>,
    pub container: Container,
}

impl WorkerSource {
    /// Valid autoscaling (when declared), a buildable container, and a
    /// replica count.
    pub open spec fn spec_ok(&self, params: ContainerBuildParams) -> bool {
        &&& match self.auto_scaling {
            Some(a) => a.spec_valid(),
            None => true,
        }
        &&& self.container.spec_ok(params)
        &&& self.replica_count is Some
    }

    /// Checked in order: autoscaling bounds, the container, the replica
    /// count.
    pub open spec fn spec_build_error(&self, params: ContainerBuildParams, e: ValidationError)
        -> bool {
        if self.auto_scaling is Some && !self.auto_scaling->Some_0.spec_valid() {
            e == ValidationError::InvalidAutoScaling
        } else if !self.container.spec_ok(params) {
            self.container.spec_build_error(params, e)
        } else {
            is_missing_field(e, "replicaCount"@)
        }
    }

    /// The relation between the fragment and the worker it builds to.
    pub open spec fn spec_builds(&self, params: ContainerBuildParams, w: Worker) -> bool {
        &&& w.replica_count == self.replica_count->Some_0
        &&& w.auto_scaling == self.auto_scaling
        &&& w.http_port == self.http_port
        &&& self.container.spec_builds(params, w.container)
    }

    /// Build the worker.
    pub fn build(&self, params: &ContainerBuildParams) -> (r: Result<Worker, ValidationError>)
        ensures
            r is Ok <==> self.spec_ok(*params),
            r is Ok ==> self.spec_builds(*params, r->Ok_0),
            r is Err ==> self.spec_build_error(*params, r->Err_0),
    {
        if let Some(a) = &self.auto_scaling {
            match a.verify() {
                Ok(()) => {},
                Err(e) => {
                    return Err(e);
                },
            }
        }
        let container = match self.container.build(params) {
            Ok(c) => c,
            Err(e) => {
                return Err(e);
            },
        };
        let replica_count = match self.replica_count {
            Some(rc) => rc,
            None => {
                return Err(
                    ValidationError::MissingRequiredField {
                        field: String::from_str("replicaCount"),
                    },
                );
            },
        };
        Ok(Worker {
            replica_count,
            auto_scaling: self.auto_scaling,
            http_port: self.http_port,
            container,
        })
    }
}

/// Restart policy of a batch job.
#[derive(Debug, Clone, Copy, PartialEq, Eq, Structural)]
pub enum RestartPolicy {
    Never,
    OnFailure,
}

/// Persistent scratch volume of a batch job.
#[derive(Debug, Clone, PartialEq, Eq)]
pub struct JobVolumeClaim {
    pub size: String,
    pub mount_path: String,
}

/// A batch-job fragment.
#[derive(Debug, Clone, PartialEq, Eq, Default)]
pub struct JobSource {
    pub volume_claim: Option<JobVolumeClaim>,
    pub timeout: Option<u32>,
    pub restart_policy: Option<RestartPolicy>,
    pub container: ContainerSource,
}

/// A resolved batch job.
#[derive(Debug, Clone, PartialEq, Eq)]
pub struct Job {
    pub container: Container,
    pub volume_claim: Option<JobVolumeClaim>,
    pub timeout: Option<u32>,
    pub restart_policy: RestartPolicy,
}

impl JobSource {
    /// A buildable container whose explicit image and version are declared
    /// together or not at all.
    pub open spec fn spec_ok(&self, params: ContainerBuildParams) -> bool {
        &&& self.container.spec_ok(params)
        &&& (self.container.image is Some <==> self.container.version is Some)
    }

    /// Checked in order: the container, then the image/version pairing.
    pub open spec fn spec_build_error(&self, params: ContainerBuildParams, e: ValidationError)
        -> bool {
        if !self.container.spec_ok(params) {
            self.container.spec_build_error(params, e)
        } else if self.container.image is Some && self.container.version is None {
            e == ValidationError::ImageWithoutVersion
        } else {
            e == ValidationError::VersionWithoutImage
        }
    }

    /// The relation between the fragment and the job it builds to.
    pub open spec fn spec_builds(&self, params: ContainerBuildParams, j: Job) -> bool {
        &&& self.container.spec_builds(params, j.container)
        &&& j.volume_claim == self.volume_claim
        &&& j.timeout == self.timeout
        &&& j.restart_policy == match self.restart_policy {
            Some(p) => p,
            None => RestartPolicy::Never,
        }
    }

    /// Build the batch job.
    pub fn build(&self, params: &ContainerBuildParams) -> (r: Result<Job, ValidationError>)
        ensures
            r is Ok <==> self.spec_ok(*params),
            r is Ok ==> self.spec_builds(*params, r->Ok_0),
            r is Err ==> self.spec_build_error(*params, r->Err_0),
    {
        let container = match self.container.build(params) {
            Ok(c) => c,
            Err(e) => {
                return Err(e);
            },
        };
        match (&self.container.image, &self.container.version) {
            (Some(_), None) => {
                return Err(ValidationError::ImageWithoutVersion);
            },
            (None, Some(_)) => {
                return Err(ValidationError::VersionWithoutImage);
            },
            _ => {},
        }
        let volume_claim: Option<JobVolumeClaim> = match &self.volume_claim {
            Some(vc) => Some(JobVolumeClaim { size: vc.size.clone(), mount_path: vc.mount_path.clone() }),
            None => None,
        };
        Ok(Job {
            container,
            volume_claim,
            timeout: self.timeout,
            restart_policy: match self.restart_policy {
                Some(p) => p,
                None => RestartPolicy::Never,
            },
        })
    }
}

} // verus!

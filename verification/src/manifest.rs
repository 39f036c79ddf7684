//! The manifest resolution engine.
//!
//! A service is declared as one identity file plus any number of override
//! layers and a defaults layer.  Merging is right-biased: an incoming
//! layer's value wins wherever it specifies one, and mapping-valued fields
//! merge key-wise with the incoming side winning on collision.  Resolution
//! then builds the identity, derives the implicit fields from service name
//! and region, fills templated config files from a template store, and
//! refuses the service unless every cross-field invariant holds.

use vstd::prelude::*;
use vstd::string::*;
use crate::config::{spec_find_team, Config, Region};
use crate::container::{
    Container, ContainerBuildParams, Job, JobSource, SidecarSource, Worker, WorkerSource,
};
use crate::errors::ValidationError;
use crate::kvmap::KvMap;
use crate::resources::{ResourceRequirementsSource, Resources};
use crate::structs::{
    AutoScaling, ConfigMap, ConfigMappedFile, DataHandling, Dependency, Gate, HealthCheck, Kafka,
    Kong, KongSource, Metadata, Port, RollingUpdate, VaultOpts,
};
use crate::strutil::{clone_opt_string, clone_strings, concat3, contains_string};

verus! {

/// Global or regional fallback values, merged beneath every override layer.
#[derive(Debug, Clone, PartialEq, Eq, Default)]
pub struct ManifestDefaults {
    pub image_prefix: Option<String>,
    pub chart: Option<String>,
    pub replica_count: Option<u32>,
    pub env: KvMap,
}

impl ManifestDefaults {
    /// Every mapping-valued field has unique keys.
    pub open spec fn wf(&self) -> bool {
        self.env.wf()
    }

    /// Right-biased merge: `other` wins on every field it specifies, and
    /// its environment entries win key-wise.
    pub fn merge(self, other: ManifestDefaults) -> (r: ManifestDefaults)
        requires
            self.wf(),
            other.wf(),
        ensures
            r.image_prefix == if other.image_prefix is Some {
                other.image_prefix
            } else {
                self.image_prefix
            },
            r.chart == if other.chart is Some {
                other.chart
            } else {
                self.chart
            },
            r.replica_count == if other.replica_count is Some {
                other.replica_count
            } else {
                self.replica_count
            },
            r.env@ == self.env@.union_prefer_right(other.env@),
            r.wf(),
    {
        ManifestDefaults {
            image_prefix: if other.image_prefix.is_some() {
                other.image_prefix
            } else {
                self.image_prefix
            },
            chart: if other.chart.is_some() {
                other.chart
            } else {
                self.chart
            },
            replica_count: if other.replica_count.is_some() {
                other.replica_count
            } else {
                self.replica_count
            },
            env: self.env.merge(&other.env),
        }
    }
}

/// One override layer: an optional-valued record mirroring every mergeable
/// manifest field.
#[derive(Debug, Clone, PartialEq, Eq, Default)]
pub struct ManifestOverrides {
    pub publicly_accessible: Option<bool>,
    pub image: Option<String>,
    pub image_size: Option<u32>,
    pub version: Option<String>,
    pub command: Option<Vec<String>>,
    pub data_handling: Option<DataHandling>,
    pub language: Option<String>,
    pub resources: Option<ResourceRequirementsSource>,
    pub secret_files: KvMap,
    pub configs: Option<ConfigMap>,
    pub vault: Option<VaultOpts>,
    pub http_port: Option<u32>,
    pub ports: Option<Vec<Port>>,
    pub health: Option<HealthCheck>,
    pub dependencies: Option<Vec<Dependency>>,
    pub workers: Option<Vec<WorkerSource>>,
    pub sidecars: Option<Vec<SidecarSource>>,
    pub rolling_update: Option<RollingUpdate>,
    pub auto_scaling: Option<AutoScaling>,
    pub jobs: Option<Vec<JobSource>>,
    pub service_annotations: KvMap,
    pub labels: KvMap,
    pub kong: Option<KongSource>,
    pub gate: Option<Gate>,
    pub hosts: Option<Vec<String>>,
    pub kafka: Option<Kafka>,
    pub defaults: ManifestDefaults,
}

impl ManifestOverrides {
    /// Every mapping-valued field has unique keys.
    pub open spec fn wf(&self) -> bool {
        &&& self.secret_files.wf()
        &&& self.service_annotations.wf()
        &&& self.labels.wf()
        &&& self.defaults.wf()
    }

    /// Right-biased merge over every field: `other`'s value wherever it
    /// specifies one, this layer's value wherever it does not; mapping
    /// fields merge key-wise with `other` winning, and the nested defaults
    /// merge the same way.
    pub fn merge(self, other: ManifestOverrides) -> (r: ManifestOverrides)
        requires
            self.wf(),
            other.wf(),
        ensures
            r.publicly_accessible == if other.publicly_accessible is Some {
                other.publicly_accessible
            } else {
                self.publicly_accessible
            },
            r.image == if other.image is Some {
                other.image
            } else {
                self.image
            },
            r.image_size == if other.image_size is Some {
                other.image_size
            } else {
                self.image_size
            },
            r.version == if other.version is Some {
                other.version
            } else {
                self.version
            },
            r.command == if other.command is Some {
                other.command
            } else {
                self.command
            },
            r.data_handling == if other.data_handling is Some {
                other.data_handling
            } else {
                self.data_handling
            },
            r.language == if other.language is Some {
                other.language
            } else {
                self.language
            },
            r.resources == if other.resources is Some {
                other.resources
            } else {
                self.resources
            },
            r.secret_files@ == self.secret_files@.union_prefer_right(other.secret_files@),
            r.configs == if other.configs is Some {
                other.configs
            } else {
                self.configs
            },
            r.vault == if other.vault is Some {
                other.vault
            } else {
                self.vault
            },
            r.http_port == if other.http_port is Some {
                other.http_port
            } else {
                self.http_port
            },
            r.ports == if other.ports is Some {
                other.ports
            } else {
                self.ports
            },
            r.health == if other.health is Some {
                other.health
            } else {
                self.health
            },
            r.dependencies == if other.dependencies is Some {
                other.dependencies
            } else {
                self.dependencies
            },
            r.workers == if other.workers is Some {
                other.workers
            } else {
                self.workers
            },
            r.sidecars == if other.sidecars is Some {
                other.sidecars
            } else {
                self.sidecars
            },
            r.rolling_update == if other.rolling_update is Some {
                other.rolling_update
            } else {
                self.rolling_update
            },
            r.auto_scaling == if other.auto_scaling is Some {
                other.auto_scaling
            } else {
                self.auto_scaling
            },
            r.jobs == if other.jobs is Some {
                other.jobs
            } else {
                self.jobs
            },
            r.service_annotations@ == self.service_annotations@.union_prefer_right(
                other.service_annotations@,
            ),
            r.labels@ == self.labels@.union_prefer_right(other.labels@),
            r.kong == if other.kong is Some {
                other.kong
            } else {
                self.kong
            },
            r.gate == if other.gate is Some {
                other.gate
            } else {
                self.gate
            },
            r.hosts == if other.hosts is Some {
                other.hosts
            } else {
                self.hosts
            },
            r.kafka == if other.kafka is Some {
                other.kafka
            } else {
                self.kafka
            },
            r.defaults.image_prefix == if other.defaults.image_prefix is Some {
                other.defaults.image_prefix
            } else {
                self.defaults.image_prefix
            },
            r.defaults.chart == if other.defaults.chart is Some {
                other.defaults.chart
            } else {
                self.defaults.chart
            },
            r.defaults.replica_count == if other.defaults.replica_count is Some {
                other.defaults.replica_count
            } else {
                self.defaults.replica_count
            },
            r.defaults.env@ == self.defaults.env@.union_prefer_right(other.defaults.env@),
            r.wf(),
    {
        ManifestOverrides {
            publicly_accessible: if other.publicly_accessible.is_some() {
                other.publicly_accessible
            } else {
                self.publicly_accessible
            },
            image: if other.image.is_some() {
                other.image
            } else {
                self.image
            },
            image_size: if other.image_size.is_some() {
                other.image_size
            } else {
                self.image_size
            },
            version: if other.version.is_some() {
                other.version
            } else {
                self.version
            },
            command: if other.command.is_some() {
                other.command
            } else {
                self.command
            },
            data_handling: if other.data_handling.is_some() {
                other.data_handling
            } else {
                self.data_handling
            },
            language: if other.language.is_some() {
                other.language
            } else {
                self.language
            },
            resources: if other.resources.is_some() {
                other.resources
            } else {
                self.resources
            },
            secret_files: self.secret_files.merge(&other.secret_files),
            configs: if other.configs.is_some() {
                other.configs
            } else {
                self.configs
            },
            vault: if other.vault.is_some() {
                other.vault
            } else {
                self.vault
            },
            http_port: if other.http_port.is_some() {
                other.http_port
            } else {
                self.http_port
            },
            ports: if other.ports.is_some() {
                other.ports
            } else {
                self.ports
            },
            health: if other.health.is_some() {
                other.health
            } else {
                self.health
            },
            dependencies: if other.dependencies.is_some() {
                other.dependencies
            } else {
                self.dependencies
            },
            workers: if other.workers.is_some() {
                other.workers
            } else {
                self.workers
            },
            sidecars: if other.sidecars.is_some() {
                other.sidecars
            } else {
                self.sidecars
            },
            rolling_update: if other.rolling_update.is_some() {
                other.rolling_update
            } else {
                self.rolling_update
            },
            auto_scaling: if other.auto_scaling.is_some() {
                other.auto_scaling
            } else {
                self.auto_scaling
            },
            jobs: if other.jobs.is_some() {
                other.jobs
            } else {
                self.jobs
            },
            service_annotations: self.service_annotations.merge(&other.service_annotations),
            labels: self.labels.merge(&other.labels),
            kong: if other.kong.is_some() {
                other.kong
            } else {
                self.kong
            },
            gate: if other.gate.is_some() {
                other.gate
            } else {
                self.gate
            },
            hosts: if other.hosts.is_some() {
                other.hosts
            } else {
                self.hosts
            },
            kafka: if other.kafka.is_some() {
                other.kafka
            } else {
                self.kafka
            },
            defaults: self.defaults.merge(other.defaults),
        }
    }
}

/// The service identity file plus its override record.
#[derive(Debug, Clone, PartialEq, Eq, Default)]
pub struct ManifestSource {
    pub name: Option<String>,
    pub external: bool,
    pub disabled: bool,
    pub regions: Vec<String>,
    pub metadata: Option<Metadata>,
    pub overrides: ManifestOverrides,
}

impl ManifestSource {
    pub open spec fn wf(&self) -> bool {
        self.overrides.wf()
    }

    /// Apply one more override layer on top of this source's overrides.
    pub fn merge_overrides(self, other: ManifestOverrides) -> (r: ManifestSource)
        requires
            self.wf(),
            other.wf(),
        ensures
            r.name == self.name,
            r.external == self.external,
            r.disabled == self.disabled,
            r.regions == self.regions,
            r.metadata == self.metadata,
            r.wf(),
            r.overrides.version == if other.version is Some {
                other.version
            } else {
                self.overrides.version
            },
            r.overrides.image == if other.image is Some {
                other.image
            } else {
                self.overrides.image
            },
    {
        let ManifestSource { name, external, disabled, regions, metadata, overrides } = self;
        ManifestSource {
            name,
            external,
            disabled,
            regions,
            metadata,
            overrides: overrides.merge(other),
        }
    }
}

impl ManifestDefaults {
    /// Merge these defaults beneath a source's existing defaults: the
    /// source's own values stay wherever it specifies them.
    pub fn merge_source(self, other: ManifestSource) -> (r: ManifestSource)
        requires
            self.wf(),
            other.wf(),
        ensures
            r.name == other.name,
            r.external == other.external,
            r.disabled == other.disabled,
            r.regions == other.regions,
            r.metadata == other.metadata,
            r.wf(),
            r.overrides.defaults.image_prefix == if other.overrides.defaults.image_prefix
                is Some {
                other.overrides.defaults.image_prefix
            } else {
                self.image_prefix
            },
            r.overrides.defaults.chart == if other.overrides.defaults.chart is Some {
                other.overrides.defaults.chart
            } else {
                self.chart
            },
            r.overrides.defaults.replica_count == if other.overrides.defaults.replica_count
                is Some {
                other.overrides.defaults.replica_count
            } else {
                self.replica_count
            },
            r.overrides.defaults.env@ == self.env@.union_prefer_right(
                other.overrides.defaults.env@,
            ),
            r.overrides.image == other.overrides.image,
            r.overrides.version == other.overrides.version,
    {
        let ManifestSource { name, external, disabled, regions, metadata, overrides } = other;
        let ManifestOverrides {
            publicly_accessible,
            image,
            image_size,
            version,
            command,
            data_handling,
            language,
            resources,
            secret_files,
            configs,
            vault,
            http_port,
            ports,
            health,
            dependencies,
            workers,
            sidecars,
            rolling_update,
            auto_scaling,
            jobs,
            service_annotations,
            labels,
            kong,
            gate,
            hosts,
            kafka,
            defaults,
        } = overrides;
        let overrides = ManifestOverrides {
            publicly_accessible,
            image,
            image_size,
            version,
            command,
            data_handling,
            language,
            resources,
            secret_files,
            configs,
            vault,
            http_port,
            ports,
            health,
            dependencies,
            workers,
            sidecars,
            rolling_update,
            auto_scaling,
            jobs,
            service_annotations,
            labels,
            kong,
            gate,
            hosts,
            kafka,
            defaults: self.merge(defaults),
        };
        ManifestSource { name, external, disabled, regions, metadata, overrides }
    }
}

/// Template files available to one service: its own directory first, a
/// shared directory as fallback.
#[derive(Debug, Clone, PartialEq, Eq, Default)]
pub struct TemplateStore {
    pub service: KvMap,
    pub shared: KvMap,
}

impl TemplateStore {
    pub open spec fn wf(&self) -> bool {
        &&& self.service.wf()
        &&& self.shared.wf()
    }

    /// The content a template name resolves to: the per-service directory
    /// wins, the shared directory is the fallback.
    pub open spec fn spec_lookup(&self, name: Seq<char>) -> Option<Seq<char>> {
        if self.service@.contains_key(name) {
            Some(self.service@[name])
        } else if self.shared@.contains_key(name) {
            Some(self.shared@[name])
        } else {
            None
        }
    }

    /// Read a template by name.
    pub fn read(&self, name: &String) -> (r: Option<&String>)
        requires
            self.wf(),
        ensures
            match r {
                Some(v) => self.spec_lookup(name@) == Some(v@),
                None => self.spec_lookup(name@) is None,
            },
    {
        match self.service.get(name) {
            Some(v) => Some(v),
            None => self.shared.get(name),
        }
    }
}

/// The identity-only projection of a service: name, regions, validated
/// metadata.  Immutable after construction.
#[derive(Debug, Clone, PartialEq, Eq)]
pub struct BaseManifest {
    pub name: String,
    pub regions: Vec<String>,
    pub metadata: Metadata,
}

/// A cheap partial resolution, for enumeration without full validation.
#[derive(Debug, Clone, PartialEq, Eq)]
pub struct SimpleManifest {
    pub base: BaseManifest,
    pub region: String,
    pub enabled: bool,
    pub external: bool,
    pub image: Option<String>,
    pub version: Option<String>,
    pub kong: Option<Kong>,
}

/// The namespace a (config, region, team name) triple coalesces to: the
/// team's namespace exactly when the team exists and defines one, the
/// region's namespace otherwise.
pub open spec fn spec_coalesce(conf: Config, reg: Region, team: Seq<char>) -> Seq<char> {
    match spec_find_team(conf.teams@, team) {
        Some(t) => match t.namespace {
            Some(n) => n@,
            None => reg.namespace@,
        },
        None => reg.namespace@,
    }
}

/// The namespace coalescing table: the team namespace is used iff the team
/// exists and defines a namespace; the region namespace is used otherwise,
/// regardless of whether the team exists.
pub proof fn lemma_coalesce_table(conf: Config, reg: Region, team: Seq<char>)
    ensures
        (spec_find_team(conf.teams@, team) is Some && spec_find_team(conf.teams@, team)
            ->Some_0.namespace is Some) ==> spec_coalesce(conf, reg, team) == spec_find_team(
            conf.teams@,
            team,
        )->Some_0.namespace->Some_0@,
        (spec_find_team(conf.teams@, team) is Some && spec_find_team(conf.teams@, team)
            ->Some_0.namespace is None) ==> spec_coalesce(conf, reg, team) == reg.namespace@,
        spec_find_team(conf.teams@, team) is None ==> spec_coalesce(conf, reg, team)
            == reg.namespace@,
{
}

impl ManifestSource {
    /// The service file names a service.
    pub open spec fn spec_name_ok(&self) -> bool {
        self.name is Some
    }

    /// Metadata is present and names a team of the global config.
    pub open spec fn spec_metadata_ok(&self, conf: Config) -> bool {
        &&& self.metadata is Some
        &&& spec_find_team(conf.teams@, self.metadata->Some_0.team@) is Some
    }

    /// The metadata after back-filling team-level contacts.
    pub open spec fn spec_built_metadata(&self, conf: Config) -> Metadata
        recommends
            self.spec_metadata_ok(conf),
    {
        let md = self.metadata->Some_0;
        let team = spec_find_team(conf.teams@, md.team@)->Some_0;
        Metadata {
            team: md.team,
            support: if md.support is Some {
                md.support
            } else {
                team.support
            },
            notifications: if md.notifications is Some {
                md.notifications
            } else {
                team.notifications
            },
        }
    }

    /// An image can be resolved: an explicit override, or a prefix to
    /// derive one from.
    pub open spec fn spec_image_ok(&self) -> bool {
        self.overrides.image is Some || self.overrides.defaults.image_prefix is Some
    }

    /// The resolved image: the explicit override wins, else
    /// `prefix/service`.
    pub open spec fn spec_image_view(&self) -> Seq<char>
        recommends
            self.spec_name_ok(),
            self.spec_image_ok(),
    {
        if self.overrides.image is Some {
            self.overrides.image->Some_0@
        } else {
            self.overrides.defaults.image_prefix->Some_0@ + seq!['/'] + self.name->Some_0@
        }
    }

    /// Enabled in a region iff not disabled and the region is targeted.
    pub open spec fn spec_enabled(&self, reg: Region) -> bool {
        !self.disabled && self.regions@.map_values(|s: String| s@).contains(reg.name@)
    }

    /// The declared host list, as character sequences; empty when absent.
    pub open spec fn spec_host_views(&self) -> Seq<Seq<char>> {
        match self.overrides.hosts {
            Some(h) => h@.map_values(|s: String| s@),
            None => Seq::<Seq<char>>::empty(),
        }
    }

    /// The gateway fragment builds iff its authorization, when present, is
    /// valid.
    pub open spec fn spec_kong_ok(&self) -> bool {
        match self.overrides.kong {
            Some(ks) => match ks.authorization {
                Some(a) => a.spec_valid(),
                None => true,
            },
            None => true,
        }
    }

    /// Everything `build_simple` checks, in its order.
    pub open spec fn spec_simple_ok(&self, conf: Config) -> bool {
        &&& self.spec_name_ok()
        &&& self.spec_metadata_ok(conf)
        &&& self.spec_image_ok()
        &&& self.spec_kong_ok()
    }

    /// The error `build_simple` refuses a source with, in check order:
    /// the name, the metadata and its team, the image source, the gateway
    /// authorization.
    pub open spec fn spec_simple_error(&self, conf: Config, e: ValidationError) -> bool {
        if self.name is None {
            e == ValidationError::MissingName
        } else if self.metadata is None {
            e == (ValidationError::MissingMetadata { service: self.name->Some_0 })
        } else if spec_find_team(conf.teams@, self.metadata->Some_0.team@) is None {
            e == (ValidationError::UnknownTeam { team: self.metadata->Some_0.team })
        } else if !self.spec_image_ok() {
            e == ValidationError::MissingImagePrefix
        } else {
            match self.overrides.kong {
                Some(ks) => match ks.authorization {
                    Some(a) => e == a.build_error(),
                    None => false,
                },
                None => false,
            }
        }
    }

    /// The service name, required.
    pub fn build_name(&self) -> (r: Result<String, ValidationError>)
        ensures
            r is Ok <==> self.spec_name_ok(),
            r is Ok ==> r->Ok_0 == self.name->Some_0,
            r is Err ==> r->Err_0 == ValidationError::MissingName,
    {
        match &self.name {
            Some(n) => Ok(n.clone()),
            None => Err(ValidationError::MissingName),
        }
    }

    /// The metadata, cross-checked against the team list and back-filled
    /// with team-level contacts.
    pub fn build_metadata(&self, name: &String, conf: &Config) -> (r: Result<
        Metadata,
        ValidationError,
    >)
        ensures
            r is Ok <==> self.spec_metadata_ok(*conf),
            r is Ok ==> r->Ok_0 == self.spec_built_metadata(*conf),
            r is Err ==> r->Err_0 == if self.metadata is None {
                ValidationError::MissingMetadata { service: *name }
            } else {
                ValidationError::UnknownTeam { team: self.metadata->Some_0.team }
            },
    {
        let md = match &self.metadata {
            Some(md) => md,
            None => {
                return Err(ValidationError::MissingMetadata { service: name.clone() });
            },
        };
        let team = match conf.find_team(&md.team) {
            Some(t) => t,
            None => {
                return Err(ValidationError::UnknownTeam { team: md.team.clone() });
            },
        };
        let support = match &md.support {
            Some(s) => Some(s.clone()),
            None => clone_opt_string(&team.support),
        };
        let notifications = match &md.notifications {
            Some(s) => Some(s.clone()),
            None => clone_opt_string(&team.notifications),
        };
        Ok(Metadata { team: md.team.clone(), support, notifications })
    }

    /// The image: explicit override, else derived from the prefix.
    pub fn build_image(&self, service: &String) -> (r: Result<String, ValidationError>)
        requires
            self.name is Some,
            service == self.name->Some_0,
        ensures
            r is Ok <==> self.spec_image_ok(),
            r is Ok ==> r->Ok_0@ == self.spec_image_view(),
            r is Err ==> r->Err_0 == ValidationError::MissingImagePrefix,
    {
        if let Some(image) = &self.overrides.image {
            Ok(image.clone())
        } else if let Some(prefix) = &self.overrides.defaults.image_prefix {
            let derived = concat3(prefix.as_str(), "/", service.as_str());
            proof {
                reveal_strlit("/");
                assert(derived@ =~= self.spec_image_view());
            }
            Ok(derived)
        } else {
            Err(ValidationError::MissingImagePrefix)
        }
    }

    /// Coalesce the namespace from the team and region definitions.
    pub fn coalesce_namespace(&self, conf: &Config, reg: &Region, team_name: String) -> (r:
        String)
        ensures
            r@ == spec_coalesce(*conf, *reg, team_name@),
    {
        match conf.find_team(&team_name) {
            Some(t) => match &t.namespace {
                Some(n) => n.clone(),
                None => reg.namespace.clone(),
            },
            None => reg.namespace.clone(),
        }
    }

    /// Build the identity-only projection.
    pub fn build_base(&self, conf: &Config) -> (r: Result<BaseManifest, ValidationError>)
        ensures
            r is Ok <==> (self.spec_name_ok() && self.spec_metadata_ok(*conf)),
            r is Ok ==> {
                let b = r->Ok_0;
                &&& b.name == self.name->Some_0
                &&& b.regions@ == self.regions@
                &&& b.metadata == self.spec_built_metadata(*conf)
            },
            r is Err ==> r->Err_0 == if self.name is None {
                ValidationError::MissingName
            } else if self.metadata is None {
                ValidationError::MissingMetadata { service: self.name->Some_0 }
            } else {
                ValidationError::UnknownTeam { team: self.metadata->Some_0.team }
            },
    {
        let name = match self.build_name() {
            Ok(n) => n,
            Err(e) => {
                return Err(e);
            },
        };
        let metadata = match self.build_metadata(&name, conf) {
            Ok(md) => md,
            Err(e) => {
                return Err(e);
            },
        };
        let regions = clone_strings(&self.regions);
        Ok(BaseManifest { name, regions, metadata })
    }

    /// Build the gateway config for (service, region), if one is declared.
    pub fn build_kong(&self, service: &String, reg: &Region) -> (r: Result<
        Option<Kong>,
        ValidationError,
    >)
        ensures
            r is Ok <==> self.spec_kong_ok(),
            r is Ok ==> match (self.overrides.kong, r->Ok_0) {
                (Some(ks), Some(k)) => ks.spec_builds(
                    service@,
                    reg.kong.base_url@,
                    self.spec_host_views(),
                    k,
                ),
                (None, None) => true,
                _ => false,
            },
            r is Err ==> self.overrides.kong is Some && self.overrides.kong->Some_0.authorization
                is Some && r->Err_0 == self.overrides.kong->Some_0.authorization
                ->Some_0.build_error(),
    {
        let ks = match &self.overrides.kong {
            Some(ks) => ks,
            None => {
                return Ok(None);
            },
        };
        let hosts: Vec<String> = match &self.overrides.hosts {
            Some(h) => clone_strings(h),
            None => Vec::new(),
        };
        proof {
            let declared = match &self.overrides.hosts {
                Some(h) => h@.map_values(|s: String| s@),
                None => Seq::<Seq<char>>::empty(),
            };
            assert(hosts@.map_values(|s: String| s@) =~= declared);
        }
        match ks.build(service, reg, &hosts) {
            Ok(k) => Ok(Some(k)),
            Err(e) => Err(e),
        }
    }

    /// Build the cheap partial resolution.
    pub fn build_simple(&self, conf: &Config, region: &Region) -> (r: Result<
        SimpleManifest,
        ValidationError,
    >)
        ensures
            r is Ok <==> self.spec_simple_ok(*conf),
            r is Ok ==> {
                let s = r->Ok_0;
                &&& s.base.name == self.name->Some_0
                &&& s.base.regions@ == self.regions@
                &&& s.base.metadata == self.spec_built_metadata(*conf)
                &&& s.region@ == region.name@
                &&& s.enabled == self.spec_enabled(*region)
                &&& s.external == self.external
                &&& s.image is Some && s.image->Some_0@ == self.spec_image_view()
                &&& s.version == self.overrides.version
                &&& match (self.overrides.kong, s.kong) {
                    (Some(ks), Some(k)) => ks.spec_builds(
                        self.name->Some_0@,
                        region.kong.base_url@,
                        self.spec_host_views(),
                        k,
                    ),
                    (None, None) => true,
                    _ => false,
                }
            },
            r is Err ==> self.spec_simple_error(*conf, r->Err_0),
    {
        let base = match self.build_base(conf) {
            Ok(b) => b,
            Err(e) => {
                return Err(e);
            },
        };
        let image = match self.build_image(&base.name) {
            Ok(i) => i,
            Err(e) => {
                return Err(e);
            },
        };
        let kong = match self.build_kong(&base.name, region) {
            Ok(k) => k,
            Err(e) => {
                return Err(e);
            },
        };
        let enabled = !self.disabled && contains_string(&self.regions, &region.name);
        Ok(SimpleManifest {
            base,
            region: region.name.clone(),
            enabled,
            external: self.external,
            image: Some(image),
            version: clone_opt_string(&self.overrides.version),
            kong,
        })
    }
}

/// The fully resolved, validated deployable spec of one service in one
/// region.  Created by resolution, consumed read-only.
#[derive(Debug, Clone, PartialEq, Eq)]
pub struct Manifest {
    pub name: String,
    pub publicly_accessible: bool,
    pub external: bool,
    pub disabled: bool,
    pub regions: Vec<String>,
    pub metadata: Option<Metadata>,
    pub chart: Option<String>,
    pub image_size: Option<u32>,
    pub image: Option<String>,
    pub version: Option<String>,
    pub command: Vec<String>,
    pub data_handling: Option<DataHandling>,
    pub language: Option<String>,
    pub resources: Option<Resources>,
    pub replica_count: Option<u32>,
    pub env: KvMap,
    pub secret_files: KvMap,
    pub configs: Option<ConfigMap>,
    pub vault: Option<VaultOpts>,
    pub http_port: Option<u32>,
    pub ports: Vec<Port>,
    pub health: Option<HealthCheck>,
    pub dependencies: Vec<Dependency>,
    pub workers: Vec<Worker>,
    pub sidecars: Vec<Container>,
    pub rolling_update: Option<RollingUpdate>,
    pub auto_scaling: Option<AutoScaling>,
    pub jobs: Vec<Job>,
    pub service_annotations: KvMap,
    pub labels: KvMap,
    pub kong: Option<Kong>,
    pub gate: Option<Gate>,
    pub hosts: Vec<String>,
    pub kafka: Option<Kafka>,
    pub region: String,
    pub environment: String,
    pub namespace: String,
}

/// Build every worker fragment, stopping at the first that is refused.
fn build_workers(ws: &Vec<WorkerSource>, params: &ContainerBuildParams) -> (r: Result<
    Vec<Worker>,
    ValidationError,
>)
    ensures
        r is Ok <==> forall|i: int| 0 <= i < ws@.len() ==> ws@[i].spec_ok(*params),
        r is Ok ==> {
            let out = r->Ok_0;
            &&& out@.len() == ws@.len()
            &&& forall|i: int| 0 <= i < ws@.len() ==> ws@[i].spec_builds(*params, out@[i])
        },
        r is Err ==> exists|i: int|
            0 <= i < ws@.len() && !ws@[i].spec_ok(*params) && ws@[i].spec_build_error(
                *params,
                r->Err_0,
            ),
{
    let mut out: Vec<Worker> = Vec::new();
    let n = ws.len();
    let mut i: usize = 0;
    while i < n
        invariant
            n == ws@.len(),
            i <= n,
            out@.len() == i,
            forall|j: int| 0 <= j < i ==> ws@[j].spec_ok(*params),
            forall|j: int| 0 <= j < i ==> ws@[j].spec_builds(*params, out@[j]),
        decreases n - i,
    {
        match ws[i].build(params) {
            Ok(w) => out.push(w),
            Err(e) => {
                return Err(e);
            },
        }
        i += 1;
    }
    Ok(out)
}

/// Build every sidecar fragment, stopping at the first that is refused.
fn build_sidecars(ss: &Vec<SidecarSource>, params: &ContainerBuildParams) -> (r: Result<
    Vec<Container>,
    ValidationError,
>)
    ensures
        r is Ok <==> forall|i: int| 0 <= i < ss@.len() ==> ss@[i].0.spec_ok(*params),
        r is Ok ==> {
            let out = r->Ok_0;
            &&& out@.len() == ss@.len()
            &&& forall|i: int| 0 <= i < ss@.len() ==> ss@[i].0.spec_builds(*params, out@[i])
        },
        r is Err ==> exists|i: int|
            0 <= i < ss@.len() && !ss@[i].0.spec_ok(*params) && ss@[i].0.spec_build_error(
                *params,
                r->Err_0,
            ),
{
    let mut out: Vec<Container> = Vec::new();
    let n = ss.len();
    let mut i: usize = 0;
    while i < n
        invariant
            n == ss@.len(),
            i <= n,
            out@.len() == i,
            forall|j: int| 0 <= j < i ==> ss@[j].0.spec_ok(*params),
            forall|j: int| 0 <= j < i ==> ss@[j].0.spec_builds(*params, out@[j]),
        decreases n - i,
    {
        match ss[i].build(params) {
            Ok(c) => out.push(c),
            Err(e) => {
                return Err(e);
            },
        }
        i += 1;
    }
    Ok(out)
}

/// Build every batch-job fragment, stopping at the first that is refused.
fn build_jobs(js: &Vec<JobSource>, params: &ContainerBuildParams) -> (r: Result<
    Vec<Job>,
    ValidationError,
>)
    ensures
        r is Ok <==> forall|i: int| 0 <= i < js@.len() ==> js@[i].spec_ok(*params),
        r is Ok ==> {
            let out = r->Ok_0;
            &&& out@.len() == js@.len()
            &&& forall|i: int| 0 <= i < js@.len() ==> js@[i].spec_builds(*params, out@[i])
        },
        r is Err ==> exists|i: int|
            0 <= i < js@.len() && !js@[i].spec_ok(*params) && js@[i].spec_build_error(
                *params,
                r->Err_0,
            ),
{
    let mut out: Vec<Job> = Vec::new();
    let n = js.len();
    let mut i: usize = 0;
    while i < n
        invariant
            n == js@.len(),
            i <= n,
            out@.len() == i,
            forall|j: int| 0 <= j < i ==> js@[j].spec_ok(*params),
            forall|j: int| 0 <= j < i ==> js@[j].spec_builds(*params, out@[j]),
        decreases n - i,
    {
        match js[i].build(params) {
            Ok(jb) => out.push(jb),
            Err(e) => {
                return Err(e);
            },
        }
        i += 1;
    }
    Ok(out)
}

impl ManifestSource {
    /// Derive the data-handling classification, if one is declared.
    pub fn build_data_handling(&self) -> (r: Option<DataHandling>)
        ensures
            match (self.overrides.data_handling, r) {
                (Some(dh), Some(out)) => out.stores@ == crate::structs::spec_stores_implicits(
                    dh.stores@,
                ),
                (None, None) => true,
                _ => false,
            },
    {
        match &self.overrides.data_handling {
            Some(dh) => Some(dh.with_implicits()),
            None => None,
        }
    }

    /// Derive the messaging config for (service, region), if one is
    /// declared.
    pub fn build_kafka(&self, service: &String, reg: &Region) -> (r: Option<Kafka>)
        ensures
            match (self.overrides.kafka, r) {
                (Some(kf), Some(out)) => {
                    &&& out.brokers@ == kf.brokers@
                    &&& out.topic_views() == kf.topic_views().map_values(
                        |t: Seq<char>| crate::structs::spec_qualify(
                            t,
                            crate::structs::spec_topic_prefix(service@, reg.name@),
                        ),
                    )
                },
                (None, None) => true,
                _ => false,
            },
    {
        match &self.overrides.kafka {
            Some(kf) => Some(kf.with_implicits(service, &reg.name)),
            None => None,
        }
    }

    /// Every declared config file resolves in the template store.
    pub open spec fn spec_configs_ok(&self, templates: TemplateStore) -> bool {
        match self.overrides.configs {
            Some(cm) => forall|i: int|
                0 <= i < cm.files@.len() ==> templates.spec_lookup(cm.files@[i].name@) is Some,
            None => true,
        }
    }

    /// Fill each declared config file with the content of its template,
    /// looked up in the per-service directory first and the shared
    /// directory second; a name found in neither is a fatal error.
    pub fn build_configs(&self, templates: &TemplateStore) -> (r: Result<
        Option<ConfigMap>,
        ValidationError,
    >)
        requires
            templates.wf(),
        ensures
            r is Ok <==> self.spec_configs_ok(*templates),
            r is Ok ==> match (self.overrides.configs, r->Ok_0) {
                (Some(cm), Some(out)) => {
                    &&& out.mount == cm.mount
                    &&& out.files@.len() == cm.files@.len()
                    &&& forall|i: int|
                        0 <= i < cm.files@.len() ==> {
                            &&& (#[trigger] out.files@[i]).name == cm.files@[i].name
                            &&& out.files@[i].value is Some
                            &&& Some(out.files@[i].value->Some_0@) == templates.spec_lookup(
                                cm.files@[i].name@,
                            )
                        }
                },
                (None, None) => true,
                _ => false,
            },
            r is Err ==> self.overrides.configs is Some && exists|i: int|
                #![trigger self.overrides.configs->Some_0.files@[i]]
                {
                    let files = self.overrides.configs->Some_0.files;
                    &&& 0 <= i < files@.len()
                    &&& templates.spec_lookup(files@[i].name@) is None
                    &&& r->Err_0 == (ValidationError::MissingTemplate { name: files@[i].name })
                },
    {
        let cm = match &self.overrides.configs {
            Some(cm) => cm,
            None => {
                return Ok(None);
            },
        };
        let mut files: Vec<ConfigMappedFile> = Vec::new();
        let n = cm.files.len();
        let mut i: usize = 0;
        while i < n
            invariant
                self.overrides.configs == Some(*cm),
                n == cm.files@.len(),
                templates.wf(),
                i <= n,
                files@.len() == i,
                forall|j: int|
                    0 <= j < i ==> {
                        &&& (#[trigger] files@[j]).name == cm.files@[j].name
                        &&& files@[j].value is Some
                        &&& Some(files@[j].value->Some_0@) == templates.spec_lookup(
                            cm.files@[j].name@,
                        )
                    },
            decreases n - i,
        {
            let f = &cm.files[i];
            match templates.read(&f.name) {
                Some(content) => {
                    files.push(
                        ConfigMappedFile { name: f.name.clone(), value: Some(content.clone()) },
                    );
                },
                None => {
                    proof {
                        assert(templates.spec_lookup(
                            self.overrides.configs->Some_0.files@[i as int].name@,
                        ) is None);
                        assert(!self.spec_configs_ok(*templates));
                    }
                    return Err(ValidationError::MissingTemplate { name: f.name.clone() });
                },
            }
            i += 1;
        }
        proof {
            assert forall|k: int| 0 <= k < cm.files@.len() implies templates.spec_lookup(
                self.overrides.configs->Some_0.files@[k].name@,
            ) is Some by {
                assert(Some(files@[k].value->Some_0@) == templates.spec_lookup(
                    cm.files@[k].name@,
                ));
            }
        }
        Ok(Some(ConfigMap { mount: cm.mount.clone(), files }))
    }

    /// The shared build context handed to every container build.
    pub open spec fn spec_params(&self) -> ContainerBuildParams {
        ContainerBuildParams { image_prefix: self.overrides.defaults.image_prefix }
    }

    pub open spec fn spec_resources_ok(&self) -> bool {
        match self.overrides.resources {
            Some(rr) => rr.spec_ok(),
            None => true,
        }
    }

    pub open spec fn spec_workers_ok(&self) -> bool {
        match self.overrides.workers {
            Some(ws) => forall|i: int|
                0 <= i < ws@.len() ==> (#[trigger] ws@[i]).spec_ok(self.spec_params()),
            None => true,
        }
    }

    pub open spec fn spec_sidecars_ok(&self) -> bool {
        match self.overrides.sidecars {
            Some(ss) => forall|i: int|
                0 <= i < ss@.len() ==> (#[trigger] ss@[i]).0.spec_ok(self.spec_params()),
            None => true,
        }
    }

    pub open spec fn spec_jobs_ok(&self) -> bool {
        match self.overrides.jobs {
            Some(js) => forall|i: int|
                0 <= i < js@.len() ==> (#[trigger] js@[i]).spec_ok(self.spec_params()),
            None => true,
        }
    }

    pub open spec fn spec_autoscaling_ok(&self) -> bool {
        match self.overrides.auto_scaling {
            Some(a) => a.spec_valid(),
            None => true,
        }
    }

    /// The top-level publicly-accessible flag, with absence read as false.
    pub open spec fn spec_public(&self) -> bool {
        self.overrides.publicly_accessible == Some(true)
    }

    /// A declared gate must agree with the publicly-accessible flag.
    pub open spec fn spec_gate_ok(&self) -> bool {
        match self.overrides.gate {
            Some(g) => g.public == self.spec_public(),
            None => true,
        }
    }

    /// Everything full resolution checks.
    pub open spec fn spec_resolvable(&self, conf: Config, templates: TemplateStore) -> bool {
        &&& self.spec_simple_ok(conf)
        &&& self.spec_configs_ok(templates)
        &&& self.spec_resources_ok()
        &&& self.spec_workers_ok()
        &&& self.spec_sidecars_ok()
        &&& self.spec_jobs_ok()
        &&& self.spec_autoscaling_ok()
        &&& self.spec_gate_ok()
    }

    /// The error full resolution refuses a source with, in check order.
    pub open spec fn spec_resolve_error(
        &self,
        conf: Config,
        templates: TemplateStore,
        e: ValidationError,
    ) -> bool {
        if !self.spec_simple_ok(conf) {
            self.spec_simple_error(conf, e)
        } else if !self.spec_configs_ok(templates) {
            exists|i: int|
                #![trigger self.overrides.configs->Some_0.files@[i]]
                {
                    let files = self.overrides.configs->Some_0.files;
                    &&& 0 <= i < files@.len()
                    &&& templates.spec_lookup(files@[i].name@) is None
                    &&& e == (ValidationError::MissingTemplate { name: files@[i].name })
                }
        } else if !self.spec_resources_ok() {
            self.overrides.resources->Some_0.spec_build_error(e)
        } else if !self.spec_workers_ok() {
            exists|i: int|
                #![trigger self.overrides.workers->Some_0@[i]]
                {
                    let ws = self.overrides.workers->Some_0;
                    &&& 0 <= i < ws@.len()
                    &&& !ws@[i].spec_ok(self.spec_params())
                    &&& ws@[i].spec_build_error(self.spec_params(), e)
                }
        } else if !self.spec_sidecars_ok() {
            exists|i: int|
                #![trigger self.overrides.sidecars->Some_0@[i]]
                {
                    let ss = self.overrides.sidecars->Some_0;
                    &&& 0 <= i < ss@.len()
                    &&& !ss@[i].0.spec_ok(self.spec_params())
                    &&& ss@[i].0.spec_build_error(self.spec_params(), e)
                }
        } else if !self.spec_jobs_ok() {
            exists|i: int|
                #![trigger self.overrides.jobs->Some_0@[i]]
                {
                    let js = self.overrides.jobs->Some_0;
                    &&& 0 <= i < js@.len()
                    &&& !js@[i].spec_ok(self.spec_params())
                    &&& js@[i].spec_build_error(self.spec_params(), e)
                }
        } else if !self.spec_autoscaling_ok() {
            e == ValidationError::InvalidAutoScaling
        } else {
            e == ValidationError::GatePublicMismatch
        }
    }

    /// The relation between a source and the manifest it resolves to.
    pub open spec fn spec_builds_manifest(
        &self,
        conf: Config,
        reg: Region,
        templates: TemplateStore,
        m: Manifest,
    ) -> bool {
        &&& m.name == self.name->Some_0
        &&& m.publicly_accessible == self.spec_public()
        &&& m.external == self.external
        &&& m.disabled == self.disabled
        &&& m.regions@ == self.regions@
        &&& m.metadata == Some(self.spec_built_metadata(conf))
        &&& m.chart == self.overrides.defaults.chart
        &&& m.image_size == Some(
            match self.overrides.image_size {
                Some(s) => s,
                None => 512u32,
            },
        )
        &&& m.image is Some && m.image->Some_0@ == self.spec_image_view()
        &&& m.version == self.overrides.version
        &&& m.command@ == match self.overrides.command {
            Some(c) => c@,
            None => Seq::<String>::empty(),
        }
        &&& match (self.overrides.data_handling, m.data_handling) {
            (Some(dh), Some(out)) => out.stores@ == crate::structs::spec_stores_implicits(
                dh.stores@,
            ),
            (None, None) => true,
            _ => false,
        }
        &&& m.language == self.overrides.language
        &&& match (self.overrides.resources, m.resources) {
            (Some(rr), Some(res)) => res == rr.spec_built(),
            (None, None) => true,
            _ => false,
        }
        &&& m.replica_count == self.overrides.defaults.replica_count
        &&& m.env@ == self.overrides.defaults.env@
        &&& m.secret_files@ == self.overrides.secret_files@
        &&& match (self.overrides.configs, m.configs) {
            (Some(cm), Some(out)) => {
                &&& out.mount == cm.mount
                &&& out.files@.len() == cm.files@.len()
                &&& forall|i: int|
                    0 <= i < cm.files@.len() ==> {
                        &&& (#[trigger] out.files@[i]).name == cm.files@[i].name
                        &&& out.files@[i].value is Some
                        &&& Some(out.files@[i].value->Some_0@) == templates.spec_lookup(
                            cm.files@[i].name@,
                        )
                    }
            },
            (None, None) => true,
            _ => false,
        }
        &&& m.vault == self.overrides.vault
        &&& m.http_port == self.overrides.http_port
        &&& m.ports@ == match self.overrides.ports {
            Some(p) => p@,
            None => Seq::<Port>::empty(),
        }
        &&& m.health == self.overrides.health
        &&& m.dependencies@ == match self.overrides.dependencies {
            Some(d) => d@,
            None => Seq::<Dependency>::empty(),
        }
        &&& match self.overrides.workers {
            Some(ws) => m.workers@.len() == ws@.len() && forall|i: int|
                0 <= i < ws@.len() ==> ws@[i].spec_builds(self.spec_params(), m.workers@[i]),
            None => m.workers@.len() == 0,
        }
        &&& match self.overrides.sidecars {
            Some(ss) => m.sidecars@.len() == ss@.len() && forall|i: int|
                0 <= i < ss@.len() ==> ss@[i].0.spec_builds(self.spec_params(), m.sidecars@[i]),
            None => m.sidecars@.len() == 0,
        }
        &&& m.rolling_update == self.overrides.rolling_update
        &&& m.auto_scaling == self.overrides.auto_scaling
        &&& match self.overrides.jobs {
            Some(js) => m.jobs@.len() == js@.len() && forall|i: int|
                0 <= i < js@.len() ==> js@[i].spec_builds(self.spec_params(), m.jobs@[i]),
            None => m.jobs@.len() == 0,
        }
        &&& m.service_annotations@ == self.overrides.service_annotations@
        &&& m.labels@ == self.overrides.labels@
        &&& match (self.overrides.kong, m.kong) {
            (Some(ks), Some(k)) => ks.spec_builds(
                self.name->Some_0@,
                reg.kong.base_url@,
                self.spec_host_views(),
                k,
            ),
            (None, None) => true,
            _ => false,
        }
        &&& m.gate == self.overrides.gate
        &&& m.hosts@ == match self.overrides.hosts {
            Some(h) => h@,
            None => Seq::<String>::empty(),
        }
        &&& match (self.overrides.kafka, m.kafka) {
            (Some(kf), Some(out)) => {
                &&& out.brokers@ == kf.brokers@
                &&& out.topic_views() == kf.topic_views().map_values(
                    |t: Seq<char>| crate::structs::spec_qualify(
                        t,
                        crate::structs::spec_topic_prefix(self.name->Some_0@, reg.name@),
                    ),
                )
            },
            (None, None) => true,
            _ => false,
        }
        &&& m.region@ == reg.name@
        &&& m.environment@ == reg.environment@
        &&& m.namespace@ == spec_coalesce(conf, reg, self.spec_built_metadata(conf).team@)
    }

    /// Full resolution: merge-derived fields, identity, implicit fields,
    /// templated configs, and every cross-field invariant; never returns a
    /// partially valid manifest.
    pub fn build(self, conf: &Config, reg: &Region, templates: &TemplateStore) -> (r: Result<
        Manifest,
        ValidationError,
    >)
        requires
            templates.wf(),
            self.wf(),
        ensures
            r is Ok <==> self.spec_resolvable(*conf, *templates),
            r is Ok ==> self.spec_builds_manifest(*conf, *reg, *templates, r->Ok_0),
            r is Err ==> self.spec_resolve_error(*conf, *templates, r->Err_0),
    {
        let simple = match self.build_simple(conf, reg) {
            Ok(s) => s,
            Err(e) => {
                return Err(e);
            },
        };
        let name = simple.base.name;
        let namespace = self.coalesce_namespace(conf, reg, simple.base.metadata.team.clone());
        let data_handling = self.build_data_handling();
        let kafka = self.build_kafka(&name, reg);
        let configs = match self.build_configs(templates) {
            Ok(c) => c,
            Err(e) => {
                return Err(e);
            },
        };
        let resources: Option<Resources> = match &self.overrides.resources {
            Some(rr) => match rr.build() {
                Ok(res) => Some(res),
                Err(e) => {
                    return Err(e);
                },
            },
            None => None,
        };
        let params = ContainerBuildParams {
            image_prefix: clone_opt_string(&self.overrides.defaults.image_prefix),
        };
        let workers: Vec<Worker> = match &self.overrides.workers {
            Some(ws) => match build_workers(ws, &params) {
                Ok(w) => w,
                Err(e) => {
                    return Err(e);
                },
            },
            None => Vec::new(),
        };
        let sidecars: Vec<Container> = match &self.overrides.sidecars {
            Some(ss) => match build_sidecars(ss, &params) {
                Ok(s) => s,
                Err(e) => {
                    return Err(e);
                },
            },
            None => Vec::new(),
        };
        let jobs: Vec<Job> = match &self.overrides.jobs {
            Some(js) => match build_jobs(js, &params) {
                Ok(j) => j,
                Err(e) => {
                    return Err(e);
                },
            },
            None => Vec::new(),
        };
        if let Some(a) = &self.overrides.auto_scaling {
            match a.verify() {
                Ok(()) => {},
                Err(e) => {
                    return Err(e);
                },
            }
        }
        let publicly_accessible = matches!(self.overrides.publicly_accessible, Some(true));
        if let Some(g) = &self.overrides.gate {
            if g.public != publicly_accessible {
                return Err(ValidationError::GatePublicMismatch);
            }
        }
        let overrides = self.overrides;
        let defaults = overrides.defaults;
        Ok(Manifest {
            name,
            publicly_accessible,
            external: self.external,
            disabled: self.disabled,
            regions: simple.base.regions,
            metadata: Some(simple.base.metadata),
            chart: defaults.chart,
            image_size: match overrides.image_size {
                Some(s) => Some(s),
                None => Some(512),
            },
            image: simple.image,
            version: simple.version,
            command: match overrides.command {
                Some(c) => c,
                None => Vec::new(),
            },
            data_handling,
            language: overrides.language,
            resources,
            replica_count: defaults.replica_count,
            env: defaults.env,
            secret_files: overrides.secret_files,
            configs,
            vault: overrides.vault,
            http_port: overrides.http_port,
            ports: match overrides.ports {
                Some(p) => p,
                None => Vec::new(),
            },
            health: overrides.health,
            dependencies: match overrides.dependencies {
                Some(d) => d,
                None => Vec::new(),
            },
            workers,
            sidecars,
            rolling_update: overrides.rolling_update,
            auto_scaling: overrides.auto_scaling,
            jobs,
            service_annotations: overrides.service_annotations,
            labels: overrides.labels,
            kong: simple.kong,
            gate: overrides.gate,
            hosts: match overrides.hosts {
                Some(h) => h,
                None => Vec::new(),
            },
            kafka,
            region: reg.name.clone(),
            environment: reg.environment.clone(),
            namespace,
        })
    }
}

impl Manifest {
    /// Invariants re-checked before a manifest is deployed.
    pub open spec fn spec_verify_ok(&self) -> bool {
        &&& match self.resources {
            Some(res) => res.spec_valid(),
            None => true,
        }
        &&& match self.auto_scaling {
            Some(a) => a.spec_valid(),
            None => true,
        }
        &&& match self.gate {
            Some(g) => g.public == self.publicly_accessible,
            None => true,
        }
    }

    /// The error verification refuses a manifest with: resources first,
    /// then autoscaling, then the declared gate block.
    pub open spec fn spec_verify_error(&self, e: ValidationError) -> bool {
        if self.resources is Some && !self.resources->Some_0.spec_valid() {
            self.resources->Some_0.spec_verify_error(e)
        } else if self.auto_scaling is Some && !self.auto_scaling->Some_0.spec_valid() {
            e == ValidationError::InvalidAutoScaling
        } else {
            e == ValidationError::GatePublicMismatch
        }
    }

    /// Sanity verification of an assembled manifest.
    pub fn verify(&self) -> (r: Result<(), ValidationError>)
        ensures
            r is Ok <==> self.spec_verify_ok(),
            r is Err ==> self.spec_verify_error(r->Err_0),
    {
        if let Some(res) = &self.resources {
            match res.verify() {
                Ok(()) => {},
                Err(e) => {
                    return Err(e);
                },
            }
        }
        if let Some(a) = &self.auto_scaling {
            match a.verify() {
                Ok(()) => {},
                Err(e) => {
                    return Err(e);
                },
            }
        }
        if let Some(g) = &self.gate {
            if g.public != self.publicly_accessible {
                return Err(ValidationError::GatePublicMismatch);
            }
        }
        Ok(())
    }

    /// Seconds one pod is expected to need: the readiness delay (30 when
    /// none is declared) plus an image pull estimate of 60 seconds per 512
    /// megabytes of image size (512 when none is declared).
    pub open spec fn spec_wait_per_pod(&self) -> int {
        (match self.health {
            Some(h) => h.wait as int,
            None => 30int,
        }) + (match self.image_size {
            Some(s) => s as int,
            None => 512int,
        }) * 60 / 512
    }

    /// How many waves the rollout needs: replicas (at least one) divided by
    /// the rolling-update surge, rounded up; one wave when no surge bound
    /// is declared.
    pub open spec fn spec_wait_batches(&self) -> int {
        let declared = match self.replica_count {
            Some(rc) => rc as int,
            None => 1int,
        };
        let reps = if declared >= 1 {
            declared
        } else {
            1int
        };
        match self.rolling_update {
            Some(ru) => match ru.max_surge {
                Some(s) => if s > 0 {
                    (reps + s - 1) / (s as int)
                } else {
                    1int
                },
                None => 1int,
            },
            None => 1int,
        }
    }

    /// The rollout deadline, in seconds, clipped at the top of `u32`.
    pub open spec fn spec_estimate_wait(&self) -> int {
        let total = self.spec_wait_per_pod() * self.spec_wait_batches();
        if total > u32::MAX {
            u32::MAX as int
        } else {
            total
        }
    }

    /// Compute the rollout deadline from replica count, probe delay, image
    /// size and rolling-update parameters.
    pub fn estimate_wait_time(&self) -> (r: u32)
        ensures
            r == self.spec_estimate_wait(),
    {
        let hw: u64 = match &self.health {
            Some(h) => h.wait as u64,
            None => 30,
        };
        let isz: u64 = match self.image_size {
            Some(s) => s as u64,
            None => 512,
        };
        let per_pod: u64 = hw + isz * 60 / 512;
        let declared: u64 = match self.replica_count {
            Some(rc) => rc as u64,
            None => 1,
        };
        let reps: u64 = if declared >= 1 {
            declared
        } else {
            1
        };
        let batches: u64 = match &self.rolling_update {
            Some(ru) => match ru.max_surge {
                Some(s) => if s > 0 {
                    (reps + (s as u64) - 1) / (s as u64)
                } else {
                    1
                },
                None => 1,
            },
            None => 1,
        };
        proof {
            assert(per_pod == self.spec_wait_per_pod());
            assert(batches == self.spec_wait_batches());
        }
        let total = crate::quantity::mul_sat(per_pod, batches);
        if total > 0xffff_ffff {
            u32::MAX
        } else {
            total as u32
        }
    }
}

/// Two resolved containers agree on every field, with strings compared by
/// their contents.
pub open spec fn containers_agree(c1: Container, c2: Container) -> bool {
    &&& c1.name == c2.name
    &&& (c1.image is Some <==> c2.image is Some)
    &&& (c1.image is Some ==> c1.image->Some_0@ == c2.image->Some_0@)
    &&& c1.version == c2.version
    &&& c1.resources == c2.resources
    &&& c1.command@ == c2.command@
}

/// Two resolved gateway records agree on every field.
pub open spec fn kongs_agree(k1: Kong, k2: Kong) -> bool {
    &&& k1.hosts@.map_values(|h: String| h@) == k2.hosts@.map_values(|h: String| h@)
    &&& k1.uris == k2.uris
    &&& k1.internal == k2.internal
    &&& (k1.authorization is Some <==> k2.authorization is Some)
    &&& (k1.authorization is Some ==> {
        let a1 = k1.authorization->Some_0;
        let a2 = k2.authorization->Some_0;
        &&& a1.allowed_audiences@ == a2.allowed_audiences@
        &&& a1.allow_anonymous == a2.allow_anonymous
        &&& a1.allow_invalid_tokens == a2.allow_invalid_tokens
        &&& a1.required_scopes@ == a2.required_scopes@
        &&& a1.allow_cookies == a2.allow_cookies
    })
}

/// Resolution is deterministic, hence idempotent over its inputs: any two
/// manifests that the same (source, config, region, template store)
/// resolves to are structurally equal, with every constructed string
/// compared by its contents.
pub proof fn lemma_resolution_deterministic(
    src: ManifestSource,
    conf: Config,
    reg: Region,
    templates: TemplateStore,
    m1: Manifest,
    m2: Manifest,
)
    requires
        src.spec_builds_manifest(conf, reg, templates, m1),
        src.spec_builds_manifest(conf, reg, templates, m2),
    ensures
        m1.name == m2.name,
        m1.publicly_accessible == m2.publicly_accessible,
        m1.external == m2.external,
        m1.disabled == m2.disabled,
        m1.regions@ == m2.regions@,
        m1.metadata == m2.metadata,
        m1.chart == m2.chart,
        m1.image_size == m2.image_size,
        m1.image is Some && m2.image is Some && m1.image->Some_0@ == m2.image->Some_0@,
        m1.version == m2.version,
        m1.command@ == m2.command@,
        m1.data_handling is Some <==> m2.data_handling is Some,
        m1.data_handling is Some ==> m1.data_handling->Some_0.stores@ == m2.data_handling
            ->Some_0.stores@,
        m1.language == m2.language,
        m1.resources == m2.resources,
        m1.replica_count == m2.replica_count,
        m1.env@ == m2.env@,
        m1.secret_files@ == m2.secret_files@,
        m1.configs is Some <==> m2.configs is Some,
        m1.configs is Some ==> {
            let c1 = m1.configs->Some_0;
            let c2 = m2.configs->Some_0;
            &&& c1.mount == c2.mount
            &&& c1.files@.len() == c2.files@.len()
            &&& forall|i: int|
                0 <= i < c1.files@.len() ==> {
                    &&& (#[trigger] c1.files@[i]).name == c2.files@[i].name
                    &&& c1.files@[i].value is Some && c2.files@[i].value is Some
                    &&& c1.files@[i].value->Some_0@ == c2.files@[i].value->Some_0@
                }
        },
        m1.vault == m2.vault,
        m1.http_port == m2.http_port,
        m1.ports@ == m2.ports@,
        m1.health == m2.health,
        m1.dependencies@ == m2.dependencies@,
        m1.workers@.len() == m2.workers@.len(),
        forall|i: int|
            0 <= i < m1.workers@.len() ==> {
                &&& (#[trigger] m1.workers@[i]).replica_count == m2.workers@[i].replica_count
                &&& m1.workers@[i].auto_scaling == m2.workers@[i].auto_scaling
                &&& m1.workers@[i].http_port == m2.workers@[i].http_port
                &&& containers_agree(m1.workers@[i].container, m2.workers@[i].container)
            },
        m1.sidecars@.len() == m2.sidecars@.len(),
        forall|i: int|
            0 <= i < m1.sidecars@.len() ==> containers_agree(
                #[trigger] m1.sidecars@[i],
                m2.sidecars@[i],
            ),
        m1.rolling_update == m2.rolling_update,
        m1.auto_scaling == m2.auto_scaling,
        m1.jobs@.len() == m2.jobs@.len(),
        forall|i: int|
            0 <= i < m1.jobs@.len() ==> {
                &&& containers_agree((#[trigger] m1.jobs@[i]).container, m2.jobs@[i].container)
                &&& m1.jobs@[i].volume_claim == m2.jobs@[i].volume_claim
                &&& m1.jobs@[i].timeout == m2.jobs@[i].timeout
                &&& m1.jobs@[i].restart_policy == m2.jobs@[i].restart_policy
            },
        m1.service_annotations@ == m2.service_annotations@,
        m1.labels@ == m2.labels@,
        m1.kong is Some <==> m2.kong is Some,
        m1.kong is Some ==> kongs_agree(m1.kong->Some_0, m2.kong->Some_0),
        m1.gate == m2.gate,
        m1.hosts@ == m2.hosts@,
        m1.kafka is Some <==> m2.kafka is Some,
        m1.kafka is Some ==> m1.kafka->Some_0.brokers@ == m2.kafka->Some_0.brokers@
            && m1.kafka->Some_0.topic_views() == m2.kafka->Some_0.topic_views(),
        m1.region@ == m2.region@,
        m1.environment@ == m2.environment@,
        m1.namespace@ == m2.namespace@,
{
    match src.overrides.workers {
        Some(ws) => {
            assert forall|i: int| 0 <= i < m1.workers@.len() implies {
                &&& (#[trigger] m1.workers@[i]).replica_count == m2.workers@[i].replica_count
                &&& m1.workers@[i].auto_scaling == m2.workers@[i].auto_scaling
                &&& m1.workers@[i].http_port == m2.workers@[i].http_port
                &&& containers_agree(m1.workers@[i].container, m2.workers@[i].container)
            } by {
                assert(ws@[i].spec_builds(src.spec_params(), m1.workers@[i]));
                assert(ws@[i].spec_builds(src.spec_params(), m2.workers@[i]));
            }
        },
        None => {},
    }
    match src.overrides.sidecars {
        Some(ss) => {
            assert forall|i: int| 0 <= i < m1.sidecars@.len() implies containers_agree(
                #[trigger] m1.sidecars@[i],
                m2.sidecars@[i],
            ) by {
                assert(ss@[i].0.spec_builds(src.spec_params(), m1.sidecars@[i]));
                assert(ss@[i].0.spec_builds(src.spec_params(), m2.sidecars@[i]));
            }
        },
        None => {},
    }
    match src.overrides.jobs {
        Some(js) => {
            assert forall|i: int| 0 <= i < m1.jobs@.len() implies {
                &&& containers_agree((#[trigger] m1.jobs@[i]).container, m2.jobs@[i].container)
                &&& m1.jobs@[i].volume_claim == m2.jobs@[i].volume_claim
                &&& m1.jobs@[i].timeout == m2.jobs@[i].timeout
                &&& m1.jobs@[i].restart_policy == m2.jobs@[i].restart_policy
            } by {
                assert(js@[i].spec_builds(src.spec_params(), m1.jobs@[i]));
                assert(js@[i].spec_builds(src.spec_params(), m2.jobs@[i]));
            }
        },
        None => {},
    }
}

} // verus!

//! Building blocks of a manifest, and the pure derivations of their
//! implicit fields.
//!
//! An implicit field is a value computed from service identity and region
//! (a gateway host pattern, a qualified topic name, a defaulted data-store
//! flag).  Each derivation here is a pure function of its inputs and is
//! idempotent: applied to its own output it changes nothing.

use vstd::prelude::*;
use crate::authorization::{Authorization, AuthorizationSource};
use crate::config::Region;
use crate::errors::ValidationError;
use crate::strutil::{clone_opt_string, clone_strings, concat3, concat_str, starts_with_str};

verus! {

/// Ownership metadata of a service.
#[derive(Debug, Clone, PartialEq, Eq)]
pub struct Metadata {
    /// Must name a team of the global config.
    pub team: String,
    pub support: Option<String>,
    pub notifications: Option<String>,
}

/// One data store in a data-handling declaration.
#[derive(Debug, Clone, PartialEq, Eq)]
pub struct DataStore {
    pub backend: String,
    pub encrypted: Option<bool>,
    pub pii: Option<bool>,
}

/// Data-handling classification of a service.
#[derive(Debug, Clone, PartialEq, Eq)]
pub struct DataHandling {
    pub stores: Vec<DataStore>,
}

/// Messaging configuration; topic names are qualified during resolution.
#[derive(Debug, Clone, PartialEq, Eq)]
pub struct Kafka {
    pub brokers: Vec<String>,
    pub topics: Vec<String>,
}

/// Gateway exposure fragment of an override layer.
#[derive(Debug, Clone, PartialEq, Eq, Default)]
pub struct KongSource {
    pub uris: Option<String>,
    pub internal: Option<bool>,
    pub authorization: Option<AuthorizationSource>,
}

/// Resolved gateway exposure of a service.
#[derive(Debug, Clone, PartialEq, Eq)]
pub struct Kong {
    pub hosts: Vec<String>,
    pub uris: Option<String>,
    pub internal: bool,
    pub authorization: Option<Authorization>,
}

/// API gate of a service; `public` must agree with the manifest's
/// publicly-accessible flag.
#[derive(Debug, Clone, Copy, PartialEq, Eq, Structural)]
pub struct Gate {
    pub public: bool,
    pub websockets: bool,
}

/// Readiness check parameters.
#[derive(Debug, Clone, PartialEq, Eq)]
pub struct HealthCheck {
    pub uri: String,
    /// Seconds to wait before the first readiness probe.
    pub wait: u32,
}

/// Rolling-update bounds, in whole pods.
#[derive(Debug, Clone, Copy, PartialEq, Eq, Structural)]
pub struct RollingUpdate {
    pub max_unavailable: Option<u32>,
    pub max_surge: Option<u32>,
}

/// Horizontal autoscaling bounds.
#[derive(Debug, Clone, Copy, PartialEq, Eq, Structural)]
pub struct AutoScaling {
    pub min_replicas: u32,
    pub max_replicas: u32,
}

impl AutoScaling {
    /// Bounds must be non-empty and ordered.
    pub open spec fn spec_valid(&self) -> bool {
        1 <= self.min_replicas <= self.max_replicas
    }

    pub fn verify(&self) -> (r: Result<(), ValidationError>)
        ensures
            r is Ok <==> self.spec_valid(),
            r is Err ==> r->Err_0 == ValidationError::InvalidAutoScaling,
    {
        if 1 <= self.min_replicas && self.min_replicas <= self.max_replicas {
            Ok(())
        } else {
            Err(ValidationError::InvalidAutoScaling)
        }
    }
}

/// A declared dependency on another service; recorded, never sequenced on.
#[derive(Debug, Clone, PartialEq, Eq)]
pub struct Dependency {
    pub name: String,
}

/// A named port.
#[derive(Debug, Clone, PartialEq, Eq)]
pub struct Port {
    pub name: String,
    pub port: u32,
}

/// Secrets-manager options of a service.
#[derive(Debug, Clone, PartialEq, Eq)]
pub struct VaultOpts {
    pub folder: String,
}

/// One templated file of a config map; `value` is filled during resolution.
#[derive(Debug, Clone, PartialEq, Eq)]
pub struct ConfigMappedFile {
    pub name: String,
    pub value: Option<String>,
}

/// A mounted config map.
#[derive(Debug, Clone, PartialEq, Eq)]
pub struct ConfigMap {
    pub mount: String,
    pub files: Vec<ConfigMappedFile>,
}

// ---------------------------------------------------------------------------
// Data-handling implicits

/// A store with every optional flag defaulted to false.
pub open spec fn spec_store_implicits(s: DataStore) -> DataStore {
    DataStore {
        backend: s.backend,
        encrypted: Some(s.encrypted == Some(true)),
        pii: Some(s.pii == Some(true)),
    }
}

/// Every store's flags defaulted.
pub open spec fn spec_stores_implicits(stores: Seq<DataStore>) -> Seq<DataStore> {
    stores.map_values(|s: DataStore| spec_store_implicits(s))
}

/// Defaulting a store's flags is idempotent.
pub proof fn lemma_store_implicits_idempotent(s: DataStore)
    ensures
        spec_store_implicits(spec_store_implicits(s)) == spec_store_implicits(s),
{
}

/// Defaulting every store is idempotent.
pub proof fn lemma_stores_implicits_idempotent(stores: Seq<DataStore>)
    ensures
        spec_stores_implicits(spec_stores_implicits(stores)) == spec_stores_implicits(stores),
{
    assert(spec_stores_implicits(spec_stores_implicits(stores)) =~= spec_stores_implicits(
        stores,
    ));
}

impl DataHandling {
    /// A fresh copy with the same stores.
    pub fn duplicate(&self) -> (r: DataHandling)
        ensures
            r.stores@ == self.stores@,
    {
        let mut stores: Vec<DataStore> = Vec::new();
        let n = self.stores.len();
        let mut i: usize = 0;
        while i < n
            invariant
                n == self.stores@.len(),
                i <= n,
                stores@ =~= self.stores@.take(i as int),
            decreases n - i,
        {
            let s = &self.stores[i];
            stores.push(
                DataStore { backend: s.backend.clone(), encrypted: s.encrypted, pii: s.pii },
            );
            i += 1;
        }
        proof {
            assert(self.stores@.take(n as int) =~= self.stores@);
        }
        DataHandling { stores }
    }

    /// Fill the implicit flags of every store.
    pub fn with_implicits(&self) -> (r: DataHandling)
        ensures
            r.stores@ == spec_stores_implicits(self.stores@),
    {
        let mut stores: Vec<DataStore> = Vec::new();
        let n = self.stores.len();
        let mut i: usize = 0;
        while i < n
            invariant
                n == self.stores@.len(),
                i <= n,
                stores@ =~= self.stores@.take(i as int).map_values(
                    |s: DataStore| spec_store_implicits(s),
                ),
            decreases n - i,
        {
            let s = &self.stores[i];
            stores.push(DataStore {
                backend: s.backend.clone(),
                encrypted: Some(matches!(s.encrypted, Some(true))),
                pii: Some(matches!(s.pii, Some(true))),
            });
            proof {
                assert(self.stores@.take(i + 1).drop_last() =~= self.stores@.take(i as int));
                assert(stores@ =~= self.stores@.take(i + 1).map_values(
                    |s: DataStore| spec_store_implicits(s),
                ));
            }
            i += 1;
        }
        proof {
            assert(self.stores@.take(n as int) =~= self.stores@);
        }
        DataHandling { stores }
    }
}

// ---------------------------------------------------------------------------
// Kafka implicits

/// The topic prefix a service owns in a region: `service.region.`.
pub open spec fn spec_topic_prefix(service: Seq<char>, region: Seq<char>) -> Seq<char> {
    service + seq!['.'] + region + seq!['.']
}

/// A topic name qualified with the prefix, unless it already carries it.
pub open spec fn spec_qualify(topic: Seq<char>, prefix: Seq<char>) -> Seq<char> {
    if prefix.len() <= topic.len() && topic.subrange(0, prefix.len() as int) == prefix {
        topic
    } else {
        prefix + topic
    }
}

/// Qualifying a topic name is idempotent.
pub proof fn lemma_qualify_idempotent(topic: Seq<char>, prefix: Seq<char>)
    ensures
        spec_qualify(spec_qualify(topic, prefix), prefix) == spec_qualify(topic, prefix),
{
    let once = spec_qualify(topic, prefix);
    if !(prefix.len() <= topic.len() && topic.subrange(0, prefix.len() as int) == prefix) {
        assert((prefix + topic).subrange(0, prefix.len() as int) =~= prefix);
    }
}

impl Kafka {
    /// The topics of the record, as character sequences.
    pub open spec fn topic_views(&self) -> Seq<Seq<char>> {
        self.topics@.map_values(|t: String| t@)
    }

    /// Qualify every topic with the service/region prefix; brokers are kept.
    pub fn with_implicits(&self, service: &String, region: &String) -> (r: Kafka)
        ensures
            r.brokers@ == self.brokers@,
            r.topic_views() == self.topic_views().map_values(
                |t: Seq<char>| spec_qualify(t, spec_topic_prefix(service@, region@)),
            ),
    {
        let dotted = concat3(service.as_str(), ".", region.as_str());
        let prefix = concat_str(dotted.as_str(), ".");
        proof {
            reveal_strlit(".");
            assert(prefix@ =~= spec_topic_prefix(service@, region@));
        }
        let ghost pview = prefix@;
        let mut topics: Vec<String> = Vec::new();
        let n = self.topics.len();
        let mut i: usize = 0;
        while i < n
            invariant
                n == self.topics@.len(),
                i <= n,
                pview == prefix@,
                topics@.map_values(|t: String| t@) =~= self.topics@.take(i as int).map_values(
                    |t: String| t@,
                ).map_values(|t: Seq<char>| spec_qualify(t, pview)),
            decreases n - i,
        {
            let t = &self.topics[i];
            if starts_with_str(t.as_str(), prefix.as_str()) {
                topics.push(t.clone());
            } else {
                topics.push(concat_str(prefix.as_str(), t.as_str()));
            }
            proof {
                let pre = self.topics@.take(i as int).map_values(|t: String| t@).map_values(
                    |t: Seq<char>| spec_qualify(t, pview),
                );
                let cur = self.topics@.take(i + 1).map_values(|t: String| t@).map_values(
                    |t: Seq<char>| spec_qualify(t, pview),
                );
                assert(cur =~= pre.push(spec_qualify(self.topics@[i as int]@, pview)));
                assert(topics@.map_values(|t: String| t@) =~= pre.push(
                    spec_qualify(self.topics@[i as int]@, pview),
                ));
            }
            i += 1;
        }
        proof {
            assert(self.topics@.take(n as int) =~= self.topics@);
            assert(topics@.map_values(|t: String| t@) =~= self.topic_views().map_values(
                |t: Seq<char>| spec_qualify(t, spec_topic_prefix(service@, region@)),
            ));
        }
        Kafka { brokers: clone_strings(&self.brokers), topics }
    }
}

// ---------------------------------------------------------------------------
// Kong implicits

/// The gateway host a service gets when it declares none:
/// `service.base_url` of the region.
pub open spec fn spec_kong_host(service: Seq<char>, base_url: Seq<char>) -> Seq<char> {
    service + seq!['.'] + base_url
}

impl KongSource {
    /// The relation between the fragment and the gateway record it builds
    /// to, given the declared host views.
    pub open spec fn spec_builds(
        &self,
        service: Seq<char>,
        base_url: Seq<char>,
        hostviews: Seq<Seq<char>>,
        k: Kong,
    ) -> bool {
        &&& k.hosts@.map_values(|h: String| h@) == if hostviews.len() > 0 {
            hostviews
        } else {
            seq![spec_kong_host(service, base_url)]
        }
        &&& k.uris == self.uris
        &&& k.internal == (self.internal == Some(true))
        &&& match self.authorization {
            Some(a) => k.authorization is Some && a.spec_builds(k.authorization->Some_0),
            None => k.authorization is None,
        }
    }

    /// Resolve the gateway fragment for (service, region): explicit hosts
    /// win, an absent host list is replaced by the derived host, and the
    /// authorization block is built under its own invariants.
    pub fn build(&self, service: &String, reg: &Region, hosts: &Vec<String>) -> (r: Result<
        Kong,
        ValidationError,
    >)
        ensures
            r is Ok <==> match self.authorization {
                Some(a) => a.spec_valid(),
                None => true,
            },
            r is Err ==> self.authorization is Some && r == Err::<Kong, ValidationError>(
                self.authorization->Some_0.build_error(),
            ),
            r is Ok ==> self.spec_builds(
                service@,
                reg.kong.base_url@,
                hosts@.map_values(|h: String| h@),
                r->Ok_0,
            ),
    {
        let authorization: Option<Authorization> = match &self.authorization {
            Some(a) => match a.build() {
                Ok(auth) => Some(auth),
                Err(e) => {
                    return Err(e);
                },
            },
            None => None,
        };
        let out_hosts: Vec<String> = if hosts.len() > 0 {
            clone_strings(hosts)
        } else {
            let mut hs: Vec<String> = Vec::new();
            let derived = concat3(service.as_str(), ".", reg.kong.base_url.as_str());
            proof {
                reveal_strlit(".");
                assert(derived@ =~= spec_kong_host(service@, reg.kong.base_url@));
            }
            hs.push(derived);
            hs
        };
        proof {
            if hosts@.len() == 0 {
                assert(out_hosts@.map_values(|h: String| h@) =~= seq![
                    spec_kong_host(service@, reg.kong.base_url@),
                ]);
            }
        }
        Ok(Kong {
            hosts: out_hosts,
            uris: clone_opt_string(&self.uris),
            internal: matches!(self.internal, Some(true)),
            authorization,
        })
    }
}

} // verus!

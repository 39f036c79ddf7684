//! Region-wide resource accounting.
//!
//! Each manifest contributes its requested cpu (millicores) and memory
//! (bytes): the main container scaled by its replica count, every worker
//! scaled by its own, and every sidecar scaled like the main container.
//! Autoscaling headroom (the gap up to the maximum replica count) is
//! accounted separately as `extra`.  Sums saturate at the top of `u64`,
//! and a breakdown partitions the totals by team.

use vstd::prelude::*;
use crate::config::{Config, Team};
use crate::container::{Container, Worker};
use crate::errors::ValidationError;
use crate::manifest::Manifest;
use crate::quantity::{add_sat, mul_sat, spec_cpu_millis, spec_mem_bytes};
use crate::resources::{ResourceCounts, ResourceTotals, Resources};
use vstd::string::*;

verus! {

/// Clip an exact sum at the top of `u64`.
pub open spec fn spec_clip(x: int) -> int {
    if x > u64::MAX {
        u64::MAX as int
    } else {
        x
    }
}

/// The replica count a manifest deploys with; at least one.
pub open spec fn spec_replicas(m: Manifest) -> int {
    let declared = match m.replica_count {
        Some(rc) => rc as int,
        None => 1int,
    };
    if declared >= 1 {
        declared
    } else {
        1int
    }
}

/// Requested millicores of a resource record; zero when unparseable.
pub open spec fn spec_req_mc(res: Resources) -> int {
    match spec_cpu_millis(res.requests.cpu@) {
        Some(v) => v,
        None => 0int,
    }
}

/// Requested bytes of a resource record; zero when unparseable.
pub open spec fn spec_req_mb(res: Resources) -> int {
    match spec_mem_bytes(res.requests.memory@) {
        Some(v) => v,
        None => 0int,
    }
}

/// Whether a resource record's requests parse.
pub open spec fn spec_res_parses(res: Resources) -> bool {
    &&& spec_cpu_millis(res.requests.cpu@) is Some
    &&& spec_mem_bytes(res.requests.memory@) is Some
}

/// Whether every resource record a manifest carries parses.
pub open spec fn spec_mf_resources_ok(m: Manifest) -> bool {
    &&& match m.resources {
        Some(res) => spec_res_parses(res),
        None => true,
    }
    &&& forall|i: int|
        0 <= i < m.workers@.len() ==> match (#[trigger] m.workers@[i]).container.resources {
            Some(res) => spec_res_parses(res),
            None => true,
        }
    &&& forall|i: int|
        0 <= i < m.sidecars@.len() ==> match (#[trigger] m.sidecars@[i]).resources {
            Some(res) => spec_res_parses(res),
            None => true,
        }
}

/// Base (millicores, bytes) of one worker: its requests times its own
/// replica count.
pub open spec fn spec_worker_base(w: Worker) -> (int, int) {
    match w.container.resources {
        Some(res) => (
            spec_req_mc(res) * w.replica_count as int,
            spec_req_mb(res) * w.replica_count as int,
        ),
        None => (0int, 0int),
    }
}

/// Autoscaling headroom of one worker.
pub open spec fn spec_worker_extra(w: Worker) -> (int, int) {
    match (w.container.resources, w.auto_scaling) {
        (Some(res), Some(a)) => {
            let gap = if a.max_replicas as int > w.replica_count as int {
                a.max_replicas as int - w.replica_count as int
            } else {
                0int
            };
            (spec_req_mc(res) * gap, spec_req_mb(res) * gap)
        },
        _ => (0int, 0int),
    }
}

/// Base of one sidecar: its requests times the manifest's replica count.
pub open spec fn spec_sidecar_base(c: Container, reps: int) -> (int, int) {
    match c.resources {
        Some(res) => (spec_req_mc(res) * reps, spec_req_mb(res) * reps),
        None => (0int, 0int),
    }
}

pub open spec fn spec_workers_base(s: Seq<Worker>) -> (int, int)
    decreases s.len(),
{
    if s.len() == 0 {
        (0int, 0int)
    } else {
        let rest = spec_workers_base(s.drop_last());
        let last = spec_worker_base(s.last());
        (rest.0 + last.0, rest.1 + last.1)
    }
}

pub open spec fn spec_workers_extra(s: Seq<Worker>) -> (int, int)
    decreases s.len(),
{
    if s.len() == 0 {
        (0int, 0int)
    } else {
        let rest = spec_workers_extra(s.drop_last());
        let last = spec_worker_extra(s.last());
        (rest.0 + last.0, rest.1 + last.1)
    }
}

pub open spec fn spec_sidecars_base(s: Seq<Container>, reps: int) -> (int, int)
    decreases s.len(),
{
    if s.len() == 0 {
        (0int, 0int)
    } else {
        let rest = spec_sidecars_base(s.drop_last(), reps);
        let last = spec_sidecar_base(s.last(), reps);
        (rest.0 + last.0, rest.1 + last.1)
    }
}

/// Exact base usage of one manifest.
pub open spec fn spec_mf_base(m: Manifest) -> (int, int) {
    let reps = spec_replicas(m);
    let main = match m.resources {
        Some(res) => (spec_req_mc(res) * reps, spec_req_mb(res) * reps),
        None => (0int, 0int),
    };
    let w = spec_workers_base(m.workers@);
    let s = spec_sidecars_base(m.sidecars@, reps);
    (main.0 + w.0 + s.0, main.1 + w.1 + s.1)
}

/// Exact autoscaling headroom of one manifest.
pub open spec fn spec_mf_extra(m: Manifest) -> (int, int) {
    let reps = spec_replicas(m);
    let main = match (m.resources, m.auto_scaling) {
        (Some(res), Some(a)) => {
            let gap = if a.max_replicas as int > reps {
                a.max_replicas as int - reps
            } else {
                0int
            };
            (spec_req_mc(res) * gap, spec_req_mb(res) * gap)
        },
        _ => (0int, 0int),
    };
    let w = spec_workers_extra(m.workers@);
    (main.0 + w.0, main.1 + w.1)
}


/// Parsed quantities are non-negative.
pub proof fn lemma_quantity_nonneg(s: Seq<char>)
    ensures
        spec_cpu_millis(s) is Some ==> spec_cpu_millis(s)->Some_0 >= 0,
        spec_mem_bytes(s) is Some ==> spec_mem_bytes(s)->Some_0 >= 0,
{
    crate::quantity::lemma_parse_nonneg(s);
}

proof fn lemma_req_nonneg(res: Resources)
    ensures
        spec_req_mc(res) >= 0,
        spec_req_mb(res) >= 0,
{
    lemma_quantity_nonneg(res.requests.cpu@);
    lemma_quantity_nonneg(res.requests.memory@);
}

proof fn lemma_worker_nonneg(w: Worker)
    ensures
        spec_worker_base(w).0 >= 0,
        spec_worker_base(w).1 >= 0,
        spec_worker_extra(w).0 >= 0,
        spec_worker_extra(w).1 >= 0,
{
    match w.container.resources {
        Some(res) => {
            lemma_req_nonneg(res);
            assert(spec_req_mc(res) * w.replica_count as int >= 0) by (nonlinear_arith)
                requires
                    spec_req_mc(res) >= 0,
                    w.replica_count as int >= 0,
            ;
            assert(spec_req_mb(res) * w.replica_count as int >= 0) by (nonlinear_arith)
                requires
                    spec_req_mb(res) >= 0,
                    w.replica_count as int >= 0,
            ;
            match w.auto_scaling {
                Some(a) => {
                    let gap = if a.max_replicas as int > w.replica_count as int {
                        a.max_replicas as int - w.replica_count as int
                    } else {
                        0int
                    };
                    assert(spec_req_mc(res) * gap >= 0 && spec_req_mb(res) * gap >= 0)
                        by (nonlinear_arith)
                        requires
                            spec_req_mc(res) >= 0,
                            spec_req_mb(res) >= 0,
                            gap >= 0,
                    ;
                },
                None => {},
            }
        },
        None => {},
    }
}

proof fn lemma_workers_base_nonneg(s: Seq<Worker>)
    ensures
        spec_workers_base(s).0 >= 0,
        spec_workers_base(s).1 >= 0,
        spec_workers_extra(s).0 >= 0,
        spec_workers_extra(s).1 >= 0,
    decreases s.len(),
{
    if s.len() > 0 {
        lemma_workers_base_nonneg(s.drop_last());
        lemma_worker_nonneg(s.last());
    }
}

proof fn lemma_sidecar_nonneg(c: Container, reps: int)
    requires
        reps >= 0,
    ensures
        spec_sidecar_base(c, reps).0 >= 0,
        spec_sidecar_base(c, reps).1 >= 0,
{
    match c.resources {
        Some(res) => {
            lemma_req_nonneg(res);
            assert(spec_req_mc(res) * reps >= 0 && spec_req_mb(res) * reps >= 0)
                by (nonlinear_arith)
                requires
                    spec_req_mc(res) >= 0,
                    spec_req_mb(res) >= 0,
                    reps >= 0,
            ;
        },
        None => {},
    }
}

proof fn lemma_sidecars_base_nonneg(s: Seq<Container>, reps: int)
    requires
        reps >= 0,
    ensures
        spec_sidecars_base(s, reps).0 >= 0,
        spec_sidecars_base(s, reps).1 >= 0,
    decreases s.len(),
{
    if s.len() > 0 {
        lemma_sidecars_base_nonneg(s.drop_last(), reps);
        lemma_sidecar_nonneg(s.last(), reps);
    }
}

/// Clipped sum of a term into an accumulator that is itself a clipped sum.
fn accumulate(acc: u64, term: u64, acc_exact: Ghost<int>, term_exact: Ghost<int>) -> (r: u64)
    requires
        0 <= acc_exact@,
        0 <= term_exact@,
        acc == spec_clip(acc_exact@),
        term == spec_clip(term_exact@),
    ensures
        r == spec_clip(acc_exact@ + term_exact@),
{
    add_sat(acc, term)
}

impl Manifest {
    /// Total requested resources of this manifest: base usage and
    /// autoscaling headroom, each clipped at the top of `u64`.  Refused
    /// when any carried resource record does not parse.
    pub fn compute_resource_totals(&self) -> (r: Result<ResourceTotals, ValidationError>)
        ensures
            r is Ok <==> spec_mf_resources_ok(*self),
            r is Ok ==> {
                let t = r->Ok_0;
                &&& t.base.millicores == spec_clip(spec_mf_base(*self).0)
                &&& t.base.memory_bytes == spec_clip(spec_mf_base(*self).1)
                &&& t.extra.millicores == spec_clip(spec_mf_extra(*self).0)
                &&& t.extra.memory_bytes == spec_clip(spec_mf_extra(*self).1)
            },
    {
        let declared: u64 = match self.replica_count {
            Some(rc) => rc as u64,
            None => 1,
        };
        let reps: u64 = if declared >= 1 {
            declared
        } else {
            1
        };
        // Main container.
        let (main_mc, main_mb, extra_mc0, extra_mb0): (u64, u64, u64, u64) = match &self
            .resources {
            Some(res) => {
                let mc = match res.request_millis() {
                    Some(v) => v,
                    None => {
                        return Err(
                            ValidationError::InvalidQuantity {
                                field: String::from_str("requests.cpu"),
                                value: res.requests.cpu.clone(),
                            },
                        );
                    },
                };
                let mb = match res.request_bytes() {
                    Some(v) => v,
                    None => {
                        return Err(
                            ValidationError::InvalidQuantity {
                                field: String::from_str("requests.memory"),
                                value: res.requests.memory.clone(),
                            },
                        );
                    },
                };
                let gap: u64 = match self.auto_scaling {
                    Some(a) => if (a.max_replicas as u64) > reps {
                        (a.max_replicas as u64) - reps
                    } else {
                        0
                    },
                    None => 0,
                };
                (mul_sat(mc, reps), mul_sat(mb, reps), mul_sat(mc, gap), mul_sat(mb, gap))
            },
            None => (0, 0, 0, 0),
        };
        let ghost main_base = (match &self.resources {
            Some(res) => (spec_req_mc(*res) * spec_replicas(*self), spec_req_mb(*res)
                * spec_replicas(*self)),
            None => (0int, 0int),
        });
        let ghost main_extra = (match (&self.resources, self.auto_scaling) {
            (Some(res), Some(a)) => {
                let gap = if a.max_replicas as int > spec_replicas(*self) {
                    a.max_replicas as int - spec_replicas(*self)
                } else {
                    0int
                };
                (spec_req_mc(*res) * gap, spec_req_mb(*res) * gap)
            },
            _ => (0int, 0int),
        });
        proof {
            match &self.resources {
                Some(res) => {
                    lemma_req_nonneg(*res);
                    assert(main_base.0 >= 0 && main_base.1 >= 0 && main_extra.0 >= 0
                        && main_extra.1 >= 0) by (nonlinear_arith)
                        requires
                            spec_req_mc(*res) >= 0,
                            spec_req_mb(*res) >= 0,
                            spec_replicas(*self) >= 1,
                            main_base == (spec_req_mc(*res) * spec_replicas(*self), spec_req_mb(
                                *res,
                            ) * spec_replicas(*self)),
                            main_extra == (match (self.resources, self.auto_scaling) {
                                (Some(res2), Some(a)) => {
                                    let gap = if a.max_replicas as int > spec_replicas(*self) {
                                        a.max_replicas as int - spec_replicas(*self)
                                    } else {
                                        0int
                                    };
                                    (spec_req_mc(res2) * gap, spec_req_mb(res2) * gap)
                                },
                                _ => (0int, 0int),
                            }),
                            self.resources == Some(*res),
                    ;
                },
                None => {},
            }
            assert(main_mc == spec_clip(main_base.0 + spec_workers_base(
                self.workers@.take(0),
            ).0));
            assert(main_mb == spec_clip(main_base.1 + spec_workers_base(
                self.workers@.take(0),
            ).1));
            assert(extra_mc0 == spec_clip(main_extra.0 + spec_workers_extra(
                self.workers@.take(0),
            ).0));
            assert(extra_mb0 == spec_clip(main_extra.1 + spec_workers_extra(
                self.workers@.take(0),
            ).1));
        }
        // Workers.
        let mut base_mc = main_mc;
        let mut base_mb = main_mb;
        let mut extra_mc = extra_mc0;
        let mut extra_mb = extra_mb0;
        let wn = self.workers.len();
        let mut i: usize = 0;
        while i < wn
            invariant
                wn == self.workers@.len(),
                i <= wn,
                base_mc == spec_clip(main_base.0 + spec_workers_base(self.workers@.take(i as int)).0),
                base_mb == spec_clip(main_base.1 + spec_workers_base(self.workers@.take(i as int)).1),
                extra_mc == spec_clip(main_extra.0 + spec_workers_extra(self.workers@.take(i as int)).0),
                extra_mb == spec_clip(main_extra.1 + spec_workers_extra(self.workers@.take(i as int)).1),
                main_base.0 >= 0 && main_base.1 >= 0 && main_extra.0 >= 0 && main_extra.1 >= 0,
                forall|j: int|
                    0 <= j < i ==> match (#[trigger] self.workers@[j]).container.resources {
                        Some(res) => spec_res_parses(res),
                        None => true,
                    },
            decreases wn - i,
        {
            let w = &self.workers[i];
            match &w.container.resources {
                Some(res) => {
                    let mc = match res.request_millis() {
                        Some(v) => v,
                        None => {
                            return Err(
                                ValidationError::InvalidQuantity {
                                    field: String::from_str("requests.cpu"),
                                    value: res.requests.cpu.clone(),
                                },
                            );
                        },
                    };
                    let mb = match res.request_bytes() {
                        Some(v) => v,
                        None => {
                            return Err(
                                ValidationError::InvalidQuantity {
                                    field: String::from_str(
                                        "requests.memory",
                                    ),
                                    value: res.requests.memory.clone(),
                                },
                            );
                        },
                    };
                    let wreps = w.replica_count as u64;
                    let gap: u64 = match w.auto_scaling {
                        Some(a) => if (a.max_replicas as u64) > wreps {
                            (a.max_replicas as u64) - wreps
                        } else {
                            0
                        },
                        None => 0,
                    };
                    proof {
                        lemma_worker_nonneg(self.workers@[i as int]);
                        lemma_workers_base_nonneg(self.workers@.take(i as int));
                        assert(self.workers@.take(i + 1).drop_last() =~= self.workers@.take(
                            i as int,
                        ));
                    }
                    base_mc = accumulate(
                        base_mc,
                        mul_sat(mc, wreps),
                        Ghost(main_base.0 + spec_workers_base(self.workers@.take(i as int)).0),
                        Ghost(spec_worker_base(self.workers@[i as int]).0),
                    );
                    base_mb = accumulate(
                        base_mb,
                        mul_sat(mb, wreps),
                        Ghost(main_base.1 + spec_workers_base(self.workers@.take(i as int)).1),
                        Ghost(spec_worker_base(self.workers@[i as int]).1),
                    );
                    extra_mc = accumulate(
                        extra_mc,
                        mul_sat(mc, gap),
                        Ghost(main_extra.0 + spec_workers_extra(self.workers@.take(i as int)).0),
                        Ghost(spec_worker_extra(self.workers@[i as int]).0),
                    );
                    extra_mb = accumulate(
                        extra_mb,
                        mul_sat(mb, gap),
                        Ghost(main_extra.1 + spec_workers_extra(self.workers@.take(i as int)).1),
                        Ghost(spec_worker_extra(self.workers@[i as int]).1),
                    );
                },
                None => {
                    proof {
                        assert(self.workers@.take(i + 1).drop_last() =~= self.workers@.take(
                            i as int,
                        ));
                    }
                },
            }
            i += 1;
        }
        proof {
            assert(self.workers@.take(wn as int) =~= self.workers@);
        }
        // Sidecars.
        let sn = self.sidecars.len();
        let mut k: usize = 0;
        while k < sn
            invariant
                sn == self.sidecars@.len(),
                wn == self.workers@.len(),
                k <= sn,
                base_mc == spec_clip(
                    main_base.0 + spec_workers_base(self.workers@).0 + spec_sidecars_base(
                        self.sidecars@.take(k as int),
                        spec_replicas(*self),
                    ).0,
                ),
                base_mb == spec_clip(
                    main_base.1 + spec_workers_base(self.workers@).1 + spec_sidecars_base(
                        self.sidecars@.take(k as int),
                        spec_replicas(*self),
                    ).1,
                ),
                extra_mc == spec_clip(main_extra.0 + spec_workers_extra(self.workers@).0),
                extra_mb == spec_clip(main_extra.1 + spec_workers_extra(self.workers@).1),
                main_base.0 >= 0 && main_base.1 >= 0 && main_extra.0 >= 0 && main_extra.1 >= 0,
                reps == spec_replicas(*self),
                forall|j: int|
                    0 <= j < wn ==> match (#[trigger] self.workers@[j]).container.resources {
                        Some(res) => spec_res_parses(res),
                        None => true,
                    },
                forall|j: int|
                    0 <= j < k ==> match (#[trigger] self.sidecars@[j]).resources {
                        Some(res) => spec_res_parses(res),
                        None => true,
                    },
            decreases sn - k,
        {
            let c = &self.sidecars[k];
            match &c.resources {
                Some(res) => {
                    let mc = match res.request_millis() {
                        Some(v) => v,
                        None => {
                            return Err(
                                ValidationError::InvalidQuantity {
                                    field: String::from_str("requests.cpu"),
                                    value: res.requests.cpu.clone(),
                                },
                            );
                        },
                    };
                    let mb = match res.request_bytes() {
                        Some(v) => v,
                        None => {
                            return Err(
                                ValidationError::InvalidQuantity {
                                    field: String::from_str(
                                        "requests.memory",
                                    ),
                                    value: res.requests.memory.clone(),
                                },
                            );
                        },
                    };
                    proof {
                        lemma_sidecar_nonneg(self.sidecars@[k as int], spec_replicas(*self));
                        lemma_sidecars_base_nonneg(
                            self.sidecars@.take(k as int),
                            spec_replicas(*self),
                        );
                        lemma_workers_base_nonneg(self.workers@);
                        assert(self.sidecars@.take(k + 1).drop_last() =~= self.sidecars@.take(
                            k as int,
                        ));
                    }
                    base_mc = accumulate(
                        base_mc,
                        mul_sat(mc, reps),
                        Ghost(
                            main_base.0 + spec_workers_base(self.workers@).0 + spec_sidecars_base(
                                self.sidecars@.take(k as int),
                                spec_replicas(*self),
                            ).0,
                        ),
                        Ghost(spec_sidecar_base(self.sidecars@[k as int], spec_replicas(*self)).0),
                    );
                    base_mb = accumulate(
                        base_mb,
                        mul_sat(mb, reps),
                        Ghost(
                            main_base.1 + spec_workers_base(self.workers@).1 + spec_sidecars_base(
                                self.sidecars@.take(k as int),
                                spec_replicas(*self),
                            ).1,
                        ),
                        Ghost(spec_sidecar_base(self.sidecars@[k as int], spec_replicas(*self)).1),
                    );
                },
                None => {
                    proof {
                        assert(self.sidecars@.take(k + 1).drop_last() =~= self.sidecars@.take(
                            k as int,
                        ));
                    }
                },
            }
            k += 1;
        }
        proof {
            assert(self.sidecars@.take(sn as int) =~= self.sidecars@);
        }
        Ok(ResourceTotals {
            base: ResourceCounts { millicores: base_mc, memory_bytes: base_mb },
            extra: ResourceCounts { millicores: extra_mc, memory_bytes: extra_mb },
        })
    }
}

/// Exact sum of the base usage of a batch of manifests.
pub open spec fn spec_batch_base(s: Seq<Manifest>) -> (int, int)
    decreases s.len(),
{
    if s.len() == 0 {
        (0int, 0int)
    } else {
        let rest = spec_batch_base(s.drop_last());
        let last = spec_mf_base(s.last());
        (rest.0 + last.0, rest.1 + last.1)
    }
}

/// Exact sum of the autoscaling headroom of a batch.
pub open spec fn spec_batch_extra(s: Seq<Manifest>) -> (int, int)
    decreases s.len(),
{
    if s.len() == 0 {
        (0int, 0int)
    } else {
        let rest = spec_batch_extra(s.drop_last());
        let last = spec_mf_extra(s.last());
        (rest.0 + last.0, rest.1 + last.1)
    }
}

/// Exact base usage of the manifests a team owns.
pub open spec fn spec_team_base(s: Seq<Manifest>, team: Seq<char>) -> (int, int)
    decreases s.len(),
{
    if s.len() == 0 {
        (0int, 0int)
    } else {
        let rest = spec_team_base(s.drop_last(), team);
        let m = s.last();
        if m.metadata is Some && m.metadata->Some_0.team@ == team {
            let last = spec_mf_base(m);
            (rest.0 + last.0, rest.1 + last.1)
        } else {
            rest
        }
    }
}

/// Exact autoscaling headroom of the manifests a team owns.
pub open spec fn spec_team_extra(s: Seq<Manifest>, team: Seq<char>) -> (int, int)
    decreases s.len(),
{
    if s.len() == 0 {
        (0int, 0int)
    } else {
        let rest = spec_team_extra(s.drop_last(), team);
        let m = s.last();
        if m.metadata is Some && m.metadata->Some_0.team@ == team {
            let last = spec_mf_extra(m);
            (rest.0 + last.0, rest.1 + last.1)
        } else {
            rest
        }
    }
}

proof fn lemma_mf_nonneg(m: Manifest)
    ensures
        spec_mf_base(m).0 >= 0,
        spec_mf_base(m).1 >= 0,
        spec_mf_extra(m).0 >= 0,
        spec_mf_extra(m).1 >= 0,
{
    lemma_workers_base_nonneg(m.workers@);
    lemma_sidecars_base_nonneg(m.sidecars@, spec_replicas(m));
    match m.resources {
        Some(res) => {
            lemma_req_nonneg(res);
            let reps = spec_replicas(m);
            assert(spec_req_mc(res) * reps >= 0 && spec_req_mb(res) * reps >= 0)
                by (nonlinear_arith)
                requires
                    spec_req_mc(res) >= 0,
                    spec_req_mb(res) >= 0,
                    reps >= 1,
            ;
            match m.auto_scaling {
                Some(a) => {
                    let gap = if a.max_replicas as int > reps {
                        a.max_replicas as int - reps
                    } else {
                        0int
                    };
                    assert(spec_req_mc(res) * gap >= 0 && spec_req_mb(res) * gap >= 0)
                        by (nonlinear_arith)
                        requires
                            spec_req_mc(res) >= 0,
                            spec_req_mb(res) >= 0,
                            gap >= 0,
                    ;
                },
                None => {},
            }
        },
        None => {},
    }
}

proof fn lemma_batch_nonneg(s: Seq<Manifest>)
    ensures
        spec_batch_base(s).0 >= 0,
        spec_batch_base(s).1 >= 0,
        spec_batch_extra(s).0 >= 0,
        spec_batch_extra(s).1 >= 0,
    decreases s.len(),
{
    if s.len() > 0 {
        lemma_batch_nonneg(s.drop_last());
        lemma_mf_nonneg(s.last());
    }
}

proof fn lemma_team_sum_nonneg(s: Seq<Manifest>, team: Seq<char>)
    ensures
        spec_team_base(s, team).0 >= 0,
        spec_team_base(s, team).1 >= 0,
        spec_team_extra(s, team).0 >= 0,
        spec_team_extra(s, team).1 >= 0,
    decreases s.len(),
{
    if s.len() > 0 {
        lemma_team_sum_nonneg(s.drop_last(), team);
        lemma_mf_nonneg(s.last());
    }
}

/// The zero totals.
pub open spec fn spec_zero_totals() -> ResourceTotals {
    ResourceTotals {
        base: ResourceCounts { millicores: 0u64, memory_bytes: 0u64 },
        extra: ResourceCounts { millicores: 0u64, memory_bytes: 0u64 },
    }
}

/// Complete breakdown of resource usage: an overall total and a partition
/// by team.
#[derive(Debug, Clone, PartialEq, Eq)]
pub struct ResourceBreakdown {
    pub totals: ResourceTotals,
    pub teams: Vec<(String, ResourceTotals)>,
}

impl ResourceBreakdown {
    /// One zeroed entry per team, so that every valid team is present.
    pub fn new(tx: Vec<Team>) -> (r: ResourceBreakdown)
        ensures
            r.teams@.len() == tx@.len(),
            forall|k: int|
                0 <= k < tx@.len() ==> (#[trigger] r.teams@[k]).0 == tx@[k].name && r.teams@[k].1
                    == spec_zero_totals(),
            r.totals == spec_zero_totals(),
    {
        let mut teams: Vec<(String, ResourceTotals)> = Vec::new();
        let n = tx.len();
        let mut i: usize = 0;
        while i < n
            invariant
                n == tx@.len(),
                i <= n,
                teams@.len() == i,
                forall|k: int|
                    0 <= k < i ==> (#[trigger] teams@[k]).0 == tx@[k].name && teams@[k].1
                        == spec_zero_totals(),
            decreases n - i,
        {
            teams.push((tx[i].name.clone(), ResourceTotals::zero()));
            i += 1;
        }
        ResourceBreakdown { teams, totals: ResourceTotals::zero() }
    }

    /// Round every total to whole cores and whole binary gigabytes.
    pub fn normalise(self) -> (r: ResourceBreakdown)
        ensures
            r.teams@.len() == self.teams@.len(),
            forall|k: int|
                0 <= k < self.teams@.len() ==> {
                    &&& (#[trigger] r.teams@[k]).0 == self.teams@[k].0
                    &&& r.teams@[k].1.base.millicores == crate::resources::spec_round_to(
                        self.teams@[k].1.base.millicores as int,
                        1000,
                    )
                    &&& r.teams@[k].1.base.memory_bytes == crate::resources::spec_round_to(
                        self.teams@[k].1.base.memory_bytes as int,
                        1073741824,
                    )
                    &&& r.teams@[k].1.extra.millicores == crate::resources::spec_round_to(
                        self.teams@[k].1.extra.millicores as int,
                        1000,
                    )
                    &&& r.teams@[k].1.extra.memory_bytes == crate::resources::spec_round_to(
                        self.teams@[k].1.extra.memory_bytes as int,
                        1073741824,
                    )
                },
            r.totals.base.millicores == crate::resources::spec_round_to(
                self.totals.base.millicores as int,
                1000,
            ),
            r.totals.base.memory_bytes == crate::resources::spec_round_to(
                self.totals.base.memory_bytes as int,
                1073741824,
            ),
            r.totals.extra.millicores == crate::resources::spec_round_to(
                self.totals.extra.millicores as int,
                1000,
            ),
            r.totals.extra.memory_bytes == crate::resources::spec_round_to(
                self.totals.extra.memory_bytes as int,
                1073741824,
            ),
    {
        let mut teams: Vec<(String, ResourceTotals)> = Vec::new();
        let n = self.teams.len();
        let mut i: usize = 0;
        while i < n
            invariant
                n == self.teams@.len(),
                i <= n,
                teams@.len() == i,
                forall|k: int|
                    0 <= k < i ==> {
                        &&& (#[trigger] teams@[k]).0 == self.teams@[k].0
                        &&& teams@[k].1.base.millicores == crate::resources::spec_round_to(
                            self.teams@[k].1.base.millicores as int,
                            1000,
                        )
                        &&& teams@[k].1.base.memory_bytes == crate::resources::spec_round_to(
                            self.teams@[k].1.base.memory_bytes as int,
                            1073741824,
                        )
                        &&& teams@[k].1.extra.millicores == crate::resources::spec_round_to(
                            self.teams@[k].1.extra.millicores as int,
                            1000,
                        )
                        &&& teams@[k].1.extra.memory_bytes == crate::resources::spec_round_to(
                            self.teams@[k].1.extra.memory_bytes as int,
                            1073741824,
                        )
                    },
            decreases n - i,
        {
            let entry = &self.teams[i];
            let tt = ResourceTotals { base: entry.1.base.round(), extra: entry.1.extra.round() };
            teams.push((entry.0.clone(), tt));
            i += 1;
        }
        let totals = ResourceTotals {
            base: self.totals.base.round(),
            extra: self.totals.extra.round(),
        };
        ResourceBreakdown { teams, totals }
    }

    /// Fold another breakdown over the same team list into this one,
    /// saturating at the top of `u64`.
    pub fn absorb(&mut self, other: &ResourceBreakdown)
        requires
            old(self).teams@.len() == other.teams@.len(),
        ensures
            final(self).teams@.len() == old(self).teams@.len(),
            forall|k: int|
                0 <= k < old(self).teams@.len() ==> {
                    &&& (#[trigger] final(self).teams@[k]).0 == old(self).teams@[k].0
                    &&& final(self).teams@[k].1.base.millicores == spec_clip(
                        old(self).teams@[k].1.base.millicores + other.teams@[k].1.base.millicores,
                    )
                    &&& final(self).teams@[k].1.base.memory_bytes == spec_clip(
                        old(self).teams@[k].1.base.memory_bytes
                            + other.teams@[k].1.base.memory_bytes,
                    )
                    &&& final(self).teams@[k].1.extra.millicores == spec_clip(
                        old(self).teams@[k].1.extra.millicores
                            + other.teams@[k].1.extra.millicores,
                    )
                    &&& final(self).teams@[k].1.extra.memory_bytes == spec_clip(
                        old(self).teams@[k].1.extra.memory_bytes
                            + other.teams@[k].1.extra.memory_bytes,
                    )
                },
            final(self).totals.base.millicores == spec_clip(
                old(self).totals.base.millicores + other.totals.base.millicores,
            ),
            final(self).totals.base.memory_bytes == spec_clip(
                old(self).totals.base.memory_bytes + other.totals.base.memory_bytes,
            ),
            final(self).totals.extra.millicores == spec_clip(
                old(self).totals.extra.millicores + other.totals.extra.millicores,
            ),
            final(self).totals.extra.memory_bytes == spec_clip(
                old(self).totals.extra.memory_bytes + other.totals.extra.memory_bytes,
            ),
    {
        self.totals = ResourceTotals {
            base: self.totals.base.plus(&other.totals.base),
            extra: self.totals.extra.plus(&other.totals.extra),
        };
        let n = self.teams.len();
        let mut i: usize = 0;
        while i < n
            invariant
                n == self.teams@.len(),
                n == old(self).teams@.len(),
                n == other.teams@.len(),
                i <= n,
                self.totals == final(self).totals || true,
                self.totals.base.millicores == spec_clip(
                    old(self).totals.base.millicores + other.totals.base.millicores,
                ),
                self.totals.base.memory_bytes == spec_clip(
                    old(self).totals.base.memory_bytes + other.totals.base.memory_bytes,
                ),
                self.totals.extra.millicores == spec_clip(
                    old(self).totals.extra.millicores + other.totals.extra.millicores,
                ),
                self.totals.extra.memory_bytes == spec_clip(
                    old(self).totals.extra.memory_bytes + other.totals.extra.memory_bytes,
                ),
                forall|k: int|
                    i <= k < n ==> #[trigger] self.teams@[k] == old(self).teams@[k],
                forall|k: int|
                    0 <= k < i ==> {
                        &&& (#[trigger] self.teams@[k]).0 == old(self).teams@[k].0
                        &&& self.teams@[k].1.base.millicores == spec_clip(
                            old(self).teams@[k].1.base.millicores
                                + other.teams@[k].1.base.millicores,
                        )
                        &&& self.teams@[k].1.base.memory_bytes == spec_clip(
                            old(self).teams@[k].1.base.memory_bytes
                                + other.teams@[k].1.base.memory_bytes,
                        )
                        &&& self.teams@[k].1.extra.millicores == spec_clip(
                            old(self).teams@[k].1.extra.millicores
                                + other.teams@[k].1.extra.millicores,
                        )
                        &&& self.teams@[k].1.extra.memory_bytes == spec_clip(
                            old(self).teams@[k].1.extra.memory_bytes
                                + other.teams@[k].1.extra.memory_bytes,
                        )
                    },
            decreases n - i,
        {
            let name = self.teams[i].0.clone();
            let mine = self.teams[i].1;
            let theirs = other.teams[i].1;
            let combined = ResourceTotals {
                base: mine.base.plus(&theirs.base),
                extra: mine.extra.plus(&theirs.extra),
            };
            self.teams[i] = (name, combined);
            i += 1;
        }
    }
}

/// Resource usage of a region's manifests, in total and partitioned by
/// team.  Refused when a manifest lacks metadata, names an unknown team,
/// or carries an unparseable quantity.
pub fn resources_region(conf: &Config, mfs: &Vec<Manifest>) -> (r: Result<
    ResourceBreakdown,
    ValidationError,
>)
    requires
        forall|a: int, b: int|
            0 <= a < b < conf.teams@.len() ==> (#[trigger] conf.teams@[a]).name@ != (
            #[trigger] conf.teams@[b]).name@,
    ensures
        r is Ok <==> forall|i: int|
            0 <= i < mfs@.len() ==> {
                &&& (#[trigger] mfs@[i]).metadata is Some
                &&& crate::config::spec_find_team(conf.teams@, mfs@[i].metadata->Some_0.team@)
                    is Some
                &&& spec_mf_resources_ok(mfs@[i])
            },
        r is Ok ==> {
            let bd = r->Ok_0;
            &&& bd.teams@.len() == conf.teams@.len()
            &&& forall|k: int|
                0 <= k < conf.teams@.len() ==> (#[trigger] bd.teams@[k]).0
                    == conf.teams@[k].name
            &&& bd.totals.base.millicores == spec_clip(spec_batch_base(mfs@).0)
            &&& bd.totals.base.memory_bytes == spec_clip(spec_batch_base(mfs@).1)
            &&& bd.totals.extra.millicores == spec_clip(spec_batch_extra(mfs@).0)
            &&& bd.totals.extra.memory_bytes == spec_clip(spec_batch_extra(mfs@).1)
            &&& forall|k: int|
                0 <= k < conf.teams@.len() ==> {
                    &&& (#[trigger] bd.teams@[k]).1.base.millicores == spec_clip(
                        spec_team_base(mfs@, conf.teams@[k].name@).0,
                    )
                    &&& bd.teams@[k].1.base.memory_bytes == spec_clip(
                        spec_team_base(mfs@, conf.teams@[k].name@).1,
                    )
                    &&& bd.teams@[k].1.extra.millicores == spec_clip(
                        spec_team_extra(mfs@, conf.teams@[k].name@).0,
                    )
                    &&& bd.teams@[k].1.extra.memory_bytes == spec_clip(
                        spec_team_extra(mfs@, conf.teams@[k].name@).1,
                    )
                }
        },
        r is Err ==> exists|i: int|
            #![trigger mfs@[i]]
            0 <= i < mfs@.len() && {
                ||| (mfs@[i].metadata is None && r->Err_0 == (ValidationError::MissingMetadata {
                    service: mfs@[i].name,
                }))
                ||| (mfs@[i].metadata is Some && crate::config::spec_find_team(
                    conf.teams@,
                    mfs@[i].metadata->Some_0.team@,
                ) is None && r->Err_0 == (ValidationError::UnknownTeam {
                    team: mfs@[i].metadata->Some_0.team,
                }))
                ||| !spec_mf_resources_ok(mfs@[i])
            },
{
    let mut bd = ResourceBreakdown::new(crate::config::clone_teams(&conf.teams));
    let n = mfs.len();
    let mut i: usize = 0;
    while i < n
        invariant
            n == mfs@.len(),
            forall|a: int, b: int|
                0 <= a < b < conf.teams@.len() ==> (#[trigger] conf.teams@[a]).name@ != (
                #[trigger] conf.teams@[b]).name@,
            i <= n,
            bd.teams@.len() == conf.teams@.len(),
            forall|k: int|
                0 <= k < conf.teams@.len() ==> (#[trigger] bd.teams@[k]).0
                    == conf.teams@[k].name,
            bd.totals.base.millicores == spec_clip(spec_batch_base(mfs@.take(i as int)).0),
            bd.totals.base.memory_bytes == spec_clip(spec_batch_base(mfs@.take(i as int)).1),
            bd.totals.extra.millicores == spec_clip(spec_batch_extra(mfs@.take(i as int)).0),
            bd.totals.extra.memory_bytes == spec_clip(spec_batch_extra(mfs@.take(i as int)).1),
            forall|k: int|
                0 <= k < conf.teams@.len() ==> {
                    &&& (#[trigger] bd.teams@[k]).1.base.millicores == spec_clip(
                        spec_team_base(mfs@.take(i as int), conf.teams@[k].name@).0,
                    )
                    &&& bd.teams@[k].1.base.memory_bytes == spec_clip(
                        spec_team_base(mfs@.take(i as int), conf.teams@[k].name@).1,
                    )
                    &&& bd.teams@[k].1.extra.millicores == spec_clip(
                        spec_team_extra(mfs@.take(i as int), conf.teams@[k].name@).0,
                    )
                    &&& bd.teams@[k].1.extra.memory_bytes == spec_clip(
                        spec_team_extra(mfs@.take(i as int), conf.teams@[k].name@).1,
                    )
                },
            forall|j: int|
                0 <= j < i ==> {
                    &&& (#[trigger] mfs@[j]).metadata is Some
                    &&& crate::config::spec_find_team(
                        conf.teams@,
                        mfs@[j].metadata->Some_0.team@,
                    ) is Some
                    &&& spec_mf_resources_ok(mfs@[j])
                },
        decreases n - i,
    {
        let m = &mfs[i];
        let team_name = match &m.metadata {
            Some(md) => &md.team,
            None => {
                return Err(ValidationError::MissingMetadata { service: m.name.clone() });
            },
        };
        let k = match conf.team_index(team_name) {
            Some(k) => k,
            None => {
                proof {
                    crate::config::lemma_team_index(conf.teams@, team_name@);
                }
                return Err(ValidationError::UnknownTeam { team: team_name.clone() });
            },
        };
        proof {
            crate::config::lemma_team_index(conf.teams@, team_name@);
        }
        let t = match m.compute_resource_totals() {
            Ok(t) => t,
            Err(e) => {
                return Err(e);
            },
        };
        proof {
            lemma_mf_nonneg(mfs@[i as int]);
            lemma_batch_nonneg(mfs@.take(i as int));
            assert(mfs@.take(i + 1).drop_last() =~= mfs@.take(i as int));
        }
        bd.totals = ResourceTotals {
            base: bd.totals.base.plus(&t.base),
            extra: bd.totals.extra.plus(&t.extra),
        };
        let name = bd.teams[k].0.clone();
        let mine = bd.teams[k].1;
        let combined = ResourceTotals {
            base: mine.base.plus(&t.base),
            extra: mine.extra.plus(&t.extra),
        };
        bd.teams[k] = (name, combined);
        proof {
            let ghost prev = mfs@.take(i as int);
            let ghost cur = mfs@.take(i + 1);
            assert forall|q: int| 0 <= q < conf.teams@.len() implies {
                &&& (#[trigger] bd.teams@[q]).1.base.millicores == spec_clip(
                    spec_team_base(cur, conf.teams@[q].name@).0,
                )
                &&& bd.teams@[q].1.base.memory_bytes == spec_clip(
                    spec_team_base(cur, conf.teams@[q].name@).1,
                )
                &&& bd.teams@[q].1.extra.millicores == spec_clip(
                    spec_team_extra(cur, conf.teams@[q].name@).0,
                )
                &&& bd.teams@[q].1.extra.memory_bytes == spec_clip(
                    spec_team_extra(cur, conf.teams@[q].name@).1,
                )
            } by {
                lemma_team_sum_nonneg(prev, conf.teams@[q].name@);
                lemma_mf_nonneg(mfs@[i as int]);
                if q == k as int {
                    assert(mfs@[i as int].metadata->Some_0.team@ == conf.teams@[q].name@);
                } else {
                    assert(conf.teams@[q].name@ != conf.teams@[k as int].name@);
                    assert(mfs@[i as int].metadata->Some_0.team@ != conf.teams@[q].name@);
                }
            }
        }
        i += 1;
    }
    proof {
        assert(mfs@.take(n as int) =~= mfs@);
    }
    Ok(bd)
}

} // verus!

//! Resource requirements: sources, resolution and validity.
//!
//! A resource fragment must name both a cpu and a memory quantity after
//! merging; both must parse, and each request must not exceed the
//! corresponding limit.  Totals are carried in integer millicores and
//! bytes, and can be rounded to whole cores and whole binary gigabytes for
//! reporting.

use vstd::prelude::*;
use vstd::string::*;
use crate::errors::{
    is_invalid_quantity, is_missing_field, is_request_above_limit, ValidationError,
};
use crate::quantity::{add_sat, parse_cpu_millis, parse_mem_bytes, spec_cpu_millis, spec_mem_bytes};

verus! {

/// Optional cpu/memory pair of one side of a resource fragment.
#[derive(Debug, Clone, PartialEq, Eq, Default)]
pub struct ResourcesSource {
    pub cpu: Option<String>,
    pub memory: Option<String>,
}

/// Requests and limits as found in an override layer.
#[derive(Debug, Clone, PartialEq, Eq, Default)]
pub struct ResourceRequirementsSource {
    pub requests: ResourcesSource,
    pub limits: ResourcesSource,
}

/// One resolved cpu/memory pair.
#[derive(Debug, Clone, PartialEq, Eq)]
pub struct ResourceRequest {
    pub cpu: String,
    pub memory: String,
}

/// Resolved requests and limits.
#[derive(Debug, Clone, PartialEq, Eq)]
pub struct Resources {
    pub requests: ResourceRequest,
    pub limits: ResourceRequest,
}

impl ResourcesSource {
    /// Both quantities must be present after merging.
    pub open spec fn spec_complete(&self) -> bool {
        self.cpu is Some && self.memory is Some
    }

    /// Resolve one side of a fragment; a missing quantity is refused with
    /// the name of the missing field, cpu checked first.
    pub fn build(&self) -> (r: Result<ResourceRequest, ValidationError>)
        ensures
            r is Ok <==> self.spec_complete(),
            r is Ok ==> r->Ok_0.cpu == self.cpu->Some_0 && r->Ok_0.memory == self.memory->Some_0,
            r is Err ==> (r->Err_0 matches ValidationError::MissingRequiredField { field }
                && field@ == if self.cpu is None {
                "cpu"@
            } else {
                "memory"@
            }),
    {
        let cpu = match &self.cpu {
            Some(c) => c.clone(),
            None => {
                return Err(
                    ValidationError::MissingRequiredField { field: String::from_str("cpu") },
                );
            },
        };
        let memory = match &self.memory {
            Some(m) => m.clone(),
            None => {
                return Err(
                    ValidationError::MissingRequiredField { field: String::from_str("memory") },
                );
            },
        };
        Ok(ResourceRequest { cpu, memory })
    }
}

impl Resources {
    /// Every quantity parses and each request is within its limit.
    pub open spec fn spec_valid(&self) -> bool {
        &&& spec_cpu_millis(self.requests.cpu@) is Some
        &&& spec_cpu_millis(self.limits.cpu@) is Some
        &&& spec_mem_bytes(self.requests.memory@) is Some
        &&& spec_mem_bytes(self.limits.memory@) is Some
        &&& spec_cpu_millis(self.requests.cpu@)->Some_0 <= spec_cpu_millis(
            self.limits.cpu@,
        )->Some_0
        &&& spec_mem_bytes(self.requests.memory@)->Some_0 <= spec_mem_bytes(
            self.limits.memory@,
        )->Some_0
    }

    /// The error an invalid record is refused with: quantities in order
    /// (request cpu, limit cpu, request memory, limit memory), then the two
    /// orderings (cpu before memory).
    pub open spec fn spec_verify_error(&self, e: ValidationError) -> bool {
        if spec_cpu_millis(self.requests.cpu@) is None {
            is_invalid_quantity(e, "requests.cpu"@, self.requests.cpu@)
        } else if spec_cpu_millis(self.limits.cpu@) is None {
            is_invalid_quantity(e, "limits.cpu"@, self.limits.cpu@)
        } else if spec_mem_bytes(self.requests.memory@) is None {
            is_invalid_quantity(e, "requests.memory"@, self.requests.memory@)
        } else if spec_mem_bytes(self.limits.memory@) is None {
            is_invalid_quantity(e, "limits.memory"@, self.limits.memory@)
        } else if spec_cpu_millis(self.requests.cpu@)->Some_0 > spec_cpu_millis(
            self.limits.cpu@,
        )->Some_0 {
            is_request_above_limit(e, "cpu"@)
        } else {
            is_request_above_limit(e, "memory"@)
        }
    }

    /// Check the quantities in order (request cpu, limit cpu, request
    /// memory, limit memory), then the two orderings (cpu, then memory).
    pub fn verify(&self) -> (r: Result<(), ValidationError>)
        ensures
            r is Ok <==> self.spec_valid(),
            r is Err ==> self.spec_verify_error(r->Err_0),
    {
        let req_cpu = match parse_cpu_millis(self.requests.cpu.as_str()) {
            Some(v) => v,
            None => {
                return Err(
                    ValidationError::InvalidQuantity {
                        field: String::from_str("requests.cpu"),
                        value: self.requests.cpu.clone(),
                    },
                );
            },
        };
        let lim_cpu = match parse_cpu_millis(self.limits.cpu.as_str()) {
            Some(v) => v,
            None => {
                return Err(
                    ValidationError::InvalidQuantity {
                        field: String::from_str("limits.cpu"),
                        value: self.limits.cpu.clone(),
                    },
                );
            },
        };
        let req_mem = match parse_mem_bytes(self.requests.memory.as_str()) {
            Some(v) => v,
            None => {
                return Err(
                    ValidationError::InvalidQuantity {
                        field: String::from_str("requests.memory"),
                        value: self.requests.memory.clone(),
                    },
                );
            },
        };
        let lim_mem = match parse_mem_bytes(self.limits.memory.as_str()) {
            Some(v) => v,
            None => {
                return Err(
                    ValidationError::InvalidQuantity {
                        field: String::from_str("limits.memory"),
                        value: self.limits.memory.clone(),
                    },
                );
            },
        };
        if req_cpu > lim_cpu {
            return Err(ValidationError::RequestAboveLimit { resource: String::from_str("cpu") });
        }
        if req_mem > lim_mem {
            return Err(
                ValidationError::RequestAboveLimit { resource: String::from_str("memory") },
            );
        }
        Ok(())
    }

    /// The request side in millicores; meaningful when `spec_valid`.
    pub fn request_millis(&self) -> (r: Option<u64>)
        ensures
            r is Some <==> spec_cpu_millis(self.requests.cpu@) is Some,
            r is Some ==> Some(r->Some_0 as int) == spec_cpu_millis(self.requests.cpu@),
    {
        parse_cpu_millis(self.requests.cpu.as_str())
    }

    /// The request side in bytes; meaningful when `spec_valid`.
    pub fn request_bytes(&self) -> (r: Option<u64>)
        ensures
            r is Some <==> spec_mem_bytes(self.requests.memory@) is Some,
            r is Some ==> Some(r->Some_0 as int) == spec_mem_bytes(self.requests.memory@),
    {
        parse_mem_bytes(self.requests.memory.as_str())
    }
}

impl ResourceRequirementsSource {
    /// The record a complete fragment resolves to.
    pub open spec fn spec_built(&self) -> Resources {
        Resources {
            requests: ResourceRequest {
                cpu: self.requests.cpu->Some_0,
                memory: self.requests.memory->Some_0,
            },
            limits: ResourceRequest {
                cpu: self.limits.cpu->Some_0,
                memory: self.limits.memory->Some_0,
            },
        }
    }

    /// Both sides complete and the resolved record valid.
    pub open spec fn spec_ok(&self) -> bool {
        &&& self.requests.spec_complete()
        &&& self.limits.spec_complete()
        &&& self.spec_built().spec_valid()
    }

    /// The error an invalid fragment is refused with: requests checked
    /// before limits, completeness before quantity validity.
    pub open spec fn spec_build_error(&self, e: ValidationError) -> bool {
        if !self.requests.spec_complete() {
            is_missing_field(
                e,
                if self.requests.cpu is None {
                    "cpu"@
                } else {
                    "memory"@
                },
            )
        } else if !self.limits.spec_complete() {
            is_missing_field(
                e,
                if self.limits.cpu is None {
                    "cpu"@
                } else {
                    "memory"@
                },
            )
        } else {
            self.spec_built().spec_verify_error(e)
        }
    }

    /// Resolve and validate a full resource fragment.
    pub fn build(&self) -> (r: Result<Resources, ValidationError>)
        ensures
            r is Ok <==> self.spec_ok(),
            r is Ok ==> r->Ok_0 == self.spec_built(),
            r is Err ==> self.spec_build_error(r->Err_0),
    {
        let requests = match self.requests.build() {
            Ok(rr) => rr,
            Err(e) => {
                return Err(e);
            },
        };
        let limits = match self.limits.build() {
            Ok(rr) => rr,
            Err(e) => {
                return Err(e);
            },
        };
        let resources = Resources { requests, limits };
        match resources.verify() {
            Ok(()) => Ok(resources),
            Err(e) => Err(e),
        }
    }
}

/// Integer totals: cpu in millicores, memory in bytes.
#[derive(Debug, Clone, Copy, PartialEq, Eq, Structural)]
pub struct ResourceCounts {
    pub millicores: u64,
    pub memory_bytes: u64,
}

impl ResourceCounts {
    pub fn zero() -> (r: ResourceCounts)
        ensures
            r.millicores == 0,
            r.memory_bytes == 0,
    {
        ResourceCounts { millicores: 0, memory_bytes: 0 }
    }

    /// Componentwise sum, clipped at the top of `u64`.
    pub fn plus(&self, other: &ResourceCounts) -> (r: ResourceCounts)
        ensures
            r.millicores == if self.millicores + other.millicores <= u64::MAX {
                self.millicores + other.millicores
            } else {
                u64::MAX as int
            },
            r.memory_bytes == if self.memory_bytes + other.memory_bytes <= u64::MAX {
                self.memory_bytes + other.memory_bytes
            } else {
                u64::MAX as int
            },
    {
        ResourceCounts {
            millicores: add_sat(self.millicores, other.millicores),
            memory_bytes: add_sat(self.memory_bytes, other.memory_bytes),
        }
    }

    /// Round to whole cores and whole binary gigabytes, half up.
    pub fn round(&self) -> (r: ResourceCounts)
        ensures
            r.millicores == spec_round_to(self.millicores as int, 1000),
            r.memory_bytes == spec_round_to(self.memory_bytes as int, 1073741824),
    {
        let mc = add_sat(self.millicores, 500) / 1000 * 1000;
        let mb = add_sat(self.memory_bytes, 536870912) / 1073741824 * 1073741824;
        proof {
            lemma_round_fits(self.millicores as int, 1000);
            lemma_round_fits(self.memory_bytes as int, 1073741824);
        }
        ResourceCounts { millicores: mc, memory_bytes: mb }
    }
}

/// `v` rounded to the nearest multiple of `unit`, half up, clipping the
/// addend at the top of `u64` as the saturating sum does.
pub open spec fn spec_round_to(v: int, unit: int) -> int {
    let clipped = if v + unit / 2 <= u64::MAX {
        v + unit / 2
    } else {
        u64::MAX as int
    };
    clipped / unit * unit
}

proof fn lemma_round_fits(v: int, unit: int)
    requires
        0 <= v <= u64::MAX,
        0 < unit,
    ensures
        0 <= spec_round_to(v, unit) <= u64::MAX,
        spec_round_to(v, unit) == ({
            let clipped = if v + unit / 2 <= u64::MAX {
                v + unit / 2
            } else {
                u64::MAX as int
            };
            clipped / unit * unit
        }),
{
    let clipped = if v + unit / 2 <= u64::MAX {
        v + unit / 2
    } else {
        u64::MAX as int
    };
    assert(0 <= clipped / unit * unit <= clipped) by (nonlinear_arith)
        requires
            0 <= clipped,
            0 < unit,
    ;
}

/// Base usage plus autoscaling headroom.
#[derive(Debug, Clone, Copy, PartialEq, Eq, Structural)]
pub struct ResourceTotals {
    pub base: ResourceCounts,
    pub extra: ResourceCounts,
}

impl ResourceTotals {
    pub fn zero() -> (r: ResourceTotals)
        ensures
            r.base.millicores == 0,
            r.base.memory_bytes == 0,
            r.extra.millicores == 0,
            r.extra.memory_bytes == 0,
    {
        ResourceTotals { base: ResourceCounts::zero(), extra: ResourceCounts::zero() }
    }
}

} // verus!

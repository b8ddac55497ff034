//! Host CPU topology summarized from kernel-reported per-CPU fields.

use vstd::prelude::*;
use vstd::utf8::encode_utf8;
use crate::numparse::{dec_value, digits_of, is_unsigned_decimal, parse_usize};

verus! {

/// The count a kernel-reported text field stands for: its decimal value, or
/// zero when the field is absent, not an unsigned decimal number, or too
/// large for `usize`.
pub open spec fn field_count(f: Option<Seq<u8>>) -> nat {
    match f {
        None => 0,
        Some(s) => if is_unsigned_decimal(s) && dec_value(digits_of(s)) <= usize::MAX {
            dec_value(digits_of(s))
        } else {
            0
        },
    }
}

/// Integer division that reads a zero divisor as zero, so a topology with
/// missing counts degrades to zero instead of faulting.
pub open spec fn guarded_div(a: nat, b: nat) -> nat {
    if b == 0 {
        0
    } else {
        a / b
    }
}

/// The UTF-8 bytes of an optional text field.
pub open spec fn opt_bytes(f: Option<String>) -> Option<Seq<u8>> {
    match f {
        None => None,
        Some(s) => Some(encode_utf8(s@)),
    }
}

/// The model string reported when no info source is readable.
pub open spec fn sentinel_model() -> Seq<char> {
    "No CPU Info Available"@
}

/// Raw fields as the kernel info source reports them for CPU index 0, plus
/// the count of per-CPU records. `None` stands for an absent field.
pub struct CpuInfoFields {
    /// The "model name" field, verbatim.
    pub model: Option<String>,
    /// The "cpu cores" field: physical cores per socket, as text.
    pub cpu_cores: Option<String>,
    /// The "siblings" field: logical CPUs sharing a socket, as text.
    pub siblings: Option<String>,
    /// The number of per-CPU records the source reports.
    pub logical_count: usize,
}

/// Host CPU topology summary: a read-only snapshot derived from one reading
/// of the kernel info source.
pub struct CPU {
    /// Display model string; a sentinel when unavailable.
    pub model: String,
    /// Cores per socket; zero when absent or unparsable.
    pub physical_cores: usize,
    /// Total logical CPU count the source reports.
    pub execution_units: usize,
    /// Siblings divided by physical cores; zero when the divisor is zero.
    pub threads_per_core: usize,
    /// Logical CPUs divided by siblings; zero when the divisor is zero.
    pub sockets: usize,
}

/// The model string the summary reports for a given reading.
pub open spec fn spec_model(info: Option<CpuInfoFields>) -> Seq<char> {
    match info {
        None => sentinel_model(),
        Some(f) => match f.model {
            None => sentinel_model(),
            Some(m) => m@,
        },
    }
}

/// The physical core count for a given reading.
pub open spec fn spec_physical_cores(info: Option<CpuInfoFields>) -> nat {
    match info {
        None => 0,
        Some(f) => field_count(opt_bytes(f.cpu_cores)),
    }
}

/// The siblings count for a given reading.
pub open spec fn spec_siblings(info: Option<CpuInfoFields>) -> nat {
    match info {
        None => 0,
        Some(f) => field_count(opt_bytes(f.siblings)),
    }
}

/// The logical CPU count for a given reading.
pub open spec fn spec_execution_units(info: Option<CpuInfoFields>) -> nat {
    match info {
        None => 0,
        Some(f) => f.logical_count as nat,
    }
}

/// When both reported counts are nonzero and the divisions are exact, the
/// derived topology satisfies the multiplicative identity
/// `execution_units == sockets * physical_cores * threads_per_core`.
/// A reading with missing or uneven fields can violate it.
pub proof fn lemma_topology_consistent(info: Option<CpuInfoFields>)
    requires
        spec_physical_cores(info) > 0,
        spec_siblings(info) > 0,
        spec_siblings(info) % spec_physical_cores(info) == 0,
        spec_execution_units(info) % spec_siblings(info) == 0,
    ensures
        spec_execution_units(info) == guarded_div(spec_execution_units(info), spec_siblings(info))
            * spec_physical_cores(info) * guarded_div(
            spec_siblings(info),
            spec_physical_cores(info),
        ),
{
    let p = spec_physical_cores(info) as int;
    let s = spec_siblings(info) as int;
    let e = spec_execution_units(info) as int;
    vstd::arithmetic::div_mod::lemma_fundamental_div_mod(s, p);
    vstd::arithmetic::div_mod::lemma_fundamental_div_mod(e, s);
    assert(e == (e / s) * p * (s / p)) by (nonlinear_arith)
        requires
            s == p * (s / p),
            e == s * (e / s),
    ;
}

/// Parses an optional text field with the zero fallback.
fn count_field(f: &Option<String>) -> (r: usize)
    ensures
        r == field_count(opt_bytes(*f)),
{
    match f {
        None => 0,
        Some(s) => match parse_usize(s.as_str().as_bytes()) {
            Some(n) => n,
            None => 0,
        },
    }
}

impl CPU {
    /// Builds the topology summary from one reading of the kernel info
    /// source. `None` stands for an unreadable source: the model falls back
    /// to the sentinel string and every count is zero. Both derived
    /// quantities guard a zero divisor by reporting zero.
    pub fn new(info: Option<CpuInfoFields>) -> (r: CPU)
        ensures
            r.model@ == spec_model(info),
            r.physical_cores == spec_physical_cores(info),
            r.execution_units == spec_execution_units(info),
            r.threads_per_core == guarded_div(spec_siblings(info), spec_physical_cores(info)),
            r.sockets == guarded_div(spec_execution_units(info), spec_siblings(info)),
    {
        match info {
            None => CPU {
                model: "No CPU Info Available".to_owned(),
                physical_cores: 0,
                execution_units: 0,
                threads_per_core: 0,
                sockets: 0,
            },
            Some(f) => {
                let model = match f.model {
                    None => "No CPU Info Available".to_owned(),
                    Some(m) => m,
                };
                let physical_cores = count_field(&f.cpu_cores);
                let siblings = count_field(&f.siblings);
                let execution_units = f.logical_count;
                let threads_per_core = if physical_cores == 0 {
                    0
                } else {
                    siblings / physical_cores
                };
                let sockets = if siblings == 0 {
                    0
                } else {
                    execution_units / siblings
                };
                CPU { model, physical_cores, execution_units, threads_per_core, sockets }
            },
        }
    }
}

} // verus!

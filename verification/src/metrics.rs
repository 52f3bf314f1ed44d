//! The metrics boundary: the server core reports connection accounting to an
//! external metrics collaborator through a plain counter, and normalizes
//! cumulative time readings across processors.
use vstd::prelude::*;
use std::sync::Arc;
use witchcraft_metrics::Counter;

verus! {

#[verifier::external_type_specification]
#[verifier::external_body]
pub struct ExCounter(Counter);

/// Relies on num_cpus::get: the number of available logical processors,
/// documented to always be at least 1.
pub assume_specification[ num_cpus::get ]() -> (r: usize)
    ensures
        r >= 1,
;

/// Relies on witchcraft_metrics::Counter::new: a fresh atomic counter,
/// shared here so an external registry can read what this crate counts.
#[verifier::external_body]
pub(crate) fn new_counter() -> Arc<Counter> {
    Arc::new(Counter::new())
}

/// Relies on witchcraft_metrics::Counter::inc: adds one to the shared
/// atomic counter.
#[verifier::external_body]
pub(crate) fn counter_inc(counter: &Counter) {
    counter.inc()
}

/// Relies on witchcraft_metrics::Counter::dec: subtracts one from the
/// shared atomic counter.
#[verifier::external_body]
pub(crate) fn counter_dec(counter: &Counter) {
    counter.dec()
}

/// Divides a cumulative time reading evenly across a number of processors.
pub fn per_cpu_micros(micros: u64, cpus: u64) -> (r: u64)
    requires
        cpus >= 1,
    ensures
        r == micros as int / cpus as int,
{
    micros / cpus
}

/// Normalizes a cumulative time reading by this machine's processor count.
///
/// The processor count is machine-dependent, so all that holds of every
/// outcome is that dividing by at least one processor never grows the
/// reading.
pub fn normalized_micros(micros: u64) -> (r: u64)
    ensures
        r <= micros,
{
    let cpus = num_cpus::get();
    let cpus64: u64 = if cpus > u64::MAX as usize {
        u64::MAX
    } else {
        cpus as u64
    };
    let r = per_cpu_micros(micros, cpus64);
    proof {
        assert(micros as int / cpus64 as int <= micros) by (nonlinear_arith)
            requires
                cpus64 >= 1,
        ;
    }
    r
}

} // verus!

//! Trusted boundary to the kernel: the clock query and the scheduler
//! yield. Nothing is assumed of the values that come back; the callers
//! normalize and bound them in verified code.

use vstd::prelude::*;

verus! {

#[verifier::external_type_specification]
#[verifier::external_body]
pub struct ExSysError(syscall::error::Error);

/// Relies on syscall::call::clock_gettime: asks the kernel for the
/// current reading of the monotonic clock (`realtime` false) or of the
/// wall clock (`realtime` true), filling a TimeSpec with seconds and
/// nanoseconds. No bound on the reading is assumed here.
#[verifier::external_body]
pub(crate) fn clock_query(realtime: bool) -> (r: Result<(i64, i32), syscall::error::Error>) {
    let mut ts = syscall::data::TimeSpec::default();
    let clock = if realtime {
        syscall::flag::CLOCK_REALTIME
    } else {
        syscall::flag::CLOCK_MONOTONIC
    };
    match syscall::call::clock_gettime(clock, &mut ts) {
        Ok(_) => Ok((ts.tv_sec, ts.tv_nsec)),
        Err(e) => Err(e),
    }
}

/// Relies on syscall::call::sched_yield: hands the rest of the calling
/// context's time slice back to the scheduler. It promises no minimum
/// delay, so nothing is stated of it.
#[verifier::external_body]
pub(crate) fn yield_now() {
    let _ = syscall::call::sched_yield();
}

} // verus!

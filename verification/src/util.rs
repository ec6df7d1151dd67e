//! Resource-limit passthrough.
//!
//! The host may read and raise the process's file-descriptor ceiling. The
//! platform calls themselves are pure passthrough; what is verified here is
//! the boundary behaviour: the value is returned on success, and a failure
//! is recorded in the error channel and surfaced as the zero sentinel.

use vstd::prelude::*;
use crate::error::ErrorRecord;
use crate::error::ErrorSlot;
use crate::error::spec_message;
use crate::error::update_last_error;
use crate::text::boundary_text_ok;
use crate::text::lemma_fallback_text_ok;

verus! {

/// Relies on rlimit::getrlimit for the NOFILE resource: yields the
/// process's current (soft, hard) file-descriptor limits, or the platform's
/// error text. The values come from the environment, so nothing is promised
/// of them.
#[verifier::external_body]
fn nofile_limits() -> (r: Result<(u64, u64), String>) {
    match rlimit::getrlimit(rlimit::Resource::NOFILE) {
        Ok(pair) => Ok(pair),
        Err(e) => Err(e.to_string()),
    }
}

/// Relies on rlimit::increase_nofile_limit: raises the soft NOFILE limit
/// toward `limit` without lowering it, bounded by the hard limit, and
/// yields the resulting soft limit, or the platform's error text. The
/// result depends on the process's current limits, so nothing is promised
/// of it.
#[verifier::external_body]
fn raise_nofile_limit(limit: u64) -> (r: Result<u64, String>) {
    match rlimit::increase_nofile_limit(limit) {
        Ok(v) => Ok(v),
        Err(e) => Err(e.to_string()),
    }
}

/// The boundary return value and error-channel effect for a resource-limit
/// outcome: the value on success, untouched channel; the zero sentinel on
/// failure, with the failure recorded (under the fallback description when
/// the platform's text cannot cross the boundary).
pub fn limit_outcome(outcome: Result<u64, String>, slot: &mut ErrorSlot) -> (r: u64)
    ensures
        outcome matches Ok(v) ==> r == v && final(slot)@ == old(slot)@,
        outcome matches Err(text) ==> {
            &&& r == 0
            &&& final(slot)@ is Some
            &&& boundary_text_ok(spec_message(final(slot)@))
            &&& (boundary_text_ok(text@) ==> spec_message(final(slot)@) == text@)
            &&& (!boundary_text_ok(text@) ==> spec_message(final(slot)@) == "boundary failure"@)
        },
{
    match outcome {
        Ok(v) => v,
        Err(text) => {
            let record = match ErrorRecord::new(text, Vec::new()) {
                Some(record) => record,
                None => ErrorRecord::fallback(),
            };
            proof {
                lemma_fallback_text_ok();
            }
            update_last_error(slot, record);
            0
        },
    }
}

/// The process's soft file-descriptor limit, or the zero sentinel with the
/// failure recorded.
pub fn tor_get_nofile_limit(slot: &mut ErrorSlot) -> (r: u64)
    ensures
        final(slot)@ == old(slot)@ || (r == 0 && final(slot)@ is Some && boundary_text_ok(
            spec_message(final(slot)@),
        )),
{
    let outcome = match nofile_limits() {
        Ok(pair) => Ok(pair.0),
        Err(text) => Err(text),
    };
    limit_outcome(outcome, slot)
}

/// Raise the soft file-descriptor limit toward `limit`; the resulting soft
/// limit, or the zero sentinel with the failure recorded.
pub fn tor_set_nofile_limit(limit: u64, slot: &mut ErrorSlot) -> (r: u64)
    ensures
        final(slot)@ == old(slot)@ || (r == 0 && final(slot)@ is Some && boundary_text_ok(
            spec_message(final(slot)@),
        )),
{
    limit_outcome(raise_nofile_limit(limit), slot)
}

} // verus!

//! The periodic sampling pass and its bounded retry policy.
//!
//! One pass refreshes every channel of the snapshot in channel order,
//! eight queries per channel, and replaces a channel's slot only after
//! all eight succeed: a failure part-way through a channel leaves that
//! slot — and every later slot — exactly as it was. The retry wrapper
//! runs a pass up to three times, pausing a fixed backoff after a
//! timeout, and gives up with the error after the third attempt; an
//! error other than a timeout is not retried.

use vstd::prelude::*;
use crate::client::Dp800;
use crate::fixed::Fixed;
use crate::protocol::Error;
use crate::protocol::Measurement;
use crate::protocol::Transport;
use crate::snapshot::Data;
use crate::snapshot::Snapshot;
use crate::snapshot::snapshot_wf;
use vstd::pervasive::VecAdditionalExecFns;

verus! {

/// Interval between two sampling passes, in milliseconds.
pub const TICK_MS: u64 = 250;

/// Backoff after a timed-out pass, equal to the per-attempt timeout, in
/// milliseconds.
pub const RETRY_BACKOFF_MS: u64 = 250;

/// Total attempts a sampling pass is given before its timeout becomes
/// fatal.
pub const MAX_ATTEMPTS: u8 = 3;

/// Channels from slot `k` on are untouched: the pass got no further than
/// slot `k`.
pub open spec fn unchanged_from(k: int, pre: Seq<Data>, post: Seq<Data>) -> bool {
    &&& 0 <= k <= pre.len()
    &&& post.len() == pre.len()
    &&& forall|j: int| k <= j < pre.len() ==> post[j] == pre[j]
}

/// One channel's slot as rebuilt from its eight replies, each reply
/// landing in its fixed field: the measurement's three readings become
/// the measured values, the two setpoint replies the setpoints, the two
/// protection-limit replies the limits, and the two flags the flags.
pub fn assemble(
    meas: Measurement,
    output_state: bool,
    sp_voltage: Fixed,
    sp_current: Fixed,
    limit_voltage: Fixed,
    limit_current: Fixed,
    ovp_on: bool,
    ocp_on: bool,
) -> (d: Data)
    ensures
        d == (Data {
            output_state,
            meas_voltage: meas.voltage,
            meas_current: meas.current,
            meas_power: meas.power,
            sp_voltage,
            sp_current,
            limit_voltage,
            limit_current,
            ovp_on,
            ocp_on,
        }),
{
    Data {
        output_state,
        meas_voltage: meas.voltage,
        meas_current: meas.current,
        meas_power: meas.power,
        sp_voltage,
        sp_current,
        limit_voltage,
        limit_current,
        ovp_on,
        ocp_on,
    }
}

/// One sampling pass: refresh every channel of the snapshot in channel
/// order.
///
/// Each channel is rebuilt from eight queries — measurements, output
/// state, both setpoints, both protection limits, both protection flags —
/// and its slot is replaced only after all eight succeed. On any failure
/// the error is returned at once, the failed channel and all later ones
/// keeping their previous value.
pub fn on_tick<T: Transport>(client: &mut Dp800<T>, snap: &mut Snapshot) -> (r: Result<(), Error>)
    requires
        snapshot_wf(*old(snap)),
    ensures
        snapshot_wf(*final(snap)),
        final(snap).channels@.len() == old(snap).channels@.len(),
        r is Err ==> exists|k: int|
            0 <= k < old(snap).channels@.len() && unchanged_from(
                k,
                old(snap).channels@,
                final(snap).channels@,
            ),
{
    let count: usize = snap.channels.len();
    let mut i: usize = 0;
    while i < count
        invariant
            0 <= i <= count,
            count == old(snap).channels@.len(),
            count <= 255,
            snap.channels@.len() == count,
            snapshot_wf(*snap),
            forall|j: int| i <= j < count ==> snap.channels@[j] == old(snap).channels@[j],
        decreases count - i,
    {
        let ch: u8 = (i as u8) + 1;
        let meas = match client.measure(ch) {
            Ok(m) => m,
            Err(e) => {
                proof {
                    assert(unchanged_from(i as int, old(snap).channels@, snap.channels@));
                }
                return Err(e);
            },
        };
        let output_state = match client.output_state(ch) {
            Ok(v) => v,
            Err(e) => {
                proof {
                    assert(unchanged_from(i as int, old(snap).channels@, snap.channels@));
                }
                return Err(e);
            },
        };
        let sp_voltage = match client.voltage(ch) {
            Ok(v) => v,
            Err(e) => {
                proof {
                    assert(unchanged_from(i as int, old(snap).channels@, snap.channels@));
                }
                return Err(e);
            },
        };
        let sp_current = match client.current(ch) {
            Ok(v) => v,
            Err(e) => {
                proof {
                    assert(unchanged_from(i as int, old(snap).channels@, snap.channels@));
                }
                return Err(e);
            },
        };
        let limit_voltage = match client.ovp(ch) {
            Ok(v) => v,
            Err(e) => {
                proof {
                    assert(unchanged_from(i as int, old(snap).channels@, snap.channels@));
                }
                return Err(e);
            },
        };
        let limit_current = match client.ocp(ch) {
            Ok(v) => v,
            Err(e) => {
                proof {
                    assert(unchanged_from(i as int, old(snap).channels@, snap.channels@));
                }
                return Err(e);
            },
        };
        let ovp_on = match client.ovp_on(ch) {
            Ok(v) => v,
            Err(e) => {
                proof {
                    assert(unchanged_from(i as int, old(snap).channels@, snap.channels@));
                }
                return Err(e);
            },
        };
        let ocp_on = match client.ocp_on(ch) {
            Ok(v) => v,
            Err(e) => {
                proof {
                    assert(unchanged_from(i as int, old(snap).channels@, snap.channels@));
                }
                return Err(e);
            },
        };
        let data = assemble(
            meas,
            output_state,
            sp_voltage,
            sp_current,
            limit_voltage,
            limit_current,
            ovp_on,
            ocp_on,
        );
        snap.channels.set(i, data);
        i += 1;
    }
    Ok(())
}

/// What the retry wrapper does after one attempt: stop on success, retry
/// a timeout while attempts remain, otherwise give up with the error.
#[derive(Clone, Copy, Debug, PartialEq, Eq, Structural)]
pub enum RetryStep {
    /// The pass succeeded; the tick is done.
    Success,
    /// The pass timed out with attempts to spare: pause one backoff, try
    /// again.
    RetryAfterBackoff,
    /// The pass failed for good; the error propagates.
    Fail(Error),
}

/// The retry policy: a timeout is retried while fewer than
/// [`MAX_ATTEMPTS`] attempts have run, any other error — or a timeout on
/// the last attempt — is final.
pub open spec fn spec_retry_decision(attempt: u8, outcome: Result<(), Error>) -> RetryStep {
    match outcome {
        Ok(_) => RetryStep::Success,
        Err(e) => if e == Error::Timeout && attempt < MAX_ATTEMPTS {
            RetryStep::RetryAfterBackoff
        } else {
            RetryStep::Fail(e)
        },
    }
}

/// Decide what to do after attempt number `attempt` ended with `outcome`.
pub fn retry_decision(attempt: u8, outcome: &Result<(), Error>) -> (r: RetryStep)
    ensures
        r == spec_retry_decision(attempt, *outcome),
{
    match outcome {
        Ok(_) => RetryStep::Success,
        Err(e) => {
            if *e == Error::Timeout && attempt < MAX_ATTEMPTS {
                RetryStep::RetryAfterBackoff
            } else {
                RetryStep::Fail(*e)
            }
        },
    }
}

/// Run sampling passes under the retry policy: up to [`MAX_ATTEMPTS`]
/// attempts, a fixed backoff pause after each timed-out pass, the error
/// returned once the policy gives up.
///
/// Only a pass that completed every channel returns success, so on
/// failure a suffix of the channel slots — from wherever the furthest
/// attempt stopped, and at least the last slot — still holds its values
/// from before the call.
pub fn sample_with_retry<T: Transport>(client: &mut Dp800<T>, snap: &mut Snapshot) -> (r: Result<
    (),
    Error,
>)
    requires
        snapshot_wf(*old(snap)),
    ensures
        snapshot_wf(*final(snap)),
        final(snap).channels@.len() == old(snap).channels@.len(),
        r is Err ==> exists|k: int|
            0 <= k < old(snap).channels@.len() && unchanged_from(
                k,
                old(snap).channels@,
                final(snap).channels@,
            ),
{
    let ghost len = old(snap).channels@.len() as int;
    proof {
        assert(unchanged_from(len - 1, old(snap).channels@, snap.channels@));
    }
    let mut attempt: u8 = 1;
    loop
        invariant
            1 <= attempt <= MAX_ATTEMPTS,
            snapshot_wf(*snap),
            len == old(snap).channels@.len(),
            snap.channels@.len() == len,
            exists|k: int|
                0 <= k < len && unchanged_from(k, old(snap).channels@, snap.channels@),
        decreases MAX_ATTEMPTS - attempt,
    {
        let ghost before = snap.channels@;
        let outcome = on_tick(client, snap);
        proof {
            if outcome is Err {
                let k1 = choose|k: int|
                    0 <= k < len && unchanged_from(k, old(snap).channels@, before);
                let k2 = choose|k: int| 0 <= k < len && unchanged_from(k, before, snap.channels@);
                let k3 = if k1 >= k2 {
                    k1
                } else {
                    k2
                };
                assert(unchanged_from(k3, old(snap).channels@, snap.channels@));
            }
        }
        match retry_decision(attempt, &outcome) {
            RetryStep::Success => {
                return Ok(());
            },
            RetryStep::RetryAfterBackoff => {
                client.pause(RETRY_BACKOFF_MS);
                attempt += 1;
            },
            RetryStep::Fail(e) => {
                return Err(e);
            },
        }
    }
}

} // verus!

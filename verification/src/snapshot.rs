//! The most recently sampled state of every channel.
//!
//! One [`Data`] holds the full observable state of one channel; a
//! [`Snapshot`] holds one slot per physical channel. Slots are replaced
//! whole by the sampler, never partially, so a renderer reading the
//! snapshot between passes always sees a consistent channel.

use vstd::prelude::*;
use crate::fixed::Fixed;
use crate::fixed::fixed_wf;

verus! {

/// The full observable state of one channel.
#[derive(Clone, Copy, Debug, PartialEq, Eq, Structural)]
pub struct Data {
    /// Whether the channel output is on.
    pub output_state: bool,
    /// Measured voltage, in thousandths of a volt.
    pub meas_voltage: Fixed,
    /// Measured current, in thousandths of an amp.
    pub meas_current: Fixed,
    /// Measured power, in thousandths of a watt.
    pub meas_power: Fixed,
    /// Voltage setpoint, in thousandths of a volt.
    pub sp_voltage: Fixed,
    /// Current setpoint, in thousandths of an amp.
    pub sp_current: Fixed,
    /// Over-voltage protection limit, in thousandths of a volt.
    pub limit_voltage: Fixed,
    /// Over-current protection limit, in thousandths of an amp.
    pub limit_current: Fixed,
    /// Whether over-voltage protection is enabled.
    pub ovp_on: bool,
    /// Whether over-current protection is enabled.
    pub ocp_on: bool,
}

/// Every numeric field of the channel state is in range.
pub open spec fn data_wf(d: Data) -> bool {
    &&& fixed_wf(d.meas_voltage)
    &&& fixed_wf(d.meas_current)
    &&& fixed_wf(d.meas_power)
    &&& fixed_wf(d.sp_voltage)
    &&& fixed_wf(d.sp_current)
    &&& fixed_wf(d.limit_voltage)
    &&& fixed_wf(d.limit_current)
}

/// The channel state a snapshot starts from: output off, every value
/// zero.
pub open spec fn spec_default_data() -> Data {
    Data {
        output_state: false,
        meas_voltage: Fixed { thousandths: 0 },
        meas_current: Fixed { thousandths: 0 },
        meas_power: Fixed { thousandths: 0 },
        sp_voltage: Fixed { thousandths: 0 },
        sp_current: Fixed { thousandths: 0 },
        limit_voltage: Fixed { thousandths: 0 },
        limit_current: Fixed { thousandths: 0 },
        ovp_on: false,
        ocp_on: false,
    }
}

impl Default for Data {
    /// The zero channel state.
    fn default() -> (d: Self)
        ensures
            d == spec_default_data(),
            data_wf(d),
    {
        Data {
            output_state: false,
            meas_voltage: Fixed { thousandths: 0 },
            meas_current: Fixed { thousandths: 0 },
            meas_power: Fixed { thousandths: 0 },
            sp_voltage: Fixed { thousandths: 0 },
            sp_current: Fixed { thousandths: 0 },
            limit_voltage: Fixed { thousandths: 0 },
            limit_current: Fixed { thousandths: 0 },
            ovp_on: false,
            ocp_on: false,
        }
    }
}

/// One slot of channel state per physical channel, in channel order.
#[derive(Debug)]
pub struct Snapshot {
    /// Slot `i` holds channel `i + 1`.
    pub channels: Vec<Data>,
}

/// A snapshot covers at least one and at most 255 channels (channel
/// numbers are one byte on the wire), and every slot is in range.
pub open spec fn snapshot_wf(s: Snapshot) -> bool {
    &&& 1 <= s.channels@.len() <= 255
    &&& forall|i: int| 0 <= i < s.channels@.len() ==> data_wf(#[trigger] s.channels@[i])
}

impl Snapshot {
    /// A snapshot of `count` channels, all in the zero state.
    pub fn new(count: u8) -> (s: Snapshot)
        requires
            count >= 1,
        ensures
            snapshot_wf(s),
            s.channels@.len() == count,
            forall|i: int| 0 <= i < count ==> #[trigger] s.channels@[i] == spec_default_data(),
    {
        let mut channels: Vec<Data> = Vec::new();
        let mut i: u8 = 0;
        while i < count
            invariant
                0 <= i <= count,
                channels@.len() == i,
                forall|k: int| 0 <= k < i ==> #[trigger] channels@[k] == spec_default_data(),
            decreases count - i,
        {
            channels.push(Data::default());
            i += 1;
        }
        Snapshot { channels }
    }

    /// The slot of the given channel, 1-indexed.
    pub fn ch_data(&self, ch: u8) -> (d: &Data)
        requires
            1 <= ch <= self.channels@.len(),
        ensures
            *d == self.channels@[ch - 1],
    {
        &self.channels[(ch - 1) as usize]
    }
}

} // verus!

//! The protocol client: one request/response exchange at a time over one
//! persistent connection.
//!
//! Every domain operation encodes its exact wire line with the verified
//! encoders and reads its response through the verified parsers; what a
//! call returns for each possible response line is fixed by the parser
//! contracts in [`crate::protocol`]. Channel arguments are 1-indexed and
//! forwarded to the device uninterpreted, as the instrument defines its
//! own fallback for out-of-range channels.

use vstd::prelude::*;
use crate::commands::encode_channel_query;
use crate::commands::encode_channel_set;
use crate::commands::encode_current_query;
use crate::commands::encode_current_set;
use crate::commands::encode_identify;
use crate::commands::encode_measure_query;
use crate::commands::encode_ocp_on_query;
use crate::commands::encode_ocp_on_set;
use crate::commands::encode_ocp_query;
use crate::commands::encode_ocp_set;
use crate::commands::encode_output_query;
use crate::commands::encode_output_set;
use crate::commands::encode_ovp_on_query;
use crate::commands::encode_ovp_on_set;
use crate::commands::encode_ovp_query;
use crate::commands::encode_ovp_set;
use crate::commands::encode_voltage_query;
use crate::commands::encode_voltage_set;
use crate::fixed::Fixed;
use crate::fixed::fixed_wf;
use crate::protocol::Error;
use crate::protocol::Identify;
use crate::protocol::Measurement;
use crate::protocol::Transport;
use crate::protocol::measurement_wf;
use crate::protocol::parse;
use crate::protocol::parse_channel;
use crate::protocol::parse_identify;
use crate::protocol::parse_measurement;
use crate::protocol::parse_toggle;
use crate::protocol::strip_line;

verus! {

/// A power supply reached over one [`Transport`].
///
/// The protocol is strictly single-outstanding-request: every operation
/// writes one line and, for queries, reads the one response line before
/// returning, so no two requests ever overlap.
pub struct Dp800<T: Transport> {
    transport: T,
}

impl<T: Transport> Dp800<T> {
    /// Wrap an established connection.
    pub fn new(transport: T) -> (c: Self) {
        Dp800 { transport }
    }

    /// Pause the link for the given number of milliseconds.
    pub fn pause(&mut self, ms: u64) {
        self.transport.pause_ms(ms);
    }

    /// The underlying transport.
    pub fn transport(&self) -> &T {
        &self.transport
    }

    /// Send one command line; no response is read.
    fn cmd(&mut self, line: &[u8]) -> Result<(), Error> {
        self.transport.command(line)
    }

    /// Exchange one query line for its response line, stripped of the
    /// trailing newline.
    fn q(&mut self, line: &[u8]) -> Result<Vec<u8>, Error> {
        match self.transport.query(line) {
            Ok(raw) => Ok(strip_line(raw)),
            Err(e) => Err(e),
        }
    }

    /// Identify the power supply. What each possible response line
    /// yields is fixed by [`parse_identify`]: the first four
    /// comma-separated fields, decoded, or the parse error when there
    /// are fewer.
    pub fn identify(&mut self) -> Result<Identify, Error> {
        let line = encode_identify();
        match self.q(line.as_slice()) {
            Ok(body) => parse_identify(body.as_slice()),
            Err(e) => Err(e),
        }
    }

    /// Output state of a channel.
    pub fn output_state(&mut self, ch: u8) -> Result<bool, Error> {
        let line = encode_output_query(ch);
        match self.q(line.as_slice()) {
            Ok(body) => parse_toggle(body.as_slice()),
            Err(e) => Err(e),
        }
    }

    /// Set the output state of a channel.
    pub fn set_output_state(&mut self, ch: u8, state: bool) -> Result<(), Error> {
        let line = encode_output_set(ch, state);
        self.cmd(line.as_slice())
    }

    /// Currently selected channel.
    pub fn ch(&mut self) -> Result<u8, Error> {
        let line = encode_channel_query();
        match self.q(line.as_slice()) {
            Ok(body) => parse_channel(body.as_slice()),
            Err(e) => Err(e),
        }
    }

    /// Select a channel.
    pub fn set_ch(&mut self, ch: u8) -> Result<(), Error> {
        let line = encode_channel_set(ch);
        self.cmd(line.as_slice())
    }

    /// Current setpoint of a channel, in thousandths of an amp.
    pub fn current(&mut self, ch: u8) -> (r: Result<Fixed, Error>)
        ensures
            r matches Ok(v) ==> fixed_wf(v),
    {
        let line = encode_current_query(ch);
        match self.q(line.as_slice()) {
            Ok(body) => parse(body.as_slice()),
            Err(e) => Err(e),
        }
    }

    /// Set the current setpoint of a channel.
    pub fn set_current(&mut self, ch: u8, amps: Fixed) -> Result<(), Error>
        requires
            fixed_wf(amps),
    {
        let line = encode_current_set(ch, amps);
        self.cmd(line.as_slice())
    }

    /// Voltage setpoint of a channel, in thousandths of a volt.
    pub fn voltage(&mut self, ch: u8) -> (r: Result<Fixed, Error>)
        ensures
            r matches Ok(v) ==> fixed_wf(v),
    {
        let line = encode_voltage_query(ch);
        match self.q(line.as_slice()) {
            Ok(body) => parse(body.as_slice()),
            Err(e) => Err(e),
        }
    }

    /// Set the voltage setpoint of a channel.
    pub fn set_voltage(&mut self, ch: u8, volts: Fixed) -> Result<(), Error>
        requires
            fixed_wf(volts),
    {
        let line = encode_voltage_set(ch, volts);
        self.cmd(line.as_slice())
    }

    /// Measure voltage, current and power of a channel.
    pub fn measure(&mut self, ch: u8) -> (r: Result<Measurement, Error>)
        ensures
            r matches Ok(m) ==> measurement_wf(m),
    {
        let line = encode_measure_query(ch);
        match self.q(line.as_slice()) {
            Ok(body) => parse_measurement(body.as_slice()),
            Err(e) => Err(e),
        }
    }

    /// Over-current protection limit of a channel, in thousandths of an
    /// amp.
    pub fn ocp(&mut self, ch: u8) -> (r: Result<Fixed, Error>)
        ensures
            r matches Ok(v) ==> fixed_wf(v),
    {
        let line = encode_ocp_query(ch);
        match self.q(line.as_slice()) {
            Ok(body) => parse(body.as_slice()),
            Err(e) => Err(e),
        }
    }

    /// Set the over-current protection limit of a channel.
    pub fn set_ocp(&mut self, ch: u8, amps: Fixed) -> Result<(), Error>
        requires
            fixed_wf(amps),
    {
        let line = encode_ocp_set(ch, amps);
        self.cmd(line.as_slice())
    }

    /// Whether over-current protection of a channel is enabled.
    pub fn ocp_on(&mut self, ch: u8) -> Result<bool, Error> {
        let line = encode_ocp_on_query(ch);
        match self.q(line.as_slice()) {
            Ok(body) => parse_toggle(body.as_slice()),
            Err(e) => Err(e),
        }
    }

    /// Enable or disable over-current protection of a channel.
    pub fn set_ocp_on(&mut self, ch: u8, on: bool) -> Result<(), Error> {
        let line = encode_ocp_on_set(ch, on);
        self.cmd(line.as_slice())
    }

    /// Over-voltage protection limit of a channel, in thousandths of a
    /// volt.
    pub fn ovp(&mut self, ch: u8) -> (r: Result<Fixed, Error>)
        ensures
            r matches Ok(v) ==> fixed_wf(v),
    {
        let line = encode_ovp_query(ch);
        match self.q(line.as_slice()) {
            Ok(body) => parse(body.as_slice()),
            Err(e) => Err(e),
        }
    }

    /// Set the over-voltage protection limit of a channel.
    pub fn set_ovp(&mut self, ch: u8, volts: Fixed) -> Result<(), Error>
        requires
            fixed_wf(volts),
    {
        let line = encode_ovp_set(ch, volts);
        self.cmd(line.as_slice())
    }

    /// Whether over-voltage protection of a channel is enabled.
    pub fn ovp_on(&mut self, ch: u8) -> Result<bool, Error> {
        let line = encode_ovp_on_query(ch);
        match self.q(line.as_slice()) {
            Ok(body) => parse_toggle(body.as_slice()),
            Err(e) => Err(e),
        }
    }

    /// Enable or disable over-voltage protection of a channel.
    pub fn set_ovp_on(&mut self, ch: u8, on: bool) -> Result<(), Error> {
        let line = encode_ovp_on_set(ch, on);
        self.cmd(line.as_slice())
    }
}

} // verus!

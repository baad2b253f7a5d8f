//! Wire encoding of every command and query of the instrument's
//! documented command set.
//!
//! Each encoder returns the exact byte line sent on the wire, newline
//! included; channel numbers are rendered as plain decimal digits and
//! numeric values at exactly three decimal digits, which is part of the
//! wire contract rather than a display choice.

use vstd::prelude::*;
use crate::fixed::Fixed;
use crate::fixed::fixed_wf;
use crate::fixed::format_digits;
use crate::fixed::format_fixed;
use crate::fixed::spec_digits;
use crate::fixed::spec_format_fixed;
use crate::protocol::spec_toggle_bytes;
use crate::protocol::toggle_bytes;

verus! {

/// `:OUTP`
pub open spec fn lit_outp() -> Seq<u8> {
    seq![58u8, 79u8, 85u8, 84u8, 80u8]
}

/// `? CH`
pub open spec fn lit_query_ch() -> Seq<u8> {
    seq![63u8, 32u8, 67u8, 72u8]
}

/// ` CH`
pub open spec fn lit_space_ch() -> Seq<u8> {
    seq![32u8, 67u8, 72u8]
}

/// `:INST:NSEL`
pub open spec fn lit_inst_nsel() -> Seq<u8> {
    seq![58u8, 73u8, 78u8, 83u8, 84u8, 58u8, 78u8, 83u8, 69u8, 76u8]
}

/// `:SOUR`
pub open spec fn lit_sour() -> Seq<u8> {
    seq![58u8, 83u8, 79u8, 85u8, 82u8]
}

/// `:CURR`
pub open spec fn lit_curr() -> Seq<u8> {
    seq![58u8, 67u8, 85u8, 82u8, 82u8]
}

/// `:VOLT`
pub open spec fn lit_volt() -> Seq<u8> {
    seq![58u8, 86u8, 79u8, 76u8, 84u8]
}

/// `:MEAS:ALL`
pub open spec fn lit_meas_all() -> Seq<u8> {
    seq![58u8, 77u8, 69u8, 65u8, 83u8, 58u8, 65u8, 76u8, 76u8]
}

/// `:OCP:VAL`
pub open spec fn lit_ocp_val() -> Seq<u8> {
    seq![58u8, 79u8, 67u8, 80u8, 58u8, 86u8, 65u8, 76u8]
}

/// `:OCP:STAT`
pub open spec fn lit_ocp_stat() -> Seq<u8> {
    seq![58u8, 79u8, 67u8, 80u8, 58u8, 83u8, 84u8, 65u8, 84u8]
}

/// `:OVP:VAL`
pub open spec fn lit_ovp_val() -> Seq<u8> {
    seq![58u8, 79u8, 86u8, 80u8, 58u8, 86u8, 65u8, 76u8]
}

/// `:OVP:STAT`
pub open spec fn lit_ovp_stat() -> Seq<u8> {
    seq![58u8, 79u8, 86u8, 80u8, 58u8, 83u8, 84u8, 65u8, 84u8]
}

/// `*IDN`
pub open spec fn lit_idn() -> Seq<u8> {
    seq![42u8, 73u8, 68u8, 78u8]
}

fn push_outp(out: &mut Vec<u8>)
    ensures
        final(out)@ == old(out)@ + lit_outp(),
{
    out.push(58);
    out.push(79);
    out.push(85);
    out.push(84);
    out.push(80);
    proof {
        assert(out@ =~= old(out)@ + lit_outp());
    }
}

fn push_query_ch(out: &mut Vec<u8>)
    ensures
        final(out)@ == old(out)@ + lit_query_ch(),
{
    out.push(63);
    out.push(32);
    out.push(67);
    out.push(72);
    proof {
        assert(out@ =~= old(out)@ + lit_query_ch());
    }
}

fn push_space_ch(out: &mut Vec<u8>)
    ensures
        final(out)@ == old(out)@ + lit_space_ch(),
{
    out.push(32);
    out.push(67);
    out.push(72);
    proof {
        assert(out@ =~= old(out)@ + lit_space_ch());
    }
}

fn push_inst_nsel(out: &mut Vec<u8>)
    ensures
        final(out)@ == old(out)@ + lit_inst_nsel(),
{
    out.push(58);
    out.push(73);
    out.push(78);
    out.push(83);
    out.push(84);
    out.push(58);
    out.push(78);
    out.push(83);
    out.push(69);
    out.push(76);
    proof {
        assert(out@ =~= old(out)@ + lit_inst_nsel());
    }
}

fn push_sour(out: &mut Vec<u8>)
    ensures
        final(out)@ == old(out)@ + lit_sour(),
{
    out.push(58);
    out.push(83);
    out.push(79);
    out.push(85);
    out.push(82);
    proof {
        assert(out@ =~= old(out)@ + lit_sour());
    }
}

fn push_curr(out: &mut Vec<u8>)
    ensures
        final(out)@ == old(out)@ + lit_curr(),
{
    out.push(58);
    out.push(67);
    out.push(85);
    out.push(82);
    out.push(82);
    proof {
        assert(out@ =~= old(out)@ + lit_curr());
    }
}

fn push_volt(out: &mut Vec<u8>)
    ensures
        final(out)@ == old(out)@ + lit_volt(),
{
    out.push(58);
    out.push(86);
    out.push(79);
    out.push(76);
    out.push(84);
    proof {
        assert(out@ =~= old(out)@ + lit_volt());
    }
}

fn push_meas_all(out: &mut Vec<u8>)
    ensures
        final(out)@ == old(out)@ + lit_meas_all(),
{
    out.push(58);
    out.push(77);
    out.push(69);
    out.push(65);
    out.push(83);
    out.push(58);
    out.push(65);
    out.push(76);
    out.push(76);
    proof {
        assert(out@ =~= old(out)@ + lit_meas_all());
    }
}

fn push_ocp_val(out: &mut Vec<u8>)
    ensures
        final(out)@ == old(out)@ + lit_ocp_val(),
{
    out.push(58);
    out.push(79);
    out.push(67);
    out.push(80);
    out.push(58);
    out.push(86);
    out.push(65);
    out.push(76);
    proof {
        assert(out@ =~= old(out)@ + lit_ocp_val());
    }
}

fn push_ocp_stat(out: &mut Vec<u8>)
    ensures
        final(out)@ == old(out)@ + lit_ocp_stat(),
{
    out.push(58);
    out.push(79);
    out.push(67);
    out.push(80);
    out.push(58);
    out.push(83);
    out.push(84);
    out.push(65);
    out.push(84);
    proof {
        assert(out@ =~= old(out)@ + lit_ocp_stat());
    }
}

fn push_ovp_val(out: &mut Vec<u8>)
    ensures
        final(out)@ == old(out)@ + lit_ovp_val(),
{
    out.push(58);
    out.push(79);
    out.push(86);
    out.push(80);
    out.push(58);
    out.push(86);
    out.push(65);
    out.push(76);
    proof {
        assert(out@ =~= old(out)@ + lit_ovp_val());
    }
}

fn push_ovp_stat(out: &mut Vec<u8>)
    ensures
        final(out)@ == old(out)@ + lit_ovp_stat(),
{
    out.push(58);
    out.push(79);
    out.push(86);
    out.push(80);
    out.push(58);
    out.push(83);
    out.push(84);
    out.push(65);
    out.push(84);
    proof {
        assert(out@ =~= old(out)@ + lit_ovp_stat());
    }
}

fn push_idn(out: &mut Vec<u8>)
    ensures
        final(out)@ == old(out)@ + lit_idn(),
{
    out.push(42);
    out.push(73);
    out.push(68);
    out.push(78);
    proof {
        assert(out@ =~= old(out)@ + lit_idn());
    }
}

fn push_channel(out: &mut Vec<u8>, ch: u8)
    ensures
        final(out)@ == old(out)@ + spec_digits(ch as nat),
{
    let mut digits: Vec<u8> = format_digits(ch as u64);
    out.append(&mut digits);
}

fn push_value(out: &mut Vec<u8>, v: Fixed)
    requires
        fixed_wf(v),
    ensures
        final(out)@ == old(out)@ + spec_format_fixed(v.thousandths as int),
{
    let mut bytes: Vec<u8> = format_fixed(v);
    out.append(&mut bytes);
}

fn push_toggle(out: &mut Vec<u8>, on: bool)
    ensures
        final(out)@ == old(out)@ + spec_toggle_bytes(on),
{
    let mut bytes: Vec<u8> = toggle_bytes(on);
    out.append(&mut bytes);
}

/// `*IDN?`
pub open spec fn spec_identify_cmd() -> Seq<u8> {
    lit_idn() + seq![63u8, 10u8]
}

/// Encode the identify query.
pub fn encode_identify() -> (r: Vec<u8>)
    ensures
        r@ == spec_identify_cmd(),
{
    let mut out: Vec<u8> = Vec::new();
    push_idn(&mut out);
    out.push(63);
    out.push(10);
    proof {
        assert(out@ =~= spec_identify_cmd());
    }
    out
}

/// `:OUTP? CH{n}`
pub open spec fn spec_output_query(ch: u8) -> Seq<u8> {
    lit_outp() + lit_query_ch() + spec_digits(ch as nat) + seq![10u8]
}

/// Encode the output-state query for one channel.
pub fn encode_output_query(ch: u8) -> (r: Vec<u8>)
    ensures
        r@ == spec_output_query(ch),
{
    let mut out: Vec<u8> = Vec::new();
    push_outp(&mut out);
    push_query_ch(&mut out);
    push_channel(&mut out, ch);
    out.push(10);
    proof {
        assert(out@ =~= spec_output_query(ch));
    }
    out
}

/// `:OUTP CH{n},{ON|OFF}`
pub open spec fn spec_output_set(ch: u8, on: bool) -> Seq<u8> {
    lit_outp() + lit_space_ch() + spec_digits(ch as nat) + seq![44u8] + spec_toggle_bytes(on)
        + seq![10u8]
}

/// Encode the output-state command for one channel.
pub fn encode_output_set(ch: u8, on: bool) -> (r: Vec<u8>)
    ensures
        r@ == spec_output_set(ch, on),
{
    let mut out: Vec<u8> = Vec::new();
    push_outp(&mut out);
    push_space_ch(&mut out);
    push_channel(&mut out, ch);
    out.push(44);
    push_toggle(&mut out, on);
    out.push(10);
    proof {
        assert(out@ =~= spec_output_set(ch, on));
    }
    out
}

/// `:INST:NSEL?`
pub open spec fn spec_channel_query() -> Seq<u8> {
    lit_inst_nsel() + seq![63u8, 10u8]
}

/// Encode the selected-channel query.
pub fn encode_channel_query() -> (r: Vec<u8>)
    ensures
        r@ == spec_channel_query(),
{
    let mut out: Vec<u8> = Vec::new();
    push_inst_nsel(&mut out);
    out.push(63);
    out.push(10);
    proof {
        assert(out@ =~= spec_channel_query());
    }
    out
}

/// `:INST:NSEL {n}`
pub open spec fn spec_channel_set(ch: u8) -> Seq<u8> {
    lit_inst_nsel() + seq![32u8] + spec_digits(ch as nat) + seq![10u8]
}

/// Encode the channel-select command.
pub fn encode_channel_set(ch: u8) -> (r: Vec<u8>)
    ensures
        r@ == spec_channel_set(ch),
{
    let mut out: Vec<u8> = Vec::new();
    push_inst_nsel(&mut out);
    out.push(32);
    push_channel(&mut out, ch);
    out.push(10);
    proof {
        assert(out@ =~= spec_channel_set(ch));
    }
    out
}

/// `:SOUR{n}:CURR?`
pub open spec fn spec_current_query(ch: u8) -> Seq<u8> {
    lit_sour() + spec_digits(ch as nat) + lit_curr() + seq![63u8, 10u8]
}

/// Encode the current-setpoint query for one channel.
pub fn encode_current_query(ch: u8) -> (r: Vec<u8>)
    ensures
        r@ == spec_current_query(ch),
{
    let mut out: Vec<u8> = Vec::new();
    push_sour(&mut out);
    push_channel(&mut out, ch);
    push_curr(&mut out);
    out.push(63);
    out.push(10);
    proof {
        assert(out@ =~= spec_current_query(ch));
    }
    out
}

/// `:SOUR{n}:CURR {x:.3}`
pub open spec fn spec_current_set(ch: u8, t: int) -> Seq<u8> {
    lit_sour() + spec_digits(ch as nat) + lit_curr() + seq![32u8] + spec_format_fixed(t)
        + seq![10u8]
}

/// Encode the current-setpoint command for one channel.
pub fn encode_current_set(ch: u8, amps: Fixed) -> (r: Vec<u8>)
    requires
        fixed_wf(amps),
    ensures
        r@ == spec_current_set(ch, amps.thousandths as int),
{
    let mut out: Vec<u8> = Vec::new();
    push_sour(&mut out);
    push_channel(&mut out, ch);
    push_curr(&mut out);
    out.push(32);
    push_value(&mut out, amps);
    out.push(10);
    proof {
        assert(out@ =~= spec_current_set(ch, amps.thousandths as int));
    }
    out
}

/// `:SOUR{n}:VOLT?`
pub open spec fn spec_voltage_query(ch: u8) -> Seq<u8> {
    lit_sour() + spec_digits(ch as nat) + lit_volt() + seq![63u8, 10u8]
}

/// Encode the voltage-setpoint query for one channel.
pub fn encode_voltage_query(ch: u8) -> (r: Vec<u8>)
    ensures
        r@ == spec_voltage_query(ch),
{
    let mut out: Vec<u8> = Vec::new();
    push_sour(&mut out);
    push_channel(&mut out, ch);
    push_volt(&mut out);
    out.push(63);
    out.push(10);
    proof {
        assert(out@ =~= spec_voltage_query(ch));
    }
    out
}

/// `:SOUR{n}:VOLT {x:.3}`
pub open spec fn spec_voltage_set(ch: u8, t: int) -> Seq<u8> {
    lit_sour() + spec_digits(ch as nat) + lit_volt() + seq![32u8] + spec_format_fixed(t)
        + seq![10u8]
}

/// Encode the voltage-setpoint command for one channel.
pub fn encode_voltage_set(ch: u8, volts: Fixed) -> (r: Vec<u8>)
    requires
        fixed_wf(volts),
    ensures
        r@ == spec_voltage_set(ch, volts.thousandths as int),
{
    let mut out: Vec<u8> = Vec::new();
    push_sour(&mut out);
    push_channel(&mut out, ch);
    push_volt(&mut out);
    out.push(32);
    push_value(&mut out, volts);
    out.push(10);
    proof {
        assert(out@ =~= spec_voltage_set(ch, volts.thousandths as int));
    }
    out
}

/// `:MEAS:ALL? CH{n}`
pub open spec fn spec_measure_query(ch: u8) -> Seq<u8> {
    lit_meas_all() + lit_query_ch() + spec_digits(ch as nat) + seq![10u8]
}

/// Encode the all-readings measurement query for one channel.
pub fn encode_measure_query(ch: u8) -> (r: Vec<u8>)
    ensures
        r@ == spec_measure_query(ch),
{
    let mut out: Vec<u8> = Vec::new();
    push_meas_all(&mut out);
    push_query_ch(&mut out);
    push_channel(&mut out, ch);
    out.push(10);
    proof {
        assert(out@ =~= spec_measure_query(ch));
    }
    out
}

/// `:OUTP:OCP:VAL? CH{n}`
pub open spec fn spec_ocp_query(ch: u8) -> Seq<u8> {
    lit_outp() + lit_ocp_val() + lit_query_ch() + spec_digits(ch as nat) + seq![10u8]
}

/// Encode the over-current limit query for one channel.
pub fn encode_ocp_query(ch: u8) -> (r: Vec<u8>)
    ensures
        r@ == spec_ocp_query(ch),
{
    let mut out: Vec<u8> = Vec::new();
    push_outp(&mut out);
    push_ocp_val(&mut out);
    push_query_ch(&mut out);
    push_channel(&mut out, ch);
    out.push(10);
    proof {
        assert(out@ =~= spec_ocp_query(ch));
    }
    out
}

/// `:OUTP:OCP:VAL CH{n},{x:.3}`
pub open spec fn spec_ocp_set(ch: u8, t: int) -> Seq<u8> {
    lit_outp() + lit_ocp_val() + lit_space_ch() + spec_digits(ch as nat) + seq![44u8]
        + spec_format_fixed(t) + seq![10u8]
}

/// Encode the over-current limit command for one channel.
pub fn encode_ocp_set(ch: u8, amps: Fixed) -> (r: Vec<u8>)
    requires
        fixed_wf(amps),
    ensures
        r@ == spec_ocp_set(ch, amps.thousandths as int),
{
    let mut out: Vec<u8> = Vec::new();
    push_outp(&mut out);
    push_ocp_val(&mut out);
    push_space_ch(&mut out);
    push_channel(&mut out, ch);
    out.push(44);
    push_value(&mut out, amps);
    out.push(10);
    proof {
        assert(out@ =~= spec_ocp_set(ch, amps.thousandths as int));
    }
    out
}

/// `:OUTP:OCP:STAT? CH{n}`
pub open spec fn spec_ocp_on_query(ch: u8) -> Seq<u8> {
    lit_outp() + lit_ocp_stat() + lit_query_ch() + spec_digits(ch as nat) + seq![10u8]
}

/// Encode the over-current protection enabled query for one channel.
pub fn encode_ocp_on_query(ch: u8) -> (r: Vec<u8>)
    ensures
        r@ == spec_ocp_on_query(ch),
{
    let mut out: Vec<u8> = Vec::new();
    push_outp(&mut out);
    push_ocp_stat(&mut out);
    push_query_ch(&mut out);
    push_channel(&mut out, ch);
    out.push(10);
    proof {
        assert(out@ =~= spec_ocp_on_query(ch));
    }
    out
}

/// `:OUTP:OCP:STAT CH{n},{ON|OFF}`
pub open spec fn spec_ocp_on_set(ch: u8, on: bool) -> Seq<u8> {
    lit_outp() + lit_ocp_stat() + lit_space_ch() + spec_digits(ch as nat) + seq![44u8]
        + spec_toggle_bytes(on) + seq![10u8]
}

/// Encode the over-current protection enabled command for one channel.
pub fn encode_ocp_on_set(ch: u8, on: bool) -> (r: Vec<u8>)
    ensures
        r@ == spec_ocp_on_set(ch, on),
{
    let mut out: Vec<u8> = Vec::new();
    push_outp(&mut out);
    push_ocp_stat(&mut out);
    push_space_ch(&mut out);
    push_channel(&mut out, ch);
    out.push(44);
    push_toggle(&mut out, on);
    out.push(10);
    proof {
        assert(out@ =~= spec_ocp_on_set(ch, on));
    }
    out
}

/// `:OUTP:OVP:VAL? CH{n}`
pub open spec fn spec_ovp_query(ch: u8) -> Seq<u8> {
    lit_outp() + lit_ovp_val() + lit_query_ch() + spec_digits(ch as nat) + seq![10u8]
}

/// Encode the over-voltage limit query for one channel.
pub fn encode_ovp_query(ch: u8) -> (r: Vec<u8>)
    ensures
        r@ == spec_ovp_query(ch),
{
    let mut out: Vec<u8> = Vec::new();
    push_outp(&mut out);
    push_ovp_val(&mut out);
    push_query_ch(&mut out);
    push_channel(&mut out, ch);
    out.push(10);
    proof {
        assert(out@ =~= spec_ovp_query(ch));
    }
    out
}

/// `:OUTP:OVP:VAL CH{n},{x:.3}`
pub open spec fn spec_ovp_set(ch: u8, t: int) -> Seq<u8> {
    lit_outp() + lit_ovp_val() + lit_space_ch() + spec_digits(ch as nat) + seq![44u8]
        + spec_format_fixed(t) + seq![10u8]
}

/// Encode the over-voltage limit command for one channel.
pub fn encode_ovp_set(ch: u8, volts: Fixed) -> (r: Vec<u8>)
    requires
        fixed_wf(volts),
    ensures
        r@ == spec_ovp_set(ch, volts.thousandths as int),
{
    let mut out: Vec<u8> = Vec::new();
    push_outp(&mut out);
    push_ovp_val(&mut out);
    push_space_ch(&mut out);
    push_channel(&mut out, ch);
    out.push(44);
    push_value(&mut out, volts);
    out.push(10);
    proof {
        assert(out@ =~= spec_ovp_set(ch, volts.thousandths as int));
    }
    out
}

/// `:OUTP:OVP:STAT? CH{n}`
pub open spec fn spec_ovp_on_query(ch: u8) -> Seq<u8> {
    lit_outp() + lit_ovp_stat() + lit_query_ch() + spec_digits(ch as nat) + seq![10u8]
}

/// Encode the over-voltage protection enabled query for one channel.
pub fn encode_ovp_on_query(ch: u8) -> (r: Vec<u8>)
    ensures
        r@ == spec_ovp_on_query(ch),
{
    let mut out: Vec<u8> = Vec::new();
    push_outp(&mut out);
    push_ovp_stat(&mut out);
    push_query_ch(&mut out);
    push_channel(&mut out, ch);
    out.push(10);
    proof {
        assert(out@ =~= spec_ovp_on_query(ch));
    }
    out
}

/// `:OUTP:OVP:STAT CH{n},{ON|OFF}`
pub open spec fn spec_ovp_on_set(ch: u8, on: bool) -> Seq<u8> {
    lit_outp() + lit_ovp_stat() + lit_space_ch() + spec_digits(ch as nat) + seq![44u8]
        + spec_toggle_bytes(on) + seq![10u8]
}

/// Encode the over-voltage protection enabled command for one channel.
pub fn encode_ovp_on_set(ch: u8, on: bool) -> (r: Vec<u8>)
    ensures
        r@ == spec_ovp_on_set(ch, on),
{
    let mut out: Vec<u8> = Vec::new();
    push_outp(&mut out);
    push_ovp_stat(&mut out);
    push_space_ch(&mut out);
    push_channel(&mut out, ch);
    out.push(44);
    push_toggle(&mut out, on);
    out.push(10);
    proof {
        assert(out@ =~= spec_ovp_on_set(ch, on));
    }
    out
}

} // verus!

//! Exact wire lines produced by the command encoders.

use dp832::commands::{
    encode_channel_query, encode_channel_set, encode_current_query, encode_current_set,
    encode_identify, encode_measure_query, encode_ocp_on_query, encode_ocp_on_set,
    encode_ocp_query, encode_ocp_set, encode_output_query, encode_output_set,
    encode_ovp_on_query, encode_ovp_on_set, encode_ovp_query, encode_ovp_set,
    encode_voltage_query, encode_voltage_set,
};
use dp832::fixed::Fixed;
use dp832::protocol::toggle_bytes;

#[test]
fn identify_line() {
    assert_eq!(encode_identify(), b"*IDN?\n".to_vec());
}

#[test]
fn output_lines() {
    assert_eq!(encode_output_query(2), b":OUTP? CH2\n".to_vec());
    assert_eq!(encode_output_set(1, true), b":OUTP CH1,ON\n".to_vec());
    assert_eq!(encode_output_set(3, false), b":OUTP CH3,OFF\n".to_vec());
}

#[test]
fn channel_lines() {
    assert_eq!(encode_channel_query(), b":INST:NSEL?\n".to_vec());
    assert_eq!(encode_channel_set(3), b":INST:NSEL 3\n".to_vec());
    assert_eq!(encode_channel_set(10), b":INST:NSEL 10\n".to_vec());
}

#[test]
fn setpoint_lines() {
    assert_eq!(encode_current_query(1), b":SOUR1:CURR?\n".to_vec());
    assert_eq!(
        encode_current_set(1, Fixed { thousandths: 500 }),
        b":SOUR1:CURR 0.500\n".to_vec()
    );
    assert_eq!(encode_voltage_query(2), b":SOUR2:VOLT?\n".to_vec());
    assert_eq!(
        encode_voltage_set(2, Fixed { thousandths: 12500 }),
        b":SOUR2:VOLT 12.500\n".to_vec()
    );
}

#[test]
fn measure_line() {
    assert_eq!(encode_measure_query(1), b":MEAS:ALL? CH1\n".to_vec());
}

#[test]
fn protection_value_lines() {
    assert_eq!(encode_ocp_query(1), b":OUTP:OCP:VAL? CH1\n".to_vec());
    assert_eq!(
        encode_ocp_set(2, Fixed { thousandths: 3200 }),
        b":OUTP:OCP:VAL CH2,3.200\n".to_vec()
    );
    assert_eq!(encode_ovp_query(3), b":OUTP:OVP:VAL? CH3\n".to_vec());
    assert_eq!(
        encode_ovp_set(1, Fixed { thousandths: 33000 }),
        b":OUTP:OVP:VAL CH1,33.000\n".to_vec()
    );
}

#[test]
fn protection_state_lines() {
    assert_eq!(encode_ocp_on_query(1), b":OUTP:OCP:STAT? CH1\n".to_vec());
    assert_eq!(encode_ocp_on_set(1, true), b":OUTP:OCP:STAT CH1,ON\n".to_vec());
    assert_eq!(encode_ovp_on_query(2), b":OUTP:OVP:STAT? CH2\n".to_vec());
    assert_eq!(encode_ovp_on_set(2, false), b":OUTP:OVP:STAT CH2,OFF\n".to_vec());
}

#[test]
fn toggle_wire_text() {
    assert_eq!(toggle_bytes(true), b"ON".to_vec());
    assert_eq!(toggle_bytes(false), b"OFF".to_vec());
}

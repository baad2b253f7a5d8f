//! The client, sampler and dispatcher against a scripted in-memory
//! transport.

use dp832::client::Dp800;
use dp832::fixed::Fixed;
use dp832::input::{dispatch, Action, SETTLE_MS};
use dp832::protocol::{Error, Measurement, Transport};
use dp832::sampler::{on_tick, sample_with_retry, RETRY_BACKOFF_MS};
use dp832::snapshot::{Data, Snapshot};

/// A deterministic double for the socket: answers queries from a script,
/// records every line written and every pause.
struct ScriptLink {
    script: Vec<Result<Vec<u8>, Error>>,
    command_error: Option<Error>,
    sent: Vec<Vec<u8>>,
    queries: usize,
    pauses: Vec<u64>,
}

impl ScriptLink {
    fn new(script: Vec<Result<Vec<u8>, Error>>) -> Self {
        ScriptLink { script, command_error: None, sent: Vec::new(), queries: 0, pauses: Vec::new() }
    }
}

impl Transport for ScriptLink {
    fn command(&mut self, line: &[u8]) -> Result<(), Error> {
        self.sent.push(line.to_vec());
        match self.command_error {
            Some(e) => Err(e),
            None => Ok(()),
        }
    }

    fn query(&mut self, line: &[u8]) -> Result<Vec<u8>, Error> {
        self.sent.push(line.to_vec());
        self.queries += 1;
        if self.script.is_empty() {
            Err(Error::Timeout)
        } else {
            self.script.remove(0)
        }
    }

    fn pause_ms(&mut self, ms: u64) {
        self.pauses.push(ms);
    }
}

fn ok_line(s: &[u8]) -> Result<Vec<u8>, Error> {
    Ok(s.to_vec())
}

fn channel_lines() -> Vec<Result<Vec<u8>, Error>> {
    vec![
        ok_line(b"1.100,0.200,0.300\n"),
        ok_line(b"ON\n"),
        ok_line(b"4.400\n"),
        ok_line(b"0.550\n"),
        ok_line(b"33.000\n"),
        ok_line(b"3.200\n"),
        ok_line(b"ON\n"),
        ok_line(b"OFF\n"),
    ]
}

fn sampled_channel() -> Data {
    Data {
        output_state: true,
        meas_voltage: Fixed { thousandths: 1100 },
        meas_current: Fixed { thousandths: 200 },
        meas_power: Fixed { thousandths: 300 },
        sp_voltage: Fixed { thousandths: 4400 },
        sp_current: Fixed { thousandths: 550 },
        limit_voltage: Fixed { thousandths: 33000 },
        limit_current: Fixed { thousandths: 3200 },
        ovp_on: true,
        ocp_on: false,
    }
}

#[test]
fn snapshot_starts_with_zeroed_channels() {
    let snap = Snapshot::new(3);
    assert_eq!(snap.channels.len(), 3);
    for d in &snap.channels {
        assert_eq!(*d, Data::default());
        assert_eq!(d.meas_voltage, Fixed { thousandths: 0 });
        assert!(!d.output_state);
    }
    for ch in 1..=3u8 {
        assert_eq!(*snap.ch_data(ch), Data::default());
    }
}

#[test]
fn query_measurement_line_parses() {
    let mut c = Dp800::new(ScriptLink::new(vec![ok_line(b"1.234,5.678,9.012\n")]));
    assert_eq!(
        c.measure(1),
        Ok(Measurement {
            voltage: Fixed { thousandths: 1234 },
            current: Fixed { thousandths: 5678 },
            power: Fixed { thousandths: 9012 },
        })
    );
    assert_eq!(c.transport().sent[0], b":MEAS:ALL? CH1\n".to_vec());
}

#[test]
fn query_measurement_with_two_fields_is_a_parse_error() {
    let mut c = Dp800::new(ScriptLink::new(vec![ok_line(b"1.234,5.678\n")]));
    assert_eq!(c.measure(1), Err(Error::Parse));
}

#[test]
fn query_toggle_lines() {
    let mut c = Dp800::new(ScriptLink::new(vec![
        ok_line(b"ON\n"),
        ok_line(b"OFF\n"),
        ok_line(b"MAYBE\n"),
    ]));
    assert_eq!(c.output_state(1), Ok(true));
    assert_eq!(c.output_state(1), Ok(false));
    assert_eq!(c.output_state(1), Err(Error::Parse));
}

#[test]
fn set_then_read_voltage_round_trips() {
    let mut c = Dp800::new(ScriptLink::new(vec![ok_line(b"12.500\n")]));
    let v = Fixed { thousandths: 12500 };
    assert_eq!(c.set_voltage(2, v), Ok(()));
    assert_eq!(c.voltage(2), Ok(v));
    assert_eq!(c.transport().sent[0], b":SOUR2:VOLT 12.500\n".to_vec());
    assert_eq!(c.transport().sent[1], b":SOUR2:VOLT?\n".to_vec());
}

#[test]
fn query_selected_channel() {
    let mut c = Dp800::new(ScriptLink::new(vec![ok_line(b"2\n")]));
    assert_eq!(c.ch(), Ok(2));
    assert_eq!(c.transport().sent[0], b":INST:NSEL?\n".to_vec());
}

#[test]
fn query_identify_line() {
    let mut c = Dp800::new(ScriptLink::new(vec![ok_line(
        b"RIGOL TECHNOLOGIES,DP832,DP8A0000000000,00.01.14\n",
    )]));
    let id = c.identify().unwrap();
    assert_eq!(id.model, "DP832");
    assert_eq!(c.transport().sent[0], b"*IDN?\n".to_vec());
}

#[test]
fn command_write_failure_surfaces_as_io() {
    let mut link = ScriptLink::new(vec![]);
    link.command_error = Some(Error::Io);
    let mut c = Dp800::new(link);
    assert_eq!(c.set_output_state(1, true), Err(Error::Io));
}

#[test]
fn tick_replaces_every_channel_after_all_queries_succeed() {
    let mut script = channel_lines();
    script.append(&mut channel_lines());
    script.append(&mut channel_lines());
    let mut c = Dp800::new(ScriptLink::new(script));
    let mut snap = Snapshot::new(3);
    assert_eq!(on_tick(&mut c, &mut snap), Ok(()));
    for i in 0..3 {
        assert_eq!(snap.channels[i], sampled_channel());
    }
    assert_eq!(c.transport().queries, 24);
}

#[test]
fn tick_failure_leaves_failed_and_later_channels_untouched() {
    let mut script = channel_lines();
    script.push(Err(Error::Timeout));
    let mut c = Dp800::new(ScriptLink::new(script));
    let mut snap = Snapshot::new(3);
    assert_eq!(on_tick(&mut c, &mut snap), Err(Error::Timeout));
    assert_eq!(snap.channels[0], sampled_channel());
    assert_eq!(snap.channels[1], Data::default());
    assert_eq!(snap.channels[2], Data::default());
}

#[test]
fn retry_succeeds_on_third_attempt_and_updates_snapshot() {
    let mut script = vec![Err(Error::Timeout), Err(Error::Timeout)];
    script.append(&mut channel_lines());
    let mut c = Dp800::new(ScriptLink::new(script));
    let mut snap = Snapshot::new(1);
    assert_eq!(sample_with_retry(&mut c, &mut snap), Ok(()));
    assert_eq!(snap.channels[0], sampled_channel());
    assert_eq!(c.transport().queries, 10);
    assert_eq!(c.transport().pauses, vec![RETRY_BACKOFF_MS, RETRY_BACKOFF_MS]);
}

#[test]
fn retry_gives_up_after_three_timeouts_with_snapshot_unchanged() {
    let mut c = Dp800::new(ScriptLink::new(vec![]));
    let mut snap = Snapshot::new(1);
    assert_eq!(sample_with_retry(&mut c, &mut snap), Err(Error::Timeout));
    assert_eq!(snap.channels[0], Data::default());
    assert_eq!(c.transport().queries, 3);
    assert_eq!(c.transport().pauses, vec![RETRY_BACKOFF_MS, RETRY_BACKOFF_MS]);
}

#[test]
fn retry_does_not_retry_a_non_timeout_error() {
    let mut c = Dp800::new(ScriptLink::new(vec![Err(Error::Io)]));
    let mut snap = Snapshot::new(1);
    assert_eq!(sample_with_retry(&mut c, &mut snap), Err(Error::Io));
    assert_eq!(c.transport().queries, 1);
    assert_eq!(c.transport().pauses, Vec::<u64>::new());
}

#[test]
fn dispatch_select_channel_then_settles() {
    let mut c = Dp800::new(ScriptLink::new(vec![]));
    assert_eq!(dispatch(&mut c, &Action::SelectChannel(2)), Ok(()));
    assert_eq!(c.transport().sent[0], b":INST:NSEL 2\n".to_vec());
    assert_eq!(c.transport().pauses, vec![SETTLE_MS]);
}

#[test]
fn dispatch_set_calls_send_exact_lines() {
    let mut c = Dp800::new(ScriptLink::new(vec![]));
    let v = Fixed { thousandths: 12500 };
    assert_eq!(dispatch(&mut c, &Action::SetVoltage(2, v)), Ok(()));
    assert_eq!(dispatch(&mut c, &Action::SetOutput(1, false)), Ok(()));
    assert_eq!(dispatch(&mut c, &Action::SetOcpOn(3, true)), Ok(()));
    assert_eq!(dispatch(&mut c, &Action::Idle), Ok(()));
    assert_eq!(dispatch(&mut c, &Action::Quit), Ok(()));
    let sent = &c.transport().sent;
    assert_eq!(sent[0], b":SOUR2:VOLT 12.500\n".to_vec());
    assert_eq!(sent[1], b":OUTP CH1,OFF\n".to_vec());
    assert_eq!(sent[2], b":OUTP:OCP:STAT CH3,ON\n".to_vec());
    assert_eq!(sent.len(), 3);
}

//! The selection cursor and the input state machine.

use dp832::fixed::Fixed;
use dp832::input::{Action, InputEvent, InputState};
use dp832::selection::Vsel;
use dp832::snapshot::{Data, Snapshot};

const ALL_FIELDS: [Vsel; 7] = [
    Vsel::Measure,
    Vsel::SetVolt,
    Vsel::SetAmp,
    Vsel::Ovp,
    Vsel::Ocp,
    Vsel::OvpOn,
    Vsel::OcpOn,
];

#[test]
fn next_cycles_with_period_seven() {
    for start in ALL_FIELDS {
        let mut v = start;
        for _ in 0..7 {
            v = v.next();
        }
        assert_eq!(v, start);
    }
}

#[test]
fn prev_inverts_next() {
    for v in ALL_FIELDS {
        assert_eq!(v.next().prev(), v);
        assert_eq!(v.prev().next(), v);
    }
}

#[test]
fn next_order_is_fixed() {
    assert_eq!(Vsel::Measure.next(), Vsel::SetVolt);
    assert_eq!(Vsel::SetVolt.next(), Vsel::SetAmp);
    assert_eq!(Vsel::SetAmp.next(), Vsel::Ovp);
    assert_eq!(Vsel::Ovp.next(), Vsel::Ocp);
    assert_eq!(Vsel::Ocp.next(), Vsel::OvpOn);
    assert_eq!(Vsel::OvpOn.next(), Vsel::OcpOn);
    assert_eq!(Vsel::OcpOn.next(), Vsel::Measure);
}

#[test]
fn list_positions() {
    assert_eq!(Vsel::Measure.list_idx(), None);
    assert_eq!(Vsel::SetVolt.list_idx(), Some(0));
    assert_eq!(Vsel::SetAmp.list_idx(), Some(1));
    assert_eq!(Vsel::Ovp.list_idx(), Some(0));
    assert_eq!(Vsel::Ocp.list_idx(), Some(1));
    assert_eq!(Vsel::OvpOn.list_idx(), Some(2));
    assert_eq!(Vsel::OcpOn.list_idx(), Some(3));
}

#[test]
fn text_entry_confirm_dispatches_set_voltage() {
    let snap = Snapshot::new(3);
    let mut m = InputState::new(3, 2);
    m.vsel = Vsel::SetVolt;
    assert_eq!(m.handle_event(InputEvent::Enter, &snap), Action::Idle);
    assert!(m.in_text_entry());
    for c in [b'1', b'2', b'.', b'5'] {
        assert_eq!(m.handle_event(InputEvent::Char(c), &snap), Action::Idle);
    }
    let a = m.handle_event(InputEvent::Enter, &snap);
    assert_eq!(a, Action::SetVoltage(2, Fixed { thousandths: 12500 }));
    assert!(!m.in_text_entry());
    assert!(m.entry.is_none());
}

#[test]
fn text_entry_cancel_dispatches_nothing() {
    let snap = Snapshot::new(3);
    let mut m = InputState::new(3, 2);
    m.vsel = Vsel::SetVolt;
    assert_eq!(m.handle_event(InputEvent::Enter, &snap), Action::Idle);
    assert_eq!(m.handle_event(InputEvent::Char(b'1'), &snap), Action::Idle);
    assert_eq!(m.handle_event(InputEvent::Char(b'2'), &snap), Action::Idle);
    assert_eq!(m.handle_event(InputEvent::Esc, &snap), Action::Idle);
    assert!(!m.in_text_entry());
    assert_eq!(m.vsel, Vsel::SetVolt);
}

#[test]
fn text_entry_filters_and_caps_characters() {
    let snap = Snapshot::new(3);
    let mut m = InputState::new(3, 1);
    m.vsel = Vsel::Ocp;
    m.handle_event(InputEvent::Enter, &snap);
    m.handle_event(InputEvent::Char(b'x'), &snap);
    m.handle_event(InputEvent::Char(b' '), &snap);
    assert_eq!(m.entry.as_ref().unwrap().text, b"".to_vec());
    for _ in 0..20 {
        m.handle_event(InputEvent::Char(b'1'), &snap);
    }
    assert_eq!(m.entry.as_ref().unwrap().text.len(), 16);
}

#[test]
fn text_entry_backspace_removes_last() {
    let snap = Snapshot::new(3);
    let mut m = InputState::new(3, 1);
    m.vsel = Vsel::SetAmp;
    m.handle_event(InputEvent::Enter, &snap);
    m.handle_event(InputEvent::Char(b'3'), &snap);
    m.handle_event(InputEvent::Char(b'4'), &snap);
    m.handle_event(InputEvent::Backspace, &snap);
    assert_eq!(m.entry.as_ref().unwrap().text, b"3".to_vec());
    m.handle_event(InputEvent::Backspace, &snap);
    m.handle_event(InputEvent::Backspace, &snap);
    assert_eq!(m.entry.as_ref().unwrap().text, b"".to_vec());
    assert!(m.in_text_entry());
}

#[test]
fn text_entry_rejects_malformed_number_at_confirm() {
    let snap = Snapshot::new(3);
    let mut m = InputState::new(3, 1);
    m.vsel = Vsel::SetVolt;
    m.handle_event(InputEvent::Enter, &snap);
    m.handle_event(InputEvent::Char(b'.'), &snap);
    let a = m.handle_event(InputEvent::Enter, &snap);
    assert_eq!(a, Action::Idle);
    assert!(m.in_text_entry());
    let a = m.handle_event(InputEvent::Backspace, &snap);
    assert_eq!(a, Action::Idle);
    let a = m.handle_event(InputEvent::Enter, &snap);
    assert_eq!(a, Action::Idle);
    assert!(m.in_text_entry());
}

#[test]
fn channel_cursor_wraps_both_ways() {
    let snap = Snapshot::new(3);
    let mut m = InputState::new(3, 3);
    assert_eq!(m.handle_event(InputEvent::Right, &snap), Action::SelectChannel(1));
    assert_eq!(m.ch, 1);
    assert_eq!(m.handle_event(InputEvent::Left, &snap), Action::SelectChannel(3));
    assert_eq!(m.ch, 3);
    assert_eq!(m.handle_event(InputEvent::Char(b'l'), &snap), Action::SelectChannel(1));
    assert_eq!(m.handle_event(InputEvent::Char(b'h'), &snap), Action::SelectChannel(3));
}

#[test]
fn field_cursor_moves_without_protocol_calls() {
    let snap = Snapshot::new(3);
    let mut m = InputState::new(3, 1);
    assert_eq!(m.handle_event(InputEvent::Down, &snap), Action::Idle);
    assert_eq!(m.vsel, Vsel::SetVolt);
    assert_eq!(m.handle_event(InputEvent::Up, &snap), Action::Idle);
    assert_eq!(m.vsel, Vsel::Measure);
    assert_eq!(m.handle_event(InputEvent::Up, &snap), Action::Idle);
    assert_eq!(m.vsel, Vsel::OcpOn);
    assert_eq!(m.handle_event(InputEvent::Char(b'j'), &snap), Action::Idle);
    assert_eq!(m.vsel, Vsel::Measure);
    assert_eq!(m.handle_event(InputEvent::Char(b'k'), &snap), Action::Idle);
    assert_eq!(m.vsel, Vsel::OcpOn);
}

#[test]
fn confirm_on_measure_toggles_known_output_state() {
    let mut snap = Snapshot::new(3);
    snap.channels[1] = Data {
        output_state: true,
        ..snap.channels[1]
    };
    let mut m = InputState::new(3, 2);
    let a = m.handle_event(InputEvent::Enter, &snap);
    assert_eq!(a, Action::SetOutput(2, false));
    let mut m1 = InputState::new(3, 1);
    let a1 = m1.handle_event(InputEvent::Enter, &snap);
    assert_eq!(a1, Action::SetOutput(1, true));
}

#[test]
fn confirm_on_toggle_fields_flips_flags() {
    let mut snap = Snapshot::new(3);
    snap.channels[0] = Data {
        ovp_on: true,
        ocp_on: false,
        ..snap.channels[0]
    };
    let mut m = InputState::new(3, 1);
    m.vsel = Vsel::OvpOn;
    assert_eq!(m.handle_event(InputEvent::Enter, &snap), Action::SetOvpOn(1, false));
    m.vsel = Vsel::OcpOn;
    assert_eq!(m.handle_event(InputEvent::Enter, &snap), Action::SetOcpOn(1, true));
}

#[test]
fn quit_key_works_in_both_modes() {
    let snap = Snapshot::new(3);
    let mut m = InputState::new(3, 1);
    assert_eq!(m.handle_event(InputEvent::Char(b'q'), &snap), Action::Quit);
    m.vsel = Vsel::SetVolt;
    m.handle_event(InputEvent::Enter, &snap);
    assert_eq!(m.handle_event(InputEvent::Char(b'q'), &snap), Action::Quit);
}

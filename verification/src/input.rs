//! The input state machine of the interactive control surface.
//!
//! Two modes: navigation, where keys move the channel and field cursors
//! and confirm toggles or opens an editor, and text entry, where digits
//! and a decimal point are collected for one editable field. Every event
//! maps to a new state and at most one protocol [`Action`], fixed exactly
//! by [`spec_step`]; malformed numeric text is rejected at the edit
//! boundary — confirming it leaves the editor open and issues nothing.

use vstd::prelude::*;
use crate::client::Dp800;
use crate::fixed::Fixed;
use crate::fixed::digit_byte;
use crate::fixed::fixed_wf;
use crate::fixed::parse_fixed;
use crate::fixed::spec_parse_fixed;
use crate::protocol::Error;
use crate::protocol::Transport;
use crate::selection::Vsel;
use crate::selection::spec_next;
use crate::selection::spec_prev;
use crate::snapshot::Data;
use crate::snapshot::Snapshot;

verus! {

/// Pause after a channel-select command, in milliseconds: switching
/// channels too quickly desynchronizes the device's command context.
pub const SETTLE_MS: u64 = 50;

/// Longest text the entry buffer accepts, in bytes.
pub const ENTRY_CAP: usize = 16;

/// One discrete input event, as the terminal delivers it.
#[derive(Clone, Copy, Debug, PartialEq, Eq, Structural)]
pub enum InputEvent {
    /// A printable key, as its ASCII byte.
    Char(u8),
    /// The confirm key.
    Enter,
    /// The delete-backwards key.
    Backspace,
    /// The cancel key.
    Esc,
    /// Cursor up.
    Up,
    /// Cursor down.
    Down,
    /// Cursor left.
    Left,
    /// Cursor right.
    Right,
}

/// The protocol call, if any, that one input event asks for.
#[derive(Clone, Copy, Debug, PartialEq, Eq, Structural)]
pub enum Action {
    /// Nothing to issue.
    Idle,
    /// Leave the control loop.
    Quit,
    /// Select the channel, then hold the settle delay.
    SelectChannel(u8),
    /// Set the output state of the channel.
    SetOutput(u8, bool),
    /// Set the voltage setpoint of the channel.
    SetVoltage(u8, Fixed),
    /// Set the current setpoint of the channel.
    SetCurrent(u8, Fixed),
    /// Set the over-voltage protection limit of the channel.
    SetOvp(u8, Fixed),
    /// Set the over-current protection limit of the channel.
    SetOcp(u8, Fixed),
    /// Enable or disable over-voltage protection of the channel.
    SetOvpOn(u8, bool),
    /// Enable or disable over-current protection of the channel.
    SetOcpOn(u8, bool),
}

/// Every value an action carries is in range.
pub open spec fn action_wf(a: Action) -> bool {
    match a {
        Action::SetVoltage(_, v) => fixed_wf(v),
        Action::SetCurrent(_, v) => fixed_wf(v),
        Action::SetOvp(_, v) => fixed_wf(v),
        Action::SetOcp(_, v) => fixed_wf(v),
        _ => true,
    }
}

/// Pending text entry: the edited field and the collected bytes.
#[derive(Debug)]
pub struct Entry {
    /// The field the entered number will be sent to.
    pub target: Vsel,
    /// The collected bytes, digits and at most conceptually one dot.
    pub text: Vec<u8>,
}

/// The input state machine: channel cursor, field cursor, and the
/// optional text-entry sub-mode.
#[derive(Debug)]
pub struct InputState {
    /// How many channels the device has.
    pub channel_count: u8,
    /// The selected channel, 1-indexed, wrapping within the channel
    /// count.
    pub ch: u8,
    /// The selected field.
    pub vsel: Vsel,
    /// The pending text entry while in the entry sub-mode.
    pub entry: Option<Entry>,
}

/// The machine as a mathematical value: the entry buffer becomes a byte
/// sequence.
pub ghost struct MachineView {
    /// How many channels the device has.
    pub channel_count: u8,
    /// The selected channel.
    pub ch: u8,
    /// The selected field.
    pub vsel: Vsel,
    /// The pending entry: edited field and collected bytes.
    pub entry: Option<(Vsel, Seq<u8>)>,
}

impl View for InputState {
    type V = MachineView;

    open spec fn view(&self) -> MachineView {
        MachineView {
            channel_count: self.channel_count,
            ch: self.ch,
            vsel: self.vsel,
            entry: match self.entry {
                Option::Some(e) => Option::Some((e.target, e.text@)),
                Option::None => Option::None,
            },
        }
    }
}

/// A field that opens the text editor when confirmed.
pub open spec fn editable_field(v: Vsel) -> bool {
    v == Vsel::SetVolt || v == Vsel::SetAmp || v == Vsel::Ovp || v == Vsel::Ocp
}

/// A byte the entry buffer accepts.
pub open spec fn digit_or_dot(b: u8) -> bool {
    digit_byte(b) || b == 46
}

/// Machine invariant: the channel cursor stays within the channel count,
/// and a pending entry targets an editable field with a capped buffer of
/// accepted bytes only.
pub open spec fn machine_wf(v: MachineView) -> bool {
    &&& 1 <= v.channel_count
    &&& 1 <= v.ch <= v.channel_count
    &&& match v.entry {
        Option::Some(e) => editable_field(e.0) && e.1.len() <= ENTRY_CAP && forall|k: int|
            0 <= k < e.1.len() ==> digit_or_dot(#[trigger] e.1[k]),
        Option::None => true,
    }
}

/// The channel after moving right: one up, wrapping to 1 past the last.
pub open spec fn spec_channel_next(v: MachineView) -> u8 {
    if v.ch >= v.channel_count {
        1u8
    } else {
        (v.ch + 1) as u8
    }
}

/// The channel after moving left: one down, wrapping to the last below 1.
pub open spec fn spec_channel_prev(v: MachineView) -> u8 {
    if v.ch <= 1 {
        v.channel_count
    } else {
        (v.ch - 1) as u8
    }
}

/// The set call a confirmed entry dispatches for its target field.
pub open spec fn spec_set_action(target: Vsel, ch: u8, t: int) -> Action {
    match target {
        Vsel::SetVolt => Action::SetVoltage(ch, Fixed { thousandths: t as i64 }),
        Vsel::SetAmp => Action::SetCurrent(ch, Fixed { thousandths: t as i64 }),
        Vsel::Ovp => Action::SetOvp(ch, Fixed { thousandths: t as i64 }),
        Vsel::Ocp => Action::SetOcp(ch, Fixed { thousandths: t as i64 }),
        _ => Action::Idle,
    }
}

/// One step of the text-entry sub-mode.
///
/// Digits and the dot append below the cap; backspace removes the last
/// byte; cancel discards the entry; confirm parses the buffer and, only
/// if it is a number, dispatches the set call and leaves the sub-mode —
/// malformed text keeps the editor open. The quit key works here too.
pub open spec fn spec_entry_step(
    v: MachineView,
    target: Vsel,
    text: Seq<u8>,
    ev: InputEvent,
) -> (MachineView, Action) {
    match ev {
        InputEvent::Char(c) => if c == 113 {
            (v, Action::Quit)
        } else if digit_or_dot(c) && text.len() < ENTRY_CAP {
            (
                MachineView {
                    entry: Option::Some((target, text.push(c))),
                    ..v
                },
                Action::Idle,
            )
        } else {
            (v, Action::Idle)
        },
        InputEvent::Backspace => if text.len() > 0 {
            (
                MachineView {
                    entry: Option::Some((target, text.drop_last())),
                    ..v
                },
                Action::Idle,
            )
        } else {
            (v, Action::Idle)
        },
        InputEvent::Esc => (MachineView { entry: Option::None, ..v }, Action::Idle),
        InputEvent::Enter => match spec_parse_fixed(text) {
            Option::Some(t) => (
                MachineView { entry: Option::None, ..v },
                spec_set_action(target, v.ch, t),
            ),
            Option::None => (v, Action::Idle),
        },
        _ => (v, Action::Idle),
    }
}

/// One step of navigation mode.
///
/// Left/right (or `h`/`l`) move the channel cursor with wraparound and
/// ask for the channel select; up/down (or `k`/`j`) move the field cursor
/// cyclically with no call; confirm toggles the output on the measurement
/// field, toggles a protection flag on a toggle field, and opens an empty
/// editor on an editable field; `q` quits.
pub open spec fn spec_nav_step(v: MachineView, ev: InputEvent, chans: Seq<Data>) -> (
    MachineView,
    Action,
) {
    match ev {
        InputEvent::Char(c) => if c == 113 {
            (v, Action::Quit)
        } else if c == 108 {
            (
                MachineView { ch: spec_channel_next(v), ..v },
                Action::SelectChannel(spec_channel_next(v)),
            )
        } else if c == 104 {
            (
                MachineView { ch: spec_channel_prev(v), ..v },
                Action::SelectChannel(spec_channel_prev(v)),
            )
        } else if c == 107 {
            (MachineView { vsel: spec_prev(v.vsel), ..v }, Action::Idle)
        } else if c == 106 {
            (MachineView { vsel: spec_next(v.vsel), ..v }, Action::Idle)
        } else {
            (v, Action::Idle)
        },
        InputEvent::Right => (
            MachineView { ch: spec_channel_next(v), ..v },
            Action::SelectChannel(spec_channel_next(v)),
        ),
        InputEvent::Left => (
            MachineView { ch: spec_channel_prev(v), ..v },
            Action::SelectChannel(spec_channel_prev(v)),
        ),
        InputEvent::Up => (MachineView { vsel: spec_prev(v.vsel), ..v }, Action::Idle),
        InputEvent::Down => (MachineView { vsel: spec_next(v.vsel), ..v }, Action::Idle),
        InputEvent::Enter => match v.vsel {
            Vsel::Measure => (
                v,
                Action::SetOutput(v.ch, !chans[v.ch - 1].output_state),
            ),
            Vsel::OvpOn => (v, Action::SetOvpOn(v.ch, !chans[v.ch - 1].ovp_on)),
            Vsel::OcpOn => (v, Action::SetOcpOn(v.ch, !chans[v.ch - 1].ocp_on)),
            _ => (
                MachineView {
                    entry: Option::Some((v.vsel, Seq::empty())),
                    ..v
                },
                Action::Idle,
            ),
        },
        _ => (v, Action::Idle),
    }
}

/// One step of the machine: the entry sub-mode handles the event if it is
/// active, navigation otherwise.
pub open spec fn spec_step(v: MachineView, ev: InputEvent, chans: Seq<Data>) -> (
    MachineView,
    Action,
) {
    match v.entry {
        Option::Some(e) => spec_entry_step(v, e.0, e.1, ev),
        Option::None => spec_nav_step(v, ev, chans),
    }
}

/// Law: the machine invariant holds in every reachable state — one step
/// from any well-formed state, on any event and any snapshot, lands in a
/// well-formed state, and every value the emitted action carries is in
/// range.
pub proof fn lemma_step_preserves_wf(v: MachineView, ev: InputEvent, chans: Seq<Data>)
    requires
        machine_wf(v),
    ensures
        machine_wf(spec_step(v, ev, chans).0),
        action_wf(spec_step(v, ev, chans).1),
{
    match v.entry {
        Option::Some(e) => {
            match ev {
                InputEvent::Char(c) => {
                    if c != 113 && digit_or_dot(c) && e.1.len() < ENTRY_CAP {
                        assert forall|k: int| 0 <= k < e.1.push(c).len() implies digit_or_dot(
                            #[trigger] e.1.push(c)[k],
                        ) by {
                            if k < e.1.len() {
                                assert(e.1.push(c)[k] == e.1[k]);
                            }
                        }
                    }
                },
                InputEvent::Backspace => {
                    if e.1.len() > 0 {
                        assert forall|k: int| 0 <= k < e.1.drop_last().len() implies digit_or_dot(
                            #[trigger] e.1.drop_last()[k],
                        ) by {
                            assert(e.1.drop_last()[k] == e.1[k]);
                        }
                    }
                },
                InputEvent::Enter => {
                    crate::fixed::lemma_parse_value_in_range(e.1);
                },
                _ => {},
            }
        },
        Option::None => {},
    }
}

/// The set call a confirmed entry dispatches for its target field.
fn set_action(target: Vsel, ch: u8, v: Fixed) -> (a: Action)
    ensures
        a == spec_set_action(target, ch, v.thousandths as int),
{
    match target {
        Vsel::SetVolt => Action::SetVoltage(ch, v),
        Vsel::SetAmp => Action::SetCurrent(ch, v),
        Vsel::Ovp => Action::SetOvp(ch, v),
        Vsel::Ocp => Action::SetOcp(ch, v),
        _ => Action::Idle,
    }
}

impl InputState {
    /// A machine in navigation mode on the given channel, field cursor on
    /// the measurement panel.
    pub fn new(channel_count: u8, ch: u8) -> (s: Self)
        requires
            1 <= ch <= channel_count,
        ensures
            machine_wf(s@),
            s@.channel_count == channel_count,
            s@.ch == ch,
            s@.vsel == Vsel::Measure,
            s@.entry is None,
    {
        InputState { channel_count, ch, vsel: Vsel::Measure, entry: None }
    }

    /// Whether the machine is in the text-entry sub-mode.
    pub fn in_text_entry(&self) -> (r: bool)
        ensures
            r == (self@.entry is Some),
    {
        self.entry.is_some()
    }

    /// Apply one input event: the new state is taken on, the action to
    /// issue is returned.
    pub fn handle_event(&mut self, ev: InputEvent, snap: &Snapshot) -> (a: Action)
        requires
            machine_wf(old(self)@),
            snap.channels@.len() == old(self)@.channel_count,
        ensures
            machine_wf(final(self)@),
            action_wf(a),
            final(self)@ == spec_step(old(self)@, ev, snap.channels@).0,
            a == spec_step(old(self)@, ev, snap.channels@).1,
    {
        let has_entry: bool = self.entry.is_some();
        if has_entry {
            self.entry_event(ev)
        } else {
            self.nav_event(ev, snap)
        }
    }

    /// Apply one event in the text-entry sub-mode.
    fn entry_event(&mut self, ev: InputEvent) -> (a: Action)
        requires
            machine_wf(old(self)@),
            old(self)@.entry is Some,
        ensures
            machine_wf(final(self)@),
            action_wf(a),
            final(self)@ == spec_step(old(self)@, ev, Seq::empty()).0,
            a == spec_step(old(self)@, ev, Seq::empty()).1,
    {
        match ev {
            InputEvent::Char(c) => {
                if c == 113 {
                    return Action::Quit;
                }
                if (48 <= c && c <= 57) || c == 46 {
                    let mut e: Entry = self.entry.take().unwrap();
                    if e.text.len() < ENTRY_CAP {
                        e.text.push(c);
                    }
                    self.entry = Some(e);
                }
                Action::Idle
            },
            InputEvent::Backspace => {
                let mut e: Entry = self.entry.take().unwrap();
                if e.text.len() > 0 {
                    e.text.pop();
                }
                self.entry = Some(e);
                Action::Idle
            },
            InputEvent::Esc => {
                self.entry = None;
                Action::Idle
            },
            InputEvent::Enter => {
                let e: Entry = self.entry.take().unwrap();
                match parse_fixed(e.text.as_slice()) {
                    Some(v) => set_action(e.target, self.ch, v),
                    None => {
                        self.entry = Some(e);
                        Action::Idle
                    },
                }
            },
            _ => Action::Idle,
        }
    }

    /// Apply one event in navigation mode.
    fn nav_event(&mut self, ev: InputEvent, snap: &Snapshot) -> (a: Action)
        requires
            machine_wf(old(self)@),
            old(self)@.entry is None,
            snap.channels@.len() == old(self)@.channel_count,
        ensures
            machine_wf(final(self)@),
            action_wf(a),
            final(self)@ == spec_step(old(self)@, ev, snap.channels@).0,
            a == spec_step(old(self)@, ev, snap.channels@).1,
    {
        match ev {
            InputEvent::Char(c) => {
                if c == 113 {
                    Action::Quit
                } else if c == 108 {
                    self.channel_next_action()
                } else if c == 104 {
                    self.channel_prev_action()
                } else if c == 107 {
                    self.vsel = self.vsel.prev();
                    Action::Idle
                } else if c == 106 {
                    self.vsel = self.vsel.next();
                    Action::Idle
                } else {
                    Action::Idle
                }
            },
            InputEvent::Right => self.channel_next_action(),
            InputEvent::Left => self.channel_prev_action(),
            InputEvent::Up => {
                self.vsel = self.vsel.prev();
                Action::Idle
            },
            InputEvent::Down => {
                self.vsel = self.vsel.next();
                Action::Idle
            },
            InputEvent::Enter => {
                match self.vsel {
                    Vsel::Measure => {
                        let d: Data = *snap.ch_data(self.ch);
                        Action::SetOutput(self.ch, !d.output_state)
                    },
                    Vsel::OvpOn => {
                        let d: Data = *snap.ch_data(self.ch);
                        Action::SetOvpOn(self.ch, !d.ovp_on)
                    },
                    Vsel::OcpOn => {
                        let d: Data = *snap.ch_data(self.ch);
                        Action::SetOcpOn(self.ch, !d.ocp_on)
                    },
                    _ => {
                        self.entry = Some(Entry { target: self.vsel, text: Vec::new() });
                        Action::Idle
                    },
                }
            },
            InputEvent::Backspace => Action::Idle,
            InputEvent::Esc => Action::Idle,
        }
    }

    /// Move the channel cursor right with wraparound; the channel select
    /// is returned to issue.
    fn channel_next_action(&mut self) -> (a: Action)
        requires
            machine_wf(old(self)@),
        ensures
            machine_wf(final(self)@),
            final(self)@ == (MachineView { ch: spec_channel_next(old(self)@), ..old(self)@ }),
            a == Action::SelectChannel(spec_channel_next(old(self)@)),
    {
        let nc: u8 = if self.ch >= self.channel_count {
            1
        } else {
            self.ch + 1
        };
        self.ch = nc;
        Action::SelectChannel(nc)
    }

    /// Move the channel cursor left with wraparound; the channel select
    /// is returned to issue.
    fn channel_prev_action(&mut self) -> (a: Action)
        requires
            machine_wf(old(self)@),
        ensures
            machine_wf(final(self)@),
            final(self)@ == (MachineView { ch: spec_channel_prev(old(self)@), ..old(self)@ }),
            a == Action::SelectChannel(spec_channel_prev(old(self)@)),
    {
        let nc: u8 = if self.ch <= 1 {
            self.channel_count
        } else {
            self.ch - 1
        };
        self.ch = nc;
        Action::SelectChannel(nc)
    }
}

/// Issue the protocol call an action asks for; the settle delay follows a
/// successful channel select.
pub fn dispatch<T: Transport>(client: &mut Dp800<T>, action: &Action) -> (r: Result<(), Error>)
    requires
        action_wf(*action),
    ensures
        (*action == Action::Idle || *action == Action::Quit) ==> r is Ok,
{
    match action {
        Action::Idle => Ok(()),
        Action::Quit => Ok(()),
        Action::SelectChannel(ch) => {
            match client.set_ch(*ch) {
                Ok(_) => {
                    client.pause(SETTLE_MS);
                    Ok(())
                },
                Err(e) => Err(e),
            }
        },
        Action::SetOutput(ch, on) => client.set_output_state(*ch, *on),
        Action::SetVoltage(ch, v) => client.set_voltage(*ch, *v),
        Action::SetCurrent(ch, v) => client.set_current(*ch, *v),
        Action::SetOvp(ch, v) => client.set_ovp(*ch, *v),
        Action::SetOcp(ch, v) => client.set_ocp(*ch, *v),
        Action::SetOvpOn(ch, on) => client.set_ovp_on(*ch, *on),
        Action::SetOcpOn(ch, on) => client.set_ocp_on(*ch, *on),
    }
}

} // verus!

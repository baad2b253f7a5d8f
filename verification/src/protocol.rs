//! The line protocol: framing, typed response parsing, and the transport
//! capability.
//!
//! Commands and queries are single ASCII lines terminated by a newline;
//! every query is answered by exactly one such line. The [`Transport`]
//! trait is the only thing the crate asks of the outside world here: a
//! way to write one line, a way to exchange one line for one response
//! line, and a way to pause. Everything the crate concludes about a
//! response is proved from the bytes alone, so no behaviour is assumed of
//! a transport.

use vstd::prelude::*;
use vstd::slice::slice_subrange;
use vstd::slice::slice_to_vec;
use crate::fixed::Fixed;
use crate::fixed::first_pos;
use crate::fixed::fixed_wf;
use crate::fixed::lemma_first_pos_is;
use crate::fixed::lemma_first_pos_range;
use crate::fixed::parse_fixed;
use crate::fixed::parse_u8;
use crate::fixed::spec_parse_fixed;
use crate::fixed::spec_parse_u8;

verus! {

/// Failure kinds of the protocol client.
#[derive(Clone, Copy, Debug, PartialEq, Eq, Structural)]
pub enum Error {
    /// The address was unreachable when the connection was first made.
    Connect,
    /// A write or read on the established connection failed.
    Io,
    /// The read deadline passed before a full response line arrived.
    Timeout,
    /// The response line does not match the expected field count or type.
    Parse,
}

/// The error that every malformed response maps to.
pub fn parse_error() -> (e: Error)
    ensures
        e == Error::Parse,
{
    Error::Parse
}

/// One persistent connection, seen as the ability to send one command
/// line, to exchange one query line for one raw response line, and to
/// pause for a given number of milliseconds.
///
/// Implementations live outside the crate (a TCP socket with a fixed read
/// deadline; an in-memory double in tests). No contract is placed on the
/// methods: the client is verified for every response a transport could
/// return.
pub trait Transport {
    /// Write one command line; no response is expected.
    fn command(&mut self, line: &[u8]) -> Result<(), Error>;

    /// Write one query line, then read one newline-terminated response
    /// line, returned raw (terminator included).
    fn query(&mut self, line: &[u8]) -> Result<Vec<u8>, Error>;

    /// Pause for the given number of milliseconds (retry backoff and the
    /// settle delay after a channel switch).
    fn pause_ms(&mut self, ms: u64);
}

/// A raw response line with its trailing newline, if any, removed.
pub open spec fn spec_strip_line(s: Seq<u8>) -> Seq<u8> {
    if s.len() > 0 && s.last() == 10 {
        s.drop_last()
    } else {
        s
    }
}

/// Remove the trailing newline of one raw response line.
pub fn strip_line(line: Vec<u8>) -> (r: Vec<u8>)
    ensures
        r@ == spec_strip_line(line@),
{
    let mut out: Vec<u8> = line;
    if out.len() > 0 && out[out.len() - 1] == 10 {
        out.pop();
        proof {
            assert(out@ =~= spec_strip_line(line@));
        }
    }
    out
}

/// The wire text of a toggle state: `ON` or `OFF`.
pub open spec fn spec_toggle_bytes(on: bool) -> Seq<u8> {
    if on {
        seq![79u8, 78u8]
    } else {
        seq![79u8, 70u8, 70u8]
    }
}

/// What parsing a toggle yields: exactly `ON` is true, exactly `OFF` is
/// false, anything else fails.
pub open spec fn spec_parse_toggle(s: Seq<u8>) -> Option<bool> {
    if s == spec_toggle_bytes(true) {
        Some(true)
    } else if s == spec_toggle_bytes(false) {
        Some(false)
    } else {
        None
    }
}

/// Render a toggle state as its wire text.
pub fn toggle_bytes(on: bool) -> (r: Vec<u8>)
    ensures
        r@ == spec_toggle_bytes(on),
{
    let mut out: Vec<u8> = Vec::new();
    out.push(79);
    if on {
        out.push(78);
    } else {
        out.push(70);
        out.push(70);
    }
    proof {
        assert(out@ =~= spec_toggle_bytes(on));
    }
    out
}

/// Parse a toggle state: `ON` is true, `OFF` is false, anything else is a
/// parse failure.
pub fn parse_toggle(s: &[u8]) -> (r: Result<bool, Error>)
    ensures
        match r {
            Ok(on) => spec_parse_toggle(s@) == Some(on),
            Err(e) => e == Error::Parse && spec_parse_toggle(s@) is None,
        },
{
    if s.len() == 2 && s[0] == 79 && s[1] == 78 {
        proof {
            assert(s@ =~= spec_toggle_bytes(true));
        }
        Ok(true)
    } else if s.len() == 3 && s[0] == 79 && s[1] == 70 && s[2] == 70 {
        proof {
            assert(s@ =~= spec_toggle_bytes(false));
        }
        Ok(false)
    } else {
        proof {
            assert(s@ != spec_toggle_bytes(true));
            assert(s@ != spec_toggle_bytes(false));
        }
        Err(Error::Parse)
    }
}

/// First index at or after `from` whose byte is `t`, or the length if
/// there is none.
fn find_byte(s: &[u8], from: usize, t: u8) -> (r: usize)
    requires
        from <= s@.len(),
    ensures
        from <= r <= s@.len(),
        r - from == first_pos(s@.skip(from as int), t),
{
    let n: usize = s.len();
    let mut i: usize = from;
    while i < n && s[i] != t
        invariant
            from <= i <= n,
            n == s@.len(),
            forall|k: int| from <= k < i ==> #[trigger] s@[k] != t,
        decreases n - i,
    {
        i += 1;
    }
    proof {
        let sub = s@.skip(from as int);
        assert forall|k: int| 0 <= k < i - from implies #[trigger] sub[k] != t by {
            assert(sub[k] == s@[from + k]);
        }
        if i < n {
            assert(sub[i - from] == s@[i as int]);
        }
        lemma_first_pos_is(sub, t, i - from);
    }
    i
}

/// A numeric response line read as a value in thousandths.
pub fn parse(s: &[u8]) -> (r: Result<Fixed, Error>)
    ensures
        match r {
            Ok(v) => fixed_wf(v) && spec_parse_fixed(s@) == Some(v.thousandths as int),
            Err(e) => e == Error::Parse && spec_parse_fixed(s@) is None,
        },
{
    match parse_fixed(s) {
        Some(v) => Ok(v),
        None => Err(Error::Parse),
    }
}

/// A channel-number response line read as a one-byte channel index.
pub fn parse_channel(s: &[u8]) -> (r: Result<u8, Error>)
    ensures
        match r {
            Ok(v) => spec_parse_u8(s@) == Some(v as int),
            Err(e) => e == Error::Parse && spec_parse_u8(s@) is None,
        },
{
    match parse_u8(s) {
        Some(v) => Ok(v),
        None => Err(Error::Parse),
    }
}

/// Law: a value echoed back at the wire precision survives framing —
/// stripping the newline off the three-decimal rendering of any in-range
/// value and parsing it returns the value exactly.
pub proof fn lemma_echoed_value_round_trips(t: int)
    requires
        -crate::fixed::MAX_THOUSANDTHS <= t <= crate::fixed::MAX_THOUSANDTHS,
    ensures
        spec_parse_fixed(
            spec_strip_line(crate::fixed::spec_format_fixed(t) + seq![10u8]),
        ) == Some(t),
{
    let line = crate::fixed::spec_format_fixed(t) + seq![10u8];
    assert(spec_strip_line(line) =~= crate::fixed::spec_format_fixed(t));
    crate::fixed::lemma_format_parse_roundtrip(t);
}

/// One reading of a channel: voltage, current and power, in that order on
/// the wire.
#[derive(Clone, Copy, Debug, PartialEq, Eq, Structural)]
pub struct Measurement {
    /// Voltage in thousandths of a volt.
    pub voltage: Fixed,
    /// Current in thousandths of an amp.
    pub current: Fixed,
    /// Power in thousandths of a watt.
    pub power: Fixed,
}

/// All three readings are in range.
pub open spec fn measurement_wf(m: Measurement) -> bool {
    fixed_wf(m.voltage) && fixed_wf(m.current) && fixed_wf(m.power)
}

/// Split a line on commas into exactly three fields; more or fewer fields
/// fail.
pub open spec fn spec_split3(s: Seq<u8>) -> Option<(Seq<u8>, Seq<u8>, Seq<u8>)> {
    let c1 = first_pos(s, 44);
    if c1 == s.len() {
        None
    } else {
        let r1 = s.skip(c1 + 1);
        let c2 = first_pos(r1, 44);
        if c2 == r1.len() {
            None
        } else {
            let r2 = r1.skip(c2 + 1);
            if first_pos(r2, 44) == r2.len() {
                Some((s.take(c1), r1.take(c2), r2))
            } else {
                None
            }
        }
    }
}

/// What parsing a measurement line yields: exactly three comma-separated
/// numeric fields, read as voltage, current and power.
pub open spec fn spec_parse_measurement(s: Seq<u8>) -> Option<Measurement> {
    match spec_split3(s) {
        None => None,
        Some(fields) => match (
            spec_parse_fixed(fields.0),
            spec_parse_fixed(fields.1),
            spec_parse_fixed(fields.2),
        ) {
            (Some(v), Some(c), Some(p)) => Some(
                Measurement {
                    voltage: Fixed { thousandths: v as i64 },
                    current: Fixed { thousandths: c as i64 },
                    power: Fixed { thousandths: p as i64 },
                },
            ),
            _ => None,
        },
    }
}

/// Parse a measurement line: exactly three comma-separated numeric
/// fields, in the order voltage, current, power.
pub fn parse_measurement(s: &[u8]) -> (r: Result<Measurement, Error>)
    ensures
        match r {
            Ok(m) => measurement_wf(m) && spec_parse_measurement(s@) == Some(m),
            Err(e) => e == Error::Parse && spec_parse_measurement(s@) is None,
        },
{
    let n: usize = s.len();
    let c1: usize = find_byte(s, 0, 44);
    proof {
        assert(s@.skip(0) =~= s@);
    }
    if c1 == n {
        return Err(Error::Parse);
    }
    let c2: usize = find_byte(s, c1 + 1, 44);
    let ghost r1 = s@.skip(c1 + 1);
    if c2 == n {
        return Err(Error::Parse);
    }
    let c3: usize = find_byte(s, c2 + 1, 44);
    let ghost r2 = r1.skip(c2 - c1);
    proof {
        assert(r2 =~= s@.skip(c2 + 1));
    }
    if c3 < n {
        return Err(Error::Parse);
    }
    let f1: &[u8] = slice_subrange(s, 0, c1);
    let f2: &[u8] = slice_subrange(s, c1 + 1, c2);
    let f3: &[u8] = slice_subrange(s, c2 + 1, n);
    proof {
        assert(f1@ =~= s@.take(c1 as int));
        assert(f2@ =~= r1.take(c2 - c1 - 1));
        assert(f3@ =~= r2);
    }
    let v: Fixed = match parse_fixed(f1) {
        Some(v) => v,
        None => {
            return Err(Error::Parse);
        },
    };
    let c: Fixed = match parse_fixed(f2) {
        Some(v) => v,
        None => {
            return Err(Error::Parse);
        },
    };
    let p: Fixed = match parse_fixed(f3) {
        Some(v) => v,
        None => {
            return Err(Error::Parse);
        },
    };
    Ok(Measurement { voltage: v, current: c, power: p })
}

/// Power supply identification strings, as answered to the identify
/// query.
#[derive(Debug, PartialEq, Eq)]
pub struct Identify {
    /// Manufacturer name.
    pub manufacturer: String,
    /// Instrument model.
    pub model: String,
    /// Instrument serial number.
    pub sn: String,
    /// Digital board version number.
    pub version: String,
}

/// Every byte is plain ASCII.
pub open spec fn ascii_bytes(s: Seq<u8>) -> bool {
    forall|k: int| 0 <= k < s.len() ==> #[trigger] s[k] < 128
}

/// The characters spelled by a sequence of ASCII bytes.
pub open spec fn ascii_chars(s: Seq<u8>) -> Seq<char> {
    s.map_values(|b: u8| b as char)
}

/// The first four comma-separated fields of a line; fewer than four
/// fail, anything past the fourth field is ignored.
pub open spec fn spec_split4(s: Seq<u8>) -> Option<(Seq<u8>, Seq<u8>, Seq<u8>, Seq<u8>)> {
    let c1 = first_pos(s, 44);
    if c1 == s.len() {
        None
    } else {
        let r1 = s.skip(c1 + 1);
        let c2 = first_pos(r1, 44);
        if c2 == r1.len() {
            None
        } else {
            let r2 = r1.skip(c2 + 1);
            let c3 = first_pos(r2, 44);
            if c3 == r2.len() {
                None
            } else {
                let r3 = r2.skip(c3 + 1);
                Some((s.take(c1), r1.take(c2), r2.take(c3), r3.take(first_pos(r3, 44))))
            }
        }
    }
}

/// The characters a byte field decodes to: UTF-8, with every invalid
/// sequence replaced, so the result depends on the bytes alone.
pub uninterp spec fn utf8_chars_of(s: Seq<u8>) -> Seq<char>;

/// What parsing an identify line yields: at least four comma-separated
/// fields, the first four decoded and read as manufacturer, model,
/// serial number and version, anything past them ignored.
pub open spec fn spec_parse_identify(s: Seq<u8>) -> Option<
    (Seq<char>, Seq<char>, Seq<char>, Seq<char>),
> {
    match spec_split4(s) {
        None => None,
        Some(fields) => Some(
            (
                utf8_chars_of(fields.0),
                utf8_chars_of(fields.1),
                utf8_chars_of(fields.2),
                utf8_chars_of(fields.3),
            ),
        ),
    }
}

/// An identify field as handed out from an ASCII response: ASCII
/// characters, none of them a comma.
pub open spec fn identify_field_ok(s: Seq<char>) -> bool {
    forall|k: int| 0 <= k < s.len() ==> ((#[trigger] s[k]) as u32) < 128 && s[k] != ','
}

/// Whichever of the response's used fields are plain ASCII decode to
/// ASCII, comma-free text.
pub open spec fn identify_ascii_clean(
    s: Seq<u8>,
    manufacturer: Seq<char>,
    model: Seq<char>,
    sn: Seq<char>,
    version: Seq<char>,
) -> bool {
    match spec_split4(s) {
        Option::None => true,
        Option::Some(fields) => {
            &&& (ascii_bytes(fields.0) ==> identify_field_ok(manufacturer))
            &&& (ascii_bytes(fields.1) ==> identify_field_ok(model))
            &&& (ascii_bytes(fields.2) ==> identify_field_ok(sn))
            &&& (ascii_bytes(fields.3) ==> identify_field_ok(version))
        },
    }
}

/// An ASCII byte other than the comma decodes to an ASCII character
/// other than the comma.
proof fn lemma_ascii_char_cast(b: u8)
    requires
        b < 128,
        b != 44,
    ensures
        ((b as char) as u32) < 128,
        (b as char) != ',',
{
}

/// Relies on `String::from_utf8_lossy`: the characters depend on the
/// bytes alone, and valid UTF-8 — ASCII in particular — is preserved
/// unchanged, one character per ASCII byte with the same code point.
#[verifier::external_body]
fn utf8_to_string(v: Vec<u8>) -> (r: String)
    ensures
        r@ == utf8_chars_of(v@),
        ascii_bytes(v@) ==> r@ == ascii_chars(v@),
{
    String::from_utf8_lossy(&v).into_owned()
}

/// Parse an identify line: at least four comma-separated fields,
/// the first four decoded and read as manufacturer, model, serial
/// number and version, anything past the fourth field ignored.
pub fn parse_identify(s: &[u8]) -> (r: Result<Identify, Error>)
    ensures
        match r {
            Ok(id) => spec_parse_identify(s@) == Some(
                (id.manufacturer@, id.model@, id.sn@, id.version@),
            ) && identify_ascii_clean(s@, id.manufacturer@, id.model@, id.sn@, id.version@),
            Err(e) => e == Error::Parse && spec_parse_identify(s@) is None,
        },
{
    let n: usize = s.len();
    let c1: usize = find_byte(s, 0, 44);
    proof {
        assert(s@.skip(0) =~= s@);
    }
    if c1 == n {
        return Err(Error::Parse);
    }
    let ghost r1 = s@.skip(c1 + 1);
    let c2: usize = find_byte(s, c1 + 1, 44);
    if c2 == n {
        return Err(Error::Parse);
    }
    let ghost r2 = r1.skip(c2 - c1);
    proof {
        assert(r2 =~= s@.skip(c2 + 1));
    }
    let c3: usize = find_byte(s, c2 + 1, 44);
    if c3 == n {
        return Err(Error::Parse);
    }
    let ghost r3 = r2.skip(c3 - c2);
    proof {
        assert(r3 =~= s@.skip(c3 + 1));
    }
    let c4: usize = find_byte(s, c3 + 1, 44);
    let f1: &[u8] = slice_subrange(s, 0, c1);
    let f2: &[u8] = slice_subrange(s, c1 + 1, c2);
    let f3: &[u8] = slice_subrange(s, c2 + 1, c3);
    let f4: &[u8] = slice_subrange(s, c3 + 1, c4);
    proof {
        assert(f1@ =~= s@.take(c1 as int));
        assert(f2@ =~= r1.take(c2 - c1 - 1));
        assert(f3@ =~= r2.take(c3 - c2 - 1));
        assert(f4@ =~= r3.take(c4 - c3 - 1));
    }
    let id = Identify {
        manufacturer: utf8_to_string(slice_to_vec(f1)),
        model: utf8_to_string(slice_to_vec(f2)),
        sn: utf8_to_string(slice_to_vec(f3)),
        version: utf8_to_string(slice_to_vec(f4)),
    };
    proof {
        lemma_first_pos_range(s@, 44);
        lemma_first_pos_range(r1, 44);
        lemma_first_pos_range(r2, 44);
        lemma_first_pos_range(r3, 44);
        if ascii_bytes(f1@) {
            assert(id.manufacturer@ == ascii_chars(f1@));
            assert forall|k: int| 0 <= k < id.manufacturer@.len() implies ((
            #[trigger] id.manufacturer@[k]) as u32) < 128 && id.manufacturer@[k] != ',' by {
                assert(id.manufacturer@[k] == f1@[k] as char);
                assert(f1@[k] == s@[k]);
                lemma_ascii_char_cast(f1@[k]);
            }
        }
        if ascii_bytes(f2@) {
            assert(id.model@ == ascii_chars(f2@));
            assert forall|k: int| 0 <= k < id.model@.len() implies ((#[trigger] id.model@[k]) as
            u32) < 128 && id.model@[k] != ',' by {
                assert(id.model@[k] == f2@[k] as char);
                assert(f2@[k] == r1[k]);
                lemma_ascii_char_cast(f2@[k]);
            }
        }
        if ascii_bytes(f3@) {
            assert(id.sn@ == ascii_chars(f3@));
            assert forall|k: int| 0 <= k < id.sn@.len() implies ((#[trigger] id.sn@[k]) as u32)
                < 128 && id.sn@[k] != ',' by {
                assert(id.sn@[k] == f3@[k] as char);
                assert(f3@[k] == r2[k]);
                lemma_ascii_char_cast(f3@[k]);
            }
        }
        if ascii_bytes(f4@) {
            assert(id.version@ == ascii_chars(f4@));
            assert forall|k: int| 0 <= k < id.version@.len() implies ((#[trigger] id.version@[k])
                as u32) < 128 && id.version@[k] != ',' by {
                assert(id.version@[k] == f4@[k] as char);
                assert(f4@[k] == r3[k]);
                lemma_ascii_char_cast(f4@[k]);
            }
        }
    }
    Ok(id)
}

} // verus!

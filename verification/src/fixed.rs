//! Decimal values at the wire precision of the instrument.
//!
//! Every numeric value that crosses the wire — setpoints, protection
//! limits, measurements — is a decimal number with exactly three decimal
//! digits when sent, so the crate models them as a count of thousandths.
//! Parsing accepts the plain decimal grammar (optional sign, digits, at
//! most one decimal point, at least one digit) and truncates fractional
//! digits beyond the third; formatting always produces the sign, the
//! integer digits without leading zeros, and exactly three fractional
//! digits. Formatting then parsing returns the value unchanged.

use vstd::prelude::*;
use vstd::arithmetic::div_mod::lemma_fundamental_div_mod;

verus! {

/// Largest magnitude, in thousandths, that a [`Fixed`] may hold.
pub const MAX_THOUSANDTHS: i64 = 999_999_999_999_999;

/// A decimal number stored as a signed count of thousandths.
#[derive(Clone, Copy, Debug, PartialEq, Eq, Structural)]
pub struct Fixed {
    /// The value times 1000; `12.5` is stored as `12500`.
    pub thousandths: i64,
}

/// A `Fixed` is well formed when its magnitude stays within the range the
/// parser accepts, which also keeps negation free of overflow.
pub open spec fn fixed_wf(v: Fixed) -> bool {
    -MAX_THOUSANDTHS <= v.thousandths <= MAX_THOUSANDTHS
}

/// ASCII decimal digit.
pub open spec fn digit_byte(b: u8) -> bool {
    48 <= b <= 57
}

/// All bytes of the sequence are ASCII decimal digits.
pub open spec fn all_digit_bytes(s: Seq<u8>) -> bool {
    forall|k: int| 0 <= k < s.len() ==> digit_byte(#[trigger] s[k])
}

/// Value of a digit string read as a base-10 number.
pub open spec fn digits_val(s: Seq<u8>) -> int
    decreases s.len(),
{
    if s.len() == 0 {
        0
    } else {
        digits_val(s.drop_last()) * 10 + (s.last() - 48)
    }
}

/// The shortest digit string (no leading zeros except for zero itself)
/// whose value is `n`.
pub open spec fn spec_digits(n: nat) -> Seq<u8>
    decreases n,
{
    if n < 10 {
        seq![(48 + n) as u8]
    } else {
        spec_digits(n / 10).push((48 + n % 10) as u8)
    }
}

/// Index of the first occurrence of `t` in the sequence, or its length if
/// there is none.
pub open spec fn first_pos(s: Seq<u8>, t: u8) -> int
    decreases s.len(),
{
    if s.len() == 0 {
        0
    } else if s[0] == t {
        0
    } else {
        1 + first_pos(s.skip(1), t)
    }
}

/// Index of the first `.` in the sequence, or its length if there is none.
pub open spec fn dot_pos(s: Seq<u8>) -> int {
    first_pos(s, 46)
}

/// Thousandths contributed by the fractional digit string: the first three
/// digits weighted 100/10/1, anything further truncated.
pub open spec fn frac3_val(s: Seq<u8>) -> int {
    (if s.len() > 0 { (s[0] - 48) * 100 } else { 0 })
        + (if s.len() > 1 { (s[1] - 48) * 10 } else { 0 })
        + (if s.len() > 2 { (s[2] - 48) as int } else { 0 })
}

/// Whether the text opens with a minus sign.
pub open spec fn has_sign(s: Seq<u8>) -> bool {
    s.len() > 0 && s[0] == 45
}

/// The text with a leading minus sign, if any, removed.
pub open spec fn body_of(s: Seq<u8>) -> Seq<u8> {
    if has_sign(s) {
        s.skip(1)
    } else {
        s
    }
}

/// Digits before the first `.` of the unsigned body.
pub open spec fn int_digits(b: Seq<u8>) -> Seq<u8> {
    b.take(dot_pos(b))
}

/// Digits after the first `.` of the unsigned body; empty if there is none.
pub open spec fn frac_digits(b: Seq<u8>) -> Seq<u8> {
    if dot_pos(b) == b.len() {
        Seq::empty()
    } else {
        b.skip(dot_pos(b) + 1)
    }
}

/// The plain decimal grammar over the unsigned body: digits, at most one
/// `.`, and at least one digit somewhere. A lone `.` or an empty body is
/// not a number.
pub open spec fn number_grammar_ok(b: Seq<u8>) -> bool {
    &&& all_digit_bytes(int_digits(b))
    &&& all_digit_bytes(frac_digits(b))
    &&& int_digits(b).len() + frac_digits(b).len() >= 1
}

/// Magnitude of a grammatical body, in thousandths.
pub open spec fn body_magnitude(b: Seq<u8>) -> int {
    digits_val(int_digits(b)) * 1000 + frac3_val(frac_digits(b))
}

/// What parsing the text yields: its value in thousandths, or nothing when
/// the grammar is violated or the magnitude exceeds [`MAX_THOUSANDTHS`].
pub open spec fn spec_parse_fixed(s: Seq<u8>) -> Option<int> {
    let b = body_of(s);
    if number_grammar_ok(b) && body_magnitude(b) <= MAX_THOUSANDTHS {
        Some(if has_sign(s) { -body_magnitude(b) } else { body_magnitude(b) })
    } else {
        None
    }
}

/// Three-decimal rendering of a nonnegative count of thousandths.
pub open spec fn spec_format_unsigned(n: nat) -> Seq<u8> {
    spec_digits(n / 1000) + seq![46u8] + seq![
        (48 + (n % 1000) / 100) as u8,
        (48 + (n % 100) / 10) as u8,
        (48 + n % 10) as u8,
    ]
}

/// Three-decimal rendering of a count of thousandths, with a leading minus
/// sign when negative.
pub open spec fn spec_format_fixed(t: int) -> Seq<u8> {
    if t < 0 {
        seq![45u8] + spec_format_unsigned((-t) as nat)
    } else {
        spec_format_unsigned(t as nat)
    }
}

/// `first_pos` names the first occurrence: everything before it differs
/// from `t`, and it lands on a `t` unless there is none at all.
pub proof fn lemma_first_pos_range(s: Seq<u8>, t: u8)
    ensures
        0 <= first_pos(s, t) <= s.len(),
        forall|k: int| 0 <= k < first_pos(s, t) ==> #[trigger] s[k] != t,
        first_pos(s, t) < s.len() ==> s[first_pos(s, t)] == t,
    decreases s.len(),
{
    if s.len() == 0 {
    } else if s[0] == t {
    } else {
        lemma_first_pos_range(s.skip(1), t);
        assert forall|k: int| 0 <= k < first_pos(s, t) implies #[trigger] s[k] != t by {
            if k > 0 {
                assert(s.skip(1)[k - 1] == s[k]);
            }
        }
        if first_pos(s, t) < s.len() {
            assert(s.skip(1)[first_pos(s, t) - 1] == s[first_pos(s, t)]);
        }
    }
}

/// A position with no `t` before it that is itself a `t` — or the end of a
/// `t`-free sequence — is exactly `first_pos`.
pub proof fn lemma_first_pos_is(s: Seq<u8>, t: u8, j: int)
    requires
        0 <= j <= s.len(),
        forall|k: int| 0 <= k < j ==> #[trigger] s[k] != t,
        j < s.len() ==> s[j] == t,
    ensures
        first_pos(s, t) == j,
{
    lemma_first_pos_range(s, t);
    if first_pos(s, t) < j {
        assert(s[first_pos(s, t)] != t);
    } else if first_pos(s, t) > j {
        assert(s[j] != t);
    }
}

/// [`lemma_first_pos_range`] read at the decimal point.
pub proof fn lemma_dot_pos_range(s: Seq<u8>)
    ensures
        0 <= dot_pos(s) <= s.len(),
        forall|k: int| 0 <= k < dot_pos(s) ==> #[trigger] s[k] != 46,
        dot_pos(s) < s.len() ==> s[dot_pos(s)] == 46,
{
    lemma_first_pos_range(s, 46);
}

/// [`lemma_first_pos_is`] read at the decimal point.
pub proof fn lemma_dot_pos_is(s: Seq<u8>, j: int)
    requires
        0 <= j <= s.len(),
        forall|k: int| 0 <= k < j ==> #[trigger] s[k] != 46,
        j < s.len() ==> s[j] == 46,
    ensures
        dot_pos(s) == j,
{
    lemma_first_pos_is(s, 46, j);
}

/// Every rendered digit string is nonempty and made of digits only.
pub proof fn lemma_spec_digits_are_digits(n: nat)
    ensures
        spec_digits(n).len() >= 1,
        all_digit_bytes(spec_digits(n)),
    decreases n,
{
    if n < 10 {
    } else {
        lemma_spec_digits_are_digits(n / 10);
        assert forall|k: int| 0 <= k < spec_digits(n).len() implies digit_byte(
            #[trigger] spec_digits(n)[k],
        ) by {
            if k < spec_digits(n / 10).len() {
                assert(spec_digits(n)[k] == spec_digits(n / 10)[k]);
            }
        }
    }
}

/// Reading back a rendered digit string gives the number it renders.
pub proof fn lemma_digits_val_of_spec_digits(n: nat)
    ensures
        digits_val(spec_digits(n)) == n,
    decreases n,
{
    if n < 10 {
        assert(spec_digits(n) == seq![(48 + n) as u8]);
        assert(spec_digits(n).len() == 1);
        assert(spec_digits(n).drop_last() =~= Seq::<u8>::empty());
        assert(digits_val(spec_digits(n).drop_last()) == 0);
        assert(spec_digits(n).last() == (48 + n) as u8);
        assert((48 + n) as u8 == 48 + n);
        assert(digits_val(spec_digits(n)) == digits_val(spec_digits(n).drop_last()) * 10 + (
        spec_digits(n).last() - 48));
    } else {
        lemma_digits_val_of_spec_digits(n / 10);
        assert(spec_digits(n).drop_last() =~= spec_digits(n / 10));
        assert((48 + n % 10) as u8 == 48 + n % 10);
        lemma_fundamental_div_mod(n as int, 10);
    }
}

/// Render the decimal digits of `n`, most significant first, no leading
/// zeros (zero itself renders as `0`).
pub(crate) fn format_digits(n: u64) -> (r: Vec<u8>)
    ensures
        r@ == spec_digits(n as nat),
    decreases n,
{
    if n < 10 {
        let mut v: Vec<u8> = Vec::new();
        v.push(48 + n as u8);
        proof {
            assert(v@ =~= spec_digits(n as nat));
        }
        v
    } else {
        let mut v: Vec<u8> = format_digits(n / 10);
        v.push(48 + (n % 10) as u8);
        proof {
            assert(v@ =~= spec_digits(n as nat));
        }
        v
    }
}

/// Render a value at the wire precision: sign if negative, integer digits,
/// `.`, then exactly three fractional digits.
pub fn format_fixed(v: Fixed) -> (r: Vec<u8>)
    requires
        fixed_wf(v),
    ensures
        r@ == spec_format_fixed(v.thousandths as int),
{
    let mut out: Vec<u8> = Vec::new();
    let m: u64;
    if v.thousandths < 0 {
        out.push(45);
        m = (-v.thousandths) as u64;
    } else {
        m = v.thousandths as u64;
    }
    let mut digits: Vec<u8> = format_digits(m / 1000);
    out.append(&mut digits);
    out.push(46);
    out.push(48 + ((m % 1000) / 100) as u8);
    out.push(48 + ((m % 100) / 10) as u8);
    out.push(48 + (m % 10) as u8);
    proof {
        assert(out@ =~= spec_format_fixed(v.thousandths as int));
    }
    out
}

/// Parse a decimal number into thousandths.
///
/// Returns the value exactly when the text matches the plain decimal
/// grammar (optional `-`, digits, at most one `.`, at least one digit) and
/// its magnitude is at most [`MAX_THOUSANDTHS`]; fractional digits past the
/// third are truncated.
pub fn parse_fixed(s: &[u8]) -> (r: Option<Fixed>)
    ensures
        match r {
            Some(v) => fixed_wf(v) && spec_parse_fixed(s@) == Some(v.thousandths as int),
            None => spec_parse_fixed(s@) is None,
        },
{
    let n: usize = s.len();
    let neg: bool = n > 0 && s[0] == 45;
    let start: usize = if neg { 1 } else { 0 };
    proof {
        assert(body_of(s@) =~= s@.skip(start as int));
    }
    let ghost b = body_of(s@);

    let mut i: usize = start;
    let mut acc: i64 = 0;
    let mut too_big: bool = false;
    while i < n && s[i] != 46
        invariant
            n == s@.len(),
            start <= i <= n,
            start == if neg { 1int } else { 0int },
            neg == has_sign(s@),
            b == body_of(s@),
            b =~= s@.skip(start as int),
            forall|k: int|
                0 <= k < i - start ==> #[trigger] b[k] != 46 && digit_byte(b[k]),
            !too_big ==> 0 <= acc <= 999_999_999_999 && acc == digits_val(
                b.take(i - start),
            ),
            too_big ==> digits_val(b.take(i - start)) > 999_999_999_999,
        decreases n - i,
    {
        let c: u8 = s[i];
        let ghost j = i - start;
        proof {
            assert(b[j] == s@[i as int]);
        }
        if c < 48 || c > 57 {
            proof {
                lemma_dot_pos_range(b);
                if dot_pos(b) <= j {
                    assert(b[dot_pos(b)] == 46);
                }
                assert(dot_pos(b) > j);
                assert(int_digits(b)[j] == b[j]);
                assert(!digit_byte(int_digits(b)[j]));
            }
            return None;
        }
        proof {
            assert(b.take(j + 1).drop_last() =~= b.take(j));
            assert(b.take(j + 1).last() == c);
            assert(digits_val(b.take(j + 1)) == digits_val(b.take(j)) * 10 + (c - 48));
        }
        if too_big {
            proof {
                assert(digits_val(b.take(j)) * 10 + (c - 48) > 999_999_999_999);
            }
        } else if acc >= 100_000_000_000 {
            too_big = true;
        } else {
            acc = acc * 10 + (c - 48) as i64;
        }
        i += 1;
    }

    let int_count: usize = i - start;
    let ghost jd = i - start;
    if i == n {
        // No decimal point: the body is integer digits only.
        proof {
            lemma_dot_pos_is(b, b.len() as int);
            assert(int_digits(b) =~= b.take(jd));
            assert(frac_digits(b) =~= Seq::<u8>::empty());
        }
        if int_count == 0 {
            return None;
        }
        if too_big {
            return None;
        }
        proof {
            assert forall|k: int| 0 <= k < int_digits(b).len() implies digit_byte(
                #[trigger] int_digits(b)[k],
            ) by {
                assert(int_digits(b)[k] == b[k]);
            }
            assert(number_grammar_ok(b));
            assert(body_magnitude(b) == acc * 1000);
        }
        let m: i64 = acc * 1000;
        let t: i64 = if neg {
            -m
        } else {
            m
        };
        return Some(Fixed { thousandths: t });
    }

    // s[i] is the decimal point.
    proof {
        assert(b[jd] == 46);
        lemma_dot_pos_is(b, jd);
        assert(frac_digits(b) =~= b.skip(jd + 1));
    }
    let ghost fd = frac_digits(b);
    i += 1;
    let mut frac: i64 = 0;
    let mut nfrac: usize = 0;
    while i < n
        invariant
            n == s@.len(),
            start == if neg { 1int } else { 0int },
            start + 1 <= i <= n,
            neg == has_sign(s@),
            b == body_of(s@),
            b =~= s@.skip(start as int),
            jd == dot_pos(b),
            0 <= jd < b.len(),
            int_count == jd,
            i == start + jd + 1 + nfrac,
            fd == frac_digits(b),
            fd =~= b.skip(jd + 1),
            forall|k: int| 0 <= k < jd ==> digit_byte(#[trigger] b[k]),
            forall|k: int| 0 <= k < nfrac ==> digit_byte(#[trigger] fd[k]),
            frac == frac3_val(fd.take(nfrac as int)),
            0 <= frac <= 999,
            !too_big ==> 0 <= acc <= 999_999_999_999 && acc == digits_val(b.take(jd)),
            too_big ==> digits_val(b.take(jd)) > 999_999_999_999,
        decreases n - i,
    {
        let c: u8 = s[i];
        let ghost k = nfrac as int;
        proof {
            assert(fd[k] == s@[i as int]);
        }
        if c < 48 || c > 57 {
            proof {
                assert(!digit_byte(fd[k]));
            }
            return None;
        }
        proof {
            assert(fd.take(k + 1).len() == k + 1);
            assert(forall|x: int| 0 <= x < k + 1 ==> #[trigger] fd.take(k + 1)[x] == fd[x]);
            assert(forall|x: int| 0 <= x < k ==> #[trigger] fd.take(k)[x] == fd[x]);
        }
        if nfrac == 0 {
            frac = frac + (c - 48) as i64 * 100;
        } else if nfrac == 1 {
            frac = frac + (c - 48) as i64 * 10;
        } else if nfrac == 2 {
            frac = frac + (c - 48) as i64;
        }
        proof {
            assert(frac == frac3_val(fd.take(k + 1)));
        }
        nfrac += 1;
        i += 1;
    }

    if int_count == 0 && nfrac == 0 {
        return None;
    }
    proof {
        assert(fd.take(nfrac as int) =~= fd);
        assert(int_digits(b) =~= b.take(jd));
        assert forall|k: int| 0 <= k < int_digits(b).len() implies digit_byte(
            #[trigger] int_digits(b)[k],
        ) by {
            assert(int_digits(b)[k] == b[k]);
        }
        assert(nfrac == fd.len());
        assert(number_grammar_ok(b));
    }
    if too_big {
        proof {
            assert(body_magnitude(b) > MAX_THOUSANDTHS);
        }
        return None;
    }
    proof {
        assert(body_magnitude(b) == acc * 1000 + frac);
    }
    let m: i64 = acc * 1000 + frac;
    let t: i64 = if neg {
        -m
    } else {
        m
    };
    Some(Fixed { thousandths: t })
}

/// Law: formatting round-trips at the wire precision — parsing the
/// three-decimal rendering of any in-range value returns that value
/// exactly.
pub proof fn lemma_format_parse_roundtrip(t: int)
    requires
        -MAX_THOUSANDTHS <= t <= MAX_THOUSANDTHS,
    ensures
        spec_parse_fixed(spec_format_fixed(t)) == Some(t),
{
    let m = (if t < 0 { -t } else { t }) as nat;
    let q = m / 1000;
    let s = spec_format_fixed(t);
    let u = spec_format_unsigned(m);
    let ds = spec_digits(q);
    let dlen = ds.len() as int;
    lemma_spec_digits_are_digits(q);
    lemma_digits_val_of_spec_digits(q);

    // The unsigned rendering is the body of the signed one.
    if t < 0 {
        assert(s == seq![45u8] + u);
        assert(s[0] == 45);
        assert(body_of(s) =~= u);
    } else {
        assert(s == u);
        assert(u[0] == ds[0]);
        assert(digit_byte(ds[0]));
        assert(!has_sign(s));
        assert(body_of(s) =~= u);
    }

    // The dot sits right after the integer digits.
    assert forall|k: int| 0 <= k < dlen implies #[trigger] u[k] != 46 by {
        assert(u[k] == ds[k]);
        assert(digit_byte(ds[k]));
    }
    assert(u[dlen] == 46);
    lemma_dot_pos_is(u, dlen);
    assert(int_digits(u) =~= ds);

    // The fraction is the three rendered digits.
    let f = seq![(48 + (m % 1000) / 100) as u8, (48 + (m % 100) / 10) as u8, (48 + m % 10) as u8];
    assert(frac_digits(u) =~= f);
    assert((48 + (m % 1000) / 100) as u8 == 48 + (m % 1000) / 100);
    assert((48 + (m % 100) / 10) as u8 == 48 + (m % 100) / 10);
    assert((48 + m % 10) as u8 == 48 + m % 10);
    assert(all_digit_bytes(f)) by {
        assert(digit_byte(f[0]));
        assert(digit_byte(f[1]));
        assert(digit_byte(f[2]));
    }
    assert(number_grammar_ok(u));

    // The magnitude reassembles to m.
    assert(frac3_val(f) == ((m % 1000) / 100) * 100 + ((m % 100) / 10) * 10 + m % 10);
    assert(m % 1000 == ((m % 1000) / 100) * 100 + ((m % 100) / 10) * 10 + m % 10) by {
        lemma_fundamental_div_mod((m % 1000) as int, 100);
        lemma_fundamental_div_mod((m % 100) as int, 10);
        assert(m % 1000 % 100 == m % 100) by (nonlinear_arith);
        assert(m % 100 % 10 == m % 10) by (nonlinear_arith);
    }
    assert(body_magnitude(u) == q * 1000 + m % 1000);
    assert(q * 1000 + m % 1000 == m) by {
        lemma_fundamental_div_mod(m as int, 1000);
    }
    assert(body_magnitude(u) == m);
    assert(m <= MAX_THOUSANDTHS);
}

/// A digit string never reads back negative.
pub proof fn lemma_digits_val_nonneg(s: Seq<u8>)
    requires
        all_digit_bytes(s),
    ensures
        digits_val(s) >= 0,
    decreases s.len(),
{
    if s.len() > 0 {
        assert forall|k: int| 0 <= k < s.drop_last().len() implies digit_byte(
            #[trigger] s.drop_last()[k],
        ) by {
            assert(s.drop_last()[k] == s[k]);
        }
        lemma_digits_val_nonneg(s.drop_last());
    }
}

/// Law: whatever parsing accepts lies within the representable range, so
/// every parsed value is a well-formed [`Fixed`].
pub proof fn lemma_parse_value_in_range(s: Seq<u8>)
    ensures
        spec_parse_fixed(s) matches Some(t) ==> -MAX_THOUSANDTHS <= t <= MAX_THOUSANDTHS,
{
    if spec_parse_fixed(s) is Some {
        let b = body_of(s);
        lemma_digits_val_nonneg(int_digits(b));
        let fd = frac_digits(b);
        if fd.len() > 0 {
            assert(digit_byte(fd[0]));
        }
        if fd.len() > 1 {
            assert(digit_byte(fd[1]));
        }
        if fd.len() > 2 {
            assert(digit_byte(fd[2]));
        }
        assert(frac3_val(fd) >= 0);
        assert(body_magnitude(b) >= 0);
    }
}

/// What parsing an unsigned one-byte channel number yields: digits only,
/// at least one, value at most 255.
pub open spec fn spec_parse_u8(s: Seq<u8>) -> Option<int> {
    if all_digit_bytes(s) && s.len() >= 1 && digits_val(s) <= 255 {
        Some(digits_val(s))
    } else {
        None
    }
}

/// Parse an unsigned decimal channel number that fits in one byte.
pub fn parse_u8(s: &[u8]) -> (r: Option<u8>)
    ensures
        match r {
            Some(v) => spec_parse_u8(s@) == Some(v as int),
            None => spec_parse_u8(s@) is None,
        },
{
    let n: usize = s.len();
    if n == 0 {
        return None;
    }
    let mut i: usize = 0;
    let mut acc: u32 = 0;
    let mut too_big: bool = false;
    while i < n
        invariant
            n == s@.len(),
            0 <= i <= n,
            forall|k: int| 0 <= k < i ==> digit_byte(#[trigger] s@[k]),
            !too_big ==> acc <= 255 && acc == digits_val(s@.take(i as int)),
            too_big ==> digits_val(s@.take(i as int)) > 255,
        decreases n - i,
    {
        let c: u8 = s[i];
        if c < 48 || c > 57 {
            proof {
                assert(!digit_byte(s@[i as int]));
            }
            return None;
        }
        proof {
            assert(s@.take(i + 1).drop_last() =~= s@.take(i as int));
            assert(s@.take(i + 1).last() == c);
        }
        if too_big {
        } else {
            let next: u32 = acc * 10 + (c - 48) as u32;
            if next > 255 {
                too_big = true;
            } else {
                acc = next;
            }
        }
        i += 1;
    }
    proof {
        assert(s@.take(n as int) =~= s@);
    }
    if too_big {
        return None;
    }
    Some(acc as u8)
}

} // verus!

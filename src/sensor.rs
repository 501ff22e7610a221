use vstd::prelude::*;

verus! {

/// Largest plausible humidity reading, in tenths of a percent.
pub const MAX_HUMIDITY: u16 = 1000;

/// Microseconds above which a high pulse of the sensor encodes a one.
pub const ONE_THRESHOLD_US: u64 = 35;

/// Why a sensor reading failed.
#[derive(Debug, PartialEq, Eq)]
pub enum SensorError {
    /// The GPIO line could not be used; the message says why.
    Io(String),
    ChecksumMismatch,
    HumidityTooHigh,
    Timeout,
}

/// The direction of a signal edge.
#[derive(Clone, Copy, Debug, PartialEq, Eq, Structural)]
pub enum Edge {
    Rising,
    Falling,
}

/// The bits the sensor sent, with a leading one dropped (no humidity is that large).
pub open spec fn trimmed(bits: Seq<u8>) -> Seq<u8> {
    if bits.len() > 0 && bits[0] == 1 { bits.drop_first() } else { bits }
}

/// Bit `j` of `b`, or zero past its end.
pub open spec fn bit_at(b: Seq<u8>, j: int) -> int {
    if 0 <= j < b.len() { b[j] as int } else { 0 }
}

/// The first `i` bits of the byte that starts at bit `start`, most significant first.
pub open spec fn byte_prefix(b: Seq<u8>, start: int, i: int) -> int
    decreases i,
{
    if i <= 0 { 0 } else { byte_prefix(b, start, i - 1) * 2 + bit_at(b, start + i - 1) }
}

/// Byte `k` of a bit string, most significant bit first; a short last chunk is padded
/// with zeros at the low end.
#[verifier::opaque]
pub open spec fn byte_of(b: Seq<u8>, k: int) -> int {
    byte_prefix(b, 8 * k, 8)
}

pub open spec fn is_bits(b: Seq<u8>) -> bool {
    forall|i: int| 0 <= i < b.len() ==> #[trigger] b[i] <= 1
}

/// What decoding a bit string of the sensor gives: humidity and temperature in tenths,
/// each from two bytes; with five full bytes the fifth must be the sum of the first four
/// modulo 256.
pub open spec fn decoded(bits: Seq<u8>) -> Result<(u16, u16), SensorError> {
    let b = trimmed(bits);
    let rh = byte_of(b, 0) * 256 + byte_of(b, 1);
    let celsius = byte_of(b, 2) * 256 + byte_of(b, 3);
    if rh > MAX_HUMIDITY {
        Err(SensorError::HumidityTooHigh)
    } else if b.len() >= 40 && (byte_of(b, 0) + byte_of(b, 1) + byte_of(b, 2) + byte_of(b, 3)) % 256 != byte_of(b, 4) {
        Err(SensorError::ChecksumMismatch)
    } else {
        Ok((rh as u16, celsius as u16))
    }
}

proof fn lemma_byte_prefix_bound(b: Seq<u8>, start: int, i: int)
    requires
        is_bits(b),
        0 <= i <= 8,
    ensures
        0 <= byte_prefix(b, start, i) < pow2_int(i),
    decreases i,
{
    if i > 0 {
        lemma_byte_prefix_bound(b, start, i - 1);
    }
}

pub open spec fn pow2_int(i: int) -> int
    decreases i,
{
    if i <= 0 { 1 } else { 2 * pow2_int(i - 1) }
}

/// Byte `k` of the bit string `b`.
fn byte_at(b: &[u8], k: usize) -> (r: u8)
    requires
        is_bits(b@),
        k <= 4,
    ensures
        r == byte_of(b@, k as int),
{
    let mut v: u8 = 0;
    let mut i: usize = 0;
    while i < 8
        invariant
            is_bits(b@),
            k <= 4,
            i <= 8,
            v == byte_prefix(b@, 8 * k as int, i as int),
        decreases 8 - i,
    {
        proof {
            lemma_byte_prefix_bound(b@, 8 * k as int, i as int);
            assert(pow2_int(i as int) <= 128) by {
                assert(pow2_int(0) == 1);
                assert(pow2_int(1) == 2);
                assert(pow2_int(2) == 4);
                assert(pow2_int(3) == 8);
                assert(pow2_int(4) == 16);
                assert(pow2_int(5) == 32);
                assert(pow2_int(6) == 64);
                assert(pow2_int(7) == 128);
            }
        }
        let j = 8 * k + i;
        let bit: u8 = if j < b.len() { b[j] } else { 0 };
        v = v * 2 + bit;
        i += 1;
    }
    proof {
        reveal(byte_of);
    }
    v
}

/// Decodes the bits a humidity/temperature sensor sent into (humidity, temperature),
/// both in tenths (see `decoded`).
pub fn process_data(bits: &[u8]) -> (r: Result<(u16, u16), SensorError>)
    requires
        is_bits(bits@),
        trimmed(bits@).len() >= 25,
    ensures
        r == decoded(bits@),
{
    let b: &[u8] = if bits[0] == 1 {
        let (_, rest) = bits.split_at(1);
        rest
    } else {
        bits
    };
    proof {
        if bits@[0] == 1 {
            assert(b@ =~= bits@.drop_first());
        }
        assert(b@ == trimmed(bits@));
    }
    let b0 = byte_at(b, 0);
    let b1 = byte_at(b, 1);
    let b2 = byte_at(b, 2);
    let b3 = byte_at(b, 3);
    let rh: u16 = (b0 as u16) * 256 + b1 as u16;
    if rh > MAX_HUMIDITY {
        return Err(SensorError::HumidityTooHigh);
    }
    let celsius: u16 = (b2 as u16) * 256 + b3 as u16;
    if b.len() >= 40 {
        let cksum = byte_at(b, 4);
        let sum: u16 = b0 as u16 + b1 as u16 + b2 as u16 + b3 as u16;
        let actual = (sum % 256) as u8;
        if actual != cksum {
            return Err(SensorError::ChecksumMismatch);
        }
    }
    Ok((rh, celsius))
}

/// The bits carried by the pulses of `ev` whose falling edge is at index 2 to `k`: a one
/// for a high pulse longer than 35 µs, else a zero. The first edge is the sensor's answer
/// to the start signal, not data.
pub open spec fn edge_bits(ev: Seq<(u64, Edge)>, k: int) -> Seq<u8>
    decreases k,
{
    if k < 2 || k >= ev.len() {
        Seq::empty()
    } else {
        let prev = edge_bits(ev, k - 1);
        if ev[k].1 == Edge::Falling {
            prev.push(if ev[k].0 - ev[k - 1].0 > ONE_THRESHOLD_US { 1u8 } else { 0u8 })
        } else {
            prev
        }
    }
}

/// Turns timed edges of the sensor line into data bits (see `edge_bits`).
pub fn events_to_data(events: &Vec<(u64, Edge)>) -> (r: Vec<u8>)
    requires
        forall|i: int| 0 <= i < events@.len() - 1 ==> #[trigger] events@[i].0 <= events@[i + 1].0,
    ensures
        r@ == edge_bits(events@, events@.len() - 1),
        is_bits(r@),
{
    let mut out: Vec<u8> = Vec::new();
    let mut k: usize = 2;
    while k < events.len()
        invariant
            2 <= k,
            k <= events@.len() || events@.len() < 2,
            forall|i: int| 0 <= i < events@.len() - 1 ==> #[trigger] events@[i].0 <= events@[i + 1].0,
            out@ == edge_bits(events@, k - 1),
            is_bits(out@),
        decreases events@.len() - k,
    {
        let (t_next, kind) = events[k];
        let (t_prev, _) = events[k - 1];
        proof {
            assert(events@[k - 1].0 <= events@[(k - 1) + 1].0);
        }
        if kind == Edge::Falling {
            out.push(if t_next - t_prev > ONE_THRESHOLD_US { 1 } else { 0 });
        }
        k += 1;
    }
    proof {
        if events@.len() < 3 {
            assert(edge_bits(events@, events@.len() - 1) == Seq::<u8>::empty());
        }
    }
    out
}

} // verus!

verus! {

/// Readings wanted for one stored measurement.
pub const READINGS_WANTED: usize = 5;

/// Attempts at a reading before giving up on more.
pub const READING_ATTEMPTS: usize = 10;

pub open spec fn is_sorted(s: Seq<u16>) -> bool {
    forall|i: int, j: int| 0 <= i < j < s.len() ==> s[i] <= s[j]
}

/// Relies on `slice::sort_unstable`: the same values, in ascending order.
#[verifier::external_body]
fn sorted(v: Vec<u16>) -> (r: Vec<u16>)
    ensures
        r@.to_multiset() == v@.to_multiset(),
        r@.len() == v@.len(),
        is_sorted(r@),
{
    let mut v = v;
    v.sort_unstable();
    v
}

/// Whether a reading is plausible enough to keep: some humidity, under 50 °C.
pub fn accept_reading(humidity: u16, celsius: u16) -> (r: bool)
    ensures
        r == (humidity > 0 && celsius < 500),
{
    humidity > 0 && celsius < 500
}

/// The median of `v` (the upper one of an even count), or `None` when `v` is empty.
pub fn median(v: Vec<u16>) -> (r: Option<u16>)
    ensures
        v@.len() == 0 ==> r is None,
        v@.len() > 0 ==> exists|t: Seq<u16>| #[trigger] t.to_multiset() == v@.to_multiset() && t.len() == v@.len()
            && is_sorted(t) && r == Some(t[(v@.len() / 2) as int]),
{
    if v.len() == 0 {
        return None;
    }
    let ghost orig = v@;
    let s = sorted(v);
    let m = s[s.len() / 2];
    assert(s@.to_multiset() == orig.to_multiset() && s@.len() == orig.len() && is_sorted(s@) && Some(m) == Some(s@[(orig.len() / 2) as int]));
    Some(m)
}

} // verus!

//! Decoding and checking a motion burst.
use crate::protocol::{Command, Progress, Reply};
use crate::register::MOTION_BURST;
use crate::types::{MotionDelta, SensorError};
use vstd::prelude::*;

verus! {

/// The 16-bit two's complement value whose low byte is `low` and high byte is `high`.
pub open spec fn i16_from_bytes(low: u8, high: u8) -> i16 {
    (if high < 128 {
        high * 256 + low
    } else {
        high * 256 + low - 65536
    }) as i16
}

/// Decoding a 16-bit value: its remainder modulo 256 is the low byte, it is
/// negative exactly when the high byte is at least 0x80, and different byte pairs
/// give different values.
pub proof fn lemma_i16_from_bytes(low: u8, high: u8, low2: u8, high2: u8)
    ensures
        (i16_from_bytes(low, high) as int) % 256 == low,
        i16_from_bytes(low, high) < 0 <==> high >= 0x80,
        i16_from_bytes(low, high) == i16_from_bytes(low2, high2) ==> low == low2 && high == high2,
{
    let v = i16_from_bytes(low, high) as int;
    let w = i16_from_bytes(low2, high2) as int;
    assert(v == (if high < 128 { high * 256 + low } else { high * 256 + low - 65536 }));
    assert(w == (if high2 < 128 { high2 * 256 + low2 } else { high2 * 256 + low2 - 65536 }));
    assert(v % 256 == low) by {
        if high >= 128 {
            assert((high - 256) * 256 + low == v);
            vstd::arithmetic::div_mod::lemma_fundamental_div_mod_converse(
                v,
                256,
                high - 256,
                low as int,
            );
        } else {
            vstd::arithmetic::div_mod::lemma_fundamental_div_mod_converse(
                v,
                256,
                high as int,
                low as int,
            );
        }
    }
}

/// `x` and `y` are the two 16-bit values stored in `bytes`, both in the same byte order.
pub open spec fn deltas_in(bytes: Seq<u8>, x: i16, y: i16) -> bool {
    ||| x == i16_from_bytes(bytes[0], bytes[1]) && y == i16_from_bytes(bytes[2], bytes[3])
    ||| x == i16_from_bytes(bytes[1], bytes[0]) && y == i16_from_bytes(bytes[3], bytes[2])
}

/// Calls `bytemuck::pod_read_unaligned::<[i16; 2]>`, which copies the four bytes
/// into two `i16` values as they lie in memory, so in the machine's native byte
/// order: little-endian or big-endian, the same for both values. Which of the two
/// the machine uses is not stated.
#[verifier::external_body]
fn read_delta_pair(bytes: [u8; 4]) -> (pair: [i16; 2])
    ensures
        deltas_in(bytes@, pair[0], pair[1]),
{
    bytemuck::pod_read_unaligned::<[i16; 2]>(&bytes)
}

/// The fields of a motion burst, in the order in which the sensor sends them.
#[derive(Debug, Clone, Copy, PartialEq, Eq, Structural)]
pub struct MotionRaw {
    pub dr: u8,
    pub obs: u8,
    pub x: i16,
    pub y: i16,
    pub quality: u8,
    pub raw_sum: u8,
    pub raw_max: u8,
    pub raw_min: u8,
    pub shutter_upper: u8,
    pub shutter_lower: u8,
}

/// Whether a burst passes validation: bit 7 of its first byte (motion ready) is
/// set, and it is not the case that the quality (byte 6) is below 0x19 while the
/// upper shutter byte (byte 10) is 0x1F.
pub open spec fn burst_is_valid(burst: Seq<u8>) -> bool {
    &&& burst[0] & 0x80 != 0
    &&& !(burst[6] < 0x19 && burst[10] == 0x1F)
}

/// What reading a motion burst yields: the deltas of a valid burst (bytes 2..4
/// and 4..6), or `InvalidMotion`.
pub open spec fn burst_outcome(burst: Seq<u8>, outcome: Result<MotionDelta, SensorError>) -> bool {
    if burst_is_valid(burst) {
        outcome matches Ok(delta) && deltas_in(burst.subrange(2, 6), delta.x, delta.y)
    } else {
        outcome == Err::<MotionDelta, SensorError>(SensorError::InvalidMotion)
    }
}

impl MotionRaw {
    /// This is the burst `burst` read field by field.
    pub open spec fn laid_out_in(self, burst: Seq<u8>) -> bool {
        &&& burst.len() == 12
        &&& self.dr == burst[0]
        &&& self.obs == burst[1]
        &&& deltas_in(burst.subrange(2, 6), self.x, self.y)
        &&& self.quality == burst[6]
        &&& self.raw_sum == burst[7]
        &&& self.raw_max == burst[8]
        &&& self.raw_min == burst[9]
        &&& self.shutter_upper == burst[10]
        &&& self.shutter_lower == burst[11]
    }

    pub open spec fn spec_is_valid(self) -> bool {
        &&& self.dr & 0x80 != 0
        &&& !(self.quality < 0x19 && self.shutter_upper == 0x1F)
    }

    /// Reads the fields out of a burst.
    pub fn from_burst(burst: [u8; 12]) -> (raw: MotionRaw)
        ensures
            raw.laid_out_in(burst@),
    {
        let pair = read_delta_pair([burst[2], burst[3], burst[4], burst[5]]);
        let raw = MotionRaw {
            dr: burst[0],
            obs: burst[1],
            x: pair[0],
            y: pair[1],
            quality: burst[6],
            raw_sum: burst[7],
            raw_max: burst[8],
            raw_min: burst[9],
            shutter_upper: burst[10],
            shutter_lower: burst[11],
        };
        assert(burst@.subrange(2, 6) =~= seq![burst[2], burst[3], burst[4], burst[5]]);
        raw
    }

    pub fn is_valid(&self) -> (valid: bool)
        ensures
            valid == self.spec_is_valid(),
    {
        (0 != self.dr & 0b1000_0000) && !((self.quality < 0x19) && (self.shutter_upper == 0x1F))
    }

    /// The motion of a burst that passes validation, else `InvalidMotion`.
    pub fn to_delta(&self) -> (delta: Result<MotionDelta, SensorError>)
        ensures
            self.spec_is_valid() ==> delta == Ok::<MotionDelta, SensorError>(
                MotionDelta { x: self.x, y: self.y },
            ),
            !self.spec_is_valid() ==> delta == Err::<MotionDelta, SensorError>(
                SensorError::InvalidMotion,
            ),
    {
        if self.is_valid() {
            Ok(MotionDelta { x: self.x, y: self.y })
        } else {
            Err(SensorError::InvalidMotion)
        }
    }
}

/// Which bursts pass validation: exactly those whose first byte is at least 0x80
/// (its top bit set, whatever its other bits) and whose quality byte is at least
/// 0x19 or whose upper shutter byte is not 0x1F.
pub proof fn lemma_burst_validity(burst: Seq<u8>)
    requires
        burst.len() == 12,
    ensures
        burst_is_valid(burst) <==> (burst[0] >= 0x80 && (burst[6] >= 0x19 || burst[10] != 0x1F)),
{
    let first = burst[0];
    assert(first & 0x80 != 0 <==> first >= 0x80) by (bit_vector);
}

/// The deltas of a valid burst are bytes 2 and 3 (x) and bytes 4 and 5 (y), each
/// pair taken in the same byte order; an invalid burst gives `InvalidMotion`.
pub proof fn lemma_burst_deltas(burst: Seq<u8>, outcome: Result<MotionDelta, SensorError>)
    requires
        burst.len() == 12,
        burst_outcome(burst, outcome),
    ensures
        outcome matches Ok(delta) ==> {
            ||| delta.x == i16_from_bytes(burst[2], burst[3]) && delta.y == i16_from_bytes(
                burst[4],
                burst[5],
            )
            ||| delta.x == i16_from_bytes(burst[3], burst[2]) && delta.y == i16_from_bytes(
                burst[5],
                burst[4],
            )
        },
        outcome is Err <==> !(burst[0] >= 0x80 && (burst[6] >= 0x19 || burst[10] != 0x1F)),
        outcome is Err ==> outcome == Err::<MotionDelta, SensorError>(SensorError::InvalidMotion),
{
    lemma_burst_validity(burst);
}

/// Validation reads only bit 7 of the first byte: two bursts that differ only in
/// bits 6..0 of their first byte give the same outcomes.
pub proof fn lemma_motion_ignores_status_bits(
    b: Seq<u8>,
    c: Seq<u8>,
    outcome: Result<MotionDelta, SensorError>,
)
    requires
        b.len() == 12,
        c.len() == 12,
        b[0] & 0x80 == c[0] & 0x80,
        forall|i: int| 1 <= i < 12 ==> b[i] == c[i],
    ensures
        burst_is_valid(b) == burst_is_valid(c),
        burst_outcome(b, outcome) == burst_outcome(c, outcome),
{
    lemma_burst_validity(b);
    lemma_burst_validity(c);
    let (x, y) = (b[0], c[0]);
    assert(x & 0x80 == y & 0x80 ==> (x >= 0x80 <==> y >= 0x80)) by (bit_vector);
    assert(b.subrange(2, 6) =~= c.subrange(2, 6));
}

/// Which decoded bursts are valid: exactly those whose first byte is at least 0x80
/// and whose quality is at least 0x19 or whose upper shutter byte is not 0x1F.
pub proof fn lemma_raw_validity(raw: MotionRaw)
    ensures
        raw.spec_is_valid() <==> (raw.dr >= 0x80 && (raw.quality >= 0x19 || raw.shutter_upper
            != 0x1F)),
{
    let dr = raw.dr;
    assert(dr & 0x80 != 0 <==> dr >= 0x80) by (bit_vector);
}

/// Decodes and validates a motion burst.
pub fn motion_from_burst(burst: [u8; 12]) -> (delta: Result<MotionDelta, SensorError>)
    ensures
        burst_outcome(burst@, delta),
{
    let raw = MotionRaw::from_burst(burst);
    raw.to_delta()
}

/// Retrieving motion data: one burst read, decoded and validated.
pub struct MotionQuery;

impl MotionQuery {
    /// The command that the machine waits on the reply to.
    pub open spec fn pending(&self) -> Command {
        Command::ReadBurst { register: MOTION_BURST }
    }

    pub fn start() -> (progress: Progress<MotionQuery, MotionDelta>)
        ensures
            progress matches Progress::Continue(_, command) && command == (Command::ReadBurst {
                register: MOTION_BURST,
            }),
    {
        Progress::Continue(MotionQuery, Command::ReadBurst { register: MOTION_BURST })
    }

    pub fn resume(self, reply: Reply) -> (progress: Progress<MotionQuery, MotionDelta>)
        requires
            reply.answers(self.pending()),
        ensures
            match reply {
                Reply::Failed(kind) => progress == Progress::<MotionQuery, MotionDelta>::Finish(
                    Err(SensorError::Spi(kind)),
                ),
                Reply::Burst(burst) => progress matches Progress::Finish(outcome) && burst_outcome(
                    burst@,
                    outcome,
                ),
                _ => false,
            },
    {
        match reply {
            Reply::Burst(burst) => Progress::Finish(motion_from_burst(burst)),
            Reply::Failed(kind) => Progress::Finish(Err(SensorError::Spi(kind))),
            _ => vstd::pervasive::unreached(),
        }
    }
}

} // verus!

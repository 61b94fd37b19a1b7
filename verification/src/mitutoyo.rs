//! Decoder for the synchronous bit-serial indicator protocol.
//!
//! A reading travels as one 52-bit frame: 13 nibbles, each strobed in four
//! clock pulses. The four leading nibbles are an all-ones start marker, the
//! fifth carries the sign, the next six are the decimal digits of the
//! magnitude (most significant first), the twelfth gives the position of the
//! decimal point, and the last is reserved. [`Sampler`] assembles the frame
//! one pin poll at a time under per-edge timeouts, [`decode_frame`] turns the
//! 13 nibbles into an exact decimal [`Measurement`], and [`Urica`] runs one
//! channel's origin-set actuation against the shared register table.

use vstd::prelude::*;

use crate::CLOCK_EDGE_TIMEOUT;
use crate::SET_ORIGIN_TIMEOUT;
use crate::registers::RegisterBank;

verus! {

/// Why a measurement attempt failed.
#[derive(Clone, Copy, Debug, PartialEq, Eq, Structural)]
pub enum MeasurementError {
    /// A required clock edge did not arrive within the per-half-cycle budget.
    Timeout,
    /// The four leading nibbles of the frame were not the start marker.
    InvalidStart,
}

/// A decoded reading: the exact decimal value `numerator / denominator`, held
/// as a sign, an integer magnitude and a power-of-ten scale.
#[derive(Clone, Copy, Debug, PartialEq, Eq, Structural)]
pub struct Measurement {
    /// True when the reading is negative.
    pub negative: bool,
    /// The six decimal digits read as one integer.
    pub magnitude: u32,
    /// How many decimal places the magnitude carries.
    pub scale: u8,
}

/// Ten to the power `e`.
pub open spec fn pow10(e: nat) -> nat
    decreases e,
{
    if e == 0 {
        1
    } else {
        10 * pow10((e - 1) as nat)
    }
}

impl Measurement {
    /// The signed integer numerator of the reading.
    pub open spec fn numerator(self) -> int {
        if self.negative {
            -(self.magnitude as int)
        } else {
            self.magnitude as int
        }
    }

    /// The power of ten the numerator is divided by.
    pub open spec fn denominator(self) -> nat {
        pow10(self.scale as nat)
    }
}

/// The magnitude encoded by the six digit nibbles of a frame, most significant
/// digit first: each digit at offset `i` from nibble 5 weighs `10^(5 - i)`.
pub open spec fn frame_magnitude(nibbles: Seq<u8>) -> int {
    nibbles[5] * 100000 + nibbles[6] * 10000 + nibbles[7] * 1000 + nibbles[8] * 100 + nibbles[9]
        * 10 + nibbles[10]
}

/// The digit weights in [`frame_magnitude`] are the powers of ten the
/// protocol gives them: the digit at offset `i` from nibble 5 weighs
/// `10^(5 - i)`.
pub proof fn lemma_frame_magnitude_weights(nibbles: Seq<u8>)
    ensures
        frame_magnitude(nibbles) == nibbles[5] * pow10(5) + nibbles[6] * pow10(4) + nibbles[7]
            * pow10(3) + nibbles[8] * pow10(2) + nibbles[9] * pow10(1) + nibbles[10] * pow10(0),
{
    assert(pow10(0) == 1);
    assert(pow10(1) == 10);
    assert(pow10(2) == 100);
    assert(pow10(3) == 1000);
    assert(pow10(4) == 10000);
    assert(pow10(5) == 100000);
}

/// Whether the four leading nibbles are the all-ones start marker.
pub open spec fn valid_start(nibbles: Seq<u8>) -> bool {
    nibbles[0] == 0xf && nibbles[1] == 0xf && nibbles[2] == 0xf && nibbles[3] == 0xf
}

/// The measurement a valid frame encodes: nibble 4 equal to `0x8` marks a
/// negative reading, nibbles 5 to 10 give the magnitude and nibble 11 the
/// decimal places. Nibble 12 is reserved and ignored.
pub open spec fn decoded_measurement(nibbles: Seq<u8>) -> Measurement {
    Measurement {
        negative: nibbles[4] == 0x8,
        magnitude: frame_magnitude(nibbles) as u32,
        scale: nibbles[11],
    }
}

/// What decoding a complete 13-nibble frame yields.
pub open spec fn decode_result(nibbles: Seq<u8>) -> Result<Measurement, MeasurementError> {
    if valid_start(nibbles) {
        Ok(decoded_measurement(nibbles))
    } else {
        Err(MeasurementError::InvalidStart)
    }
}

/// Decode one complete 13-nibble frame.
///
/// Decoding is deterministic: a frame without the start marker is rejected,
/// and a frame with it yields exactly the value
/// `sign * (sum of digit_i * 10^(5 - i)) / 10^scale`, held undivided.
pub fn decode_frame(nibbles: &Vec<u8>) -> (r: Result<Measurement, MeasurementError>)
    requires
        nibbles@.len() == 13,
        forall|i: int| 0 <= i < 13 ==> nibbles@[i] < 16,
    ensures
        r == decode_result(nibbles@),
        r matches Ok(m) ==> m.numerator() == (if nibbles@[4] == 0x8 {
            -frame_magnitude(nibbles@)
        } else {
            frame_magnitude(nibbles@)
        }) && m.denominator() == pow10(nibbles@[11] as nat),
{
    if nibbles[0] != 0xf || nibbles[1] != 0xf || nibbles[2] != 0xf || nibbles[3] != 0xf {
        return Err(MeasurementError::InvalidStart);
    }
    let magnitude: u32 = (nibbles[5] as u32) * 100000 + (nibbles[6] as u32) * 10000 + (
    nibbles[7] as u32) * 1000 + (nibbles[8] as u32) * 100 + (nibbles[9] as u32) * 10 + (
    nibbles[10] as u32);
    Ok(Measurement { negative: nibbles[4] == 0x8, magnitude, scale: nibbles[11] })
}

/// One sampling step of the nibble accumulator: the bits already held shift
/// toward the least significant end and the new bit enters at the top.
pub open spec fn shift_in_bit(acc: int, bit: bool) -> int {
    acc / 2 + if bit {
        8int
    } else {
        0int
    }
}

/// Four sampled bits fill one nibble least-significant-bit first: starting
/// from an empty accumulator, the bit sampled first lands at weight 1 and the
/// bit sampled last at weight 8.
pub proof fn lemma_nibble_assembly(b0: bool, b1: bool, b2: bool, b3: bool)
    ensures
        shift_in_bit(shift_in_bit(shift_in_bit(shift_in_bit(0, b0), b1), b2), b3) == (if b0 {
            1int
        } else {
            0int
        }) + (if b1 {
            2int
        } else {
            0int
        }) + (if b2 {
            4int
        } else {
            0int
        }) + (if b3 {
            8int
        } else {
            0int
        }),
{
}

/// Which half of the clock pulse the sampler is waiting for.
#[derive(Clone, Copy, Debug, PartialEq, Eq, Structural)]
pub enum SamplePhase {
    /// Waiting for the clock input to go high.
    WaitRise,
    /// Waiting for the clock input to return low.
    WaitFall,
}

/// Assembles one 13-nibble frame from a clock/data input pair, one pin poll
/// at a time.
///
/// The sensor is the clock master: each data bit is strobed by one full clock
/// pulse, and the bit is the data level seen at the falling edge. Each half
/// of the pulse is bounded by [`CLOCK_EDGE_TIMEOUT`] ticks; a stalled clock
/// aborts the frame at once, so a disconnected sensor can never hang the
/// poll loop. The caller polls the pins and feeds every sample to [`step`]
/// together with the current tick.
///
/// [`step`]: Sampler::step
pub struct Sampler {
    nibbles: Vec<u8>,
    acc: u8,
    bits_done: u8,
    phase: SamplePhase,
    phase_start: u64,
    failed: bool,
}

impl Sampler {
    /// The nibbles captured so far, in frame order.
    pub closed spec fn nibbles_read(self) -> Seq<u8> {
        self.nibbles@
    }

    /// The partly assembled current nibble.
    pub closed spec fn partial_acc(self) -> int {
        self.acc as int
    }

    /// How many bits of the current nibble have been sampled.
    pub closed spec fn bits_sampled(self) -> int {
        self.bits_done as int
    }

    /// Which clock edge is awaited.
    pub closed spec fn phase(self) -> SamplePhase {
        self.phase
    }

    /// The tick at which the current wait began.
    pub closed spec fn phase_started_at(self) -> int {
        self.phase_start as int
    }

    /// Whether the frame was aborted by a timeout.
    pub closed spec fn has_failed(self) -> bool {
        self.failed
    }

    /// Whether the sampler still expects further samples.
    pub open spec fn in_progress(self) -> bool {
        !self.has_failed() && self.nibbles_read().len() < 13
    }

    pub open spec fn wf(self) -> bool {
        &&& self.nibbles_read().len() <= 13
        &&& forall|i: int| 0 <= i < self.nibbles_read().len() ==> self.nibbles_read()[i] < 16
        &&& 0 <= self.bits_sampled() < 4
        &&& 0 <= self.partial_acc() < 16
    }

    /// Start reading one frame at the given tick.
    pub fn new(now: u64) -> (s: Sampler)
        ensures
            s.wf(),
            s.in_progress(),
            s.nibbles_read() == Seq::<u8>::empty(),
            s.partial_acc() == 0,
            s.bits_sampled() == 0,
            s.phase() == SamplePhase::WaitRise,
            s.phase_started_at() == now,
    {
        Sampler {
            nibbles: Vec::new(),
            acc: 0,
            bits_done: 0,
            phase: SamplePhase::WaitRise,
            phase_start: now,
            failed: false,
        }
    }

    /// Whether the sampler still expects further samples: false once the
    /// frame is complete or was abandoned on a timeout.
    pub fn is_in_progress(&self) -> (r: bool)
        ensures
            r == self.in_progress(),
    {
        !self.failed && self.nibbles.len() < 13
    }

    /// The level the request output should be driven to: high until the first
    /// nibble has been captured (the transaction-start pulse the sensor
    /// consumes), low from then on.
    pub fn request_high(&self) -> (r: bool)
        ensures
            r == (self.nibbles_read().len() == 0),
    {
        self.nibbles.len() == 0
    }

    /// Feed one poll of the clock and data inputs, taken at tick `now`.
    ///
    /// Returns `None` while the frame is still being assembled; the decoded
    /// measurement or the framing error once the thirteenth nibble is in; and
    /// `Err(Timeout)` as soon as a required clock edge has stayed away for
    /// more than [`CLOCK_EDGE_TIMEOUT`] ticks. Nothing is written anywhere on
    /// failure: the caller simply abandons the attempt.
    pub fn step(&mut self, clock_high: bool, data_high: bool, now: u64) -> (r: Option<
        Result<Measurement, MeasurementError>,
    >)
        requires
            old(self).wf(),
            old(self).in_progress(),
            now >= old(self).phase_started_at(),
        ensures
            final(self).wf(),
            // a clock edge that stays away past its budget aborts the frame
            old(self).phase() == SamplePhase::WaitRise && !clock_high && now - old(self).phase_started_at() > CLOCK_EDGE_TIMEOUT ==> r == Some(
                Err::<Measurement, MeasurementError>(MeasurementError::Timeout),
            ) && !final(self).in_progress(),
            old(self).phase() == SamplePhase::WaitFall && clock_high && now - old(self).phase_started_at() > CLOCK_EDGE_TIMEOUT ==> r == Some(
                Err::<Measurement, MeasurementError>(MeasurementError::Timeout),
            ) && !final(self).in_progress(),
            // still waiting, within budget: nothing changes
            old(self).phase() == SamplePhase::WaitRise && !clock_high && now - old(self).phase_started_at() <= CLOCK_EDGE_TIMEOUT ==> r is None && *final(self) == *old(self),
            old(self).phase() == SamplePhase::WaitFall && clock_high && now - old(self).phase_started_at() <= CLOCK_EDGE_TIMEOUT ==> r is None && *final(self) == *old(self),
            // the rising edge arrives: await the falling edge from this tick on
            old(self).phase() == SamplePhase::WaitRise && clock_high ==> r is None && final(self).phase() == SamplePhase::WaitFall && final(self).phase_started_at() == now && final(self).nibbles_read() == old(self).nibbles_read() && final(self).partial_acc() == old(self).partial_acc() && final(self).bits_sampled() == old(self).bits_sampled() && final(self).in_progress(),
            // the falling edge arrives: the data level is the sampled bit
            old(self).phase() == SamplePhase::WaitFall && !clock_high && old(self).bits_sampled()
                < 3 ==> r is None && final(self).phase() == SamplePhase::WaitRise && final(self).phase_started_at() == now && final(self).nibbles_read() == old(self).nibbles_read()
                && final(self).partial_acc() == shift_in_bit(old(self).partial_acc(), data_high)
                && final(self).bits_sampled() == old(self).bits_sampled() + 1 && final(self).in_progress(),
            // the fourth bit completes a nibble
            old(self).phase() == SamplePhase::WaitFall && !clock_high && old(self).bits_sampled()
                == 3 && old(self).nibbles_read().len() < 12 ==> r is None && final(self).phase()
                == SamplePhase::WaitRise && final(self).phase_started_at() == now && final(self).nibbles_read() == old(self).nibbles_read().push(
                shift_in_bit(old(self).partial_acc(), data_high) as u8,
            ) && final(self).partial_acc() == 0 && final(self).bits_sampled() == 0 && final(self).in_progress(),
            // the thirteenth nibble completes the frame, which is decoded at once
            old(self).phase() == SamplePhase::WaitFall && !clock_high && old(self).bits_sampled()
                == 3 && old(self).nibbles_read().len() == 12 ==> final(self).nibbles_read() == old(self).nibbles_read().push(shift_in_bit(old(self).partial_acc(), data_high) as u8) && r
                == Some(decode_result(final(self).nibbles_read())) && !final(self).in_progress(),
    {
        match self.phase {
            SamplePhase::WaitRise => {
                if clock_high {
                    self.phase = SamplePhase::WaitFall;
                    self.phase_start = now;
                    None
                } else if now - self.phase_start > CLOCK_EDGE_TIMEOUT {
                    self.failed = true;
                    Some(Err(MeasurementError::Timeout))
                } else {
                    None
                }
            },
            SamplePhase::WaitFall => {
                if clock_high {
                    if now - self.phase_start > CLOCK_EDGE_TIMEOUT {
                        self.failed = true;
                        Some(Err(MeasurementError::Timeout))
                    } else {
                        None
                    }
                } else {
                    let bit: u8 = if data_high {
                        8
                    } else {
                        0
                    };
                    let nibble = self.acc / 2 + bit;
                    self.phase = SamplePhase::WaitRise;
                    self.phase_start = now;
                    if self.bits_done < 3 {
                        self.acc = nibble;
                        self.bits_done = self.bits_done + 1;
                        None
                    } else {
                        self.acc = 0;
                        self.bits_done = 0;
                        self.nibbles.push(nibble);
                        if self.nibbles.len() == 13 {
                            Some(decode_frame(&self.nibbles))
                        } else {
                            None
                        }
                    }
                }
            },
        }
    }
}

/// What the surrounding firmware should do after one poll of a channel.
#[derive(Clone, Copy, Debug, PartialEq, Eq, Structural)]
pub enum PollAction {
    /// Drive the origin output high: a timed origin-set actuation has begun.
    BeginOrigin,
    /// Drive the origin output low: the actuation is over and its coil has
    /// been cleared.
    EndOrigin,
    /// No origin work is pending: attempt one measurement cycle now.
    Measure,
    /// An actuation is still running (or its coil was released early): do
    /// nothing this iteration.
    Hold,
}

/// One sensor channel: its coil and register assignment and the state of its
/// origin-set actuation.
///
/// The channel is polled once per main-loop iteration. While its origin coil
/// is set it runs a timed actuation instead of measuring: the origin output
/// goes high at once, stays high until [`SET_ORIGIN_TIMEOUT`] ticks have
/// passed, and on completion the coil is cleared in the table, so the network
/// client observes it reset itself. Only when the coil is clear and no
/// actuation is running is a measurement attempted.
pub struct Urica {
    origin_coil: usize,
    measurement_register: usize,
    setting_origin: bool,
    origin_set_start: u64,
}

impl Urica {
    /// The coil index that triggers this channel's origin-set actuation.
    pub closed spec fn origin_coil(self) -> int {
        self.origin_coil as int
    }

    /// The first of the two consecutive input registers holding this
    /// channel's reading.
    pub closed spec fn measurement_register(self) -> int {
        self.measurement_register as int
    }

    /// Whether an origin-set actuation is in progress.
    pub closed spec fn setting_origin(self) -> bool {
        self.setting_origin
    }

    /// The tick at which the running actuation began.
    pub closed spec fn origin_set_start(self) -> int {
        self.origin_set_start as int
    }

    /// The coil index and both register indices lie inside the table.
    pub open spec fn wf(self) -> bool {
        &&& 0 <= self.origin_coil() < crate::REGISTER_COUNT
        &&& 0 <= self.measurement_register()
        &&& self.measurement_register() + 2 <= crate::REGISTER_COUNT
    }

    /// Bind a channel to its coil and its pair of input registers.
    pub fn new(origin_coil: usize, measurement_register: usize) -> (r: Urica)
        requires
            origin_coil < crate::REGISTER_COUNT,
            measurement_register + 2 <= crate::REGISTER_COUNT,
        ensures
            r.wf(),
            r.origin_coil() == origin_coil,
            r.measurement_register() == measurement_register,
            !r.setting_origin(),
            r.origin_set_start() == 0,
    {
        Urica { origin_coil, measurement_register, setting_origin: false, origin_set_start: 0 }
    }

    /// Run one poll iteration of the origin state machine at tick `now`.
    ///
    /// Reads the channel's coil and decides this iteration's work: begin an
    /// actuation the moment the coil turns up set, hold the output high while
    /// the actuation is within [`SET_ORIGIN_TIMEOUT`] ticks, and once that
    /// budget is exceeded drive it low again and clear the coil. No
    /// measurement is attempted while the coil is set or an actuation runs;
    /// the table is untouched except for that self-clearing coil write.
    pub fn poll(&mut self, bank: &mut RegisterBank, now: u64) -> (r: PollAction)
        requires
            old(self).wf(),
            old(bank).wf(),
            old(self).setting_origin() ==> now >= old(self).origin_set_start(),
        ensures
            final(self).wf(),
            final(bank).wf(),
            final(self).origin_coil() == old(self).origin_coil(),
            final(self).measurement_register() == old(self).measurement_register(),
            ({
                let requested = old(bank).coils()[old(self).origin_coil()];
                &&& requested && !old(self).setting_origin() ==> r == PollAction::BeginOrigin
                    && final(self).setting_origin() && final(self).origin_set_start() == now && *final(bank)
                    == *old(bank)
                &&& requested && old(self).setting_origin() && now - old(self).origin_set_start()
                    > SET_ORIGIN_TIMEOUT ==> r == PollAction::EndOrigin && !final(self).setting_origin() && final(self).origin_set_start() == old(self).origin_set_start() && final(bank).coils() == old(bank).coils().update(
                    old(self).origin_coil(),
                    false,
                ) && final(bank).discrete_inputs() == old(bank).discrete_inputs() && final(bank).input_registers() == old(bank).input_registers() && final(bank).holding_registers() == old(bank).holding_registers()
                &&& requested && old(self).setting_origin() && now - old(self).origin_set_start()
                    <= SET_ORIGIN_TIMEOUT ==> r == PollAction::Hold && *final(self) == *old(self)
                    && *final(bank) == *old(bank)
                &&& !requested && !old(self).setting_origin() ==> r == PollAction::Measure
                    && *final(self) == *old(self) && *final(bank) == *old(bank)
                &&& !requested && old(self).setting_origin() ==> r == PollAction::Hold && *final(self) == *old(self) && *final(bank) == *old(bank)
            }),
    {
        let requested = bank.coil(self.origin_coil);
        if requested && !self.setting_origin {
            self.setting_origin = true;
            self.origin_set_start = now;
            return PollAction::BeginOrigin;
        }
        if requested && self.setting_origin {
            if now - self.origin_set_start > SET_ORIGIN_TIMEOUT {
                self.setting_origin = false;
                bank.set_coil(self.origin_coil, false);
                return PollAction::EndOrigin;
            }
            return PollAction::Hold;
        }
        if !requested && !self.setting_origin {
            return PollAction::Measure;
        }
        PollAction::Hold
    }

    /// Store one successfully decoded reading in the channel's pair of input
    /// registers: the low half of its 32-bit network encoding at the base
    /// index, the high half just above it. Nothing else in the table moves.
    pub fn store_measurement(&self, bank: &mut RegisterBank, low_half: u16, high_half: u16)
        requires
            self.wf(),
            old(bank).wf(),
        ensures
            final(bank).wf(),
            final(bank).input_registers() == old(bank).input_registers().update(
                self.measurement_register(),
                low_half,
            ).update(self.measurement_register() + 1, high_half),
            final(bank).coils() == old(bank).coils(),
            final(bank).discrete_inputs() == old(bank).discrete_inputs(),
            final(bank).holding_registers() == old(bank).holding_registers(),
    {
        bank.set_input_register(self.measurement_register, low_half);
        bank.set_input_register(self.measurement_register + 1, high_half);
    }
}

} // verus!


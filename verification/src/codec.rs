//! Register codec: the sixteen-bit configuration word and the sixteen-bit
//! conversion result, as pure functions.
//!
//! Layout of the configuration word, most significant bit first:
//! start (15), input multiplexer (14:12), gain (11:9), operating mode (8),
//! data rate (7:5), comparator mode (4), comparator polarity (3),
//! comparator latching (2), comparator queue (1:0).

use vstd::prelude::*;
use crate::fields::{CompLatch, CompMode, CompPolarity, CompQueue, DataRate, Gain, Mode, Mux};

verus! {

/// Bus address of the converter with its address pin tied to ground.
pub const ADDR_ADS115: u16 = 0x48;

/// Address of the configuration register.
pub const REG_CONFIGURATION: u8 = 0x01;

/// Address of the conversion result register.
pub const REG_CONVERSION: u8 = 0x00;

/// The word sent on every cycle: start a single-shot conversion of the first
/// input pair at +/- 4.096 V and 128 samples per second, comparator disabled.
pub const FIXED_CONFIGURATION_WORD: u16 = 0x8383;

/// Mask of the input multiplexer field.
pub const MUX_MASK: u16 = 0x7000;

/// Mask of the gain field.
pub const GAIN_MASK: u16 = 0x0E00;

/// Mask of the data rate field.
pub const RATE_MASK: u16 = 0x00E0;

/// One selected option for every field of the configuration register.
#[derive(Clone, Copy, Debug, PartialEq, Eq, Structural)]
pub struct ConfigFields {
    /// Whether the word starts a single-shot conversion.
    pub start: bool,
    pub mux: Mux,
    pub gain: Gain,
    pub mode: Mode,
    pub rate: DataRate,
    pub comp_mode: CompMode,
    pub comp_polarity: CompPolarity,
    pub comp_latch: CompLatch,
    pub comp_queue: CompQueue,
}

/// The word made of nine field values, each shifted to its place.
pub open spec fn pack(
    start: u16,
    mux: u16,
    gain: u16,
    mode: u16,
    rate: u16,
    comp_mode: u16,
    comp_polarity: u16,
    comp_latch: u16,
    comp_queue: u16,
) -> u16 {
    (start << 15) | (mux << 12) | (gain << 9) | (mode << 8) | (rate << 5) | (comp_mode << 4)
        | (comp_polarity << 3) | (comp_latch << 2) | comp_queue
}

/// Value of the start bit of a word.
pub open spec fn start_of(word: u16) -> u16 {
    word >> 15
}

/// Value of the input multiplexer field of a word.
pub open spec fn mux_of(word: u16) -> u16 {
    (word >> 12) & 7
}

/// Value of the gain field of a word.
pub open spec fn gain_of(word: u16) -> u16 {
    (word >> 9) & 7
}

/// Value of the operating mode bit of a word.
pub open spec fn mode_of(word: u16) -> u16 {
    (word >> 8) & 1
}

/// Value of the data rate field of a word.
pub open spec fn rate_of(word: u16) -> u16 {
    (word >> 5) & 7
}

/// Value of the comparator mode bit of a word.
pub open spec fn comp_mode_of(word: u16) -> u16 {
    (word >> 4) & 1
}

/// Value of the comparator polarity bit of a word.
pub open spec fn comp_polarity_of(word: u16) -> u16 {
    (word >> 3) & 1
}

/// Value of the comparator latching bit of a word.
pub open spec fn comp_latch_of(word: u16) -> u16 {
    (word >> 2) & 1
}

/// Value of the comparator queue field of a word.
pub open spec fn comp_queue_of(word: u16) -> u16 {
    word & 3
}

/// Every field of a packed word holds the value that was packed into it.
pub proof fn lemma_unpack(
    start: u16,
    mux: u16,
    gain: u16,
    mode: u16,
    rate: u16,
    comp_mode: u16,
    comp_polarity: u16,
    comp_latch: u16,
    comp_queue: u16,
)
    by (bit_vector)
    requires
        start < 2,
        mux < 8,
        gain < 8,
        mode < 2,
        rate < 8,
        comp_mode < 2,
        comp_polarity < 2,
        comp_latch < 2,
        comp_queue < 4,
    ensures
        ({
            let word = pack(
                start,
                mux,
                gain,
                mode,
                rate,
                comp_mode,
                comp_polarity,
                comp_latch,
                comp_queue,
            );
            &&& start_of(word) == start
            &&& mux_of(word) == mux
            &&& gain_of(word) == gain
            &&& mode_of(word) == mode
            &&& rate_of(word) == rate
            &&& comp_mode_of(word) == comp_mode
            &&& comp_polarity_of(word) == comp_polarity
            &&& comp_latch_of(word) == comp_latch
            &&& comp_queue_of(word) == comp_queue
        }),
{
}

/// A word is the packing of its own nine fields, each of which is in range.
pub proof fn lemma_repack(word: u16)
    by (bit_vector)
    ensures
        pack(
            start_of(word),
            mux_of(word),
            gain_of(word),
            mode_of(word),
            rate_of(word),
            comp_mode_of(word),
            comp_polarity_of(word),
            comp_latch_of(word),
            comp_queue_of(word),
        ) == word,
        start_of(word) < 2,
        mux_of(word) < 8,
        gain_of(word) < 8,
        mode_of(word) < 2,
        rate_of(word) < 8,
        comp_mode_of(word) < 2,
        comp_polarity_of(word) < 2,
        comp_latch_of(word) < 2,
        comp_queue_of(word) < 4,
{
}

impl ConfigFields {
    /// The configuration that every sampling cycle writes.
    pub open spec fn fixed_spec() -> ConfigFields {
        ConfigFields {
            start: true,
            mux: Mux::Ain0Ain1,
            gain: Gain::Range4096,
            mode: Mode::SingleShot,
            rate: DataRate::Sps128,
            comp_mode: CompMode::Traditional,
            comp_polarity: CompPolarity::ActiveLow,
            comp_latch: CompLatch::NonLatching,
            comp_queue: CompQueue::Disabled,
        }
    }

    /// The configuration word: the bitwise OR of the nine options' field
    /// values, each in its own bit range.
    pub open spec fn word_spec(self) -> u16 {
        pack(
            if self.start {
                1u16
            } else {
                0u16
            },
            self.mux.code_spec(),
            self.gain.code_spec(),
            self.mode.code_spec(),
            self.rate.code_spec(),
            self.comp_mode.code_spec(),
            self.comp_polarity.code_spec(),
            self.comp_latch.code_spec(),
            self.comp_queue.code_spec(),
        )
    }

    /// The options that a configuration word selects.
    pub open spec fn from_word_spec(word: u16) -> ConfigFields {
        ConfigFields {
            start: start_of(word) == 1,
            mux: Mux::from_code_spec(mux_of(word)),
            gain: Gain::from_code_spec(gain_of(word)),
            mode: Mode::from_code_spec(mode_of(word)),
            rate: DataRate::from_code_spec(rate_of(word)),
            comp_mode: CompMode::from_code_spec(comp_mode_of(word)),
            comp_polarity: CompPolarity::from_code_spec(comp_polarity_of(word)),
            comp_latch: CompLatch::from_code_spec(comp_latch_of(word)),
            comp_queue: CompQueue::from_code_spec(comp_queue_of(word)),
        }
    }

    /// The fixed configuration of this system.
    pub fn fixed() -> (fields: ConfigFields)
        ensures
            fields == ConfigFields::fixed_spec(),
            fields.word_spec() == FIXED_CONFIGURATION_WORD,
    {
        proof {
            assert(pack(1, 0, 1, 1, 4, 0, 0, 0, 3) == 0x8383u16) by (bit_vector);
        }
        ConfigFields {
            start: true,
            mux: Mux::Ain0Ain1,
            gain: Gain::Range4096,
            mode: Mode::SingleShot,
            rate: DataRate::Sps128,
            comp_mode: CompMode::Traditional,
            comp_polarity: CompPolarity::ActiveLow,
            comp_latch: CompLatch::NonLatching,
            comp_queue: CompQueue::Disabled,
        }
    }

    /// Encodes the selected options as the configuration word.
    pub fn word(self) -> (word: u16)
        ensures
            word == self.word_spec(),
            ConfigFields::from_word_spec(word) == self,
    {
        proof {
            self.word_round_trip();
        }
        let start: u16 = if self.start {
            1
        } else {
            0
        };
        (start << 15) | (self.mux.code() << 12) | (self.gain.code() << 9) | (self.mode.code() << 8)
            | (self.rate.code() << 5) | (self.comp_mode.code() << 4) | (self.comp_polarity.code()
            << 3) | (self.comp_latch.code() << 2) | self.comp_queue.code()
    }

    /// Decodes a configuration word into the options it selects. Every word
    /// selects exactly one option per field.
    pub fn from_word(word: u16) -> (fields: ConfigFields)
        ensures
            fields == ConfigFields::from_word_spec(word),
            fields.word_spec() == word,
    {
        proof {
            ConfigFields::fields_round_trip(word);
            lemma_repack(word);
        }
        ConfigFields {
            start: (word >> 15) == 1,
            mux: Mux::from_code((word >> 12) & 7).unwrap(),
            gain: Gain::from_code((word >> 9) & 7).unwrap(),
            mode: Mode::from_code((word >> 8) & 1).unwrap(),
            rate: DataRate::from_code((word >> 5) & 7).unwrap(),
            comp_mode: CompMode::from_code((word >> 4) & 1).unwrap(),
            comp_polarity: CompPolarity::from_code((word >> 3) & 1).unwrap(),
            comp_latch: CompLatch::from_code((word >> 2) & 1).unwrap(),
            comp_queue: CompQueue::from_code(word & 3).unwrap(),
        }
    }

    /// The nine field values of an option set are all in range.
    pub proof fn codes_in_range(self)
        ensures
            self.mux.code_spec() < 8,
            self.gain.code_spec() < 8,
            self.mode.code_spec() < 2,
            self.rate.code_spec() < 8,
            self.comp_mode.code_spec() < 2,
            self.comp_polarity.code_spec() < 2,
            self.comp_latch.code_spec() < 2,
            self.comp_queue.code_spec() < 4,
    {
    }

    /// In the encoded word every field holds the code of the selected option.
    pub proof fn word_fields(self)
        ensures
            start_of(self.word_spec()) == (if self.start {
                1u16
            } else {
                0u16
            }),
            mux_of(self.word_spec()) == self.mux.code_spec(),
            gain_of(self.word_spec()) == self.gain.code_spec(),
            mode_of(self.word_spec()) == self.mode.code_spec(),
            rate_of(self.word_spec()) == self.rate.code_spec(),
            comp_mode_of(self.word_spec()) == self.comp_mode.code_spec(),
            comp_polarity_of(self.word_spec()) == self.comp_polarity.code_spec(),
            comp_latch_of(self.word_spec()) == self.comp_latch.code_spec(),
            comp_queue_of(self.word_spec()) == self.comp_queue.code_spec(),
    {
        self.codes_in_range();
        lemma_unpack(
            if self.start {
                1u16
            } else {
                0u16
            },
            self.mux.code_spec(),
            self.gain.code_spec(),
            self.mode.code_spec(),
            self.rate.code_spec(),
            self.comp_mode.code_spec(),
            self.comp_polarity.code_spec(),
            self.comp_latch.code_spec(),
            self.comp_queue.code_spec(),
        );
    }

    /// Decoding the encoded word gives the option set back.
    pub proof fn word_round_trip(self)
        ensures
            ConfigFields::from_word_spec(self.word_spec()) == self,
    {
        self.word_fields();
        self.mux.code_round_trip();
        self.gain.code_round_trip();
        self.mode.code_round_trip();
        self.rate.code_round_trip();
        self.comp_mode.code_round_trip();
        self.comp_polarity.code_round_trip();
        self.comp_latch.code_round_trip();
        self.comp_queue.code_round_trip();
    }

    /// Encoding the options that a word selects gives the word back.
    pub proof fn fields_round_trip(word: u16)
        ensures
            ConfigFields::from_word_spec(word).word_spec() == word,
    {
        lemma_repack(word);
    }

    /// Field independence of the input multiplexer: selecting another input
    /// puts its code into bits 14:12 and leaves every other bit as it was.
    pub proof fn mux_independent(self, mux: Mux)
        ensures
            mux_of((ConfigFields { mux, ..self }).word_spec()) == mux.code_spec(),
            (ConfigFields { mux, ..self }).word_spec() & !MUX_MASK == self.word_spec() & !MUX_MASK,
    {
        let other = ConfigFields { mux, ..self };
        other.word_fields();
        self.word_fields();
        lemma_field_independent(self.word_spec(), other.word_spec());
    }

    /// Field independence of the gain: selecting another range puts its code
    /// into bits 11:9 and leaves every other bit as it was.
    pub proof fn gain_independent(self, gain: Gain)
        ensures
            gain_of((ConfigFields { gain, ..self }).word_spec()) == gain.code_spec(),
            (ConfigFields { gain, ..self }).word_spec() & !GAIN_MASK == self.word_spec()
                & !GAIN_MASK,
    {
        let other = ConfigFields { gain, ..self };
        other.word_fields();
        self.word_fields();
        lemma_field_independent(self.word_spec(), other.word_spec());
    }

    /// Field independence of the data rate: selecting another preset puts its
    /// code into bits 7:5 and leaves every other bit as it was.
    pub proof fn rate_independent(self, rate: DataRate)
        ensures
            rate_of((ConfigFields { rate, ..self }).word_spec()) == rate.code_spec(),
            (ConfigFields { rate, ..self }).word_spec() & !RATE_MASK == self.word_spec()
                & !RATE_MASK,
    {
        let other = ConfigFields { rate, ..self };
        other.word_fields();
        self.word_fields();
        lemma_field_independent(self.word_spec(), other.word_spec());
    }
}

/// Two words that agree on every field but one agree outside that field's mask.
proof fn lemma_field_independent(a: u16, b: u16)
    by (bit_vector)
    ensures
        (start_of(a) == start_of(b) && gain_of(a) == gain_of(b) && mode_of(a) == mode_of(b)
            && rate_of(a) == rate_of(b) && comp_mode_of(a) == comp_mode_of(b) && comp_polarity_of(a)
            == comp_polarity_of(b) && comp_latch_of(a) == comp_latch_of(b) && comp_queue_of(a)
            == comp_queue_of(b)) ==> a & !0x7000u16 == b & !0x7000u16,
        (start_of(a) == start_of(b) && mux_of(a) == mux_of(b) && mode_of(a) == mode_of(b)
            && rate_of(a) == rate_of(b) && comp_mode_of(a) == comp_mode_of(b) && comp_polarity_of(a)
            == comp_polarity_of(b) && comp_latch_of(a) == comp_latch_of(b) && comp_queue_of(a)
            == comp_queue_of(b)) ==> a & !0x0E00u16 == b & !0x0E00u16,
        (start_of(a) == start_of(b) && mux_of(a) == mux_of(b) && gain_of(a) == gain_of(b)
            && mode_of(a) == mode_of(b) && comp_mode_of(a) == comp_mode_of(b) && comp_polarity_of(a)
            == comp_polarity_of(b) && comp_latch_of(a) == comp_latch_of(b) && comp_queue_of(a)
            == comp_queue_of(b)) ==> a & !0x00E0u16 == b & !0x00E0u16,
{
}

/// The two bytes of a word, most significant first.
pub open spec fn word_bytes(word: u16) -> [u8; 2] {
    [(word >> 8) as u8, (word & 0xff) as u8]
}

/// The signed value of two bytes read as big-endian two's complement.
pub open spec fn sample_value(bytes: [u8; 2]) -> int {
    let unsigned = bytes[0] as int * 256 + bytes[1] as int;
    if unsigned < 32768 {
        unsigned
    } else {
        unsigned - 65536
    }
}

/// Reading the two bytes of a word back as a sample gives the word, taken as
/// a signed number.
pub proof fn word_bytes_round_trip(word: u16)
    ensures
        sample_value(word_bytes(word)) == (word as i16) as int,
{
    let high = (word >> 8) as u8;
    let low = (word & 0xff) as u8;
    assert(high as int * 256 + low as int == word as int) by (bit_vector)
        requires
            high == (word >> 8) as u8,
            low == (word & 0xff) as u8,
    ;
    assert(word < 32768 ==> (word as i16) as int == word as int) by (bit_vector);
    assert(word >= 32768 ==> (word as i16) as int == word as int - 65536) by (bit_vector);
}

/// Emits a word as the two bytes that go over the bus, most significant first.
pub fn encode_word_to_bytes(word: u16) -> (bytes: [u8; 2])
    ensures
        bytes == word_bytes(word),
        bytes[0] as int * 256 + bytes[1] as int == word,
{
    let high: u8 = (word >> 8) as u8;
    let low: u8 = (word & 0xff) as u8;
    proof {
        assert(((word >> 8) as u8) as int * 256 + ((word & 0xff) as u8) as int == word)
            by (bit_vector);
    }
    [high, low]
}

/// Decodes a conversion result: two bytes, big-endian two's complement.
pub fn decode_sample(bytes: [u8; 2]) -> (raw: i16)
    ensures
        raw == sample_value(bytes),
{
    let high: u8 = bytes[0];
    let low: u8 = bytes[1];
    let unsigned: u16 = ((high as u16) << 8) | (low as u16);
    proof {
        assert((((high as u16) << 8) | (low as u16)) as int == high as int * 256 + low as int)
            by (bit_vector);
        assert(unsigned < 32768 ==> (unsigned as i16) as int == unsigned as int) by (bit_vector);
        assert(unsigned >= 32768 ==> (unsigned as i16) as int == unsigned as int - 65536)
            by (bit_vector);
    }
    unsigned as i16
}

} // verus!

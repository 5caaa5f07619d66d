use adc_monitor::codec::{
    decode_sample, encode_word_to_bytes, ConfigFields, ADDR_ADS115, FIXED_CONFIGURATION_WORD,
    GAIN_MASK, MUX_MASK, RATE_MASK, REG_CONFIGURATION, REG_CONVERSION,
};
use adc_monitor::fields::{
    CompLatch, CompMode, CompPolarity, CompQueue, DataRate, Gain, Mode, Mux,
};
use adc_monitor::options::{encode, options_of, ConfigError, ConfigOption};

fn base() -> ConfigFields {
    ConfigFields::fixed()
}

#[test]
fn register_map_is_fixed() {
    assert_eq!(ADDR_ADS115, 0x48);
    assert_eq!(REG_CONFIGURATION, 0x01);
    assert_eq!(REG_CONVERSION, 0x00);
}

#[test]
fn fixed_configuration_word_and_bytes() {
    let fields = ConfigFields::fixed();
    assert!(fields.start);
    assert_eq!(fields.mux, Mux::Ain0Ain1);
    assert_eq!(fields.gain, Gain::Range4096);
    assert_eq!(fields.mode, Mode::SingleShot);
    assert_eq!(fields.rate, DataRate::Sps128);
    assert_eq!(fields.comp_queue, CompQueue::Disabled);
    assert_eq!(fields.word(), 0x8383);
    assert_eq!(FIXED_CONFIGURATION_WORD, 0b1000_0011_1000_0011);
    assert_eq!(encode_word_to_bytes(fields.word()), [0x83, 0x83]);
}

#[test]
fn every_mux_option_lands_in_its_field() {
    let before = base().word();
    for code in 0u16..8 {
        let mux = Mux::from_code(code).unwrap();
        assert_eq!(mux.code(), code);
        let word = (ConfigFields { mux, ..base() }).word();
        assert_eq!((word >> 12) & 7, code);
        assert_eq!(word & !MUX_MASK, before & !MUX_MASK);
    }
}

#[test]
fn every_gain_option_lands_in_its_field() {
    let before = base().word();
    for code in 0u16..8 {
        let gain = Gain::from_code(code).unwrap();
        assert_eq!(gain.code(), code);
        let word = (ConfigFields { gain, ..base() }).word();
        assert_eq!((word >> 9) & 7, code);
        assert_eq!(word & !GAIN_MASK, before & !GAIN_MASK);
    }
}

#[test]
fn every_rate_option_lands_in_its_field() {
    let before = base().word();
    for code in 0u16..8 {
        let rate = DataRate::from_code(code).unwrap();
        assert_eq!(rate.code(), code);
        let word = (ConfigFields { rate, ..base() }).word();
        assert_eq!((word >> 5) & 7, code);
        assert_eq!(word & !RATE_MASK, before & !RATE_MASK);
    }
}

#[test]
fn all_combinations_of_mux_gain_and_rate() {
    for m in 0u16..8 {
        for g in 0u16..8 {
            for r in 0u16..8 {
                let fields = ConfigFields {
                    mux: Mux::from_code(m).unwrap(),
                    gain: Gain::from_code(g).unwrap(),
                    rate: DataRate::from_code(r).unwrap(),
                    ..base()
                };
                let word = fields.word();
                assert_eq!(word, 0x8103 | (m << 12) | (g << 9) | (r << 5));
                assert_eq!(ConfigFields::from_word(word), fields);
            }
        }
    }
}

#[test]
fn single_bit_fields_encode_to_their_bits() {
    let zero = ConfigFields {
        start: false,
        mux: Mux::Ain0Ain1,
        gain: Gain::Range6144,
        mode: Mode::Continuous,
        rate: DataRate::Sps8,
        comp_mode: CompMode::Traditional,
        comp_polarity: CompPolarity::ActiveLow,
        comp_latch: CompLatch::NonLatching,
        comp_queue: CompQueue::AfterOne,
    };
    assert_eq!(zero.word(), 0);
    assert_eq!((ConfigFields { start: true, ..zero }).word(), 0x8000);
    assert_eq!((ConfigFields { mode: Mode::SingleShot, ..zero }).word(), 0x0100);
    assert_eq!((ConfigFields { comp_mode: CompMode::Window, ..zero }).word(), 0x0010);
    assert_eq!((ConfigFields { comp_polarity: CompPolarity::ActiveHigh, ..zero }).word(), 0x0008);
    assert_eq!((ConfigFields { comp_latch: CompLatch::Latching, ..zero }).word(), 0x0004);
    assert_eq!((ConfigFields { comp_queue: CompQueue::AfterTwo, ..zero }).word(), 0x0001);
    assert_eq!((ConfigFields { comp_queue: CompQueue::AfterFour, ..zero }).word(), 0x0002);
    assert_eq!((ConfigFields { comp_queue: CompQueue::Disabled, ..zero }).word(), 0x0003);
    assert_eq!((ConfigFields { mux: Mux::Ain3Gnd, ..zero }).word(), 0x7000);
    assert_eq!((ConfigFields { gain: Gain::Range256C, ..zero }).word(), 0x0E00);
    assert_eq!((ConfigFields { rate: DataRate::Sps860, ..zero }).word(), 0x00E0);
}

#[test]
fn every_word_round_trips_through_its_fields() {
    for word in 0u16..=u16::MAX {
        assert_eq!(ConfigFields::from_word(word).word(), word);
    }
}

#[test]
fn codes_out_of_range_name_no_option() {
    assert_eq!(Mux::from_code(7), Some(Mux::Ain3Gnd));
    assert_eq!(Mux::from_code(8), None);
    assert_eq!(Gain::from_code(1), Some(Gain::Range4096));
    assert_eq!(Gain::from_code(u16::MAX), None);
    assert_eq!(Mode::from_code(1), Some(Mode::SingleShot));
    assert_eq!(Mode::from_code(2), None);
    assert_eq!(DataRate::from_code(4), Some(DataRate::Sps128));
    assert_eq!(CompMode::from_code(2), None);
    assert_eq!(CompPolarity::from_code(2), None);
    assert_eq!(CompLatch::from_code(2), None);
    assert_eq!(CompQueue::from_code(3), Some(CompQueue::Disabled));
    assert_eq!(CompQueue::from_code(4), None);
}

#[test]
fn decode_sample_boundaries() {
    assert_eq!(decode_sample([0x00, 0x00]), 0);
    assert_eq!(decode_sample([0x7F, 0xFF]), 32767);
    assert_eq!(decode_sample([0x80, 0x00]), -32768);
    assert_eq!(decode_sample([0xFF, 0xFF]), -1);
    assert_eq!(decode_sample([0x27, 0x10]), 10000);
    assert_eq!(decode_sample([0x00, 0x01]), 1);
    assert_eq!(decode_sample([0x01, 0x00]), 256);
}

#[test]
fn decode_sample_agrees_with_std_on_every_input() {
    for high in 0u8..=255 {
        for low in 0u8..=255 {
            assert_eq!(decode_sample([high, low]), i16::from_be_bytes([high, low]));
        }
    }
}

#[test]
fn word_bytes_are_big_endian() {
    assert_eq!(encode_word_to_bytes(0x0000), [0x00, 0x00]);
    assert_eq!(encode_word_to_bytes(0x1234), [0x12, 0x34]);
    assert_eq!(encode_word_to_bytes(0xFFFF), [0xFF, 0xFF]);
    assert_eq!(encode_word_to_bytes(0x83E3), [0x83, 0xE3]);
    for word in 0u16..=u16::MAX {
        assert_eq!(encode_word_to_bytes(word), word.to_be_bytes());
    }
}

#[test]
fn encode_combines_options_by_or() {
    let options = [
        ConfigOption::StartConversion,
        ConfigOption::Input(Mux::Ain0Ain1),
        ConfigOption::Range(Gain::Range4096),
        ConfigOption::Operating(Mode::SingleShot),
        ConfigOption::Rate(DataRate::Sps128),
        ConfigOption::ComparatorMode(CompMode::Traditional),
        ConfigOption::ComparatorPolarity(CompPolarity::ActiveLow),
        ConfigOption::ComparatorLatch(CompLatch::NonLatching),
        ConfigOption::ComparatorQueue(CompQueue::Disabled),
    ];
    assert_eq!(encode(&options), Ok(0x8383));
    assert_eq!(encode(&[]), Ok(0));
    assert_eq!(encode(&[ConfigOption::Rate(DataRate::Sps860)]), Ok(0x00E0));
    assert_eq!(
        encode(&[ConfigOption::Input(Mux::Ain0Gnd), ConfigOption::Input(Mux::Ain0Gnd)]),
        Ok(0x4000)
    );
}

#[test]
fn encode_rejects_two_options_of_one_field() {
    assert_eq!(
        encode(&[ConfigOption::Input(Mux::Ain0Ain3), ConfigOption::Input(Mux::Ain1Ain3)]),
        Err(ConfigError::Conflict)
    );
    assert_eq!(
        encode(&[
            ConfigOption::StartConversion,
            ConfigOption::Range(Gain::Range4096),
            ConfigOption::Rate(DataRate::Sps128),
            ConfigOption::Range(Gain::Range2048),
        ]),
        Err(ConfigError::Conflict)
    );
    assert_eq!(
        encode(&[
            ConfigOption::ComparatorQueue(CompQueue::Disabled),
            ConfigOption::ComparatorQueue(CompQueue::AfterOne),
        ]),
        Err(ConfigError::Conflict)
    );
}

#[test]
fn encode_of_listed_options_is_the_word() {
    for word in [0x0000u16, 0x8383, 0xFFFF, 0x1234, 0x83E3, 0x7FFF] {
        let fields = ConfigFields::from_word(word);
        let list = options_of(fields);
        assert_eq!(list.len(), if fields.start { 9 } else { 8 });
        assert_eq!(encode(&list), Ok(word));
    }
}

#[test]
fn option_bits_and_fields() {
    assert_eq!(ConfigOption::StartConversion.bits(), 0x8000);
    assert_eq!(ConfigOption::StartConversion.field(), 0);
    assert_eq!(ConfigOption::Input(Mux::Ain2Ain3).bits(), 0x3000);
    assert_eq!(ConfigOption::Range(Gain::Range512).bits(), 0x0800);
    assert_eq!(ConfigOption::Operating(Mode::SingleShot).bits(), 0x0100);
    assert_eq!(ConfigOption::Rate(DataRate::Sps250).bits(), 0x00A0);
    assert_eq!(ConfigOption::ComparatorQueue(CompQueue::AfterFour).field(), 8);
}

#[test]
fn bytes_of_a_word_decode_to_the_word() {
    for word in 0u16..=u16::MAX {
        assert_eq!(decode_sample(encode_word_to_bytes(word)), word as i16);
    }
}

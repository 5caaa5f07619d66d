//! Composing a configuration word from a list of named options.
//!
//! A word is the bitwise OR of the options chosen. The list is consistent when
//! no field is given two different options; a field that the list leaves out
//! keeps its zero option.

use vstd::prelude::*;
use crate::codec::ConfigFields;
use crate::fields::{CompLatch, CompMode, CompPolarity, CompQueue, DataRate, Gain, Mode, Mux};

verus! {

/// One named option of the configuration register.
#[derive(Clone, Copy, Debug, PartialEq, Eq, Structural)]
pub enum ConfigOption {
    /// Start a single-shot conversion.
    StartConversion,
    Input(Mux),
    Range(Gain),
    Operating(Mode),
    Rate(DataRate),
    ComparatorMode(CompMode),
    ComparatorPolarity(CompPolarity),
    ComparatorLatch(CompLatch),
    ComparatorQueue(CompQueue),
}

/// Why a list of options has no configuration word.
#[derive(Clone, Copy, Debug, PartialEq, Eq, Structural)]
pub enum ConfigError {
    /// Two different options of one field were combined.
    Conflict,
}

impl ConfigOption {
    /// Number of the field that the option belongs to, counted from the most
    /// significant field.
    pub open spec fn field_spec(self) -> u8 {
        match self {
            ConfigOption::StartConversion => 0,
            ConfigOption::Input(_) => 1,
            ConfigOption::Range(_) => 2,
            ConfigOption::Operating(_) => 3,
            ConfigOption::Rate(_) => 4,
            ConfigOption::ComparatorMode(_) => 5,
            ConfigOption::ComparatorPolarity(_) => 6,
            ConfigOption::ComparatorLatch(_) => 7,
            ConfigOption::ComparatorQueue(_) => 8,
        }
    }

    /// The option's contribution to the word: its code, shifted into its field.
    pub open spec fn bits_spec(self) -> u16 {
        match self {
            ConfigOption::StartConversion => 0x8000,
            ConfigOption::Input(mux) => mux.code_spec() << 12,
            ConfigOption::Range(gain) => gain.code_spec() << 9,
            ConfigOption::Operating(mode) => mode.code_spec() << 8,
            ConfigOption::Rate(rate) => rate.code_spec() << 5,
            ConfigOption::ComparatorMode(mode) => mode.code_spec() << 4,
            ConfigOption::ComparatorPolarity(polarity) => polarity.code_spec() << 3,
            ConfigOption::ComparatorLatch(latch) => latch.code_spec() << 2,
            ConfigOption::ComparatorQueue(queue) => queue.code_spec(),
        }
    }

    /// Whether two options may stand in one list: they belong to different
    /// fields, or contribute the same bits.
    pub open spec fn compatible(self, other: ConfigOption) -> bool {
        self.field_spec() == other.field_spec() ==> self.bits_spec() == other.bits_spec()
    }

    pub fn field(self) -> (field: u8)
        ensures
            field == self.field_spec(),
    {
        match self {
            ConfigOption::StartConversion => 0,
            ConfigOption::Input(_) => 1,
            ConfigOption::Range(_) => 2,
            ConfigOption::Operating(_) => 3,
            ConfigOption::Rate(_) => 4,
            ConfigOption::ComparatorMode(_) => 5,
            ConfigOption::ComparatorPolarity(_) => 6,
            ConfigOption::ComparatorLatch(_) => 7,
            ConfigOption::ComparatorQueue(_) => 8,
        }
    }

    pub fn bits(self) -> (bits: u16)
        ensures
            bits == self.bits_spec(),
    {
        match self {
            ConfigOption::StartConversion => 0x8000,
            ConfigOption::Input(mux) => mux.code() << 12,
            ConfigOption::Range(gain) => gain.code() << 9,
            ConfigOption::Operating(mode) => mode.code() << 8,
            ConfigOption::Rate(rate) => rate.code() << 5,
            ConfigOption::ComparatorMode(mode) => mode.code() << 4,
            ConfigOption::ComparatorPolarity(polarity) => polarity.code() << 3,
            ConfigOption::ComparatorLatch(latch) => latch.code() << 2,
            ConfigOption::ComparatorQueue(queue) => queue.code(),
        }
    }
}

/// The bits of the word that belong to the field with the given number.
pub open spec fn field_mask(field: u8) -> u16 {
    if field == 0 {
        0x8000
    } else if field == 1 {
        0x7000
    } else if field == 2 {
        0x0E00
    } else if field == 3 {
        0x0100
    } else if field == 4 {
        0x00E0
    } else if field == 5 {
        0x0010
    } else if field == 6 {
        0x0008
    } else if field == 7 {
        0x0004
    } else {
        0x0003
    }
}

/// Whether no two options of the list give one field different values.
pub open spec fn consistent(options: Seq<ConfigOption>) -> bool {
    forall|i: int, j: int|
        0 <= j < i < options.len() ==> (#[trigger] options[i]).compatible(#[trigger] options[j])
}

/// The bitwise OR of the bits of the first `count` options of the list.
pub open spec fn combined_upto(options: Seq<ConfigOption>, count: nat) -> u16
    decreases count,
{
    if count == 0 {
        0
    } else {
        combined_upto(options, (count - 1) as nat) | options[count - 1].bits_spec()
    }
}

/// The bitwise OR of the bits of every option of the list.
pub open spec fn combined(options: Seq<ConfigOption>) -> u16 {
    combined_upto(options, options.len())
}

/// The list that names all nine options of an option set, most significant
/// field first; the start option stands in it only where it is selected.
pub open spec fn listed(fields: ConfigFields) -> Seq<ConfigOption> {
    let rest = seq![
        ConfigOption::Input(fields.mux),
        ConfigOption::Range(fields.gain),
        ConfigOption::Operating(fields.mode),
        ConfigOption::Rate(fields.rate),
        ConfigOption::ComparatorMode(fields.comp_mode),
        ConfigOption::ComparatorPolarity(fields.comp_polarity),
        ConfigOption::ComparatorLatch(fields.comp_latch),
        ConfigOption::ComparatorQueue(fields.comp_queue),
    ];
    if fields.start {
        seq![ConfigOption::StartConversion] + rest
    } else {
        rest
    }
}

/// Lists the options of an option set, as `listed` orders them.
pub fn options_of(fields: ConfigFields) -> (list: Vec<ConfigOption>)
    ensures
        list@ == listed(fields),
{
    let mut list: Vec<ConfigOption> = Vec::new();
    if fields.start {
        list.push(ConfigOption::StartConversion);
    }
    list.push(ConfigOption::Input(fields.mux));
    list.push(ConfigOption::Range(fields.gain));
    list.push(ConfigOption::Operating(fields.mode));
    list.push(ConfigOption::Rate(fields.rate));
    list.push(ConfigOption::ComparatorMode(fields.comp_mode));
    list.push(ConfigOption::ComparatorPolarity(fields.comp_polarity));
    list.push(ConfigOption::ComparatorLatch(fields.comp_latch));
    list.push(ConfigOption::ComparatorQueue(fields.comp_queue));
    assert(list@ =~= listed(fields));
    list
}

/// Encodes a list of options as the configuration word: the OR of their bits.
/// Fails exactly when the list gives some field two different options.
pub fn encode(options: &[ConfigOption]) -> (result: Result<u16, ConfigError>)
    ensures
        consistent(options@) ==> result == Ok::<u16, ConfigError>(combined(options@)),
        !consistent(options@) ==> result == Err::<u16, ConfigError>(ConfigError::Conflict),
{
    let mut word: u16 = 0;
    let mut i: usize = 0;
    while i < options.len()
        invariant
            i <= options.len(),
            consistent(options@.take(i as int)),
            word == combined_upto(options@, i as nat),
        decreases options.len() - i,
    {
        let option = options[i];
        let mut j: usize = 0;
        while j < i
            invariant
                j <= i < options.len(),
                option == options@[i as int],
                forall|k: int| 0 <= k < j ==> option.compatible(#[trigger] options@[k]),
            decreases i - j,
        {
            let earlier = options[j];
            if option.field() == earlier.field() && option.bits() != earlier.bits() {
                return Err(ConfigError::Conflict);
            }
            j += 1;
        }
        proof {
            let before = options@.take(i as int);
            let after = options@.take(i as int + 1);
            assert forall|a: int, b: int| 0 <= b < a < after.len() implies (#[trigger] after[a]).compatible(
                #[trigger] after[b],
            ) by {
                if a < i {
                    assert(before[a].compatible(before[b]));
                }
            }
        }
        word = word | option.bits();
        i += 1;
    }
    proof {
        assert(options@.take(i as int) =~= options@);
    }
    Ok(word)
}

proof fn lemma_shifted_code(code: u16)
    by (bit_vector)
    ensures
        code < 8 ==> (code << 12) & !0x7000u16 == 0 && (code << 9) & !0x0E00u16 == 0 && (code << 5)
            & !0x00E0u16 == 0,
        code < 4 ==> code & !0x0003u16 == 0,
        code < 2 ==> (code << 8) & !0x0100u16 == 0 && (code << 4) & !0x0010u16 == 0 && (code << 3)
            & !0x0008u16 == 0 && (code << 2) & !0x0004u16 == 0,
{
}

proof fn lemma_masked(bits: u16, own: u16, other: u16)
    by (bit_vector)
    requires
        bits & !own == 0,
    ensures
        bits & own == bits,
        own & other == 0 ==> bits & other == 0,
{
}

proof fn lemma_masks_disjoint(first: u8, second: u8)
    by (bit_vector)
    requires
        first != second,
        first <= 8,
        second <= 8,
    ensures
        field_mask(first) & field_mask(second) == 0,
{
}

proof fn lemma_or_under_mask(word: u16, bits: u16, mask: u16)
    by (bit_vector)
    ensures
        (word | bits) & mask == (word & mask) | (bits & mask),
        bits | bits == bits,
        0u16 | bits == bits,
        bits | 0u16 == bits,
        0u16 & mask == 0,
{
}

impl ConfigOption {
    /// An option contributes bits to its own field only.
    pub proof fn bits_within_field(self)
        ensures
            self.field_spec() <= 8,
            self.bits_spec() & !field_mask(self.field_spec()) == 0,
    {
        match self {
            ConfigOption::StartConversion => {
                assert(0x8000u16 & !0x8000u16 == 0) by (bit_vector);
            },
            ConfigOption::Input(mux) => lemma_shifted_code(mux.code_spec()),
            ConfigOption::Range(gain) => lemma_shifted_code(gain.code_spec()),
            ConfigOption::Operating(mode) => lemma_shifted_code(mode.code_spec()),
            ConfigOption::Rate(rate) => lemma_shifted_code(rate.code_spec()),
            ConfigOption::ComparatorMode(mode) => lemma_shifted_code(mode.code_spec()),
            ConfigOption::ComparatorPolarity(polarity) => lemma_shifted_code(polarity.code_spec()),
            ConfigOption::ComparatorLatch(latch) => lemma_shifted_code(latch.code_spec()),
            ConfigOption::ComparatorQueue(queue) => lemma_shifted_code(queue.code_spec()),
        }
    }
}

proof fn lemma_field_of_prefix(options: Seq<ConfigOption>, k: int, count: nat)
    requires
        consistent(options),
        0 <= k < options.len(),
        count <= options.len(),
    ensures
        count > k ==> combined_upto(options, count) & field_mask(options[k].field_spec())
            == options[k].bits_spec(),
        count <= k ==> combined_upto(options, count) & field_mask(options[k].field_spec()) == 0
            || combined_upto(options, count) & field_mask(options[k].field_spec())
            == options[k].bits_spec(),
    decreases count,
{
    let chosen = options[k];
    let mask = field_mask(chosen.field_spec());
    chosen.bits_within_field();
    lemma_masked(chosen.bits_spec(), mask, 0);
    if count == 0 {
        lemma_or_under_mask(0, 0, mask);
    } else {
        lemma_field_of_prefix(options, k, (count - 1) as nat);
        let last = options[count - 1];
        let before = combined_upto(options, (count - 1) as nat);
        last.bits_within_field();
        lemma_or_under_mask(before, last.bits_spec(), mask);
        lemma_or_under_mask(before & mask, last.bits_spec() & mask, mask);
        if last.field_spec() == chosen.field_spec() {
            if count - 1 > k {
                assert(options[count - 1].compatible(options[k]));
            } else if count - 1 < k {
                assert(options[k].compatible(options[count - 1]));
            }
            assert(last.bits_spec() == chosen.bits_spec());
            lemma_or_under_mask(0, chosen.bits_spec(), mask);
        } else {
            lemma_masks_disjoint(last.field_spec(), chosen.field_spec());
            lemma_masked(last.bits_spec(), field_mask(last.field_spec()), mask);
            lemma_or_under_mask(0, before & mask, mask);
        }
    }
}

proof fn lemma_field_without_option(options: Seq<ConfigOption>, field: u8, count: nat)
    requires
        field <= 8,
        count <= options.len(),
        forall|i: int| 0 <= i < options.len() ==> (#[trigger] options[i]).field_spec() != field,
    ensures
        combined_upto(options, count) & field_mask(field) == 0,
    decreases count,
{
    let mask = field_mask(field);
    if count == 0 {
        lemma_or_under_mask(0, 0, mask);
    } else {
        lemma_field_without_option(options, field, (count - 1) as nat);
        let last = options[count - 1];
        let before = combined_upto(options, (count - 1) as nat);
        last.bits_within_field();
        lemma_masks_disjoint(last.field_spec(), field);
        lemma_masked(last.bits_spec(), field_mask(last.field_spec()), mask);
        lemma_or_under_mask(before, last.bits_spec(), mask);
        lemma_or_under_mask(0, 0, mask);
    }
}

/// Field independence: in the word of a consistent list, the field of every
/// option in the list holds exactly that option's bits, whatever else the
/// list selects.
pub proof fn selected_field_holds_option(options: Seq<ConfigOption>, k: int)
    requires
        consistent(options),
        0 <= k < options.len(),
    ensures
        combined(options) & field_mask(options[k].field_spec()) == options[k].bits_spec(),
{
    lemma_field_of_prefix(options, k, options.len());
}

/// Field independence: a field for which the list names no option is zero in
/// the word.
pub proof fn unselected_field_is_zero(options: Seq<ConfigOption>, field: u8)
    requires
        field <= 8,
        forall|i: int| 0 <= i < options.len() ==> (#[trigger] options[i]).field_spec() != field,
    ensures
        combined(options) & field_mask(field) == 0,
{
    lemma_field_without_option(options, field, options.len());
}

/// Naming one option per field is always consistent, and encodes to the word
/// of the option set: the code of each option stands in its own field.
pub proof fn listed_encodes_word(fields: ConfigFields)
    ensures
        consistent(listed(fields)),
        combined(listed(fields)) == fields.word_spec(),
{
    let list = listed(fields);
    let offset: int = if fields.start {
        1
    } else {
        0
    };
    assert(list.len() == 8 + offset);
    assert forall|i: int| 0 <= i < 8 implies (#[trigger] list[i + offset]).field_spec() == i + 1 by {}
    assert forall|i: int, j: int| 0 <= j < i < list.len() implies (#[trigger] list[i]).compatible(
        #[trigger] list[j],
    ) by {
        if j >= offset {
            assert(list[(j - offset) + offset].field_spec() == j - offset + 1);
        }
        assert(list[(i - offset) + offset].field_spec() == i - offset + 1);
    }
    reveal_with_fuel(combined_upto, 10);
    fields.codes_in_range();
    let m = fields.mux.code_spec();
    let g = fields.gain.code_spec();
    let o = fields.mode.code_spec();
    let r = fields.rate.code_spec();
    let cm = fields.comp_mode.code_spec();
    let cp = fields.comp_polarity.code_spec();
    let cl = fields.comp_latch.code_spec();
    let q = fields.comp_queue.code_spec();
    assert(((((((((0u16 | 0x8000u16) | (m << 12)) | (g << 9)) | (o << 8)) | (r << 5)) | (cm << 4))
        | (cp << 3)) | (cl << 2)) | q == crate::codec::pack(1, m, g, o, r, cm, cp, cl, q))
        by (bit_vector);
    assert((((((((0u16 | (m << 12)) | (g << 9)) | (o << 8)) | (r << 5)) | (cm << 4)) | (cp << 3))
        | (cl << 2)) | q == crate::codec::pack(0, m, g, o, r, cm, cp, cl, q)) by (bit_vector);
}

} // verus!

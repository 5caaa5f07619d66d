//! The option sets of the converter's configuration register, one enum per field.
//!
//! Every option has a code: the value of its field, before it is shifted into place.

use vstd::prelude::*;

verus! {

/// Input multiplexer selection: which pair of pins a conversion compares.
#[derive(Clone, Copy, Debug, PartialEq, Eq, Structural)]
pub enum Mux {
    /// AIN0 against AIN1.
    Ain0Ain1,
    /// AIN0 against AIN3.
    Ain0Ain3,
    /// AIN1 against AIN3.
    Ain1Ain3,
    /// AIN2 against AIN3.
    Ain2Ain3,
    /// AIN0 against ground.
    Ain0Gnd,
    /// AIN1 against ground.
    Ain1Gnd,
    /// AIN2 against ground.
    Ain2Gnd,
    /// AIN3 against ground.
    Ain3Gnd,
}

impl Mux {
    /// The field value of this option, below 8.
    pub open spec fn code_spec(self) -> u16 {
        match self {
            Mux::Ain0Ain1 => 0,
            Mux::Ain0Ain3 => 1,
            Mux::Ain1Ain3 => 2,
            Mux::Ain2Ain3 => 3,
            Mux::Ain0Gnd => 4,
            Mux::Ain1Gnd => 5,
            Mux::Ain2Gnd => 6,
            Mux::Ain3Gnd => 7,
        }
    }

    /// The option with the given field value. Only values below 8 are field
    /// values; on the others the function is fixed at the last option.
    pub open spec fn from_code_spec(code: u16) -> Mux {
        if code == 0 {
            Mux::Ain0Ain1
        } else if code == 1 {
            Mux::Ain0Ain3
        } else if code == 2 {
            Mux::Ain1Ain3
        } else if code == 3 {
            Mux::Ain2Ain3
        } else if code == 4 {
            Mux::Ain0Gnd
        } else if code == 5 {
            Mux::Ain1Gnd
        } else if code == 6 {
            Mux::Ain2Gnd
        } else {
            Mux::Ain3Gnd
        }
    }

    /// The field value of this option.
    pub fn code(self) -> (c: u16)
        ensures
            c == self.code_spec(),
            c < 8,
    {
        match self {
            Mux::Ain0Ain1 => 0,
            Mux::Ain0Ain3 => 1,
            Mux::Ain1Ain3 => 2,
            Mux::Ain2Ain3 => 3,
            Mux::Ain0Gnd => 4,
            Mux::Ain1Gnd => 5,
            Mux::Ain2Gnd => 6,
            Mux::Ain3Gnd => 7,
        }
    }

    /// The option with the given field value, if there is one.
    pub fn from_code(code: u16) -> (option: Option<Mux>)
        ensures
            code < 8 ==> option == Some(Mux::from_code_spec(code)),
            code >= 8 ==> option is None,
            option matches Some(found) ==> found.code_spec() == code,
    {
        if code == 0 {
            Some(Mux::Ain0Ain1)
        } else if code == 1 {
            Some(Mux::Ain0Ain3)
        } else if code == 2 {
            Some(Mux::Ain1Ain3)
        } else if code == 3 {
            Some(Mux::Ain2Ain3)
        } else if code == 4 {
            Some(Mux::Ain0Gnd)
        } else if code == 5 {
            Some(Mux::Ain1Gnd)
        } else if code == 6 {
            Some(Mux::Ain2Gnd)
        } else if code == 7 {
            Some(Mux::Ain3Gnd)
        } else {
            None
        }
    }

    /// Codes and options correspond one to one.
    pub proof fn code_round_trip(self)
        ensures
            self.code_spec() < 8,
            Mux::from_code_spec(self.code_spec()) == self,
    {
    }
}

/// Programmable gain: the full-scale input range, named by its size in millivolts.
#[derive(Clone, Copy, Debug, PartialEq, Eq, Structural)]
pub enum Gain {
    /// +/- 6.144 V.
    Range6144,
    /// +/- 4.096 V.
    Range4096,
    /// +/- 2.048 V.
    Range2048,
    /// +/- 1.024 V.
    Range1024,
    /// +/- 0.512 V.
    Range512,
    /// +/- 0.256 V.
    Range256,
    /// +/- 0.256 V, second code.
    Range256B,
    /// +/- 0.256 V, third code.
    Range256C,
}

impl Gain {
    /// The field value of this option, below 8.
    pub open spec fn code_spec(self) -> u16 {
        match self {
            Gain::Range6144 => 0,
            Gain::Range4096 => 1,
            Gain::Range2048 => 2,
            Gain::Range1024 => 3,
            Gain::Range512 => 4,
            Gain::Range256 => 5,
            Gain::Range256B => 6,
            Gain::Range256C => 7,
        }
    }

    /// The option with the given field value. Only values below 8 are field
    /// values; on the others the function is fixed at the last option.
    pub open spec fn from_code_spec(code: u16) -> Gain {
        if code == 0 {
            Gain::Range6144
        } else if code == 1 {
            Gain::Range4096
        } else if code == 2 {
            Gain::Range2048
        } else if code == 3 {
            Gain::Range1024
        } else if code == 4 {
            Gain::Range512
        } else if code == 5 {
            Gain::Range256
        } else if code == 6 {
            Gain::Range256B
        } else {
            Gain::Range256C
        }
    }

    /// The field value of this option.
    pub fn code(self) -> (c: u16)
        ensures
            c == self.code_spec(),
            c < 8,
    {
        match self {
            Gain::Range6144 => 0,
            Gain::Range4096 => 1,
            Gain::Range2048 => 2,
            Gain::Range1024 => 3,
            Gain::Range512 => 4,
            Gain::Range256 => 5,
            Gain::Range256B => 6,
            Gain::Range256C => 7,
        }
    }

    /// The option with the given field value, if there is one.
    pub fn from_code(code: u16) -> (option: Option<Gain>)
        ensures
            code < 8 ==> option == Some(Gain::from_code_spec(code)),
            code >= 8 ==> option is None,
            option matches Some(found) ==> found.code_spec() == code,
    {
        if code == 0 {
            Some(Gain::Range6144)
        } else if code == 1 {
            Some(Gain::Range4096)
        } else if code == 2 {
            Some(Gain::Range2048)
        } else if code == 3 {
            Some(Gain::Range1024)
        } else if code == 4 {
            Some(Gain::Range512)
        } else if code == 5 {
            Some(Gain::Range256)
        } else if code == 6 {
            Some(Gain::Range256B)
        } else if code == 7 {
            Some(Gain::Range256C)
        } else {
            None
        }
    }

    /// Codes and options correspond one to one.
    pub proof fn code_round_trip(self)
        ensures
            self.code_spec() < 8,
            Gain::from_code_spec(self.code_spec()) == self,
    {
    }
}

/// Operating mode of the converter.
#[derive(Clone, Copy, Debug, PartialEq, Eq, Structural)]
pub enum Mode {
    /// Convert continuously.
    Continuous,
    /// Convert once on request, then power down.
    SingleShot,
}

impl Mode {
    /// The field value of this option, below 2.
    pub open spec fn code_spec(self) -> u16 {
        match self {
            Mode::Continuous => 0,
            Mode::SingleShot => 1,
        }
    }

    /// The option with the given field value. Only values below 2 are field
    /// values; on the others the function is fixed at the last option.
    pub open spec fn from_code_spec(code: u16) -> Mode {
        if code == 0 {
            Mode::Continuous
        } else {
            Mode::SingleShot
        }
    }

    /// The field value of this option.
    pub fn code(self) -> (c: u16)
        ensures
            c == self.code_spec(),
            c < 2,
    {
        match self {
            Mode::Continuous => 0,
            Mode::SingleShot => 1,
        }
    }

    /// The option with the given field value, if there is one.
    pub fn from_code(code: u16) -> (option: Option<Mode>)
        ensures
            code < 2 ==> option == Some(Mode::from_code_spec(code)),
            code >= 2 ==> option is None,
            option matches Some(found) ==> found.code_spec() == code,
    {
        if code == 0 {
            Some(Mode::Continuous)
        } else if code == 1 {
            Some(Mode::SingleShot)
        } else {
            None
        }
    }

    /// Codes and options correspond one to one.
    pub proof fn code_round_trip(self)
        ensures
            self.code_spec() < 2,
            Mode::from_code_spec(self.code_spec()) == self,
    {
    }
}

/// Data rate preset, named by its samples per second.
#[derive(Clone, Copy, Debug, PartialEq, Eq, Structural)]
pub enum DataRate {
    /// 8 samples per second.
    Sps8,
    /// 16 samples per second.
    Sps16,
    /// 32 samples per second.
    Sps32,
    /// 64 samples per second.
    Sps64,
    /// 128 samples per second.
    Sps128,
    /// 250 samples per second.
    Sps250,
    /// 475 samples per second.
    Sps475,
    /// 860 samples per second.
    Sps860,
}

impl DataRate {
    /// The field value of this option, below 8.
    pub open spec fn code_spec(self) -> u16 {
        match self {
            DataRate::Sps8 => 0,
            DataRate::Sps16 => 1,
            DataRate::Sps32 => 2,
            DataRate::Sps64 => 3,
            DataRate::Sps128 => 4,
            DataRate::Sps250 => 5,
            DataRate::Sps475 => 6,
            DataRate::Sps860 => 7,
        }
    }

    /// The option with the given field value. Only values below 8 are field
    /// values; on the others the function is fixed at the last option.
    pub open spec fn from_code_spec(code: u16) -> DataRate {
        if code == 0 {
            DataRate::Sps8
        } else if code == 1 {
            DataRate::Sps16
        } else if code == 2 {
            DataRate::Sps32
        } else if code == 3 {
            DataRate::Sps64
        } else if code == 4 {
            DataRate::Sps128
        } else if code == 5 {
            DataRate::Sps250
        } else if code == 6 {
            DataRate::Sps475
        } else {
            DataRate::Sps860
        }
    }

    /// The field value of this option.
    pub fn code(self) -> (c: u16)
        ensures
            c == self.code_spec(),
            c < 8,
    {
        match self {
            DataRate::Sps8 => 0,
            DataRate::Sps16 => 1,
            DataRate::Sps32 => 2,
            DataRate::Sps64 => 3,
            DataRate::Sps128 => 4,
            DataRate::Sps250 => 5,
            DataRate::Sps475 => 6,
            DataRate::Sps860 => 7,
        }
    }

    /// The option with the given field value, if there is one.
    pub fn from_code(code: u16) -> (option: Option<DataRate>)
        ensures
            code < 8 ==> option == Some(DataRate::from_code_spec(code)),
            code >= 8 ==> option is None,
            option matches Some(found) ==> found.code_spec() == code,
    {
        if code == 0 {
            Some(DataRate::Sps8)
        } else if code == 1 {
            Some(DataRate::Sps16)
        } else if code == 2 {
            Some(DataRate::Sps32)
        } else if code == 3 {
            Some(DataRate::Sps64)
        } else if code == 4 {
            Some(DataRate::Sps128)
        } else if code == 5 {
            Some(DataRate::Sps250)
        } else if code == 6 {
            Some(DataRate::Sps475)
        } else if code == 7 {
            Some(DataRate::Sps860)
        } else {
            None
        }
    }

    /// Codes and options correspond one to one.
    pub proof fn code_round_trip(self)
        ensures
            self.code_spec() < 8,
            DataRate::from_code_spec(self.code_spec()) == self,
    {
    }
}

/// Comparator mode.
#[derive(Clone, Copy, Debug, PartialEq, Eq, Structural)]
pub enum CompMode {
    /// Traditional comparator with hysteresis.
    Traditional,
    /// Window comparator.
    Window,
}

impl CompMode {
    /// The field value of this option, below 2.
    pub open spec fn code_spec(self) -> u16 {
        match self {
            CompMode::Traditional => 0,
            CompMode::Window => 1,
        }
    }

    /// The option with the given field value. Only values below 2 are field
    /// values; on the others the function is fixed at the last option.
    pub open spec fn from_code_spec(code: u16) -> CompMode {
        if code == 0 {
            CompMode::Traditional
        } else {
            CompMode::Window
        }
    }

    /// The field value of this option.
    pub fn code(self) -> (c: u16)
        ensures
            c == self.code_spec(),
            c < 2,
    {
        match self {
            CompMode::Traditional => 0,
            CompMode::Window => 1,
        }
    }

    /// The option with the given field value, if there is one.
    pub fn from_code(code: u16) -> (option: Option<CompMode>)
        ensures
            code < 2 ==> option == Some(CompMode::from_code_spec(code)),
            code >= 2 ==> option is None,
            option matches Some(found) ==> found.code_spec() == code,
    {
        if code == 0 {
            Some(CompMode::Traditional)
        } else if code == 1 {
            Some(CompMode::Window)
        } else {
            None
        }
    }

    /// Codes and options correspond one to one.
    pub proof fn code_round_trip(self)
        ensures
            self.code_spec() < 2,
            CompMode::from_code_spec(self.code_spec()) == self,
    {
    }
}

/// Polarity of the comparator's alert pin.
#[derive(Clone, Copy, Debug, PartialEq, Eq, Structural)]
pub enum CompPolarity {
    /// Active low.
    ActiveLow,
    /// Active high.
    ActiveHigh,
}

impl CompPolarity {
    /// The field value of this option, below 2.
    pub open spec fn code_spec(self) -> u16 {
        match self {
            CompPolarity::ActiveLow => 0,
            CompPolarity::ActiveHigh => 1,
        }
    }

    /// The option with the given field value. Only values below 2 are field
    /// values; on the others the function is fixed at the last option.
    pub open spec fn from_code_spec(code: u16) -> CompPolarity {
        if code == 0 {
            CompPolarity::ActiveLow
        } else {
            CompPolarity::ActiveHigh
        }
    }

    /// The field value of this option.
    pub fn code(self) -> (c: u16)
        ensures
            c == self.code_spec(),
            c < 2,
    {
        match self {
            CompPolarity::ActiveLow => 0,
            CompPolarity::ActiveHigh => 1,
        }
    }

    /// The option with the given field value, if there is one.
    pub fn from_code(code: u16) -> (option: Option<CompPolarity>)
        ensures
            code < 2 ==> option == Some(CompPolarity::from_code_spec(code)),
            code >= 2 ==> option is None,
            option matches Some(found) ==> found.code_spec() == code,
    {
        if code == 0 {
            Some(CompPolarity::ActiveLow)
        } else if code == 1 {
            Some(CompPolarity::ActiveHigh)
        } else {
            None
        }
    }

    /// Codes and options correspond one to one.
    pub proof fn code_round_trip(self)
        ensures
            self.code_spec() < 2,
            CompPolarity::from_code_spec(self.code_spec()) == self,
    {
    }
}

/// Whether the comparator latches.
#[derive(Clone, Copy, Debug, PartialEq, Eq, Structural)]
pub enum CompLatch {
    /// Non-latching.
    NonLatching,
    /// Latching.
    Latching,
}

impl CompLatch {
    /// The field value of this option, below 2.
    pub open spec fn code_spec(self) -> u16 {
        match self {
            CompLatch::NonLatching => 0,
            CompLatch::Latching => 1,
        }
    }

    /// The option with the given field value. Only values below 2 are field
    /// values; on the others the function is fixed at the last option.
    pub open spec fn from_code_spec(code: u16) -> CompLatch {
        if code == 0 {
            CompLatch::NonLatching
        } else {
            CompLatch::Latching
        }
    }

    /// The field value of this option.
    pub fn code(self) -> (c: u16)
        ensures
            c == self.code_spec(),
            c < 2,
    {
        match self {
            CompLatch::NonLatching => 0,
            CompLatch::Latching => 1,
        }
    }

    /// The option with the given field value, if there is one.
    pub fn from_code(code: u16) -> (option: Option<CompLatch>)
        ensures
            code < 2 ==> option == Some(CompLatch::from_code_spec(code)),
            code >= 2 ==> option is None,
            option matches Some(found) ==> found.code_spec() == code,
    {
        if code == 0 {
            Some(CompLatch::NonLatching)
        } else if code == 1 {
            Some(CompLatch::Latching)
        } else {
            None
        }
    }

    /// Codes and options correspond one to one.
    pub proof fn code_round_trip(self)
        ensures
            self.code_spec() < 2,
            CompLatch::from_code_spec(self.code_spec()) == self,
    {
    }
}

/// Comparator queue: how many conversions beyond the limits assert the alert pin.
#[derive(Clone, Copy, Debug, PartialEq, Eq, Structural)]
pub enum CompQueue {
    /// Assert after one conversion.
    AfterOne,
    /// Assert after two conversions.
    AfterTwo,
    /// Assert after four conversions.
    AfterFour,
    /// Comparator disabled.
    Disabled,
}

impl CompQueue {
    /// The field value of this option, below 4.
    pub open spec fn code_spec(self) -> u16 {
        match self {
            CompQueue::AfterOne => 0,
            CompQueue::AfterTwo => 1,
            CompQueue::AfterFour => 2,
            CompQueue::Disabled => 3,
        }
    }

    /// The option with the given field value. Only values below 4 are field
    /// values; on the others the function is fixed at the last option.
    pub open spec fn from_code_spec(code: u16) -> CompQueue {
        if code == 0 {
            CompQueue::AfterOne
        } else if code == 1 {
            CompQueue::AfterTwo
        } else if code == 2 {
            CompQueue::AfterFour
        } else {
            CompQueue::Disabled
        }
    }

    /// The field value of this option.
    pub fn code(self) -> (c: u16)
        ensures
            c == self.code_spec(),
            c < 4,
    {
        match self {
            CompQueue::AfterOne => 0,
            CompQueue::AfterTwo => 1,
            CompQueue::AfterFour => 2,
            CompQueue::Disabled => 3,
        }
    }

    /// The option with the given field value, if there is one.
    pub fn from_code(code: u16) -> (option: Option<CompQueue>)
        ensures
            code < 4 ==> option == Some(CompQueue::from_code_spec(code)),
            code >= 4 ==> option is None,
            option matches Some(found) ==> found.code_spec() == code,
    {
        if code == 0 {
            Some(CompQueue::AfterOne)
        } else if code == 1 {
            Some(CompQueue::AfterTwo)
        } else if code == 2 {
            Some(CompQueue::AfterFour)
        } else if code == 3 {
            Some(CompQueue::Disabled)
        } else {
            None
        }
    }

    /// Codes and options correspond one to one.
    pub proof fn code_round_trip(self)
        ensures
            self.code_spec() < 4,
            CompQueue::from_code_spec(self.code_spec()) == self,
    {
    }
}

} // verus!

//! The component kinds of format version 10 and their codes.

use crate::error::DecodeError;
use crate::parser::{Codec, Encode, Parse};
use vstd::prelude::*;

verus! {

/// The kinds of component that this format version knows.
#[derive(Clone, Copy, Debug, PartialEq, Eq, Structural)]
pub enum ComponentKind {
    Nothing,
    Off,
    On,
    NotBit,
    AndBit,
    And3Bit,
    NandBit,
    OrBit,
    Or3Bit,
    NorBit,
    XorBit,
    XnorBit,
    SwitchBit,
    DelayLineBit,
    RegisterBit,
    FullAdder,
    MakerBit8,
    SplitterBit8,
    NotWord,
    OrWord,
    AndWord,
    NandWord,
    NorWord,
    XorWord,
    XnorWord,
    SwitchWord,
    Equal,
    LessU,
    LessS,
    Neg,
    Add,
    Mul,
    Div,
    Lsl,
    Lsr,
    Rol,
    Ror,
    Asr,
    Counter,
    RegisterWord,
    ImmRegisterWord,
    ImmDelayLineBit,
    Mux,
    Decoder1,
    Decoder2,
    Decoder3,
    Constant,
    SplitterWord2,
    MakerWord2,
    Clz,
    RegisterWordConfig,
    Ssd,
    Deleted3,
    RamLatency,
    LoadPort,
    DelayLineWord,
    StorePort,
    Ctz,
    CcLevelOutput,
    LevelGate,
    LevelInput1,
    LevelInputWord,
    LevelInputSwitched,
    LevelInput2Pin,
    LevelInput3Pin,
    LevelInput4Pin,
    LevelInputCustom,
    LevelInputArch,
    LevelOutput1,
    LevelOutputWord,
    LevelOutputSwitched,
    LevelOutput1Sum,
    LevelOutput1Car,
    LevelOutput2Pin,
    LevelOutput3Pin,
    LevelOutput4Pin,
    LevelOutputArch,
    LevelOutputCounter,
    Custom,
    CcInput,
    CcInputBuffer,
    CcOutput,
    ProbeMemoryBit,
    ProbeMemoryWord,
    ProbeWireBit,
    ProbeWireWord,
    ConfigDelay,
    Halt,
    Console,
    SegmentDisplay,
    StaticValue,
    PixelScreen,
    Time,
    Keyboard,
    StaticEval,
    VerilogInput,
    VerilogOutput,
    MakerWord4,
    MakerWord8,
    SplitterWord4,
    SplitterWord8,
    StaticIndexer,
    ImmProbeMemoryBit,
    ImmDelayLineWord,
    Inc,
    CcLevelInputCustom,
    CcLevelInput,
    ImmRegisterBit,
    Mod,
    SplitterBit2,
    SplitterBit4,
    MakerBit2,
    MakerBit4,
    ImmProbeMemoryWord,
    Concatenator2,
    Concatenator4,
    Concatenator8,
    StaticIndexerConfig,
    RamFast,
    DelayLineWordConfig,
    Deleted1,
    Deleted2,
    ImmStaticValue,
}

impl View for ComponentKind {
    type V = ComponentKind;

    open spec fn view(&self) -> ComponentKind {
        *self
    }
}

impl ComponentKind {
    /// The code that stands for the kind on the wire.
    pub open spec fn code(self) -> u16 {
        match self {
            ComponentKind::Nothing => 0,
            ComponentKind::Off => 1,
            ComponentKind::On => 2,
            ComponentKind::NotBit => 3,
            ComponentKind::AndBit => 4,
            ComponentKind::And3Bit => 5,
            ComponentKind::NandBit => 6,
            ComponentKind::OrBit => 7,
            ComponentKind::Or3Bit => 8,
            ComponentKind::NorBit => 9,
            ComponentKind::XorBit => 10,
            ComponentKind::XnorBit => 11,
            ComponentKind::SwitchBit => 12,
            ComponentKind::DelayLineBit => 13,
            ComponentKind::RegisterBit => 14,
            ComponentKind::FullAdder => 15,
            ComponentKind::MakerBit8 => 16,
            ComponentKind::SplitterBit8 => 17,
            ComponentKind::NotWord => 18,
            ComponentKind::OrWord => 19,
            ComponentKind::AndWord => 20,
            ComponentKind::NandWord => 21,
            ComponentKind::NorWord => 22,
            ComponentKind::XorWord => 23,
            ComponentKind::XnorWord => 24,
            ComponentKind::SwitchWord => 25,
            ComponentKind::Equal => 26,
            ComponentKind::LessU => 27,
            ComponentKind::LessS => 28,
            ComponentKind::Neg => 29,
            ComponentKind::Add => 30,
            ComponentKind::Mul => 31,
            ComponentKind::Div => 32,
            ComponentKind::Lsl => 33,
            ComponentKind::Lsr => 34,
            ComponentKind::Rol => 35,
            ComponentKind::Ror => 36,
            ComponentKind::Asr => 37,
            ComponentKind::Counter => 38,
            ComponentKind::RegisterWord => 39,
            ComponentKind::ImmRegisterWord => 40,
            ComponentKind::ImmDelayLineBit => 41,
            ComponentKind::Mux => 42,
            ComponentKind::Decoder1 => 43,
            ComponentKind::Decoder2 => 44,
            ComponentKind::Decoder3 => 45,
            ComponentKind::Constant => 46,
            ComponentKind::SplitterWord2 => 47,
            ComponentKind::MakerWord2 => 48,
            ComponentKind::Clz => 49,
            ComponentKind::RegisterWordConfig => 50,
            ComponentKind::Ssd => 51,
            ComponentKind::Deleted3 => 52,
            ComponentKind::RamLatency => 53,
            ComponentKind::LoadPort => 54,
            ComponentKind::DelayLineWord => 55,
            ComponentKind::StorePort => 56,
            ComponentKind::Ctz => 57,
            ComponentKind::CcLevelOutput => 58,
            ComponentKind::LevelGate => 59,
            ComponentKind::LevelInput1 => 60,
            ComponentKind::LevelInputWord => 61,
            ComponentKind::LevelInputSwitched => 62,
            ComponentKind::LevelInput2Pin => 63,
            ComponentKind::LevelInput3Pin => 64,
            ComponentKind::LevelInput4Pin => 65,
            ComponentKind::LevelInputCustom => 66,
            ComponentKind::LevelInputArch => 67,
            ComponentKind::LevelOutput1 => 68,
            ComponentKind::LevelOutputWord => 69,
            ComponentKind::LevelOutputSwitched => 70,
            ComponentKind::LevelOutput1Sum => 71,
            ComponentKind::LevelOutput1Car => 72,
            ComponentKind::LevelOutput2Pin => 73,
            ComponentKind::LevelOutput3Pin => 74,
            ComponentKind::LevelOutput4Pin => 75,
            ComponentKind::LevelOutputArch => 76,
            ComponentKind::LevelOutputCounter => 77,
            ComponentKind::Custom => 78,
            ComponentKind::CcInput => 79,
            ComponentKind::CcInputBuffer => 80,
            ComponentKind::CcOutput => 81,
            ComponentKind::ProbeMemoryBit => 82,
            ComponentKind::ProbeMemoryWord => 83,
            ComponentKind::ProbeWireBit => 84,
            ComponentKind::ProbeWireWord => 85,
            ComponentKind::ConfigDelay => 86,
            ComponentKind::Halt => 87,
            ComponentKind::Console => 88,
            ComponentKind::SegmentDisplay => 89,
            ComponentKind::StaticValue => 90,
            ComponentKind::PixelScreen => 91,
            ComponentKind::Time => 92,
            ComponentKind::Keyboard => 93,
            ComponentKind::StaticEval => 94,
            ComponentKind::VerilogInput => 95,
            ComponentKind::VerilogOutput => 96,
            ComponentKind::MakerWord4 => 97,
            ComponentKind::MakerWord8 => 98,
            ComponentKind::SplitterWord4 => 99,
            ComponentKind::SplitterWord8 => 100,
            ComponentKind::StaticIndexer => 101,
            ComponentKind::ImmProbeMemoryBit => 102,
            ComponentKind::ImmDelayLineWord => 103,
            ComponentKind::Inc => 104,
            ComponentKind::CcLevelInputCustom => 105,
            ComponentKind::CcLevelInput => 106,
            ComponentKind::ImmRegisterBit => 107,
            ComponentKind::Mod => 108,
            ComponentKind::SplitterBit2 => 109,
            ComponentKind::SplitterBit4 => 110,
            ComponentKind::MakerBit2 => 111,
            ComponentKind::MakerBit4 => 112,
            ComponentKind::ImmProbeMemoryWord => 113,
            ComponentKind::Concatenator2 => 114,
            ComponentKind::Concatenator4 => 115,
            ComponentKind::Concatenator8 => 116,
            ComponentKind::StaticIndexerConfig => 117,
            ComponentKind::RamFast => 118,
            ComponentKind::DelayLineWordConfig => 119,
            ComponentKind::Deleted1 => 120,
            ComponentKind::Deleted2 => 121,
            ComponentKind::ImmStaticValue => 122,
        }
    }

    /// The kind that a code stands for, where the code is a known one.
    pub open spec fn of_code(code: u16) -> Option<ComponentKind> {
        match code {
            0 => Some(ComponentKind::Nothing),
            1 => Some(ComponentKind::Off),
            2 => Some(ComponentKind::On),
            3 => Some(ComponentKind::NotBit),
            4 => Some(ComponentKind::AndBit),
            5 => Some(ComponentKind::And3Bit),
            6 => Some(ComponentKind::NandBit),
            7 => Some(ComponentKind::OrBit),
            8 => Some(ComponentKind::Or3Bit),
            9 => Some(ComponentKind::NorBit),
            10 => Some(ComponentKind::XorBit),
            11 => Some(ComponentKind::XnorBit),
            12 => Some(ComponentKind::SwitchBit),
            13 => Some(ComponentKind::DelayLineBit),
            14 => Some(ComponentKind::RegisterBit),
            15 => Some(ComponentKind::FullAdder),
            16 => Some(ComponentKind::MakerBit8),
            17 => Some(ComponentKind::SplitterBit8),
            18 => Some(ComponentKind::NotWord),
            19 => Some(ComponentKind::OrWord),
            20 => Some(ComponentKind::AndWord),
            21 => Some(ComponentKind::NandWord),
            22 => Some(ComponentKind::NorWord),
            23 => Some(ComponentKind::XorWord),
            24 => Some(ComponentKind::XnorWord),
            25 => Some(ComponentKind::SwitchWord),
            26 => Some(ComponentKind::Equal),
            27 => Some(ComponentKind::LessU),
            28 => Some(ComponentKind::LessS),
            29 => Some(ComponentKind::Neg),
            30 => Some(ComponentKind::Add),
            31 => Some(ComponentKind::Mul),
            32 => Some(ComponentKind::Div),
            33 => Some(ComponentKind::Lsl),
            34 => Some(ComponentKind::Lsr),
            35 => Some(ComponentKind::Rol),
            36 => Some(ComponentKind::Ror),
            37 => Some(ComponentKind::Asr),
            38 => Some(ComponentKind::Counter),
            39 => Some(ComponentKind::RegisterWord),
            40 => Some(ComponentKind::ImmRegisterWord),
            41 => Some(ComponentKind::ImmDelayLineBit),
            42 => Some(ComponentKind::Mux),
            43 => Some(ComponentKind::Decoder1),
            44 => Some(ComponentKind::Decoder2),
            45 => Some(ComponentKind::Decoder3),
            46 => Some(ComponentKind::Constant),
            47 => Some(ComponentKind::SplitterWord2),
            48 => Some(ComponentKind::MakerWord2),
            49 => Some(ComponentKind::Clz),
            50 => Some(ComponentKind::RegisterWordConfig),
            51 => Some(ComponentKind::Ssd),
            52 => Some(ComponentKind::Deleted3),
            53 => Some(ComponentKind::RamLatency),
            54 => Some(ComponentKind::LoadPort),
            55 => Some(ComponentKind::DelayLineWord),
            56 => Some(ComponentKind::StorePort),
            57 => Some(ComponentKind::Ctz),
            58 => Some(ComponentKind::CcLevelOutput),
            59 => Some(ComponentKind::LevelGate),
            60 => Some(ComponentKind::LevelInput1),
            61 => Some(ComponentKind::LevelInputWord),
            62 => Some(ComponentKind::LevelInputSwitched),
            63 => Some(ComponentKind::LevelInput2Pin),
            64 => Some(ComponentKind::LevelInput3Pin),
            65 => Some(ComponentKind::LevelInput4Pin),
            66 => Some(ComponentKind::LevelInputCustom),
            67 => Some(ComponentKind::LevelInputArch),
            68 => Some(ComponentKind::LevelOutput1),
            69 => Some(ComponentKind::LevelOutputWord),
            70 => Some(ComponentKind::LevelOutputSwitched),
            71 => Some(ComponentKind::LevelOutput1Sum),
            72 => Some(ComponentKind::LevelOutput1Car),
            73 => Some(ComponentKind::LevelOutput2Pin),
            74 => Some(ComponentKind::LevelOutput3Pin),
            75 => Some(ComponentKind::LevelOutput4Pin),
            76 => Some(ComponentKind::LevelOutputArch),
            77 => Some(ComponentKind::LevelOutputCounter),
            78 => Some(ComponentKind::Custom),
            79 => Some(ComponentKind::CcInput),
            80 => Some(ComponentKind::CcInputBuffer),
            81 => Some(ComponentKind::CcOutput),
            82 => Some(ComponentKind::ProbeMemoryBit),
            83 => Some(ComponentKind::ProbeMemoryWord),
            84 => Some(ComponentKind::ProbeWireBit),
            85 => Some(ComponentKind::ProbeWireWord),
            86 => Some(ComponentKind::ConfigDelay),
            87 => Some(ComponentKind::Halt),
            88 => Some(ComponentKind::Console),
            89 => Some(ComponentKind::SegmentDisplay),
            90 => Some(ComponentKind::StaticValue),
            91 => Some(ComponentKind::PixelScreen),
            92 => Some(ComponentKind::Time),
            93 => Some(ComponentKind::Keyboard),
            94 => Some(ComponentKind::StaticEval),
            95 => Some(ComponentKind::VerilogInput),
            96 => Some(ComponentKind::VerilogOutput),
            97 => Some(ComponentKind::MakerWord4),
            98 => Some(ComponentKind::MakerWord8),
            99 => Some(ComponentKind::SplitterWord4),
            100 => Some(ComponentKind::SplitterWord8),
            101 => Some(ComponentKind::StaticIndexer),
            102 => Some(ComponentKind::ImmProbeMemoryBit),
            103 => Some(ComponentKind::ImmDelayLineWord),
            104 => Some(ComponentKind::Inc),
            105 => Some(ComponentKind::CcLevelInputCustom),
            106 => Some(ComponentKind::CcLevelInput),
            107 => Some(ComponentKind::ImmRegisterBit),
            108 => Some(ComponentKind::Mod),
            109 => Some(ComponentKind::SplitterBit2),
            110 => Some(ComponentKind::SplitterBit4),
            111 => Some(ComponentKind::MakerBit2),
            112 => Some(ComponentKind::MakerBit4),
            113 => Some(ComponentKind::ImmProbeMemoryWord),
            114 => Some(ComponentKind::Concatenator2),
            115 => Some(ComponentKind::Concatenator4),
            116 => Some(ComponentKind::Concatenator8),
            117 => Some(ComponentKind::StaticIndexerConfig),
            118 => Some(ComponentKind::RamFast),
            119 => Some(ComponentKind::DelayLineWordConfig),
            120 => Some(ComponentKind::Deleted1),
            121 => Some(ComponentKind::Deleted2),
            122 => Some(ComponentKind::ImmStaticValue),
            _ => None,
        }
    }

    /// The codes from 0 to 122 are the known ones, and each stands for the
    /// kind whose code it is.
    pub proof fn lemma_codes(self, code: u16)
        ensures
            Self::of_code(self.code()) == Some(self),
            Self::of_code(code) is Some <==> code <= 122,
            Self::of_code(code) is Some ==> Self::of_code(code).unwrap().code() == code,
    {
    }

    /// The kind that `code` stands for; `None` for a code that is not known.
    pub fn from_code(code: u16) -> (r: Option<ComponentKind>)
        ensures
            r == Self::of_code(code),
    {
        match code {
            0 => Some(ComponentKind::Nothing),
            1 => Some(ComponentKind::Off),
            2 => Some(ComponentKind::On),
            3 => Some(ComponentKind::NotBit),
            4 => Some(ComponentKind::AndBit),
            5 => Some(ComponentKind::And3Bit),
            6 => Some(ComponentKind::NandBit),
            7 => Some(ComponentKind::OrBit),
            8 => Some(ComponentKind::Or3Bit),
            9 => Some(ComponentKind::NorBit),
            10 => Some(ComponentKind::XorBit),
            11 => Some(ComponentKind::XnorBit),
            12 => Some(ComponentKind::SwitchBit),
            13 => Some(ComponentKind::DelayLineBit),
            14 => Some(ComponentKind::RegisterBit),
            15 => Some(ComponentKind::FullAdder),
            16 => Some(ComponentKind::MakerBit8),
            17 => Some(ComponentKind::SplitterBit8),
            18 => Some(ComponentKind::NotWord),
            19 => Some(ComponentKind::OrWord),
            20 => Some(ComponentKind::AndWord),
            21 => Some(ComponentKind::NandWord),
            22 => Some(ComponentKind::NorWord),
            23 => Some(ComponentKind::XorWord),
            24 => Some(ComponentKind::XnorWord),
            25 => Some(ComponentKind::SwitchWord),
            26 => Some(ComponentKind::Equal),
            27 => Some(ComponentKind::LessU),
            28 => Some(ComponentKind::LessS),
            29 => Some(ComponentKind::Neg),
            30 => Some(ComponentKind::Add),
            31 => Some(ComponentKind::Mul),
            32 => Some(ComponentKind::Div),
            33 => Some(ComponentKind::Lsl),
            34 => Some(ComponentKind::Lsr),
            35 => Some(ComponentKind::Rol),
            36 => Some(ComponentKind::Ror),
            37 => Some(ComponentKind::Asr),
            38 => Some(ComponentKind::Counter),
            39 => Some(ComponentKind::RegisterWord),
            40 => Some(ComponentKind::ImmRegisterWord),
            41 => Some(ComponentKind::ImmDelayLineBit),
            42 => Some(ComponentKind::Mux),
            43 => Some(ComponentKind::Decoder1),
            44 => Some(ComponentKind::Decoder2),
            45 => Some(ComponentKind::Decoder3),
            46 => Some(ComponentKind::Constant),
            47 => Some(ComponentKind::SplitterWord2),
            48 => Some(ComponentKind::MakerWord2),
            49 => Some(ComponentKind::Clz),
            50 => Some(ComponentKind::RegisterWordConfig),
            51 => Some(ComponentKind::Ssd),
            52 => Some(ComponentKind::Deleted3),
            53 => Some(ComponentKind::RamLatency),
            54 => Some(ComponentKind::LoadPort),
            55 => Some(ComponentKind::DelayLineWord),
            56 => Some(ComponentKind::StorePort),
            57 => Some(ComponentKind::Ctz),
            58 => Some(ComponentKind::CcLevelOutput),
            59 => Some(ComponentKind::LevelGate),
            60 => Some(ComponentKind::LevelInput1),
            61 => Some(ComponentKind::LevelInputWord),
            62 => Some(ComponentKind::LevelInputSwitched),
            63 => Some(ComponentKind::LevelInput2Pin),
            64 => Some(ComponentKind::LevelInput3Pin),
            65 => Some(ComponentKind::LevelInput4Pin),
            66 => Some(ComponentKind::LevelInputCustom),
            67 => Some(ComponentKind::LevelInputArch),
            68 => Some(ComponentKind::LevelOutput1),
            69 => Some(ComponentKind::LevelOutputWord),
            70 => Some(ComponentKind::LevelOutputSwitched),
            71 => Some(ComponentKind::LevelOutput1Sum),
            72 => Some(ComponentKind::LevelOutput1Car),
            73 => Some(ComponentKind::LevelOutput2Pin),
            74 => Some(ComponentKind::LevelOutput3Pin),
            75 => Some(ComponentKind::LevelOutput4Pin),
            76 => Some(ComponentKind::LevelOutputArch),
            77 => Some(ComponentKind::LevelOutputCounter),
            78 => Some(ComponentKind::Custom),
            79 => Some(ComponentKind::CcInput),
            80 => Some(ComponentKind::CcInputBuffer),
            81 => Some(ComponentKind::CcOutput),
            82 => Some(ComponentKind::ProbeMemoryBit),
            83 => Some(ComponentKind::ProbeMemoryWord),
            84 => Some(ComponentKind::ProbeWireBit),
            85 => Some(ComponentKind::ProbeWireWord),
            86 => Some(ComponentKind::ConfigDelay),
            87 => Some(ComponentKind::Halt),
            88 => Some(ComponentKind::Console),
            89 => Some(ComponentKind::SegmentDisplay),
            90 => Some(ComponentKind::StaticValue),
            91 => Some(ComponentKind::PixelScreen),
            92 => Some(ComponentKind::Time),
            93 => Some(ComponentKind::Keyboard),
            94 => Some(ComponentKind::StaticEval),
            95 => Some(ComponentKind::VerilogInput),
            96 => Some(ComponentKind::VerilogOutput),
            97 => Some(ComponentKind::MakerWord4),
            98 => Some(ComponentKind::MakerWord8),
            99 => Some(ComponentKind::SplitterWord4),
            100 => Some(ComponentKind::SplitterWord8),
            101 => Some(ComponentKind::StaticIndexer),
            102 => Some(ComponentKind::ImmProbeMemoryBit),
            103 => Some(ComponentKind::ImmDelayLineWord),
            104 => Some(ComponentKind::Inc),
            105 => Some(ComponentKind::CcLevelInputCustom),
            106 => Some(ComponentKind::CcLevelInput),
            107 => Some(ComponentKind::ImmRegisterBit),
            108 => Some(ComponentKind::Mod),
            109 => Some(ComponentKind::SplitterBit2),
            110 => Some(ComponentKind::SplitterBit4),
            111 => Some(ComponentKind::MakerBit2),
            112 => Some(ComponentKind::MakerBit4),
            113 => Some(ComponentKind::ImmProbeMemoryWord),
            114 => Some(ComponentKind::Concatenator2),
            115 => Some(ComponentKind::Concatenator4),
            116 => Some(ComponentKind::Concatenator8),
            117 => Some(ComponentKind::StaticIndexerConfig),
            118 => Some(ComponentKind::RamFast),
            119 => Some(ComponentKind::DelayLineWordConfig),
            120 => Some(ComponentKind::Deleted1),
            121 => Some(ComponentKind::Deleted2),
            122 => Some(ComponentKind::ImmStaticValue),
            _ => None,
        }
    }

    /// The code of the kind.
    pub fn to_code(self) -> (r: u16)
        ensures
            r == self.code(),
    {
        match self {
            ComponentKind::Nothing => 0,
            ComponentKind::Off => 1,
            ComponentKind::On => 2,
            ComponentKind::NotBit => 3,
            ComponentKind::AndBit => 4,
            ComponentKind::And3Bit => 5,
            ComponentKind::NandBit => 6,
            ComponentKind::OrBit => 7,
            ComponentKind::Or3Bit => 8,
            ComponentKind::NorBit => 9,
            ComponentKind::XorBit => 10,
            ComponentKind::XnorBit => 11,
            ComponentKind::SwitchBit => 12,
            ComponentKind::DelayLineBit => 13,
            ComponentKind::RegisterBit => 14,
            ComponentKind::FullAdder => 15,
            ComponentKind::MakerBit8 => 16,
            ComponentKind::SplitterBit8 => 17,
            ComponentKind::NotWord => 18,
            ComponentKind::OrWord => 19,
            ComponentKind::AndWord => 20,
            ComponentKind::NandWord => 21,
            ComponentKind::NorWord => 22,
            ComponentKind::XorWord => 23,
            ComponentKind::XnorWord => 24,
            ComponentKind::SwitchWord => 25,
            ComponentKind::Equal => 26,
            ComponentKind::LessU => 27,
            ComponentKind::LessS => 28,
            ComponentKind::Neg => 29,
            ComponentKind::Add => 30,
            ComponentKind::Mul => 31,
            ComponentKind::Div => 32,
            ComponentKind::Lsl => 33,
            ComponentKind::Lsr => 34,
            ComponentKind::Rol => 35,
            ComponentKind::Ror => 36,
            ComponentKind::Asr => 37,
            ComponentKind::Counter => 38,
            ComponentKind::RegisterWord => 39,
            ComponentKind::ImmRegisterWord => 40,
            ComponentKind::ImmDelayLineBit => 41,
            ComponentKind::Mux => 42,
            ComponentKind::Decoder1 => 43,
            ComponentKind::Decoder2 => 44,
            ComponentKind::Decoder3 => 45,
            ComponentKind::Constant => 46,
            ComponentKind::SplitterWord2 => 47,
            ComponentKind::MakerWord2 => 48,
            ComponentKind::Clz => 49,
            ComponentKind::RegisterWordConfig => 50,
            ComponentKind::Ssd => 51,
            ComponentKind::Deleted3 => 52,
            ComponentKind::RamLatency => 53,
            ComponentKind::LoadPort => 54,
            ComponentKind::DelayLineWord => 55,
            ComponentKind::StorePort => 56,
            ComponentKind::Ctz => 57,
            ComponentKind::CcLevelOutput => 58,
            ComponentKind::LevelGate => 59,
            ComponentKind::LevelInput1 => 60,
            ComponentKind::LevelInputWord => 61,
            ComponentKind::LevelInputSwitched => 62,
            ComponentKind::LevelInput2Pin => 63,
            ComponentKind::LevelInput3Pin => 64,
            ComponentKind::LevelInput4Pin => 65,
            ComponentKind::LevelInputCustom => 66,
            ComponentKind::LevelInputArch => 67,
            ComponentKind::LevelOutput1 => 68,
            ComponentKind::LevelOutputWord => 69,
            ComponentKind::LevelOutputSwitched => 70,
            ComponentKind::LevelOutput1Sum => 71,
            ComponentKind::LevelOutput1Car => 72,
            ComponentKind::LevelOutput2Pin => 73,
            ComponentKind::LevelOutput3Pin => 74,
            ComponentKind::LevelOutput4Pin => 75,
            ComponentKind::LevelOutputArch => 76,
            ComponentKind::LevelOutputCounter => 77,
            ComponentKind::Custom => 78,
            ComponentKind::CcInput => 79,
            ComponentKind::CcInputBuffer => 80,
            ComponentKind::CcOutput => 81,
            ComponentKind::ProbeMemoryBit => 82,
            ComponentKind::ProbeMemoryWord => 83,
            ComponentKind::ProbeWireBit => 84,
            ComponentKind::ProbeWireWord => 85,
            ComponentKind::ConfigDelay => 86,
            ComponentKind::Halt => 87,
            ComponentKind::Console => 88,
            ComponentKind::SegmentDisplay => 89,
            ComponentKind::StaticValue => 90,
            ComponentKind::PixelScreen => 91,
            ComponentKind::Time => 92,
            ComponentKind::Keyboard => 93,
            ComponentKind::StaticEval => 94,
            ComponentKind::VerilogInput => 95,
            ComponentKind::VerilogOutput => 96,
            ComponentKind::MakerWord4 => 97,
            ComponentKind::MakerWord8 => 98,
            ComponentKind::SplitterWord4 => 99,
            ComponentKind::SplitterWord8 => 100,
            ComponentKind::StaticIndexer => 101,
            ComponentKind::ImmProbeMemoryBit => 102,
            ComponentKind::ImmDelayLineWord => 103,
            ComponentKind::Inc => 104,
            ComponentKind::CcLevelInputCustom => 105,
            ComponentKind::CcLevelInput => 106,
            ComponentKind::ImmRegisterBit => 107,
            ComponentKind::Mod => 108,
            ComponentKind::SplitterBit2 => 109,
            ComponentKind::SplitterBit4 => 110,
            ComponentKind::MakerBit2 => 111,
            ComponentKind::MakerBit4 => 112,
            ComponentKind::ImmProbeMemoryWord => 113,
            ComponentKind::Concatenator2 => 114,
            ComponentKind::Concatenator4 => 115,
            ComponentKind::Concatenator8 => 116,
            ComponentKind::StaticIndexerConfig => 117,
            ComponentKind::RamFast => 118,
            ComponentKind::DelayLineWordConfig => 119,
            ComponentKind::Deleted1 => 120,
            ComponentKind::Deleted2 => 121,
            ComponentKind::ImmStaticValue => 122,
        }
    }
}

impl<'a> Parse<'a> for ComponentKind {
    /// The code as a `u16`. A code that is not known is an error, never
    /// some default.
    open spec fn parse_spec(input: Seq<u8>) -> Result<(ComponentKind, nat), DecodeError> {
        match u16::parse_spec(input) {
            Ok((code, n)) => match ComponentKind::of_code(code) {
                Some(v) => Ok((v, n)),
                None => Err(DecodeError::UnknownDiscriminant),
            },
            Err(e) => Err(e),
        }
    }

    proof fn lemma_parse_local(a: Seq<u8>, b: Seq<u8>) {
        u16::lemma_parse_local(a, b);
    }

    proof fn lemma_parse_truncated(a: Seq<u8>, k: nat) {
        u16::lemma_parse_truncated(a, k);
    }

    fn parse(input: &mut &'a [u8]) -> (r: Result<Self, DecodeError>) {
        let mut cur: &'a [u8] = *input;
        let code = u16::parse(&mut cur)?;
        match ComponentKind::from_code(code) {
            Some(v) => {
                *input = cur;
                Ok(v)
            },
            None => Err(DecodeError::UnknownDiscriminant),
        }
    }
}

impl Encode for ComponentKind {
    open spec fn encode_spec(v: ComponentKind) -> Seq<u8> {
        u16::encode_spec(v.code())
    }

    open spec fn can_encode(v: ComponentKind) -> bool {
        true
    }

    fn encode(&self, out: &mut Vec<u8>) {
        self.to_code().encode(out);
    }
}

impl<'a> Codec<'a> for ComponentKind {
    open spec fn round_trips(v: ComponentKind) -> bool {
        true
    }

    open spec fn delimited(v: ComponentKind) -> bool {
        true
    }

    proof fn lemma_decoded(input: Seq<u8>) {
    }

    proof fn lemma_round_trip(v: ComponentKind, rest: Seq<u8>) {
        v.lemma_codes(0);
        u16::lemma_round_trip(v.code(), rest);
    }
}

} // verus!

//! The component kinds of format version 6 and their codes.

use crate::error::DecodeError;
use crate::parser::{Codec, Encode, Parse};
use vstd::prelude::*;

verus! {

/// The kinds of component that this format version knows.
#[derive(Clone, Copy, Debug, PartialEq, Eq, Structural)]
pub enum ComponentKind {
    Error,
    Off,
    On,
    Buffer1,
    Not,
    And,
    And3,
    Nand,
    Or,
    Or3,
    Nor,
    Xor,
    Xnor,
    Counter8,
    VirtualCounter8,
    Counter64,
    VirtualCounter64,
    Ram8,
    VirtualRam8,
    Deleted0,
    Deleted1,
    Deleted17,
    Deleted18,
    Register8,
    VirtualRegister8,
    Register8red,
    VirtualRegister8red,
    Register8redPlus,
    VirtualRegister8redPlus,
    Register64,
    VirtualRegister64,
    Switch8,
    Mux8,
    ComDecoder1,
    ComDecoder3,
    Constant8,
    Not8,
    Or8,
    And8,
    Xor8,
    ComEqual8,
    Deleted2,
    Deleted3,
    Neg8,
    Add8,
    Mul8,
    Splitter8,
    Maker8,
    Splitter64,
    Maker64,
    ComFullAdder,
    ComBitMemory,
    VirtualcomBitMemory,
    Deleted10,
    ComDecoder2,
    ComTime,
    NoteSound,
    Deleted4,
    Deleted5,
    Keyboard,
    ComFileLoader,
    Halt,
    WireCluster,
    LevelScreen,
    Program81,
    Program81red,
    Deleted6,
    Deleted7,
    Program84,
    ComLevelGate,
    Input1,
    ComLevelInput2Pin,
    ComLevelInput3Pin,
    ComLevelInput4Pin,
    LevelInputConditions,
    Input8,
    Input64,
    LevelInputCode,
    ComLevelInputArch,
    Output1,
    ComLevelOutput1Sum,
    ComLevelOutput1Car,
    Deleted8,
    Deleted9,
    ComLevelOutput2Pin,
    ComLevelOutput3Pin,
    ComLevelOutput4Pin,
    Output8,
    Output64,
    ComLevelOutputArch,
    ComLevelOutputCounter,
    Deleted11,
    Custom,
    VirtualCustom,
    Program,
    DelayLine1,
    VirtualDelayLine1,
    Console,
    Shl8,
    Shr8,
    Constant64,
    Not64,
    Or64,
    And64,
    Xor64,
    Neg64,
    Add64,
    Mul64,
    ComEqual64,
    ComLessU64,
    ComLessS64,
    Shl64,
    Shr64,
    Mux64,
    Switch64,
    ComProbeMemoryBit,
    ComProbeMemoryWord,
    AndOrLatch,
    NandNandLatch,
    NorNorLatch,
    ComLessU8,
    ComLessS8,
    DotMatrixDisplay,
    ComSegmentDisplay,
    Input16,
    Input32,
    Output16,
    Output32,
    Deleted12,
    Deleted13,
    Deleted14,
    Deleted15,
    Deleted16,
    Buffer8,
    Buffer16,
    Buffer32,
    Buffer64,
    ComProbeWireBit,
    ComProbeWireWord,
    Switch1,
    Output1z,
    Output8z,
    Output16z,
    Output32z,
    Output64z,
    Constant16,
    Not16,
    Or16,
    And16,
    Xor16,
    Neg16,
    Add16,
    Mul16,
    ComEqual16,
    ComLessU16,
    ComLessS16,
    Shl16,
    Shr16,
    Mux16,
    Switch16,
    Splitter16,
    Maker16,
    Register16,
    VirtualRegister16,
    Counter16,
    VirtualCounter16,
    Constant32,
    Not32,
    Or32,
    And32,
    Xor32,
    Neg32,
    Add32,
    Mul32,
    ComEqual32,
    ComLessU32,
    ComLessS32,
    Shl32,
    Shr32,
    Mux32,
    Switch32,
    Splitter32,
    Maker32,
    Register32,
    VirtualRegister32,
    Counter32,
    VirtualCounter32,
    LevelOutput8z,
    Nand8,
    Nor8,
    Xnor8,
    Nand16,
    Nor16,
    Xnor16,
    Nand32,
    Nor32,
    Xnor32,
    Nand64,
    Nor64,
    Xnor64,
    Ram,
    VirtualRam,
    ComRamLatency,
    VirtualcomRamLatency,
    ComRamFast,
    VirtualcomRamFast,
    Rom,
    VirtualRom,
    SolutionRom,
    VirtualSolutionRom,
    DelayLine8,
    VirtualDelayLine8,
    DelayLine16,
    VirtualDelayLine16,
    DelayLine32,
    VirtualDelayLine32,
    DelayLine64,
    VirtualDelayLine64,
    ComRamDualLoad,
    VirtualcomRamDualLoad,
    Hdd,
    VirtualHdd,
    Network,
    Rol8,
    Rol16,
    Rol32,
    Rol64,
    Ror8,
    Ror16,
    Ror32,
    Ror64,
    IndexerBit,
    IndexerByte,
    DivMod8,
    DivMod16,
    DivMod32,
    DivMod64,
    SpriteDisplay,
    ComConfigDelay,
    Clock,
    ComLevelInput1,
    LevelInput8,
    ComLevelOutput1,
    LevelOutput8,
    Ashr8,
    Ashr16,
    Ashr32,
    Ashr64,
    Bidirectional1,
    VirtualBidirectional1,
    Bidirectional8,
    VirtualBidirectional8,
    Bidirectional16,
    VirtualBidirectional16,
    Bidirectional32,
    VirtualBidirectional32,
    Bidirectional64,
    VirtualBidirectional64,
}

impl View for ComponentKind {
    type V = ComponentKind;

    open spec fn view(&self) -> ComponentKind {
        *self
    }
}

impl ComponentKind {
    /// The code that stands for the kind on the wire.
    pub open spec fn code(self) -> u16 {
        match self {
            ComponentKind::Error => 0,
            ComponentKind::Off => 1,
            ComponentKind::On => 2,
            ComponentKind::Buffer1 => 3,
            ComponentKind::Not => 4,
            ComponentKind::And => 5,
            ComponentKind::And3 => 6,
            ComponentKind::Nand => 7,
            ComponentKind::Or => 8,
            ComponentKind::Or3 => 9,
            ComponentKind::Nor => 10,
            ComponentKind::Xor => 11,
            ComponentKind::Xnor => 12,
            ComponentKind::Counter8 => 13,
            ComponentKind::VirtualCounter8 => 14,
            ComponentKind::Counter64 => 15,
            ComponentKind::VirtualCounter64 => 16,
            ComponentKind::Ram8 => 17,
            ComponentKind::VirtualRam8 => 18,
            ComponentKind::Deleted0 => 19,
            ComponentKind::Deleted1 => 20,
            ComponentKind::Deleted17 => 21,
            ComponentKind::Deleted18 => 22,
            ComponentKind::Register8 => 23,
            ComponentKind::VirtualRegister8 => 24,
            ComponentKind::Register8red => 25,
            ComponentKind::VirtualRegister8red => 26,
            ComponentKind::Register8redPlus => 27,
            ComponentKind::VirtualRegister8redPlus => 28,
            ComponentKind::Register64 => 29,
            ComponentKind::VirtualRegister64 => 30,
            ComponentKind::Switch8 => 31,
            ComponentKind::Mux8 => 32,
            ComponentKind::ComDecoder1 => 33,
            ComponentKind::ComDecoder3 => 34,
            ComponentKind::Constant8 => 35,
            ComponentKind::Not8 => 36,
            ComponentKind::Or8 => 37,
            ComponentKind::And8 => 38,
            ComponentKind::Xor8 => 39,
            ComponentKind::ComEqual8 => 40,
            ComponentKind::Deleted2 => 41,
            ComponentKind::Deleted3 => 42,
            ComponentKind::Neg8 => 43,
            ComponentKind::Add8 => 44,
            ComponentKind::Mul8 => 45,
            ComponentKind::Splitter8 => 46,
            ComponentKind::Maker8 => 47,
            ComponentKind::Splitter64 => 48,
            ComponentKind::Maker64 => 49,
            ComponentKind::ComFullAdder => 50,
            ComponentKind::ComBitMemory => 51,
            ComponentKind::VirtualcomBitMemory => 52,
            ComponentKind::Deleted10 => 53,
            ComponentKind::ComDecoder2 => 54,
            ComponentKind::ComTime => 55,
            ComponentKind::NoteSound => 56,
            ComponentKind::Deleted4 => 57,
            ComponentKind::Deleted5 => 58,
            ComponentKind::Keyboard => 59,
            ComponentKind::ComFileLoader => 60,
            ComponentKind::Halt => 61,
            ComponentKind::WireCluster => 62,
            ComponentKind::LevelScreen => 63,
            ComponentKind::Program81 => 64,
            ComponentKind::Program81red => 65,
            ComponentKind::Deleted6 => 66,
            ComponentKind::Deleted7 => 67,
            ComponentKind::Program84 => 68,
            ComponentKind::ComLevelGate => 69,
            ComponentKind::Input1 => 70,
            ComponentKind::ComLevelInput2Pin => 71,
            ComponentKind::ComLevelInput3Pin => 72,
            ComponentKind::ComLevelInput4Pin => 73,
            ComponentKind::LevelInputConditions => 74,
            ComponentKind::Input8 => 75,
            ComponentKind::Input64 => 76,
            ComponentKind::LevelInputCode => 77,
            ComponentKind::ComLevelInputArch => 78,
            ComponentKind::Output1 => 79,
            ComponentKind::ComLevelOutput1Sum => 80,
            ComponentKind::ComLevelOutput1Car => 81,
            ComponentKind::Deleted8 => 82,
            ComponentKind::Deleted9 => 83,
            ComponentKind::ComLevelOutput2Pin => 84,
            ComponentKind::ComLevelOutput3Pin => 85,
            ComponentKind::ComLevelOutput4Pin => 86,
            ComponentKind::Output8 => 87,
            ComponentKind::Output64 => 88,
            ComponentKind::ComLevelOutputArch => 89,
            ComponentKind::ComLevelOutputCounter => 90,
            ComponentKind::Deleted11 => 91,
            ComponentKind::Custom => 92,
            ComponentKind::VirtualCustom => 93,
            ComponentKind::Program => 94,
            ComponentKind::DelayLine1 => 95,
            ComponentKind::VirtualDelayLine1 => 96,
            ComponentKind::Console => 97,
            ComponentKind::Shl8 => 98,
            ComponentKind::Shr8 => 99,
            ComponentKind::Constant64 => 100,
            ComponentKind::Not64 => 101,
            ComponentKind::Or64 => 102,
            ComponentKind::And64 => 103,
            ComponentKind::Xor64 => 104,
            ComponentKind::Neg64 => 105,
            ComponentKind::Add64 => 106,
            ComponentKind::Mul64 => 107,
            ComponentKind::ComEqual64 => 108,
            ComponentKind::ComLessU64 => 109,
            ComponentKind::ComLessS64 => 110,
            ComponentKind::Shl64 => 111,
            ComponentKind::Shr64 => 112,
            ComponentKind::Mux64 => 113,
            ComponentKind::Switch64 => 114,
            ComponentKind::ComProbeMemoryBit => 115,
            ComponentKind::ComProbeMemoryWord => 116,
            ComponentKind::AndOrLatch => 117,
            ComponentKind::NandNandLatch => 118,
            ComponentKind::NorNorLatch => 119,
            ComponentKind::ComLessU8 => 120,
            ComponentKind::ComLessS8 => 121,
            ComponentKind::DotMatrixDisplay => 122,
            ComponentKind::ComSegmentDisplay => 123,
            ComponentKind::Input16 => 124,
            ComponentKind::Input32 => 125,
            ComponentKind::Output16 => 126,
            ComponentKind::Output32 => 127,
            ComponentKind::Deleted12 => 128,
            ComponentKind::Deleted13 => 129,
            ComponentKind::Deleted14 => 130,
            ComponentKind::Deleted15 => 131,
            ComponentKind::Deleted16 => 132,
            ComponentKind::Buffer8 => 133,
            ComponentKind::Buffer16 => 134,
            ComponentKind::Buffer32 => 135,
            ComponentKind::Buffer64 => 136,
            ComponentKind::ComProbeWireBit => 137,
            ComponentKind::ComProbeWireWord => 138,
            ComponentKind::Switch1 => 139,
            ComponentKind::Output1z => 140,
            ComponentKind::Output8z => 141,
            ComponentKind::Output16z => 142,
            ComponentKind::Output32z => 143,
            ComponentKind::Output64z => 144,
            ComponentKind::Constant16 => 145,
            ComponentKind::Not16 => 146,
            ComponentKind::Or16 => 147,
            ComponentKind::And16 => 148,
            ComponentKind::Xor16 => 149,
            ComponentKind::Neg16 => 150,
            ComponentKind::Add16 => 151,
            ComponentKind::Mul16 => 152,
            ComponentKind::ComEqual16 => 153,
            ComponentKind::ComLessU16 => 154,
            ComponentKind::ComLessS16 => 155,
            ComponentKind::Shl16 => 156,
            ComponentKind::Shr16 => 157,
            ComponentKind::Mux16 => 158,
            ComponentKind::Switch16 => 159,
            ComponentKind::Splitter16 => 160,
            ComponentKind::Maker16 => 161,
            ComponentKind::Register16 => 162,
            ComponentKind::VirtualRegister16 => 163,
            ComponentKind::Counter16 => 164,
            ComponentKind::VirtualCounter16 => 165,
            ComponentKind::Constant32 => 166,
            ComponentKind::Not32 => 167,
            ComponentKind::Or32 => 168,
            ComponentKind::And32 => 169,
            ComponentKind::Xor32 => 170,
            ComponentKind::Neg32 => 171,
            ComponentKind::Add32 => 172,
            ComponentKind::Mul32 => 173,
            ComponentKind::ComEqual32 => 174,
            ComponentKind::ComLessU32 => 175,
            ComponentKind::ComLessS32 => 176,
            ComponentKind::Shl32 => 177,
            ComponentKind::Shr32 => 178,
            ComponentKind::Mux32 => 179,
            ComponentKind::Switch32 => 180,
            ComponentKind::Splitter32 => 181,
            ComponentKind::Maker32 => 182,
            ComponentKind::Register32 => 183,
            ComponentKind::VirtualRegister32 => 184,
            ComponentKind::Counter32 => 185,
            ComponentKind::VirtualCounter32 => 186,
            ComponentKind::LevelOutput8z => 187,
            ComponentKind::Nand8 => 188,
            ComponentKind::Nor8 => 189,
            ComponentKind::Xnor8 => 190,
            ComponentKind::Nand16 => 191,
            ComponentKind::Nor16 => 192,
            ComponentKind::Xnor16 => 193,
            ComponentKind::Nand32 => 194,
            ComponentKind::Nor32 => 195,
            ComponentKind::Xnor32 => 196,
            ComponentKind::Nand64 => 197,
            ComponentKind::Nor64 => 198,
            ComponentKind::Xnor64 => 199,
            ComponentKind::Ram => 200,
            ComponentKind::VirtualRam => 201,
            ComponentKind::ComRamLatency => 202,
            ComponentKind::VirtualcomRamLatency => 203,
            ComponentKind::ComRamFast => 204,
            ComponentKind::VirtualcomRamFast => 205,
            ComponentKind::Rom => 206,
            ComponentKind::VirtualRom => 207,
            ComponentKind::SolutionRom => 208,
            ComponentKind::VirtualSolutionRom => 209,
            ComponentKind::DelayLine8 => 210,
            ComponentKind::VirtualDelayLine8 => 211,
            ComponentKind::DelayLine16 => 212,
            ComponentKind::VirtualDelayLine16 => 213,
            ComponentKind::DelayLine32 => 214,
            ComponentKind::VirtualDelayLine32 => 215,
            ComponentKind::DelayLine64 => 216,
            ComponentKind::VirtualDelayLine64 => 217,
            ComponentKind::ComRamDualLoad => 218,
            ComponentKind::VirtualcomRamDualLoad => 219,
            ComponentKind::Hdd => 220,
            ComponentKind::VirtualHdd => 221,
            ComponentKind::Network => 222,
            ComponentKind::Rol8 => 223,
            ComponentKind::Rol16 => 224,
            ComponentKind::Rol32 => 225,
            ComponentKind::Rol64 => 226,
            ComponentKind::Ror8 => 227,
            ComponentKind::Ror16 => 228,
            ComponentKind::Ror32 => 229,
            ComponentKind::Ror64 => 230,
            ComponentKind::IndexerBit => 231,
            ComponentKind::IndexerByte => 232,
            ComponentKind::DivMod8 => 233,
            ComponentKind::DivMod16 => 234,
            ComponentKind::DivMod32 => 235,
            ComponentKind::DivMod64 => 236,
            ComponentKind::SpriteDisplay => 237,
            ComponentKind::ComConfigDelay => 238,
            ComponentKind::Clock => 239,
            ComponentKind::ComLevelInput1 => 240,
            ComponentKind::LevelInput8 => 241,
            ComponentKind::ComLevelOutput1 => 242,
            ComponentKind::LevelOutput8 => 243,
            ComponentKind::Ashr8 => 244,
            ComponentKind::Ashr16 => 245,
            ComponentKind::Ashr32 => 246,
            ComponentKind::Ashr64 => 247,
            ComponentKind::Bidirectional1 => 248,
            ComponentKind::VirtualBidirectional1 => 249,
            ComponentKind::Bidirectional8 => 250,
            ComponentKind::VirtualBidirectional8 => 251,
            ComponentKind::Bidirectional16 => 252,
            ComponentKind::VirtualBidirectional16 => 253,
            ComponentKind::Bidirectional32 => 254,
            ComponentKind::VirtualBidirectional32 => 255,
            ComponentKind::Bidirectional64 => 256,
            ComponentKind::VirtualBidirectional64 => 257,
        }
    }

    /// The kind that a code stands for, where the code is a known one.
    pub open spec fn of_code(code: u16) -> Option<ComponentKind> {
        match code {
            0 => Some(ComponentKind::Error),
            1 => Some(ComponentKind::Off),
            2 => Some(ComponentKind::On),
            3 => Some(ComponentKind::Buffer1),
            4 => Some(ComponentKind::Not),
            5 => Some(ComponentKind::And),
            6 => Some(ComponentKind::And3),
            7 => Some(ComponentKind::Nand),
            8 => Some(ComponentKind::Or),
            9 => Some(ComponentKind::Or3),
            10 => Some(ComponentKind::Nor),
            11 => Some(ComponentKind::Xor),
            12 => Some(ComponentKind::Xnor),
            13 => Some(ComponentKind::Counter8),
            14 => Some(ComponentKind::VirtualCounter8),
            15 => Some(ComponentKind::Counter64),
            16 => Some(ComponentKind::VirtualCounter64),
            17 => Some(ComponentKind::Ram8),
            18 => Some(ComponentKind::VirtualRam8),
            19 => Some(ComponentKind::Deleted0),
            20 => Some(ComponentKind::Deleted1),
            21 => Some(ComponentKind::Deleted17),
            22 => Some(ComponentKind::Deleted18),
            23 => Some(ComponentKind::Register8),
            24 => Some(ComponentKind::VirtualRegister8),
            25 => Some(ComponentKind::Register8red),
            26 => Some(ComponentKind::VirtualRegister8red),
            27 => Some(ComponentKind::Register8redPlus),
            28 => Some(ComponentKind::VirtualRegister8redPlus),
            29 => Some(ComponentKind::Register64),
            30 => Some(ComponentKind::VirtualRegister64),
            31 => Some(ComponentKind::Switch8),
            32 => Some(ComponentKind::Mux8),
            33 => Some(ComponentKind::ComDecoder1),
            34 => Some(ComponentKind::ComDecoder3),
            35 => Some(ComponentKind::Constant8),
            36 => Some(ComponentKind::Not8),
            37 => Some(ComponentKind::Or8),
            38 => Some(ComponentKind::And8),
            39 => Some(ComponentKind::Xor8),
            40 => Some(ComponentKind::ComEqual8),
            41 => Some(ComponentKind::Deleted2),
            42 => Some(ComponentKind::Deleted3),
            43 => Some(ComponentKind::Neg8),
            44 => Some(ComponentKind::Add8),
            45 => Some(ComponentKind::Mul8),
            46 => Some(ComponentKind::Splitter8),
            47 => Some(ComponentKind::Maker8),
            48 => Some(ComponentKind::Splitter64),
            49 => Some(ComponentKind::Maker64),
            50 => Some(ComponentKind::ComFullAdder),
            51 => Some(ComponentKind::ComBitMemory),
            52 => Some(ComponentKind::VirtualcomBitMemory),
            53 => Some(ComponentKind::Deleted10),
            54 => Some(ComponentKind::ComDecoder2),
            55 => Some(ComponentKind::ComTime),
            56 => Some(ComponentKind::NoteSound),
            57 => Some(ComponentKind::Deleted4),
            58 => Some(ComponentKind::Deleted5),
            59 => Some(ComponentKind::Keyboard),
            60 => Some(ComponentKind::ComFileLoader),
            61 => Some(ComponentKind::Halt),
            62 => Some(ComponentKind::WireCluster),
            63 => Some(ComponentKind::LevelScreen),
            64 => Some(ComponentKind::Program81),
            65 => Some(ComponentKind::Program81red),
            66 => Some(ComponentKind::Deleted6),
            67 => Some(ComponentKind::Deleted7),
            68 => Some(ComponentKind::Program84),
            69 => Some(ComponentKind::ComLevelGate),
            70 => Some(ComponentKind::Input1),
            71 => Some(ComponentKind::ComLevelInput2Pin),
            72 => Some(ComponentKind::ComLevelInput3Pin),
            73 => Some(ComponentKind::ComLevelInput4Pin),
            74 => Some(ComponentKind::LevelInputConditions),
            75 => Some(ComponentKind::Input8),
            76 => Some(ComponentKind::Input64),
            77 => Some(ComponentKind::LevelInputCode),
            78 => Some(ComponentKind::ComLevelInputArch),
            79 => Some(ComponentKind::Output1),
            80 => Some(ComponentKind::ComLevelOutput1Sum),
            81 => Some(ComponentKind::ComLevelOutput1Car),
            82 => Some(ComponentKind::Deleted8),
            83 => Some(ComponentKind::Deleted9),
            84 => Some(ComponentKind::ComLevelOutput2Pin),
            85 => Some(ComponentKind::ComLevelOutput3Pin),
            86 => Some(ComponentKind::ComLevelOutput4Pin),
            87 => Some(ComponentKind::Output8),
            88 => Some(ComponentKind::Output64),
            89 => Some(ComponentKind::ComLevelOutputArch),
            90 => Some(ComponentKind::ComLevelOutputCounter),
            91 => Some(ComponentKind::Deleted11),
            92 => Some(ComponentKind::Custom),
            93 => Some(ComponentKind::VirtualCustom),
            94 => Some(ComponentKind::Program),
            95 => Some(ComponentKind::DelayLine1),
            96 => Some(ComponentKind::VirtualDelayLine1),
            97 => Some(ComponentKind::Console),
            98 => Some(ComponentKind::Shl8),
            99 => Some(ComponentKind::Shr8),
            100 => Some(ComponentKind::Constant64),
            101 => Some(ComponentKind::Not64),
            102 => Some(ComponentKind::Or64),
            103 => Some(ComponentKind::And64),
            104 => Some(ComponentKind::Xor64),
            105 => Some(ComponentKind::Neg64),
            106 => Some(ComponentKind::Add64),
            107 => Some(ComponentKind::Mul64),
            108 => Some(ComponentKind::ComEqual64),
            109 => Some(ComponentKind::ComLessU64),
            110 => Some(ComponentKind::ComLessS64),
            111 => Some(ComponentKind::Shl64),
            112 => Some(ComponentKind::Shr64),
            113 => Some(ComponentKind::Mux64),
            114 => Some(ComponentKind::Switch64),
            115 => Some(ComponentKind::ComProbeMemoryBit),
            116 => Some(ComponentKind::ComProbeMemoryWord),
            117 => Some(ComponentKind::AndOrLatch),
            118 => Some(ComponentKind::NandNandLatch),
            119 => Some(ComponentKind::NorNorLatch),
            120 => Some(ComponentKind::ComLessU8),
            121 => Some(ComponentKind::ComLessS8),
            122 => Some(ComponentKind::DotMatrixDisplay),
            123 => Some(ComponentKind::ComSegmentDisplay),
            124 => Some(ComponentKind::Input16),
            125 => Some(ComponentKind::Input32),
            126 => Some(ComponentKind::Output16),
            127 => Some(ComponentKind::Output32),
            128 => Some(ComponentKind::Deleted12),
            129 => Some(ComponentKind::Deleted13),
            130 => Some(ComponentKind::Deleted14),
            131 => Some(ComponentKind::Deleted15),
            132 => Some(ComponentKind::Deleted16),
            133 => Some(ComponentKind::Buffer8),
            134 => Some(ComponentKind::Buffer16),
            135 => Some(ComponentKind::Buffer32),
            136 => Some(ComponentKind::Buffer64),
            137 => Some(ComponentKind::ComProbeWireBit),
            138 => Some(ComponentKind::ComProbeWireWord),
            139 => Some(ComponentKind::Switch1),
            140 => Some(ComponentKind::Output1z),
            141 => Some(ComponentKind::Output8z),
            142 => Some(ComponentKind::Output16z),
            143 => Some(ComponentKind::Output32z),
            144 => Some(ComponentKind::Output64z),
            145 => Some(ComponentKind::Constant16),
            146 => Some(ComponentKind::Not16),
            147 => Some(ComponentKind::Or16),
            148 => Some(ComponentKind::And16),
            149 => Some(ComponentKind::Xor16),
            150 => Some(ComponentKind::Neg16),
            151 => Some(ComponentKind::Add16),
            152 => Some(ComponentKind::Mul16),
            153 => Some(ComponentKind::ComEqual16),
            154 => Some(ComponentKind::ComLessU16),
            155 => Some(ComponentKind::ComLessS16),
            156 => Some(ComponentKind::Shl16),
            157 => Some(ComponentKind::Shr16),
            158 => Some(ComponentKind::Mux16),
            159 => Some(ComponentKind::Switch16),
            160 => Some(ComponentKind::Splitter16),
            161 => Some(ComponentKind::Maker16),
            162 => Some(ComponentKind::Register16),
            163 => Some(ComponentKind::VirtualRegister16),
            164 => Some(ComponentKind::Counter16),
            165 => Some(ComponentKind::VirtualCounter16),
            166 => Some(ComponentKind::Constant32),
            167 => Some(ComponentKind::Not32),
            168 => Some(ComponentKind::Or32),
            169 => Some(ComponentKind::And32),
            170 => Some(ComponentKind::Xor32),
            171 => Some(ComponentKind::Neg32),
            172 => Some(ComponentKind::Add32),
            173 => Some(ComponentKind::Mul32),
            174 => Some(ComponentKind::ComEqual32),
            175 => Some(ComponentKind::ComLessU32),
            176 => Some(ComponentKind::ComLessS32),
            177 => Some(ComponentKind::Shl32),
            178 => Some(ComponentKind::Shr32),
            179 => Some(ComponentKind::Mux32),
            180 => Some(ComponentKind::Switch32),
            181 => Some(ComponentKind::Splitter32),
            182 => Some(ComponentKind::Maker32),
            183 => Some(ComponentKind::Register32),
            184 => Some(ComponentKind::VirtualRegister32),
            185 => Some(ComponentKind::Counter32),
            186 => Some(ComponentKind::VirtualCounter32),
            187 => Some(ComponentKind::LevelOutput8z),
            188 => Some(ComponentKind::Nand8),
            189 => Some(ComponentKind::Nor8),
            190 => Some(ComponentKind::Xnor8),
            191 => Some(ComponentKind::Nand16),
            192 => Some(ComponentKind::Nor16),
            193 => Some(ComponentKind::Xnor16),
            194 => Some(ComponentKind::Nand32),
            195 => Some(ComponentKind::Nor32),
            196 => Some(ComponentKind::Xnor32),
            197 => Some(ComponentKind::Nand64),
            198 => Some(ComponentKind::Nor64),
            199 => Some(ComponentKind::Xnor64),
            200 => Some(ComponentKind::Ram),
            201 => Some(ComponentKind::VirtualRam),
            202 => Some(ComponentKind::ComRamLatency),
            203 => Some(ComponentKind::VirtualcomRamLatency),
            204 => Some(ComponentKind::ComRamFast),
            205 => Some(ComponentKind::VirtualcomRamFast),
            206 => Some(ComponentKind::Rom),
            207 => Some(ComponentKind::VirtualRom),
            208 => Some(ComponentKind::SolutionRom),
            209 => Some(ComponentKind::VirtualSolutionRom),
            210 => Some(ComponentKind::DelayLine8),
            211 => Some(ComponentKind::VirtualDelayLine8),
            212 => Some(ComponentKind::DelayLine16),
            213 => Some(ComponentKind::VirtualDelayLine16),
            214 => Some(ComponentKind::DelayLine32),
            215 => Some(ComponentKind::VirtualDelayLine32),
            216 => Some(ComponentKind::DelayLine64),
            217 => Some(ComponentKind::VirtualDelayLine64),
            218 => Some(ComponentKind::ComRamDualLoad),
            219 => Some(ComponentKind::VirtualcomRamDualLoad),
            220 => Some(ComponentKind::Hdd),
            221 => Some(ComponentKind::VirtualHdd),
            222 => Some(ComponentKind::Network),
            223 => Some(ComponentKind::Rol8),
            224 => Some(ComponentKind::Rol16),
            225 => Some(ComponentKind::Rol32),
            226 => Some(ComponentKind::Rol64),
            227 => Some(ComponentKind::Ror8),
            228 => Some(ComponentKind::Ror16),
            229 => Some(ComponentKind::Ror32),
            230 => Some(ComponentKind::Ror64),
            231 => Some(ComponentKind::IndexerBit),
            232 => Some(ComponentKind::IndexerByte),
            233 => Some(ComponentKind::DivMod8),
            234 => Some(ComponentKind::DivMod16),
            235 => Some(ComponentKind::DivMod32),
            236 => Some(ComponentKind::DivMod64),
            237 => Some(ComponentKind::SpriteDisplay),
            238 => Some(ComponentKind::ComConfigDelay),
            239 => Some(ComponentKind::Clock),
            240 => Some(ComponentKind::ComLevelInput1),
            241 => Some(ComponentKind::LevelInput8),
            242 => Some(ComponentKind::ComLevelOutput1),
            243 => Some(ComponentKind::LevelOutput8),
            244 => Some(ComponentKind::Ashr8),
            245 => Some(ComponentKind::Ashr16),
            246 => Some(ComponentKind::Ashr32),
            247 => Some(ComponentKind::Ashr64),
            248 => Some(ComponentKind::Bidirectional1),
            249 => Some(ComponentKind::VirtualBidirectional1),
            250 => Some(ComponentKind::Bidirectional8),
            251 => Some(ComponentKind::VirtualBidirectional8),
            252 => Some(ComponentKind::Bidirectional16),
            253 => Some(ComponentKind::VirtualBidirectional16),
            254 => Some(ComponentKind::Bidirectional32),
            255 => Some(ComponentKind::VirtualBidirectional32),
            256 => Some(ComponentKind::Bidirectional64),
            257 => Some(ComponentKind::VirtualBidirectional64),
            _ => None,
        }
    }

    /// The codes from 0 to 257 are the known ones, and each stands for the
    /// kind whose code it is.
    pub proof fn lemma_codes(self, code: u16)
        ensures
            Self::of_code(self.code()) == Some(self),
            Self::of_code(code) is Some <==> code <= 257,
            Self::of_code(code) is Some ==> Self::of_code(code).unwrap().code() == code,
    {
    }

    /// The kind that `code` stands for; `None` for a code that is not known.
    pub fn from_code(code: u16) -> (r: Option<ComponentKind>)
        ensures
            r == Self::of_code(code),
    {
        match code {
            0 => Some(ComponentKind::Error),
            1 => Some(ComponentKind::Off),
            2 => Some(ComponentKind::On),
            3 => Some(ComponentKind::Buffer1),
            4 => Some(ComponentKind::Not),
            5 => Some(ComponentKind::And),
            6 => Some(ComponentKind::And3),
            7 => Some(ComponentKind::Nand),
            8 => Some(ComponentKind::Or),
            9 => Some(ComponentKind::Or3),
            10 => Some(ComponentKind::Nor),
            11 => Some(ComponentKind::Xor),
            12 => Some(ComponentKind::Xnor),
            13 => Some(ComponentKind::Counter8),
            14 => Some(ComponentKind::VirtualCounter8),
            15 => Some(ComponentKind::Counter64),
            16 => Some(ComponentKind::VirtualCounter64),
            17 => Some(ComponentKind::Ram8),
            18 => Some(ComponentKind::VirtualRam8),
            19 => Some(ComponentKind::Deleted0),
            20 => Some(ComponentKind::Deleted1),
            21 => Some(ComponentKind::Deleted17),
            22 => Some(ComponentKind::Deleted18),
            23 => Some(ComponentKind::Register8),
            24 => Some(ComponentKind::VirtualRegister8),
            25 => Some(ComponentKind::Register8red),
            26 => Some(ComponentKind::VirtualRegister8red),
            27 => Some(ComponentKind::Register8redPlus),
            28 => Some(ComponentKind::VirtualRegister8redPlus),
            29 => Some(ComponentKind::Register64),
            30 => Some(ComponentKind::VirtualRegister64),
            31 => Some(ComponentKind::Switch8),
            32 => Some(ComponentKind::Mux8),
            33 => Some(ComponentKind::ComDecoder1),
            34 => Some(ComponentKind::ComDecoder3),
            35 => Some(ComponentKind::Constant8),
            36 => Some(ComponentKind::Not8),
            37 => Some(ComponentKind::Or8),
            38 => Some(ComponentKind::And8),
            39 => Some(ComponentKind::Xor8),
            40 => Some(ComponentKind::ComEqual8),
            41 => Some(ComponentKind::Deleted2),
            42 => Some(ComponentKind::Deleted3),
            43 => Some(ComponentKind::Neg8),
            44 => Some(ComponentKind::Add8),
            45 => Some(ComponentKind::Mul8),
            46 => Some(ComponentKind::Splitter8),
            47 => Some(ComponentKind::Maker8),
            48 => Some(ComponentKind::Splitter64),
            49 => Some(ComponentKind::Maker64),
            50 => Some(ComponentKind::ComFullAdder),
            51 => Some(ComponentKind::ComBitMemory),
            52 => Some(ComponentKind::VirtualcomBitMemory),
            53 => Some(ComponentKind::Deleted10),
            54 => Some(ComponentKind::ComDecoder2),
            55 => Some(ComponentKind::ComTime),
            56 => Some(ComponentKind::NoteSound),
            57 => Some(ComponentKind::Deleted4),
            58 => Some(ComponentKind::Deleted5),
            59 => Some(ComponentKind::Keyboard),
            60 => Some(ComponentKind::ComFileLoader),
            61 => Some(ComponentKind::Halt),
            62 => Some(ComponentKind::WireCluster),
            63 => Some(ComponentKind::LevelScreen),
            64 => Some(ComponentKind::Program81),
            65 => Some(ComponentKind::Program81red),
            66 => Some(ComponentKind::Deleted6),
            67 => Some(ComponentKind::Deleted7),
            68 => Some(ComponentKind::Program84),
            69 => Some(ComponentKind::ComLevelGate),
            70 => Some(ComponentKind::Input1),
            71 => Some(ComponentKind::ComLevelInput2Pin),
            72 => Some(ComponentKind::ComLevelInput3Pin),
            73 => Some(ComponentKind::ComLevelInput4Pin),
            74 => Some(ComponentKind::LevelInputConditions),
            75 => Some(ComponentKind::Input8),
            76 => Some(ComponentKind::Input64),
            77 => Some(ComponentKind::LevelInputCode),
            78 => Some(ComponentKind::ComLevelInputArch),
            79 => Some(ComponentKind::Output1),
            80 => Some(ComponentKind::ComLevelOutput1Sum),
            81 => Some(ComponentKind::ComLevelOutput1Car),
            82 => Some(ComponentKind::Deleted8),
            83 => Some(ComponentKind::Deleted9),
            84 => Some(ComponentKind::ComLevelOutput2Pin),
            85 => Some(ComponentKind::ComLevelOutput3Pin),
            86 => Some(ComponentKind::ComLevelOutput4Pin),
            87 => Some(ComponentKind::Output8),
            88 => Some(ComponentKind::Output64),
            89 => Some(ComponentKind::ComLevelOutputArch),
            90 => Some(ComponentKind::ComLevelOutputCounter),
            91 => Some(ComponentKind::Deleted11),
            92 => Some(ComponentKind::Custom),
            93 => Some(ComponentKind::VirtualCustom),
            94 => Some(ComponentKind::Program),
            95 => Some(ComponentKind::DelayLine1),
            96 => Some(ComponentKind::VirtualDelayLine1),
            97 => Some(ComponentKind::Console),
            98 => Some(ComponentKind::Shl8),
            99 => Some(ComponentKind::Shr8),
            100 => Some(ComponentKind::Constant64),
            101 => Some(ComponentKind::Not64),
            102 => Some(ComponentKind::Or64),
            103 => Some(ComponentKind::And64),
            104 => Some(ComponentKind::Xor64),
            105 => Some(ComponentKind::Neg64),
            106 => Some(ComponentKind::Add64),
            107 => Some(ComponentKind::Mul64),
            108 => Some(ComponentKind::ComEqual64),
            109 => Some(ComponentKind::ComLessU64),
            110 => Some(ComponentKind::ComLessS64),
            111 => Some(ComponentKind::Shl64),
            112 => Some(ComponentKind::Shr64),
            113 => Some(ComponentKind::Mux64),
            114 => Some(ComponentKind::Switch64),
            115 => Some(ComponentKind::ComProbeMemoryBit),
            116 => Some(ComponentKind::ComProbeMemoryWord),
            117 => Some(ComponentKind::AndOrLatch),
            118 => Some(ComponentKind::NandNandLatch),
            119 => Some(ComponentKind::NorNorLatch),
            120 => Some(ComponentKind::ComLessU8),
            121 => Some(ComponentKind::ComLessS8),
            122 => Some(ComponentKind::DotMatrixDisplay),
            123 => Some(ComponentKind::ComSegmentDisplay),
            124 => Some(ComponentKind::Input16),
            125 => Some(ComponentKind::Input32),
            126 => Some(ComponentKind::Output16),
            127 => Some(ComponentKind::Output32),
            128 => Some(ComponentKind::Deleted12),
            129 => Some(ComponentKind::Deleted13),
            130 => Some(ComponentKind::Deleted14),
            131 => Some(ComponentKind::Deleted15),
            132 => Some(ComponentKind::Deleted16),
            133 => Some(ComponentKind::Buffer8),
            134 => Some(ComponentKind::Buffer16),
            135 => Some(ComponentKind::Buffer32),
            136 => Some(ComponentKind::Buffer64),
            137 => Some(ComponentKind::ComProbeWireBit),
            138 => Some(ComponentKind::ComProbeWireWord),
            139 => Some(ComponentKind::Switch1),
            140 => Some(ComponentKind::Output1z),
            141 => Some(ComponentKind::Output8z),
            142 => Some(ComponentKind::Output16z),
            143 => Some(ComponentKind::Output32z),
            144 => Some(ComponentKind::Output64z),
            145 => Some(ComponentKind::Constant16),
            146 => Some(ComponentKind::Not16),
            147 => Some(ComponentKind::Or16),
            148 => Some(ComponentKind::And16),
            149 => Some(ComponentKind::Xor16),
            150 => Some(ComponentKind::Neg16),
            151 => Some(ComponentKind::Add16),
            152 => Some(ComponentKind::Mul16),
            153 => Some(ComponentKind::ComEqual16),
            154 => Some(ComponentKind::ComLessU16),
            155 => Some(ComponentKind::ComLessS16),
            156 => Some(ComponentKind::Shl16),
            157 => Some(ComponentKind::Shr16),
            158 => Some(ComponentKind::Mux16),
            159 => Some(ComponentKind::Switch16),
            160 => Some(ComponentKind::Splitter16),
            161 => Some(ComponentKind::Maker16),
            162 => Some(ComponentKind::Register16),
            163 => Some(ComponentKind::VirtualRegister16),
            164 => Some(ComponentKind::Counter16),
            165 => Some(ComponentKind::VirtualCounter16),
            166 => Some(ComponentKind::Constant32),
            167 => Some(ComponentKind::Not32),
            168 => Some(ComponentKind::Or32),
            169 => Some(ComponentKind::And32),
            170 => Some(ComponentKind::Xor32),
            171 => Some(ComponentKind::Neg32),
            172 => Some(ComponentKind::Add32),
            173 => Some(ComponentKind::Mul32),
            174 => Some(ComponentKind::ComEqual32),
            175 => Some(ComponentKind::ComLessU32),
            176 => Some(ComponentKind::ComLessS32),
            177 => Some(ComponentKind::Shl32),
            178 => Some(ComponentKind::Shr32),
            179 => Some(ComponentKind::Mux32),
            180 => Some(ComponentKind::Switch32),
            181 => Some(ComponentKind::Splitter32),
            182 => Some(ComponentKind::Maker32),
            183 => Some(ComponentKind::Register32),
            184 => Some(ComponentKind::VirtualRegister32),
            185 => Some(ComponentKind::Counter32),
            186 => Some(ComponentKind::VirtualCounter32),
            187 => Some(ComponentKind::LevelOutput8z),
            188 => Some(ComponentKind::Nand8),
            189 => Some(ComponentKind::Nor8),
            190 => Some(ComponentKind::Xnor8),
            191 => Some(ComponentKind::Nand16),
            192 => Some(ComponentKind::Nor16),
            193 => Some(ComponentKind::Xnor16),
            194 => Some(ComponentKind::Nand32),
            195 => Some(ComponentKind::Nor32),
            196 => Some(ComponentKind::Xnor32),
            197 => Some(ComponentKind::Nand64),
            198 => Some(ComponentKind::Nor64),
            199 => Some(ComponentKind::Xnor64),
            200 => Some(ComponentKind::Ram),
            201 => Some(ComponentKind::VirtualRam),
            202 => Some(ComponentKind::ComRamLatency),
            203 => Some(ComponentKind::VirtualcomRamLatency),
            204 => Some(ComponentKind::ComRamFast),
            205 => Some(ComponentKind::VirtualcomRamFast),
            206 => Some(ComponentKind::Rom),
            207 => Some(ComponentKind::VirtualRom),
            208 => Some(ComponentKind::SolutionRom),
            209 => Some(ComponentKind::VirtualSolutionRom),
            210 => Some(ComponentKind::DelayLine8),
            211 => Some(ComponentKind::VirtualDelayLine8),
            212 => Some(ComponentKind::DelayLine16),
            213 => Some(ComponentKind::VirtualDelayLine16),
            214 => Some(ComponentKind::DelayLine32),
            215 => Some(ComponentKind::VirtualDelayLine32),
            216 => Some(ComponentKind::DelayLine64),
            217 => Some(ComponentKind::VirtualDelayLine64),
            218 => Some(ComponentKind::ComRamDualLoad),
            219 => Some(ComponentKind::VirtualcomRamDualLoad),
            220 => Some(ComponentKind::Hdd),
            221 => Some(ComponentKind::VirtualHdd),
            222 => Some(ComponentKind::Network),
            223 => Some(ComponentKind::Rol8),
            224 => Some(ComponentKind::Rol16),
            225 => Some(ComponentKind::Rol32),
            226 => Some(ComponentKind::Rol64),
            227 => Some(ComponentKind::Ror8),
            228 => Some(ComponentKind::Ror16),
            229 => Some(ComponentKind::Ror32),
            230 => Some(ComponentKind::Ror64),
            231 => Some(ComponentKind::IndexerBit),
            232 => Some(ComponentKind::IndexerByte),
            233 => Some(ComponentKind::DivMod8),
            234 => Some(ComponentKind::DivMod16),
            235 => Some(ComponentKind::DivMod32),
            236 => Some(ComponentKind::DivMod64),
            237 => Some(ComponentKind::SpriteDisplay),
            238 => Some(ComponentKind::ComConfigDelay),
            239 => Some(ComponentKind::Clock),
            240 => Some(ComponentKind::ComLevelInput1),
            241 => Some(ComponentKind::LevelInput8),
            242 => Some(ComponentKind::ComLevelOutput1),
            243 => Some(ComponentKind::LevelOutput8),
            244 => Some(ComponentKind::Ashr8),
            245 => Some(ComponentKind::Ashr16),
            246 => Some(ComponentKind::Ashr32),
            247 => Some(ComponentKind::Ashr64),
            248 => Some(ComponentKind::Bidirectional1),
            249 => Some(ComponentKind::VirtualBidirectional1),
            250 => Some(ComponentKind::Bidirectional8),
            251 => Some(ComponentKind::VirtualBidirectional8),
            252 => Some(ComponentKind::Bidirectional16),
            253 => Some(ComponentKind::VirtualBidirectional16),
            254 => Some(ComponentKind::Bidirectional32),
            255 => Some(ComponentKind::VirtualBidirectional32),
            256 => Some(ComponentKind::Bidirectional64),
            257 => Some(ComponentKind::VirtualBidirectional64),
            _ => None,
        }
    }

    /// The code of the kind.
    pub fn to_code(self) -> (r: u16)
        ensures
            r == self.code(),
    {
        match self {
            ComponentKind::Error => 0,
            ComponentKind::Off => 1,
            ComponentKind::On => 2,
            ComponentKind::Buffer1 => 3,
            ComponentKind::Not => 4,
            ComponentKind::And => 5,
            ComponentKind::And3 => 6,
            ComponentKind::Nand => 7,
            ComponentKind::Or => 8,
            ComponentKind::Or3 => 9,
            ComponentKind::Nor => 10,
            ComponentKind::Xor => 11,
            ComponentKind::Xnor => 12,
            ComponentKind::Counter8 => 13,
            ComponentKind::VirtualCounter8 => 14,
            ComponentKind::Counter64 => 15,
            ComponentKind::VirtualCounter64 => 16,
            ComponentKind::Ram8 => 17,
            ComponentKind::VirtualRam8 => 18,
            ComponentKind::Deleted0 => 19,
            ComponentKind::Deleted1 => 20,
            ComponentKind::Deleted17 => 21,
            ComponentKind::Deleted18 => 22,
            ComponentKind::Register8 => 23,
            ComponentKind::VirtualRegister8 => 24,
            ComponentKind::Register8red => 25,
            ComponentKind::VirtualRegister8red => 26,
            ComponentKind::Register8redPlus => 27,
            ComponentKind::VirtualRegister8redPlus => 28,
            ComponentKind::Register64 => 29,
            ComponentKind::VirtualRegister64 => 30,
            ComponentKind::Switch8 => 31,
            ComponentKind::Mux8 => 32,
            ComponentKind::ComDecoder1 => 33,
            ComponentKind::ComDecoder3 => 34,
            ComponentKind::Constant8 => 35,
            ComponentKind::Not8 => 36,
            ComponentKind::Or8 => 37,
            ComponentKind::And8 => 38,
            ComponentKind::Xor8 => 39,
            ComponentKind::ComEqual8 => 40,
            ComponentKind::Deleted2 => 41,
            ComponentKind::Deleted3 => 42,
            ComponentKind::Neg8 => 43,
            ComponentKind::Add8 => 44,
            ComponentKind::Mul8 => 45,
            ComponentKind::Splitter8 => 46,
            ComponentKind::Maker8 => 47,
            ComponentKind::Splitter64 => 48,
            ComponentKind::Maker64 => 49,
            ComponentKind::ComFullAdder => 50,
            ComponentKind::ComBitMemory => 51,
            ComponentKind::VirtualcomBitMemory => 52,
            ComponentKind::Deleted10 => 53,
            ComponentKind::ComDecoder2 => 54,
            ComponentKind::ComTime => 55,
            ComponentKind::NoteSound => 56,
            ComponentKind::Deleted4 => 57,
            ComponentKind::Deleted5 => 58,
            ComponentKind::Keyboard => 59,
            ComponentKind::ComFileLoader => 60,
            ComponentKind::Halt => 61,
            ComponentKind::WireCluster => 62,
            ComponentKind::LevelScreen => 63,
            ComponentKind::Program81 => 64,
            ComponentKind::Program81red => 65,
            ComponentKind::Deleted6 => 66,
            ComponentKind::Deleted7 => 67,
            ComponentKind::Program84 => 68,
            ComponentKind::ComLevelGate => 69,
            ComponentKind::Input1 => 70,
            ComponentKind::ComLevelInput2Pin => 71,
            ComponentKind::ComLevelInput3Pin => 72,
            ComponentKind::ComLevelInput4Pin => 73,
            ComponentKind::LevelInputConditions => 74,
            ComponentKind::Input8 => 75,
            ComponentKind::Input64 => 76,
            ComponentKind::LevelInputCode => 77,
            ComponentKind::ComLevelInputArch => 78,
            ComponentKind::Output1 => 79,
            ComponentKind::ComLevelOutput1Sum => 80,
            ComponentKind::ComLevelOutput1Car => 81,
            ComponentKind::Deleted8 => 82,
            ComponentKind::Deleted9 => 83,
            ComponentKind::ComLevelOutput2Pin => 84,
            ComponentKind::ComLevelOutput3Pin => 85,
            ComponentKind::ComLevelOutput4Pin => 86,
            ComponentKind::Output8 => 87,
            ComponentKind::Output64 => 88,
            ComponentKind::ComLevelOutputArch => 89,
            ComponentKind::ComLevelOutputCounter => 90,
            ComponentKind::Deleted11 => 91,
            ComponentKind::Custom => 92,
            ComponentKind::VirtualCustom => 93,
            ComponentKind::Program => 94,
            ComponentKind::DelayLine1 => 95,
            ComponentKind::VirtualDelayLine1 => 96,
            ComponentKind::Console => 97,
            ComponentKind::Shl8 => 98,
            ComponentKind::Shr8 => 99,
            ComponentKind::Constant64 => 100,
            ComponentKind::Not64 => 101,
            ComponentKind::Or64 => 102,
            ComponentKind::And64 => 103,
            ComponentKind::Xor64 => 104,
            ComponentKind::Neg64 => 105,
            ComponentKind::Add64 => 106,
            ComponentKind::Mul64 => 107,
            ComponentKind::ComEqual64 => 108,
            ComponentKind::ComLessU64 => 109,
            ComponentKind::ComLessS64 => 110,
            ComponentKind::Shl64 => 111,
            ComponentKind::Shr64 => 112,
            ComponentKind::Mux64 => 113,
            ComponentKind::Switch64 => 114,
            ComponentKind::ComProbeMemoryBit => 115,
            ComponentKind::ComProbeMemoryWord => 116,
            ComponentKind::AndOrLatch => 117,
            ComponentKind::NandNandLatch => 118,
            ComponentKind::NorNorLatch => 119,
            ComponentKind::ComLessU8 => 120,
            ComponentKind::ComLessS8 => 121,
            ComponentKind::DotMatrixDisplay => 122,
            ComponentKind::ComSegmentDisplay => 123,
            ComponentKind::Input16 => 124,
            ComponentKind::Input32 => 125,
            ComponentKind::Output16 => 126,
            ComponentKind::Output32 => 127,
            ComponentKind::Deleted12 => 128,
            ComponentKind::Deleted13 => 129,
            ComponentKind::Deleted14 => 130,
            ComponentKind::Deleted15 => 131,
            ComponentKind::Deleted16 => 132,
            ComponentKind::Buffer8 => 133,
            ComponentKind::Buffer16 => 134,
            ComponentKind::Buffer32 => 135,
            ComponentKind::Buffer64 => 136,
            ComponentKind::ComProbeWireBit => 137,
            ComponentKind::ComProbeWireWord => 138,
            ComponentKind::Switch1 => 139,
            ComponentKind::Output1z => 140,
            ComponentKind::Output8z => 141,
            ComponentKind::Output16z => 142,
            ComponentKind::Output32z => 143,
            ComponentKind::Output64z => 144,
            ComponentKind::Constant16 => 145,
            ComponentKind::Not16 => 146,
            ComponentKind::Or16 => 147,
            ComponentKind::And16 => 148,
            ComponentKind::Xor16 => 149,
            ComponentKind::Neg16 => 150,
            ComponentKind::Add16 => 151,
            ComponentKind::Mul16 => 152,
            ComponentKind::ComEqual16 => 153,
            ComponentKind::ComLessU16 => 154,
            ComponentKind::ComLessS16 => 155,
            ComponentKind::Shl16 => 156,
            ComponentKind::Shr16 => 157,
            ComponentKind::Mux16 => 158,
            ComponentKind::Switch16 => 159,
            ComponentKind::Splitter16 => 160,
            ComponentKind::Maker16 => 161,
            ComponentKind::Register16 => 162,
            ComponentKind::VirtualRegister16 => 163,
            ComponentKind::Counter16 => 164,
            ComponentKind::VirtualCounter16 => 165,
            ComponentKind::Constant32 => 166,
            ComponentKind::Not32 => 167,
            ComponentKind::Or32 => 168,
            ComponentKind::And32 => 169,
            ComponentKind::Xor32 => 170,
            ComponentKind::Neg32 => 171,
            ComponentKind::Add32 => 172,
            ComponentKind::Mul32 => 173,
            ComponentKind::ComEqual32 => 174,
            ComponentKind::ComLessU32 => 175,
            ComponentKind::ComLessS32 => 176,
            ComponentKind::Shl32 => 177,
            ComponentKind::Shr32 => 178,
            ComponentKind::Mux32 => 179,
            ComponentKind::Switch32 => 180,
            ComponentKind::Splitter32 => 181,
            ComponentKind::Maker32 => 182,
            ComponentKind::Register32 => 183,
            ComponentKind::VirtualRegister32 => 184,
            ComponentKind::Counter32 => 185,
            ComponentKind::VirtualCounter32 => 186,
            ComponentKind::LevelOutput8z => 187,
            ComponentKind::Nand8 => 188,
            ComponentKind::Nor8 => 189,
            ComponentKind::Xnor8 => 190,
            ComponentKind::Nand16 => 191,
            ComponentKind::Nor16 => 192,
            ComponentKind::Xnor16 => 193,
            ComponentKind::Nand32 => 194,
            ComponentKind::Nor32 => 195,
            ComponentKind::Xnor32 => 196,
            ComponentKind::Nand64 => 197,
            ComponentKind::Nor64 => 198,
            ComponentKind::Xnor64 => 199,
            ComponentKind::Ram => 200,
            ComponentKind::VirtualRam => 201,
            ComponentKind::ComRamLatency => 202,
            ComponentKind::VirtualcomRamLatency => 203,
            ComponentKind::ComRamFast => 204,
            ComponentKind::VirtualcomRamFast => 205,
            ComponentKind::Rom => 206,
            ComponentKind::VirtualRom => 207,
            ComponentKind::SolutionRom => 208,
            ComponentKind::VirtualSolutionRom => 209,
            ComponentKind::DelayLine8 => 210,
            ComponentKind::VirtualDelayLine8 => 211,
            ComponentKind::DelayLine16 => 212,
            ComponentKind::VirtualDelayLine16 => 213,
            ComponentKind::DelayLine32 => 214,
            ComponentKind::VirtualDelayLine32 => 215,
            ComponentKind::DelayLine64 => 216,
            ComponentKind::VirtualDelayLine64 => 217,
            ComponentKind::ComRamDualLoad => 218,
            ComponentKind::VirtualcomRamDualLoad => 219,
            ComponentKind::Hdd => 220,
            ComponentKind::VirtualHdd => 221,
            ComponentKind::Network => 222,
            ComponentKind::Rol8 => 223,
            ComponentKind::Rol16 => 224,
            ComponentKind::Rol32 => 225,
            ComponentKind::Rol64 => 226,
            ComponentKind::Ror8 => 227,
            ComponentKind::Ror16 => 228,
            ComponentKind::Ror32 => 229,
            ComponentKind::Ror64 => 230,
            ComponentKind::IndexerBit => 231,
            ComponentKind::IndexerByte => 232,
            ComponentKind::DivMod8 => 233,
            ComponentKind::DivMod16 => 234,
            ComponentKind::DivMod32 => 235,
            ComponentKind::DivMod64 => 236,
            ComponentKind::SpriteDisplay => 237,
            ComponentKind::ComConfigDelay => 238,
            ComponentKind::Clock => 239,
            ComponentKind::ComLevelInput1 => 240,
            ComponentKind::LevelInput8 => 241,
            ComponentKind::ComLevelOutput1 => 242,
            ComponentKind::LevelOutput8 => 243,
            ComponentKind::Ashr8 => 244,
            ComponentKind::Ashr16 => 245,
            ComponentKind::Ashr32 => 246,
            ComponentKind::Ashr64 => 247,
            ComponentKind::Bidirectional1 => 248,
            ComponentKind::VirtualBidirectional1 => 249,
            ComponentKind::Bidirectional8 => 250,
            ComponentKind::VirtualBidirectional8 => 251,
            ComponentKind::Bidirectional16 => 252,
            ComponentKind::VirtualBidirectional16 => 253,
            ComponentKind::Bidirectional32 => 254,
            ComponentKind::VirtualBidirectional32 => 255,
            ComponentKind::Bidirectional64 => 256,
            ComponentKind::VirtualBidirectional64 => 257,
        }
    }
}

impl<'a> Parse<'a> for ComponentKind {
    /// The code as a `u16`. A code that is not known is an error, never
    /// some default.
    open spec fn parse_spec(input: Seq<u8>) -> Result<(ComponentKind, nat), DecodeError> {
        match u16::parse_spec(input) {
            Ok((code, n)) => match ComponentKind::of_code(code) {
                Some(v) => Ok((v, n)),
                None => Err(DecodeError::UnknownDiscriminant),
            },
            Err(e) => Err(e),
        }
    }

    proof fn lemma_parse_local(a: Seq<u8>, b: Seq<u8>) {
        u16::lemma_parse_local(a, b);
    }

    proof fn lemma_parse_truncated(a: Seq<u8>, k: nat) {
        u16::lemma_parse_truncated(a, k);
    }

    fn parse(input: &mut &'a [u8]) -> (r: Result<Self, DecodeError>) {
        let mut cur: &'a [u8] = *input;
        let code = u16::parse(&mut cur)?;
        match ComponentKind::from_code(code) {
            Some(v) => {
                *input = cur;
                Ok(v)
            },
            None => Err(DecodeError::UnknownDiscriminant),
        }
    }
}

impl Encode for ComponentKind {
    open spec fn encode_spec(v: ComponentKind) -> Seq<u8> {
        u16::encode_spec(v.code())
    }

    open spec fn can_encode(v: ComponentKind) -> bool {
        true
    }

    fn encode(&self, out: &mut Vec<u8>) {
        self.to_code().encode(out);
    }
}

impl<'a> Codec<'a> for ComponentKind {
    open spec fn round_trips(v: ComponentKind) -> bool {
        true
    }

    open spec fn delimited(v: ComponentKind) -> bool {
        true
    }

    proof fn lemma_decoded(input: Seq<u8>) {
    }

    proof fn lemma_round_trip(v: ComponentKind, rest: Seq<u8>) {
        v.lemma_codes(0);
        u16::lemma_round_trip(v.code(), rest);
    }
}

} // verus!

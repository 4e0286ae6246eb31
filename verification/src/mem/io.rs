//! Items related to memory mapped IO.
use super::{spec_segment, Address, PhysicalAddress, Segment};
use crate::cdrom;
use crate::dma;
use vstd::prelude::*;

verus! {

/// A memory mapped register.
#[derive(Debug, Clone, Copy, PartialEq, Eq, Structural)]
pub enum Reg {

    // Memory Control 1
    Expansion1Base,
    Expansion2Base,
    Expansion1Delay,
    Expansion3Delay,
    BiosDelay,
    SpuDelay,
    CdromDelay,
    Expansion2Delay,
    CommonDelay,

    // Peripheral IO
    JoyData,
    JoyStat,
    JoyMode,
    JoyControl,
    JoyBaud,

    // Memory Control 2
    RamSize,

    // Interrupt
    InterruptStatus,
    InterruptMask,

    // DMA
    Dma0Base,
    Dma0BlockControl,
    Dma0Control,

    Dma1Base,
    Dma1BlockControl,
    Dma1Control,

    Dma2Base,
    Dma2BlockControl,
    Dma2Control,

    Dma3Base,
    Dma3BlockControl,
    Dma3Control,

    Dma4Base,
    Dma4BlockControl,
    Dma4Control,

    Dma5Base,
    Dma5BlockControl,
    Dma5Control,

    Dma6Base,
    Dma6BlockControl,
    Dma6Control,

    DmaControl,
    DmaInterrupt,

    // Timers
    Timer0Value,
    Timer0Mode,
    Timer0Target,
    Timer1Value,
    Timer1Mode,
    Timer1Target,
    Timer2Value,
    Timer2Mode,
    Timer2Target,

    // CDROM
    Cdrom0,
    Cdrom1,
    Cdrom2,
    Cdrom3,

    // GPU
    Gp0,
    Gp1,

    // MDEC
    MdecCommand,
    MdecStatus,

    // SPU Voice {{{
    Voice0Volume,
    Voice0SampleRate,
    Voice0Start,
    Voice0ADSR,
    Voice0ADSRVolume,
    Voice0Repeat,

    Voice1Volume,
    Voice1SampleRate,
    Voice1Start,
    Voice1ADSR,
    Voice1ADSRVolume,
    Voice1Repeat,

    Voice2Volume,
    Voice2SampleRate,
    Voice2Start,
    Voice2ADSR,
    Voice2ADSRVolume,
    Voice2Repeat,

    Voice3Volume,
    Voice3SampleRate,
    Voice3Start,
    Voice3ADSR,
    Voice3ADSRVolume,
    Voice3Repeat,

    Voice4Volume,
    Voice4SampleRate,
    Voice4Start,
    Voice4ADSR,
    Voice4ADSRVolume,
    Voice4Repeat,

    Voice5Volume,
    Voice5SampleRate,
    Voice5Start,
    Voice5ADSR,
    Voice5ADSRVolume,
    Voice5Repeat,

    Voice6Volume,
    Voice6SampleRate,
    Voice6Start,
    Voice6ADSR,
    Voice6ADSRVolume,
    Voice6Repeat,

    Voice7Volume,
    Voice7SampleRate,
    Voice7Start,
    Voice7ADSR,
    Voice7ADSRVolume,
    Voice7Repeat,

    Voice8Volume,
    Voice8SampleRate,
    Voice8Start,
    Voice8ADSR,
    Voice8ADSRVolume,
    Voice8Repeat,

    Voice9Volume,
    Voice9SampleRate,
    Voice9Start,
    Voice9ADSR,
    Voice9ADSRVolume,
    Voice9Repeat,

    Voice10Volume,
    Voice10SampleRate,
    Voice10Start,
    Voice10ADSR,
    Voice10ADSRVolume,
    Voice10Repeat,

    Voice11Volume,
    Voice11SampleRate,
    Voice11Start,
    Voice11ADSR,
    Voice11ADSRVolume,
    Voice11Repeat,

    Voice12Volume,
    Voice12SampleRate,
    Voice12Start,
    Voice12ADSR,
    Voice12ADSRVolume,
    Voice12Repeat,

    Voice13Volume,
    Voice13SampleRate,
    Voice13Start,
    Voice13ADSR,
    Voice13ADSRVolume,
    Voice13Repeat,

    Voice14Volume,
    Voice14SampleRate,
    Voice14Start,
    Voice14ADSR,
    Voice14ADSRVolume,
    Voice14Repeat,

    Voice15Volume,
    Voice15SampleRate,
    Voice15Start,
    Voice15ADSR,
    Voice15ADSRVolume,
    Voice15Repeat,

    Voice16Volume,
    Voice16SampleRate,
    Voice16Start,
    Voice16ADSR,
    Voice16ADSRVolume,
    Voice16Repeat,

    Voice17Volume,
    Voice17SampleRate,
    Voice17Start,
    Voice17ADSR,
    Voice17ADSRVolume,
    Voice17Repeat,

    Voice18Volume,
    Voice18SampleRate,
    Voice18Start,
    Voice18ADSR,
    Voice18ADSRVolume,
    Voice18Repeat,

    Voice19Volume,
    Voice19SampleRate,
    Voice19Start,
    Voice19ADSR,
    Voice19ADSRVolume,
    Voice19Repeat,

    Voice20Volume,
    Voice20SampleRate,
    Voice20Start,
    Voice20ADSR,
    Voice20ADSRVolume,
    Voice20Repeat,

    Voice21Volume,
    Voice21SampleRate,
    Voice21Start,
    Voice21ADSR,
    Voice21ADSRVolume,
    Voice21Repeat,

    Voice22Volume,
    Voice22SampleRate,
    Voice22Start,
    Voice22ADSR,
    Voice22ADSRVolume,
    Voice22Repeat,

    Voice23Volume,
    Voice23SampleRate,
    Voice23Start,
    Voice23ADSR,
    Voice23ADSRVolume,
    Voice23Repeat,
    // }}}

    // SPU
    MainVolume,
    ReverbVolume,

    VoiceKeyOn,
    VoiceKeyOff,
    VoiceChannelFmMode,
    VoiceChannelNoiseMode,
    VoiceChannelReverbMode,
    VoiceChannelEnabled,

    SramReverbAddress,
    SramInterruptAddress,
    SramAddress,
    SramFifo,
    SpuControl,
    SramControl,
    SpuStatus,

    CdVolume,
    ExternVolume,

    // Expansion Region 2
    Post,

}

/// The number of memory mapped registers.
pub const REG_COUNT: usize = 219;

impl Reg {
    /// The physical address of this register.
    pub open spec fn spec_address(self) -> u32 {
        match self {
            Reg::Expansion1Base => 0x1F80_1000,
            Reg::Expansion2Base => 0x1F80_1004,
            Reg::Expansion1Delay => 0x1F80_1008,
            Reg::Expansion3Delay => 0x1F80_100C,
            Reg::BiosDelay => 0x1F80_1010,
            Reg::SpuDelay => 0x1F80_1014,
            Reg::CdromDelay => 0x1F80_1018,
            Reg::Expansion2Delay => 0x1F80_101C,
            Reg::CommonDelay => 0x1F80_1020,
            Reg::JoyData => 0x1F80_1040,
            Reg::JoyStat => 0x1F80_1044,
            Reg::JoyMode => 0x1F80_1048,
            Reg::JoyControl => 0x1F80_104A,
            Reg::JoyBaud => 0x1F80_104E,
            Reg::RamSize => 0x1F80_1060,
            Reg::InterruptStatus => 0x1F80_1070,
            Reg::InterruptMask => 0x1F80_1074,
            Reg::Dma0Base => 0x1F80_1080,
            Reg::Dma0BlockControl => 0x1F80_1084,
            Reg::Dma0Control => 0x1F80_1088,
            Reg::Dma1Base => 0x1F80_1090,
            Reg::Dma1BlockControl => 0x1F80_1094,
            Reg::Dma1Control => 0x1F80_1098,
            Reg::Dma2Base => 0x1F80_10A0,
            Reg::Dma2BlockControl => 0x1F80_10A4,
            Reg::Dma2Control => 0x1F80_10A8,
            Reg::Dma3Base => 0x1F80_10B0,
            Reg::Dma3BlockControl => 0x1F80_10B4,
            Reg::Dma3Control => 0x1F80_10B8,
            Reg::Dma4Base => 0x1F80_10C0,
            Reg::Dma4BlockControl => 0x1F80_10C4,
            Reg::Dma4Control => 0x1F80_10C8,
            Reg::Dma5Base => 0x1F80_10D0,
            Reg::Dma5BlockControl => 0x1F80_10D4,
            Reg::Dma5Control => 0x1F80_10D8,
            Reg::Dma6Base => 0x1F80_10E0,
            Reg::Dma6BlockControl => 0x1F80_10E4,
            Reg::Dma6Control => 0x1F80_10E8,
            Reg::DmaControl => 0x1F80_10F0,
            Reg::DmaInterrupt => 0x1F80_10F4,
            Reg::Timer0Value => 0x1F80_1100,
            Reg::Timer0Mode => 0x1F80_1104,
            Reg::Timer0Target => 0x1F80_1108,
            Reg::Timer1Value => 0x1F80_1110,
            Reg::Timer1Mode => 0x1F80_1114,
            Reg::Timer1Target => 0x1F80_1118,
            Reg::Timer2Value => 0x1F80_1120,
            Reg::Timer2Mode => 0x1F80_1124,
            Reg::Timer2Target => 0x1F80_1128,
            Reg::Cdrom0 => 0x1F80_1800,
            Reg::Cdrom1 => 0x1F80_1801,
            Reg::Cdrom2 => 0x1F80_1802,
            Reg::Cdrom3 => 0x1F80_1803,
            Reg::Gp0 => 0x1F80_1810,
            Reg::Gp1 => 0x1F80_1814,
            Reg::MdecCommand => 0x1F80_1820,
            Reg::MdecStatus => 0x1F80_1824,
            Reg::Voice0Volume => 0x1F80_1C00,
            Reg::Voice0SampleRate => 0x1F80_1C04,
            Reg::Voice0Start => 0x1F80_1C06,
            Reg::Voice0ADSR => 0x1F80_1C08,
            Reg::Voice0ADSRVolume => 0x1F80_1C0C,
            Reg::Voice0Repeat => 0x1F80_1C0E,
            Reg::Voice1Volume => 0x1F80_1C10,
            Reg::Voice1SampleRate => 0x1F80_1C14,
            Reg::Voice1Start => 0x1F80_1C16,
            Reg::Voice1ADSR => 0x1F80_1C18,
            Reg::Voice1ADSRVolume => 0x1F80_1C1C,
            Reg::Voice1Repeat => 0x1F80_1C1E,
            Reg::Voice2Volume => 0x1F80_1C20,
            Reg::Voice2SampleRate => 0x1F80_1C24,
            Reg::Voice2Start => 0x1F80_1C26,
            Reg::Voice2ADSR => 0x1F80_1C28,
            Reg::Voice2ADSRVolume => 0x1F80_1C2C,
            Reg::Voice2Repeat => 0x1F80_1C2E,
            Reg::Voice3Volume => 0x1F80_1C30,
            Reg::Voice3SampleRate => 0x1F80_1C34,
            Reg::Voice3Start => 0x1F80_1C36,
            Reg::Voice3ADSR => 0x1F80_1C38,
            Reg::Voice3ADSRVolume => 0x1F80_1C3C,
            Reg::Voice3Repeat => 0x1F80_1C3E,
            Reg::Voice4Volume => 0x1F80_1C40,
            Reg::Voice4SampleRate => 0x1F80_1C44,
            Reg::Voice4Start => 0x1F80_1C46,
            Reg::Voice4ADSR => 0x1F80_1C48,
            Reg::Voice4ADSRVolume => 0x1F80_1C4C,
            Reg::Voice4Repeat => 0x1F80_1C4E,
            Reg::Voice5Volume => 0x1F80_1C50,
            Reg::Voice5SampleRate => 0x1F80_1C54,
            Reg::Voice5Start => 0x1F80_1C56,
            Reg::Voice5ADSR => 0x1F80_1C58,
            Reg::Voice5ADSRVolume => 0x1F80_1C5C,
            Reg::Voice5Repeat => 0x1F80_1C5E,
            Reg::Voice6Volume => 0x1F80_1C60,
            Reg::Voice6SampleRate => 0x1F80_1C64,
            Reg::Voice6Start => 0x1F80_1C66,
            Reg::Voice6ADSR => 0x1F80_1C68,
            Reg::Voice6ADSRVolume => 0x1F80_1C6C,
            Reg::Voice6Repeat => 0x1F80_1C6E,
            Reg::Voice7Volume => 0x1F80_1C70,
            Reg::Voice7SampleRate => 0x1F80_1C74,
            Reg::Voice7Start => 0x1F80_1C76,
            Reg::Voice7ADSR => 0x1F80_1C78,
            Reg::Voice7ADSRVolume => 0x1F80_1C7C,
            Reg::Voice7Repeat => 0x1F80_1C7E,
            Reg::Voice8Volume => 0x1F80_1C80,
            Reg::Voice8SampleRate => 0x1F80_1C84,
            Reg::Voice8Start => 0x1F80_1C86,
            Reg::Voice8ADSR => 0x1F80_1C88,
            Reg::Voice8ADSRVolume => 0x1F80_1C8C,
            Reg::Voice8Repeat => 0x1F80_1C8E,
            Reg::Voice9Volume => 0x1F80_1C90,
            Reg::Voice9SampleRate => 0x1F80_1C94,
            Reg::Voice9Start => 0x1F80_1C96,
            Reg::Voice9ADSR => 0x1F80_1C98,
            Reg::Voice9ADSRVolume => 0x1F80_1C9C,
            Reg::Voice9Repeat => 0x1F80_1C9E,
            Reg::Voice10Volume => 0x1F80_1CA0,
            Reg::Voice10SampleRate => 0x1F80_1CA4,
            Reg::Voice10Start => 0x1F80_1CA6,
            Reg::Voice10ADSR => 0x1F80_1CA8,
            Reg::Voice10ADSRVolume => 0x1F80_1CAC,
            Reg::Voice10Repeat => 0x1F80_1CAE,
            Reg::Voice11Volume => 0x1F80_1CB0,
            Reg::Voice11SampleRate => 0x1F80_1CB4,
            Reg::Voice11Start => 0x1F80_1CB6,
            Reg::Voice11ADSR => 0x1F80_1CB8,
            Reg::Voice11ADSRVolume => 0x1F80_1CBC,
            Reg::Voice11Repeat => 0x1F80_1CBE,
            Reg::Voice12Volume => 0x1F80_1CC0,
            Reg::Voice12SampleRate => 0x1F80_1CC4,
            Reg::Voice12Start => 0x1F80_1CC6,
            Reg::Voice12ADSR => 0x1F80_1CC8,
            Reg::Voice12ADSRVolume => 0x1F80_1CCC,
            Reg::Voice12Repeat => 0x1F80_1CCE,
            Reg::Voice13Volume => 0x1F80_1CD0,
            Reg::Voice13SampleRate => 0x1F80_1CD4,
            Reg::Voice13Start => 0x1F80_1CD6,
            Reg::Voice13ADSR => 0x1F80_1CD8,
            Reg::Voice13ADSRVolume => 0x1F80_1CDC,
            Reg::Voice13Repeat => 0x1F80_1CDE,
            Reg::Voice14Volume => 0x1F80_1CE0,
            Reg::Voice14SampleRate => 0x1F80_1CE4,
            Reg::Voice14Start => 0x1F80_1CE6,
            Reg::Voice14ADSR => 0x1F80_1CE8,
            Reg::Voice14ADSRVolume => 0x1F80_1CEC,
            Reg::Voice14Repeat => 0x1F80_1CEE,
            Reg::Voice15Volume => 0x1F80_1CF0,
            Reg::Voice15SampleRate => 0x1F80_1CF4,
            Reg::Voice15Start => 0x1F80_1CF6,
            Reg::Voice15ADSR => 0x1F80_1CF8,
            Reg::Voice15ADSRVolume => 0x1F80_1CFC,
            Reg::Voice15Repeat => 0x1F80_1CFE,
            Reg::Voice16Volume => 0x1F80_1D00,
            Reg::Voice16SampleRate => 0x1F80_1D04,
            Reg::Voice16Start => 0x1F80_1D06,
            Reg::Voice16ADSR => 0x1F80_1D08,
            Reg::Voice16ADSRVolume => 0x1F80_1D0C,
            Reg::Voice16Repeat => 0x1F80_1D0E,
            Reg::Voice17Volume => 0x1F80_1D10,
            Reg::Voice17SampleRate => 0x1F80_1D14,
            Reg::Voice17Start => 0x1F80_1D16,
            Reg::Voice17ADSR => 0x1F80_1D18,
            Reg::Voice17ADSRVolume => 0x1F80_1D1C,
            Reg::Voice17Repeat => 0x1F80_1D1E,
            Reg::Voice18Volume => 0x1F80_1D20,
            Reg::Voice18SampleRate => 0x1F80_1D24,
            Reg::Voice18Start => 0x1F80_1D26,
            Reg::Voice18ADSR => 0x1F80_1D28,
            Reg::Voice18ADSRVolume => 0x1F80_1D2C,
            Reg::Voice18Repeat => 0x1F80_1D2E,
            Reg::Voice19Volume => 0x1F80_1D30,
            Reg::Voice19SampleRate => 0x1F80_1D34,
            Reg::Voice19Start => 0x1F80_1D36,
            Reg::Voice19ADSR => 0x1F80_1D38,
            Reg::Voice19ADSRVolume => 0x1F80_1D3C,
            Reg::Voice19Repeat => 0x1F80_1D3E,
            Reg::Voice20Volume => 0x1F80_1D40,
            Reg::Voice20SampleRate => 0x1F80_1D44,
            Reg::Voice20Start => 0x1F80_1D46,
            Reg::Voice20ADSR => 0x1F80_1D48,
            Reg::Voice20ADSRVolume => 0x1F80_1D4C,
            Reg::Voice20Repeat => 0x1F80_1D4E,
            Reg::Voice21Volume => 0x1F80_1D50,
            Reg::Voice21SampleRate => 0x1F80_1D54,
            Reg::Voice21Start => 0x1F80_1D56,
            Reg::Voice21ADSR => 0x1F80_1D58,
            Reg::Voice21ADSRVolume => 0x1F80_1D5C,
            Reg::Voice21Repeat => 0x1F80_1D5E,
            Reg::Voice22Volume => 0x1F80_1D60,
            Reg::Voice22SampleRate => 0x1F80_1D64,
            Reg::Voice22Start => 0x1F80_1D66,
            Reg::Voice22ADSR => 0x1F80_1D68,
            Reg::Voice22ADSRVolume => 0x1F80_1D6C,
            Reg::Voice22Repeat => 0x1F80_1D6E,
            Reg::Voice23Volume => 0x1F80_1D70,
            Reg::Voice23SampleRate => 0x1F80_1D74,
            Reg::Voice23Start => 0x1F80_1D76,
            Reg::Voice23ADSR => 0x1F80_1D78,
            Reg::Voice23ADSRVolume => 0x1F80_1D7C,
            Reg::Voice23Repeat => 0x1F80_1D7E,
            Reg::MainVolume => 0x1F80_1D80,
            Reg::ReverbVolume => 0x1F80_1D84,
            Reg::VoiceKeyOn => 0x1F80_1D88,
            Reg::VoiceKeyOff => 0x1F80_1D8C,
            Reg::VoiceChannelFmMode => 0x1F80_1D90,
            Reg::VoiceChannelNoiseMode => 0x1F80_1D94,
            Reg::VoiceChannelReverbMode => 0x1F80_1D98,
            Reg::VoiceChannelEnabled => 0x1F80_1D9C,
            Reg::SramReverbAddress => 0x1F80_1DA2,
            Reg::SramInterruptAddress => 0x1F80_1DA4,
            Reg::SramAddress => 0x1F80_1DA6,
            Reg::SramFifo => 0x1F80_1DA8,
            Reg::SpuControl => 0x1F80_1DAA,
            Reg::SramControl => 0x1F80_1DAC,
            Reg::SpuStatus => 0x1F80_1DAE,
            Reg::CdVolume => 0x1F80_1DB0,
            Reg::ExternVolume => 0x1F80_1DB4,
            Reg::Post => 0x1F80_2041,
        }
    }

    /// The width of this register, in bytes.
    pub open spec fn spec_width(self) -> usize {
        match self {
            Reg::Expansion1Base => 4,
            Reg::Expansion2Base => 4,
            Reg::Expansion1Delay => 4,
            Reg::Expansion3Delay => 4,
            Reg::BiosDelay => 4,
            Reg::SpuDelay => 4,
            Reg::CdromDelay => 4,
            Reg::Expansion2Delay => 4,
            Reg::CommonDelay => 4,
            Reg::JoyData => 4,
            Reg::JoyStat => 4,
            Reg::JoyMode => 2,
            Reg::JoyControl => 2,
            Reg::JoyBaud => 2,
            Reg::RamSize => 4,
            Reg::InterruptStatus => 4,
            Reg::InterruptMask => 4,
            Reg::Dma0Base => 4,
            Reg::Dma0BlockControl => 4,
            Reg::Dma0Control => 4,
            Reg::Dma1Base => 4,
            Reg::Dma1BlockControl => 4,
            Reg::Dma1Control => 4,
            Reg::Dma2Base => 4,
            Reg::Dma2BlockControl => 4,
            Reg::Dma2Control => 4,
            Reg::Dma3Base => 4,
            Reg::Dma3BlockControl => 4,
            Reg::Dma3Control => 4,
            Reg::Dma4Base => 4,
            Reg::Dma4BlockControl => 4,
            Reg::Dma4Control => 4,
            Reg::Dma5Base => 4,
            Reg::Dma5BlockControl => 4,
            Reg::Dma5Control => 4,
            Reg::Dma6Base => 4,
            Reg::Dma6BlockControl => 4,
            Reg::Dma6Control => 4,
            Reg::DmaControl => 4,
            Reg::DmaInterrupt => 4,
            Reg::Timer0Value => 4,
            Reg::Timer0Mode => 4,
            Reg::Timer0Target => 4,
            Reg::Timer1Value => 4,
            Reg::Timer1Mode => 4,
            Reg::Timer1Target => 4,
            Reg::Timer2Value => 4,
            Reg::Timer2Mode => 4,
            Reg::Timer2Target => 4,
            Reg::Cdrom0 => 1,
            Reg::Cdrom1 => 1,
            Reg::Cdrom2 => 1,
            Reg::Cdrom3 => 1,
            Reg::Gp0 => 4,
            Reg::Gp1 => 4,
            Reg::MdecCommand => 4,
            Reg::MdecStatus => 4,
            Reg::Voice0Volume => 4,
            Reg::Voice0SampleRate => 2,
            Reg::Voice0Start => 2,
            Reg::Voice0ADSR => 4,
            Reg::Voice0ADSRVolume => 2,
            Reg::Voice0Repeat => 2,
            Reg::Voice1Volume => 4,
            Reg::Voice1SampleRate => 2,
            Reg::Voice1Start => 2,
            Reg::Voice1ADSR => 4,
            Reg::Voice1ADSRVolume => 2,
            Reg::Voice1Repeat => 2,
            Reg::Voice2Volume => 4,
            Reg::Voice2SampleRate => 2,
            Reg::Voice2Start => 2,
            Reg::Voice2ADSR => 4,
            Reg::Voice2ADSRVolume => 2,
            Reg::Voice2Repeat => 2,
            Reg::Voice3Volume => 4,
            Reg::Voice3SampleRate => 2,
            Reg::Voice3Start => 2,
            Reg::Voice3ADSR => 4,
            Reg::Voice3ADSRVolume => 2,
            Reg::Voice3Repeat => 2,
            Reg::Voice4Volume => 4,
            Reg::Voice4SampleRate => 2,
            Reg::Voice4Start => 2,
            Reg::Voice4ADSR => 4,
            Reg::Voice4ADSRVolume => 2,
            Reg::Voice4Repeat => 2,
            Reg::Voice5Volume => 4,
            Reg::Voice5SampleRate => 2,
            Reg::Voice5Start => 2,
            Reg::Voice5ADSR => 4,
            Reg::Voice5ADSRVolume => 2,
            Reg::Voice5Repeat => 2,
            Reg::Voice6Volume => 4,
            Reg::Voice6SampleRate => 2,
            Reg::Voice6Start => 2,
            Reg::Voice6ADSR => 4,
            Reg::Voice6ADSRVolume => 2,
            Reg::Voice6Repeat => 2,
            Reg::Voice7Volume => 4,
            Reg::Voice7SampleRate => 2,
            Reg::Voice7Start => 2,
            Reg::Voice7ADSR => 4,
            Reg::Voice7ADSRVolume => 2,
            Reg::Voice7Repeat => 2,
            Reg::Voice8Volume => 4,
            Reg::Voice8SampleRate => 2,
            Reg::Voice8Start => 2,
            Reg::Voice8ADSR => 4,
            Reg::Voice8ADSRVolume => 2,
            Reg::Voice8Repeat => 2,
            Reg::Voice9Volume => 4,
            Reg::Voice9SampleRate => 2,
            Reg::Voice9Start => 2,
            Reg::Voice9ADSR => 4,
            Reg::Voice9ADSRVolume => 2,
            Reg::Voice9Repeat => 2,
            Reg::Voice10Volume => 4,
            Reg::Voice10SampleRate => 2,
            Reg::Voice10Start => 2,
            Reg::Voice10ADSR => 4,
            Reg::Voice10ADSRVolume => 2,
            Reg::Voice10Repeat => 2,
            Reg::Voice11Volume => 4,
            Reg::Voice11SampleRate => 2,
            Reg::Voice11Start => 2,
            Reg::Voice11ADSR => 4,
            Reg::Voice11ADSRVolume => 2,
            Reg::Voice11Repeat => 2,
            Reg::Voice12Volume => 4,
            Reg::Voice12SampleRate => 2,
            Reg::Voice12Start => 2,
            Reg::Voice12ADSR => 4,
            Reg::Voice12ADSRVolume => 2,
            Reg::Voice12Repeat => 2,
            Reg::Voice13Volume => 4,
            Reg::Voice13SampleRate => 2,
            Reg::Voice13Start => 2,
            Reg::Voice13ADSR => 4,
            Reg::Voice13ADSRVolume => 2,
            Reg::Voice13Repeat => 2,
            Reg::Voice14Volume => 4,
            Reg::Voice14SampleRate => 2,
            Reg::Voice14Start => 2,
            Reg::Voice14ADSR => 4,
            Reg::Voice14ADSRVolume => 2,
            Reg::Voice14Repeat => 2,
            Reg::Voice15Volume => 4,
            Reg::Voice15SampleRate => 2,
            Reg::Voice15Start => 2,
            Reg::Voice15ADSR => 4,
            Reg::Voice15ADSRVolume => 2,
            Reg::Voice15Repeat => 2,
            Reg::Voice16Volume => 4,
            Reg::Voice16SampleRate => 2,
            Reg::Voice16Start => 2,
            Reg::Voice16ADSR => 4,
            Reg::Voice16ADSRVolume => 2,
            Reg::Voice16Repeat => 2,
            Reg::Voice17Volume => 4,
            Reg::Voice17SampleRate => 2,
            Reg::Voice17Start => 2,
            Reg::Voice17ADSR => 4,
            Reg::Voice17ADSRVolume => 2,
            Reg::Voice17Repeat => 2,
            Reg::Voice18Volume => 4,
            Reg::Voice18SampleRate => 2,
            Reg::Voice18Start => 2,
            Reg::Voice18ADSR => 4,
            Reg::Voice18ADSRVolume => 2,
            Reg::Voice18Repeat => 2,
            Reg::Voice19Volume => 4,
            Reg::Voice19SampleRate => 2,
            Reg::Voice19Start => 2,
            Reg::Voice19ADSR => 4,
            Reg::Voice19ADSRVolume => 2,
            Reg::Voice19Repeat => 2,
            Reg::Voice20Volume => 4,
            Reg::Voice20SampleRate => 2,
            Reg::Voice20Start => 2,
            Reg::Voice20ADSR => 4,
            Reg::Voice20ADSRVolume => 2,
            Reg::Voice20Repeat => 2,
            Reg::Voice21Volume => 4,
            Reg::Voice21SampleRate => 2,
            Reg::Voice21Start => 2,
            Reg::Voice21ADSR => 4,
            Reg::Voice21ADSRVolume => 2,
            Reg::Voice21Repeat => 2,
            Reg::Voice22Volume => 4,
            Reg::Voice22SampleRate => 2,
            Reg::Voice22Start => 2,
            Reg::Voice22ADSR => 4,
            Reg::Voice22ADSRVolume => 2,
            Reg::Voice22Repeat => 2,
            Reg::Voice23Volume => 4,
            Reg::Voice23SampleRate => 2,
            Reg::Voice23Start => 2,
            Reg::Voice23ADSR => 4,
            Reg::Voice23ADSRVolume => 2,
            Reg::Voice23Repeat => 2,
            Reg::MainVolume => 4,
            Reg::ReverbVolume => 4,
            Reg::VoiceKeyOn => 4,
            Reg::VoiceKeyOff => 4,
            Reg::VoiceChannelFmMode => 4,
            Reg::VoiceChannelNoiseMode => 4,
            Reg::VoiceChannelReverbMode => 4,
            Reg::VoiceChannelEnabled => 4,
            Reg::SramReverbAddress => 2,
            Reg::SramInterruptAddress => 2,
            Reg::SramAddress => 2,
            Reg::SramFifo => 2,
            Reg::SpuControl => 2,
            Reg::SramControl => 2,
            Reg::SpuStatus => 2,
            Reg::CdVolume => 4,
            Reg::ExternVolume => 4,
            Reg::Post => 1,
        }
    }

    /// The register at position `i` in declaration order.
    pub open spec fn spec_variant(i: int) -> Reg {
        if i == 0 { Reg::Expansion1Base } else if i == 1 { Reg::Expansion2Base } else if i == 2 { Reg::Expansion1Delay } else if i == 3 { Reg::Expansion3Delay } else if i == 4 { Reg::BiosDelay } else if i == 5 { Reg::SpuDelay } else if i == 6 { Reg::CdromDelay } else if i == 7 { Reg::Expansion2Delay } else if i == 8 { Reg::CommonDelay } else if i == 9 { Reg::JoyData } else if i == 10 { Reg::JoyStat } else if i == 11 { Reg::JoyMode } else if i == 12 { Reg::JoyControl } else if i == 13 { Reg::JoyBaud } else if i == 14 { Reg::RamSize } else if i == 15 { Reg::InterruptStatus } else if i == 16 { Reg::InterruptMask } else if i == 17 { Reg::Dma0Base } else if i == 18 { Reg::Dma0BlockControl } else if i == 19 { Reg::Dma0Control } else if i == 20 { Reg::Dma1Base } else if i == 21 { Reg::Dma1BlockControl } else if i == 22 { Reg::Dma1Control } else if i == 23 { Reg::Dma2Base } else if i == 24 { Reg::Dma2BlockControl } else if i == 25 { Reg::Dma2Control } else if i == 26 { Reg::Dma3Base } else if i == 27 { Reg::Dma3BlockControl } else if i == 28 { Reg::Dma3Control } else if i == 29 { Reg::Dma4Base } else if i == 30 { Reg::Dma4BlockControl } else if i == 31 { Reg::Dma4Control } else if i == 32 { Reg::Dma5Base } else if i == 33 { Reg::Dma5BlockControl } else if i == 34 { Reg::Dma5Control } else if i == 35 { Reg::Dma6Base } else if i == 36 { Reg::Dma6BlockControl } else if i == 37 { Reg::Dma6Control } else if i == 38 { Reg::DmaControl } else if i == 39 { Reg::DmaInterrupt } else if i == 40 { Reg::Timer0Value } else if i == 41 { Reg::Timer0Mode } else if i == 42 { Reg::Timer0Target } else if i == 43 { Reg::Timer1Value } else if i == 44 { Reg::Timer1Mode } else if i == 45 { Reg::Timer1Target } else if i == 46 { Reg::Timer2Value } else if i == 47 { Reg::Timer2Mode } else if i == 48 { Reg::Timer2Target } else if i == 49 { Reg::Cdrom0 } else if i == 50 { Reg::Cdrom1 } else if i == 51 { Reg::Cdrom2 } else if i == 52 { Reg::Cdrom3 } else if i == 53 { Reg::Gp0 } else if i == 54 { Reg::Gp1 } else if i == 55 { Reg::MdecCommand } else if i == 56 { Reg::MdecStatus } else if i == 57 { Reg::Voice0Volume } else if i == 58 { Reg::Voice0SampleRate } else if i == 59 { Reg::Voice0Start } else if i == 60 { Reg::Voice0ADSR } else if i == 61 { Reg::Voice0ADSRVolume } else if i == 62 { Reg::Voice0Repeat } else if i == 63 { Reg::Voice1Volume } else if i == 64 { Reg::Voice1SampleRate } else if i == 65 { Reg::Voice1Start } else if i == 66 { Reg::Voice1ADSR } else if i == 67 { Reg::Voice1ADSRVolume } else if i == 68 { Reg::Voice1Repeat } else if i == 69 { Reg::Voice2Volume } else if i == 70 { Reg::Voice2SampleRate } else if i == 71 { Reg::Voice2Start } else if i == 72 { Reg::Voice2ADSR } else if i == 73 { Reg::Voice2ADSRVolume } else if i == 74 { Reg::Voice2Repeat } else if i == 75 { Reg::Voice3Volume } else if i == 76 { Reg::Voice3SampleRate } else if i == 77 { Reg::Voice3Start } else if i == 78 { Reg::Voice3ADSR } else if i == 79 { Reg::Voice3ADSRVolume } else if i == 80 { Reg::Voice3Repeat } else if i == 81 { Reg::Voice4Volume } else if i == 82 { Reg::Voice4SampleRate } else if i == 83 { Reg::Voice4Start } else if i == 84 { Reg::Voice4ADSR } else if i == 85 { Reg::Voice4ADSRVolume } else if i == 86 { Reg::Voice4Repeat } else if i == 87 { Reg::Voice5Volume } else if i == 88 { Reg::Voice5SampleRate } else if i == 89 { Reg::Voice5Start } else if i == 90 { Reg::Voice5ADSR } else if i == 91 { Reg::Voice5ADSRVolume } else if i == 92 { Reg::Voice5Repeat } else if i == 93 { Reg::Voice6Volume } else if i == 94 { Reg::Voice6SampleRate } else if i == 95 { Reg::Voice6Start } else if i == 96 { Reg::Voice6ADSR } else if i == 97 { Reg::Voice6ADSRVolume } else if i == 98 { Reg::Voice6Repeat } else if i == 99 { Reg::Voice7Volume } else if i == 100 { Reg::Voice7SampleRate } else if i == 101 { Reg::Voice7Start } else if i == 102 { Reg::Voice7ADSR } else if i == 103 { Reg::Voice7ADSRVolume } else if i == 104 { Reg::Voice7Repeat } else if i == 105 { Reg::Voice8Volume } else if i == 106 { Reg::Voice8SampleRate } else if i == 107 { Reg::Voice8Start } else if i == 108 { Reg::Voice8ADSR } else if i == 109 { Reg::Voice8ADSRVolume } else if i == 110 { Reg::Voice8Repeat } else if i == 111 { Reg::Voice9Volume } else if i == 112 { Reg::Voice9SampleRate } else if i == 113 { Reg::Voice9Start } else if i == 114 { Reg::Voice9ADSR } else if i == 115 { Reg::Voice9ADSRVolume } else if i == 116 { Reg::Voice9Repeat } else if i == 117 { Reg::Voice10Volume } else if i == 118 { Reg::Voice10SampleRate } else if i == 119 { Reg::Voice10Start } else if i == 120 { Reg::Voice10ADSR } else if i == 121 { Reg::Voice10ADSRVolume } else if i == 122 { Reg::Voice10Repeat } else if i == 123 { Reg::Voice11Volume } else if i == 124 { Reg::Voice11SampleRate } else if i == 125 { Reg::Voice11Start } else if i == 126 { Reg::Voice11ADSR } else if i == 127 { Reg::Voice11ADSRVolume } else if i == 128 { Reg::Voice11Repeat } else if i == 129 { Reg::Voice12Volume } else if i == 130 { Reg::Voice12SampleRate } else if i == 131 { Reg::Voice12Start } else if i == 132 { Reg::Voice12ADSR } else if i == 133 { Reg::Voice12ADSRVolume } else if i == 134 { Reg::Voice12Repeat } else if i == 135 { Reg::Voice13Volume } else if i == 136 { Reg::Voice13SampleRate } else if i == 137 { Reg::Voice13Start } else if i == 138 { Reg::Voice13ADSR } else if i == 139 { Reg::Voice13ADSRVolume } else if i == 140 { Reg::Voice13Repeat } else if i == 141 { Reg::Voice14Volume } else if i == 142 { Reg::Voice14SampleRate } else if i == 143 { Reg::Voice14Start } else if i == 144 { Reg::Voice14ADSR } else if i == 145 { Reg::Voice14ADSRVolume } else if i == 146 { Reg::Voice14Repeat } else if i == 147 { Reg::Voice15Volume } else if i == 148 { Reg::Voice15SampleRate } else if i == 149 { Reg::Voice15Start } else if i == 150 { Reg::Voice15ADSR } else if i == 151 { Reg::Voice15ADSRVolume } else if i == 152 { Reg::Voice15Repeat } else if i == 153 { Reg::Voice16Volume } else if i == 154 { Reg::Voice16SampleRate } else if i == 155 { Reg::Voice16Start } else if i == 156 { Reg::Voice16ADSR } else if i == 157 { Reg::Voice16ADSRVolume } else if i == 158 { Reg::Voice16Repeat } else if i == 159 { Reg::Voice17Volume } else if i == 160 { Reg::Voice17SampleRate } else if i == 161 { Reg::Voice17Start } else if i == 162 { Reg::Voice17ADSR } else if i == 163 { Reg::Voice17ADSRVolume } else if i == 164 { Reg::Voice17Repeat } else if i == 165 { Reg::Voice18Volume } else if i == 166 { Reg::Voice18SampleRate } else if i == 167 { Reg::Voice18Start } else if i == 168 { Reg::Voice18ADSR } else if i == 169 { Reg::Voice18ADSRVolume } else if i == 170 { Reg::Voice18Repeat } else if i == 171 { Reg::Voice19Volume } else if i == 172 { Reg::Voice19SampleRate } else if i == 173 { Reg::Voice19Start } else if i == 174 { Reg::Voice19ADSR } else if i == 175 { Reg::Voice19ADSRVolume } else if i == 176 { Reg::Voice19Repeat } else if i == 177 { Reg::Voice20Volume } else if i == 178 { Reg::Voice20SampleRate } else if i == 179 { Reg::Voice20Start } else if i == 180 { Reg::Voice20ADSR } else if i == 181 { Reg::Voice20ADSRVolume } else if i == 182 { Reg::Voice20Repeat } else if i == 183 { Reg::Voice21Volume } else if i == 184 { Reg::Voice21SampleRate } else if i == 185 { Reg::Voice21Start } else if i == 186 { Reg::Voice21ADSR } else if i == 187 { Reg::Voice21ADSRVolume } else if i == 188 { Reg::Voice21Repeat } else if i == 189 { Reg::Voice22Volume } else if i == 190 { Reg::Voice22SampleRate } else if i == 191 { Reg::Voice22Start } else if i == 192 { Reg::Voice22ADSR } else if i == 193 { Reg::Voice22ADSRVolume } else if i == 194 { Reg::Voice22Repeat } else if i == 195 { Reg::Voice23Volume } else if i == 196 { Reg::Voice23SampleRate } else if i == 197 { Reg::Voice23Start } else if i == 198 { Reg::Voice23ADSR } else if i == 199 { Reg::Voice23ADSRVolume } else if i == 200 { Reg::Voice23Repeat } else if i == 201 { Reg::MainVolume } else if i == 202 { Reg::ReverbVolume } else if i == 203 { Reg::VoiceKeyOn } else if i == 204 { Reg::VoiceKeyOff } else if i == 205 { Reg::VoiceChannelFmMode } else if i == 206 { Reg::VoiceChannelNoiseMode } else if i == 207 { Reg::VoiceChannelReverbMode } else if i == 208 { Reg::VoiceChannelEnabled } else if i == 209 { Reg::SramReverbAddress } else if i == 210 { Reg::SramInterruptAddress } else if i == 211 { Reg::SramAddress } else if i == 212 { Reg::SramFifo } else if i == 213 { Reg::SpuControl } else if i == 214 { Reg::SramControl } else if i == 215 { Reg::SpuStatus } else if i == 216 { Reg::CdVolume } else if i == 217 { Reg::ExternVolume } else { Reg::Post }
    }

    /// Returns the register at position `i` in declaration order.
    pub fn variant(i: usize) -> (r: Reg)
        requires
            i < REG_COUNT,
        ensures
            r == Self::spec_variant(i as int),
    {
        match i {
            0 => Reg::Expansion1Base,
            1 => Reg::Expansion2Base,
            2 => Reg::Expansion1Delay,
            3 => Reg::Expansion3Delay,
            4 => Reg::BiosDelay,
            5 => Reg::SpuDelay,
            6 => Reg::CdromDelay,
            7 => Reg::Expansion2Delay,
            8 => Reg::CommonDelay,
            9 => Reg::JoyData,
            10 => Reg::JoyStat,
            11 => Reg::JoyMode,
            12 => Reg::JoyControl,
            13 => Reg::JoyBaud,
            14 => Reg::RamSize,
            15 => Reg::InterruptStatus,
            16 => Reg::InterruptMask,
            17 => Reg::Dma0Base,
            18 => Reg::Dma0BlockControl,
            19 => Reg::Dma0Control,
            20 => Reg::Dma1Base,
            21 => Reg::Dma1BlockControl,
            22 => Reg::Dma1Control,
            23 => Reg::Dma2Base,
            24 => Reg::Dma2BlockControl,
            25 => Reg::Dma2Control,
            26 => Reg::Dma3Base,
            27 => Reg::Dma3BlockControl,
            28 => Reg::Dma3Control,
            29 => Reg::Dma4Base,
            30 => Reg::Dma4BlockControl,
            31 => Reg::Dma4Control,
            32 => Reg::Dma5Base,
            33 => Reg::Dma5BlockControl,
            34 => Reg::Dma5Control,
            35 => Reg::Dma6Base,
            36 => Reg::Dma6BlockControl,
            37 => Reg::Dma6Control,
            38 => Reg::DmaControl,
            39 => Reg::DmaInterrupt,
            40 => Reg::Timer0Value,
            41 => Reg::Timer0Mode,
            42 => Reg::Timer0Target,
            43 => Reg::Timer1Value,
            44 => Reg::Timer1Mode,
            45 => Reg::Timer1Target,
            46 => Reg::Timer2Value,
            47 => Reg::Timer2Mode,
            48 => Reg::Timer2Target,
            49 => Reg::Cdrom0,
            50 => Reg::Cdrom1,
            51 => Reg::Cdrom2,
            52 => Reg::Cdrom3,
            53 => Reg::Gp0,
            54 => Reg::Gp1,
            55 => Reg::MdecCommand,
            56 => Reg::MdecStatus,
            57 => Reg::Voice0Volume,
            58 => Reg::Voice0SampleRate,
            59 => Reg::Voice0Start,
            60 => Reg::Voice0ADSR,
            61 => Reg::Voice0ADSRVolume,
            62 => Reg::Voice0Repeat,
            63 => Reg::Voice1Volume,
            64 => Reg::Voice1SampleRate,
            65 => Reg::Voice1Start,
            66 => Reg::Voice1ADSR,
            67 => Reg::Voice1ADSRVolume,
            68 => Reg::Voice1Repeat,
            69 => Reg::Voice2Volume,
            70 => Reg::Voice2SampleRate,
            71 => Reg::Voice2Start,
            72 => Reg::Voice2ADSR,
            73 => Reg::Voice2ADSRVolume,
            74 => Reg::Voice2Repeat,
            75 => Reg::Voice3Volume,
            76 => Reg::Voice3SampleRate,
            77 => Reg::Voice3Start,
            78 => Reg::Voice3ADSR,
            79 => Reg::Voice3ADSRVolume,
            80 => Reg::Voice3Repeat,
            81 => Reg::Voice4Volume,
            82 => Reg::Voice4SampleRate,
            83 => Reg::Voice4Start,
            84 => Reg::Voice4ADSR,
            85 => Reg::Voice4ADSRVolume,
            86 => Reg::Voice4Repeat,
            87 => Reg::Voice5Volume,
            88 => Reg::Voice5SampleRate,
            89 => Reg::Voice5Start,
            90 => Reg::Voice5ADSR,
            91 => Reg::Voice5ADSRVolume,
            92 => Reg::Voice5Repeat,
            93 => Reg::Voice6Volume,
            94 => Reg::Voice6SampleRate,
            95 => Reg::Voice6Start,
            96 => Reg::Voice6ADSR,
            97 => Reg::Voice6ADSRVolume,
            98 => Reg::Voice6Repeat,
            99 => Reg::Voice7Volume,
            100 => Reg::Voice7SampleRate,
            101 => Reg::Voice7Start,
            102 => Reg::Voice7ADSR,
            103 => Reg::Voice7ADSRVolume,
            104 => Reg::Voice7Repeat,
            105 => Reg::Voice8Volume,
            106 => Reg::Voice8SampleRate,
            107 => Reg::Voice8Start,
            108 => Reg::Voice8ADSR,
            109 => Reg::Voice8ADSRVolume,
            110 => Reg::Voice8Repeat,
            111 => Reg::Voice9Volume,
            112 => Reg::Voice9SampleRate,
            113 => Reg::Voice9Start,
            114 => Reg::Voice9ADSR,
            115 => Reg::Voice9ADSRVolume,
            116 => Reg::Voice9Repeat,
            117 => Reg::Voice10Volume,
            118 => Reg::Voice10SampleRate,
            119 => Reg::Voice10Start,
            120 => Reg::Voice10ADSR,
            121 => Reg::Voice10ADSRVolume,
            122 => Reg::Voice10Repeat,
            123 => Reg::Voice11Volume,
            124 => Reg::Voice11SampleRate,
            125 => Reg::Voice11Start,
            126 => Reg::Voice11ADSR,
            127 => Reg::Voice11ADSRVolume,
            128 => Reg::Voice11Repeat,
            129 => Reg::Voice12Volume,
            130 => Reg::Voice12SampleRate,
            131 => Reg::Voice12Start,
            132 => Reg::Voice12ADSR,
            133 => Reg::Voice12ADSRVolume,
            134 => Reg::Voice12Repeat,
            135 => Reg::Voice13Volume,
            136 => Reg::Voice13SampleRate,
            137 => Reg::Voice13Start,
            138 => Reg::Voice13ADSR,
            139 => Reg::Voice13ADSRVolume,
            140 => Reg::Voice13Repeat,
            141 => Reg::Voice14Volume,
            142 => Reg::Voice14SampleRate,
            143 => Reg::Voice14Start,
            144 => Reg::Voice14ADSR,
            145 => Reg::Voice14ADSRVolume,
            146 => Reg::Voice14Repeat,
            147 => Reg::Voice15Volume,
            148 => Reg::Voice15SampleRate,
            149 => Reg::Voice15Start,
            150 => Reg::Voice15ADSR,
            151 => Reg::Voice15ADSRVolume,
            152 => Reg::Voice15Repeat,
            153 => Reg::Voice16Volume,
            154 => Reg::Voice16SampleRate,
            155 => Reg::Voice16Start,
            156 => Reg::Voice16ADSR,
            157 => Reg::Voice16ADSRVolume,
            158 => Reg::Voice16Repeat,
            159 => Reg::Voice17Volume,
            160 => Reg::Voice17SampleRate,
            161 => Reg::Voice17Start,
            162 => Reg::Voice17ADSR,
            163 => Reg::Voice17ADSRVolume,
            164 => Reg::Voice17Repeat,
            165 => Reg::Voice18Volume,
            166 => Reg::Voice18SampleRate,
            167 => Reg::Voice18Start,
            168 => Reg::Voice18ADSR,
            169 => Reg::Voice18ADSRVolume,
            170 => Reg::Voice18Repeat,
            171 => Reg::Voice19Volume,
            172 => Reg::Voice19SampleRate,
            173 => Reg::Voice19Start,
            174 => Reg::Voice19ADSR,
            175 => Reg::Voice19ADSRVolume,
            176 => Reg::Voice19Repeat,
            177 => Reg::Voice20Volume,
            178 => Reg::Voice20SampleRate,
            179 => Reg::Voice20Start,
            180 => Reg::Voice20ADSR,
            181 => Reg::Voice20ADSRVolume,
            182 => Reg::Voice20Repeat,
            183 => Reg::Voice21Volume,
            184 => Reg::Voice21SampleRate,
            185 => Reg::Voice21Start,
            186 => Reg::Voice21ADSR,
            187 => Reg::Voice21ADSRVolume,
            188 => Reg::Voice21Repeat,
            189 => Reg::Voice22Volume,
            190 => Reg::Voice22SampleRate,
            191 => Reg::Voice22Start,
            192 => Reg::Voice22ADSR,
            193 => Reg::Voice22ADSRVolume,
            194 => Reg::Voice22Repeat,
            195 => Reg::Voice23Volume,
            196 => Reg::Voice23SampleRate,
            197 => Reg::Voice23Start,
            198 => Reg::Voice23ADSR,
            199 => Reg::Voice23ADSRVolume,
            200 => Reg::Voice23Repeat,
            201 => Reg::MainVolume,
            202 => Reg::ReverbVolume,
            203 => Reg::VoiceKeyOn,
            204 => Reg::VoiceKeyOff,
            205 => Reg::VoiceChannelFmMode,
            206 => Reg::VoiceChannelNoiseMode,
            207 => Reg::VoiceChannelReverbMode,
            208 => Reg::VoiceChannelEnabled,
            209 => Reg::SramReverbAddress,
            210 => Reg::SramInterruptAddress,
            211 => Reg::SramAddress,
            212 => Reg::SramFifo,
            213 => Reg::SpuControl,
            214 => Reg::SramControl,
            215 => Reg::SpuStatus,
            216 => Reg::CdVolume,
            217 => Reg::ExternVolume,
            _ => Reg::Post,
        }
    }

    /// Returns the address of this register.
    #[inline(always)]
    pub fn address(self) -> (r: PhysicalAddress)
        ensures
            r@ == self.spec_address(),
    {
        let value: u32 = match self {
            Reg::Expansion1Base => 0x1F80_1000,
            Reg::Expansion2Base => 0x1F80_1004,
            Reg::Expansion1Delay => 0x1F80_1008,
            Reg::Expansion3Delay => 0x1F80_100C,
            Reg::BiosDelay => 0x1F80_1010,
            Reg::SpuDelay => 0x1F80_1014,
            Reg::CdromDelay => 0x1F80_1018,
            Reg::Expansion2Delay => 0x1F80_101C,
            Reg::CommonDelay => 0x1F80_1020,
            Reg::JoyData => 0x1F80_1040,
            Reg::JoyStat => 0x1F80_1044,
            Reg::JoyMode => 0x1F80_1048,
            Reg::JoyControl => 0x1F80_104A,
            Reg::JoyBaud => 0x1F80_104E,
            Reg::RamSize => 0x1F80_1060,
            Reg::InterruptStatus => 0x1F80_1070,
            Reg::InterruptMask => 0x1F80_1074,
            Reg::Dma0Base => 0x1F80_1080,
            Reg::Dma0BlockControl => 0x1F80_1084,
            Reg::Dma0Control => 0x1F80_1088,
            Reg::Dma1Base => 0x1F80_1090,
            Reg::Dma1BlockControl => 0x1F80_1094,
            Reg::Dma1Control => 0x1F80_1098,
            Reg::Dma2Base => 0x1F80_10A0,
            Reg::Dma2BlockControl => 0x1F80_10A4,
            Reg::Dma2Control => 0x1F80_10A8,
            Reg::Dma3Base => 0x1F80_10B0,
            Reg::Dma3BlockControl => 0x1F80_10B4,
            Reg::Dma3Control => 0x1F80_10B8,
            Reg::Dma4Base => 0x1F80_10C0,
            Reg::Dma4BlockControl => 0x1F80_10C4,
            Reg::Dma4Control => 0x1F80_10C8,
            Reg::Dma5Base => 0x1F80_10D0,
            Reg::Dma5BlockControl => 0x1F80_10D4,
            Reg::Dma5Control => 0x1F80_10D8,
            Reg::Dma6Base => 0x1F80_10E0,
            Reg::Dma6BlockControl => 0x1F80_10E4,
            Reg::Dma6Control => 0x1F80_10E8,
            Reg::DmaControl => 0x1F80_10F0,
            Reg::DmaInterrupt => 0x1F80_10F4,
            Reg::Timer0Value => 0x1F80_1100,
            Reg::Timer0Mode => 0x1F80_1104,
            Reg::Timer0Target => 0x1F80_1108,
            Reg::Timer1Value => 0x1F80_1110,
            Reg::Timer1Mode => 0x1F80_1114,
            Reg::Timer1Target => 0x1F80_1118,
            Reg::Timer2Value => 0x1F80_1120,
            Reg::Timer2Mode => 0x1F80_1124,
            Reg::Timer2Target => 0x1F80_1128,
            Reg::Cdrom0 => 0x1F80_1800,
            Reg::Cdrom1 => 0x1F80_1801,
            Reg::Cdrom2 => 0x1F80_1802,
            Reg::Cdrom3 => 0x1F80_1803,
            Reg::Gp0 => 0x1F80_1810,
            Reg::Gp1 => 0x1F80_1814,
            Reg::MdecCommand => 0x1F80_1820,
            Reg::MdecStatus => 0x1F80_1824,
            Reg::Voice0Volume => 0x1F80_1C00,
            Reg::Voice0SampleRate => 0x1F80_1C04,
            Reg::Voice0Start => 0x1F80_1C06,
            Reg::Voice0ADSR => 0x1F80_1C08,
            Reg::Voice0ADSRVolume => 0x1F80_1C0C,
            Reg::Voice0Repeat => 0x1F80_1C0E,
            Reg::Voice1Volume => 0x1F80_1C10,
            Reg::Voice1SampleRate => 0x1F80_1C14,
            Reg::Voice1Start => 0x1F80_1C16,
            Reg::Voice1ADSR => 0x1F80_1C18,
            Reg::Voice1ADSRVolume => 0x1F80_1C1C,
            Reg::Voice1Repeat => 0x1F80_1C1E,
            Reg::Voice2Volume => 0x1F80_1C20,
            Reg::Voice2SampleRate => 0x1F80_1C24,
            Reg::Voice2Start => 0x1F80_1C26,
            Reg::Voice2ADSR => 0x1F80_1C28,
            Reg::Voice2ADSRVolume => 0x1F80_1C2C,
            Reg::Voice2Repeat => 0x1F80_1C2E,
            Reg::Voice3Volume => 0x1F80_1C30,
            Reg::Voice3SampleRate => 0x1F80_1C34,
            Reg::Voice3Start => 0x1F80_1C36,
            Reg::Voice3ADSR => 0x1F80_1C38,
            Reg::Voice3ADSRVolume => 0x1F80_1C3C,
            Reg::Voice3Repeat => 0x1F80_1C3E,
            Reg::Voice4Volume => 0x1F80_1C40,
            Reg::Voice4SampleRate => 0x1F80_1C44,
            Reg::Voice4Start => 0x1F80_1C46,
            Reg::Voice4ADSR => 0x1F80_1C48,
            Reg::Voice4ADSRVolume => 0x1F80_1C4C,
            Reg::Voice4Repeat => 0x1F80_1C4E,
            Reg::Voice5Volume => 0x1F80_1C50,
            Reg::Voice5SampleRate => 0x1F80_1C54,
            Reg::Voice5Start => 0x1F80_1C56,
            Reg::Voice5ADSR => 0x1F80_1C58,
            Reg::Voice5ADSRVolume => 0x1F80_1C5C,
            Reg::Voice5Repeat => 0x1F80_1C5E,
            Reg::Voice6Volume => 0x1F80_1C60,
            Reg::Voice6SampleRate => 0x1F80_1C64,
            Reg::Voice6Start => 0x1F80_1C66,
            Reg::Voice6ADSR => 0x1F80_1C68,
            Reg::Voice6ADSRVolume => 0x1F80_1C6C,
            Reg::Voice6Repeat => 0x1F80_1C6E,
            Reg::Voice7Volume => 0x1F80_1C70,
            Reg::Voice7SampleRate => 0x1F80_1C74,
            Reg::Voice7Start => 0x1F80_1C76,
            Reg::Voice7ADSR => 0x1F80_1C78,
            Reg::Voice7ADSRVolume => 0x1F80_1C7C,
            Reg::Voice7Repeat => 0x1F80_1C7E,
            Reg::Voice8Volume => 0x1F80_1C80,
            Reg::Voice8SampleRate => 0x1F80_1C84,
            Reg::Voice8Start => 0x1F80_1C86,
            Reg::Voice8ADSR => 0x1F80_1C88,
            Reg::Voice8ADSRVolume => 0x1F80_1C8C,
            Reg::Voice8Repeat => 0x1F80_1C8E,
            Reg::Voice9Volume => 0x1F80_1C90,
            Reg::Voice9SampleRate => 0x1F80_1C94,
            Reg::Voice9Start => 0x1F80_1C96,
            Reg::Voice9ADSR => 0x1F80_1C98,
            Reg::Voice9ADSRVolume => 0x1F80_1C9C,
            Reg::Voice9Repeat => 0x1F80_1C9E,
            Reg::Voice10Volume => 0x1F80_1CA0,
            Reg::Voice10SampleRate => 0x1F80_1CA4,
            Reg::Voice10Start => 0x1F80_1CA6,
            Reg::Voice10ADSR => 0x1F80_1CA8,
            Reg::Voice10ADSRVolume => 0x1F80_1CAC,
            Reg::Voice10Repeat => 0x1F80_1CAE,
            Reg::Voice11Volume => 0x1F80_1CB0,
            Reg::Voice11SampleRate => 0x1F80_1CB4,
            Reg::Voice11Start => 0x1F80_1CB6,
            Reg::Voice11ADSR => 0x1F80_1CB8,
            Reg::Voice11ADSRVolume => 0x1F80_1CBC,
            Reg::Voice11Repeat => 0x1F80_1CBE,
            Reg::Voice12Volume => 0x1F80_1CC0,
            Reg::Voice12SampleRate => 0x1F80_1CC4,
            Reg::Voice12Start => 0x1F80_1CC6,
            Reg::Voice12ADSR => 0x1F80_1CC8,
            Reg::Voice12ADSRVolume => 0x1F80_1CCC,
            Reg::Voice12Repeat => 0x1F80_1CCE,
            Reg::Voice13Volume => 0x1F80_1CD0,
            Reg::Voice13SampleRate => 0x1F80_1CD4,
            Reg::Voice13Start => 0x1F80_1CD6,
            Reg::Voice13ADSR => 0x1F80_1CD8,
            Reg::Voice13ADSRVolume => 0x1F80_1CDC,
            Reg::Voice13Repeat => 0x1F80_1CDE,
            Reg::Voice14Volume => 0x1F80_1CE0,
            Reg::Voice14SampleRate => 0x1F80_1CE4,
            Reg::Voice14Start => 0x1F80_1CE6,
            Reg::Voice14ADSR => 0x1F80_1CE8,
            Reg::Voice14ADSRVolume => 0x1F80_1CEC,
            Reg::Voice14Repeat => 0x1F80_1CEE,
            Reg::Voice15Volume => 0x1F80_1CF0,
            Reg::Voice15SampleRate => 0x1F80_1CF4,
            Reg::Voice15Start => 0x1F80_1CF6,
            Reg::Voice15ADSR => 0x1F80_1CF8,
            Reg::Voice15ADSRVolume => 0x1F80_1CFC,
            Reg::Voice15Repeat => 0x1F80_1CFE,
            Reg::Voice16Volume => 0x1F80_1D00,
            Reg::Voice16SampleRate => 0x1F80_1D04,
            Reg::Voice16Start => 0x1F80_1D06,
            Reg::Voice16ADSR => 0x1F80_1D08,
            Reg::Voice16ADSRVolume => 0x1F80_1D0C,
            Reg::Voice16Repeat => 0x1F80_1D0E,
            Reg::Voice17Volume => 0x1F80_1D10,
            Reg::Voice17SampleRate => 0x1F80_1D14,
            Reg::Voice17Start => 0x1F80_1D16,
            Reg::Voice17ADSR => 0x1F80_1D18,
            Reg::Voice17ADSRVolume => 0x1F80_1D1C,
            Reg::Voice17Repeat => 0x1F80_1D1E,
            Reg::Voice18Volume => 0x1F80_1D20,
            Reg::Voice18SampleRate => 0x1F80_1D24,
            Reg::Voice18Start => 0x1F80_1D26,
            Reg::Voice18ADSR => 0x1F80_1D28,
            Reg::Voice18ADSRVolume => 0x1F80_1D2C,
            Reg::Voice18Repeat => 0x1F80_1D2E,
            Reg::Voice19Volume => 0x1F80_1D30,
            Reg::Voice19SampleRate => 0x1F80_1D34,
            Reg::Voice19Start => 0x1F80_1D36,
            Reg::Voice19ADSR => 0x1F80_1D38,
            Reg::Voice19ADSRVolume => 0x1F80_1D3C,
            Reg::Voice19Repeat => 0x1F80_1D3E,
            Reg::Voice20Volume => 0x1F80_1D40,
            Reg::Voice20SampleRate => 0x1F80_1D44,
            Reg::Voice20Start => 0x1F80_1D46,
            Reg::Voice20ADSR => 0x1F80_1D48,
            Reg::Voice20ADSRVolume => 0x1F80_1D4C,
            Reg::Voice20Repeat => 0x1F80_1D4E,
            Reg::Voice21Volume => 0x1F80_1D50,
            Reg::Voice21SampleRate => 0x1F80_1D54,
            Reg::Voice21Start => 0x1F80_1D56,
            Reg::Voice21ADSR => 0x1F80_1D58,
            Reg::Voice21ADSRVolume => 0x1F80_1D5C,
            Reg::Voice21Repeat => 0x1F80_1D5E,
            Reg::Voice22Volume => 0x1F80_1D60,
            Reg::Voice22SampleRate => 0x1F80_1D64,
            Reg::Voice22Start => 0x1F80_1D66,
            Reg::Voice22ADSR => 0x1F80_1D68,
            Reg::Voice22ADSRVolume => 0x1F80_1D6C,
            Reg::Voice22Repeat => 0x1F80_1D6E,
            Reg::Voice23Volume => 0x1F80_1D70,
            Reg::Voice23SampleRate => 0x1F80_1D74,
            Reg::Voice23Start => 0x1F80_1D76,
            Reg::Voice23ADSR => 0x1F80_1D78,
            Reg::Voice23ADSRVolume => 0x1F80_1D7C,
            Reg::Voice23Repeat => 0x1F80_1D7E,
            Reg::MainVolume => 0x1F80_1D80,
            Reg::ReverbVolume => 0x1F80_1D84,
            Reg::VoiceKeyOn => 0x1F80_1D88,
            Reg::VoiceKeyOff => 0x1F80_1D8C,
            Reg::VoiceChannelFmMode => 0x1F80_1D90,
            Reg::VoiceChannelNoiseMode => 0x1F80_1D94,
            Reg::VoiceChannelReverbMode => 0x1F80_1D98,
            Reg::VoiceChannelEnabled => 0x1F80_1D9C,
            Reg::SramReverbAddress => 0x1F80_1DA2,
            Reg::SramInterruptAddress => 0x1F80_1DA4,
            Reg::SramAddress => 0x1F80_1DA6,
            Reg::SramFifo => 0x1F80_1DA8,
            Reg::SpuControl => 0x1F80_1DAA,
            Reg::SramControl => 0x1F80_1DAC,
            Reg::SpuStatus => 0x1F80_1DAE,
            Reg::CdVolume => 0x1F80_1DB0,
            Reg::ExternVolume => 0x1F80_1DB4,
            Reg::Post => 0x1F80_2041,
        };
        PhysicalAddress::new(value).unwrap()
    }

    /// Returns the width of this register.
    pub fn width(self) -> (r: usize)
        ensures
            r == self.spec_width(),
            1 <= r <= 4,
    {
        match self {
            Reg::Expansion1Base => 4,
            Reg::Expansion2Base => 4,
            Reg::Expansion1Delay => 4,
            Reg::Expansion3Delay => 4,
            Reg::BiosDelay => 4,
            Reg::SpuDelay => 4,
            Reg::CdromDelay => 4,
            Reg::Expansion2Delay => 4,
            Reg::CommonDelay => 4,
            Reg::JoyData => 4,
            Reg::JoyStat => 4,
            Reg::JoyMode => 2,
            Reg::JoyControl => 2,
            Reg::JoyBaud => 2,
            Reg::RamSize => 4,
            Reg::InterruptStatus => 4,
            Reg::InterruptMask => 4,
            Reg::Dma0Base => 4,
            Reg::Dma0BlockControl => 4,
            Reg::Dma0Control => 4,
            Reg::Dma1Base => 4,
            Reg::Dma1BlockControl => 4,
            Reg::Dma1Control => 4,
            Reg::Dma2Base => 4,
            Reg::Dma2BlockControl => 4,
            Reg::Dma2Control => 4,
            Reg::Dma3Base => 4,
            Reg::Dma3BlockControl => 4,
            Reg::Dma3Control => 4,
            Reg::Dma4Base => 4,
            Reg::Dma4BlockControl => 4,
            Reg::Dma4Control => 4,
            Reg::Dma5Base => 4,
            Reg::Dma5BlockControl => 4,
            Reg::Dma5Control => 4,
            Reg::Dma6Base => 4,
            Reg::Dma6BlockControl => 4,
            Reg::Dma6Control => 4,
            Reg::DmaControl => 4,
            Reg::DmaInterrupt => 4,
            Reg::Timer0Value => 4,
            Reg::Timer0Mode => 4,
            Reg::Timer0Target => 4,
            Reg::Timer1Value => 4,
            Reg::Timer1Mode => 4,
            Reg::Timer1Target => 4,
            Reg::Timer2Value => 4,
            Reg::Timer2Mode => 4,
            Reg::Timer2Target => 4,
            Reg::Cdrom0 => 1,
            Reg::Cdrom1 => 1,
            Reg::Cdrom2 => 1,
            Reg::Cdrom3 => 1,
            Reg::Gp0 => 4,
            Reg::Gp1 => 4,
            Reg::MdecCommand => 4,
            Reg::MdecStatus => 4,
            Reg::Voice0Volume => 4,
            Reg::Voice0SampleRate => 2,
            Reg::Voice0Start => 2,
            Reg::Voice0ADSR => 4,
            Reg::Voice0ADSRVolume => 2,
            Reg::Voice0Repeat => 2,
            Reg::Voice1Volume => 4,
            Reg::Voice1SampleRate => 2,
            Reg::Voice1Start => 2,
            Reg::Voice1ADSR => 4,
            Reg::Voice1ADSRVolume => 2,
            Reg::Voice1Repeat => 2,
            Reg::Voice2Volume => 4,
            Reg::Voice2SampleRate => 2,
            Reg::Voice2Start => 2,
            Reg::Voice2ADSR => 4,
            Reg::Voice2ADSRVolume => 2,
            Reg::Voice2Repeat => 2,
            Reg::Voice3Volume => 4,
            Reg::Voice3SampleRate => 2,
            Reg::Voice3Start => 2,
            Reg::Voice3ADSR => 4,
            Reg::Voice3ADSRVolume => 2,
            Reg::Voice3Repeat => 2,
            Reg::Voice4Volume => 4,
            Reg::Voice4SampleRate => 2,
            Reg::Voice4Start => 2,
            Reg::Voice4ADSR => 4,
            Reg::Voice4ADSRVolume => 2,
            Reg::Voice4Repeat => 2,
            Reg::Voice5Volume => 4,
            Reg::Voice5SampleRate => 2,
            Reg::Voice5Start => 2,
            Reg::Voice5ADSR => 4,
            Reg::Voice5ADSRVolume => 2,
            Reg::Voice5Repeat => 2,
            Reg::Voice6Volume => 4,
            Reg::Voice6SampleRate => 2,
            Reg::Voice6Start => 2,
            Reg::Voice6ADSR => 4,
            Reg::Voice6ADSRVolume => 2,
            Reg::Voice6Repeat => 2,
            Reg::Voice7Volume => 4,
            Reg::Voice7SampleRate => 2,
            Reg::Voice7Start => 2,
            Reg::Voice7ADSR => 4,
            Reg::Voice7ADSRVolume => 2,
            Reg::Voice7Repeat => 2,
            Reg::Voice8Volume => 4,
            Reg::Voice8SampleRate => 2,
            Reg::Voice8Start => 2,
            Reg::Voice8ADSR => 4,
            Reg::Voice8ADSRVolume => 2,
            Reg::Voice8Repeat => 2,
            Reg::Voice9Volume => 4,
            Reg::Voice9SampleRate => 2,
            Reg::Voice9Start => 2,
            Reg::Voice9ADSR => 4,
            Reg::Voice9ADSRVolume => 2,
            Reg::Voice9Repeat => 2,
            Reg::Voice10Volume => 4,
            Reg::Voice10SampleRate => 2,
            Reg::Voice10Start => 2,
            Reg::Voice10ADSR => 4,
            Reg::Voice10ADSRVolume => 2,
            Reg::Voice10Repeat => 2,
            Reg::Voice11Volume => 4,
            Reg::Voice11SampleRate => 2,
            Reg::Voice11Start => 2,
            Reg::Voice11ADSR => 4,
            Reg::Voice11ADSRVolume => 2,
            Reg::Voice11Repeat => 2,
            Reg::Voice12Volume => 4,
            Reg::Voice12SampleRate => 2,
            Reg::Voice12Start => 2,
            Reg::Voice12ADSR => 4,
            Reg::Voice12ADSRVolume => 2,
            Reg::Voice12Repeat => 2,
            Reg::Voice13Volume => 4,
            Reg::Voice13SampleRate => 2,
            Reg::Voice13Start => 2,
            Reg::Voice13ADSR => 4,
            Reg::Voice13ADSRVolume => 2,
            Reg::Voice13Repeat => 2,
            Reg::Voice14Volume => 4,
            Reg::Voice14SampleRate => 2,
            Reg::Voice14Start => 2,
            Reg::Voice14ADSR => 4,
            Reg::Voice14ADSRVolume => 2,
            Reg::Voice14Repeat => 2,
            Reg::Voice15Volume => 4,
            Reg::Voice15SampleRate => 2,
            Reg::Voice15Start => 2,
            Reg::Voice15ADSR => 4,
            Reg::Voice15ADSRVolume => 2,
            Reg::Voice15Repeat => 2,
            Reg::Voice16Volume => 4,
            Reg::Voice16SampleRate => 2,
            Reg::Voice16Start => 2,
            Reg::Voice16ADSR => 4,
            Reg::Voice16ADSRVolume => 2,
            Reg::Voice16Repeat => 2,
            Reg::Voice17Volume => 4,
            Reg::Voice17SampleRate => 2,
            Reg::Voice17Start => 2,
            Reg::Voice17ADSR => 4,
            Reg::Voice17ADSRVolume => 2,
            Reg::Voice17Repeat => 2,
            Reg::Voice18Volume => 4,
            Reg::Voice18SampleRate => 2,
            Reg::Voice18Start => 2,
            Reg::Voice18ADSR => 4,
            Reg::Voice18ADSRVolume => 2,
            Reg::Voice18Repeat => 2,
            Reg::Voice19Volume => 4,
            Reg::Voice19SampleRate => 2,
            Reg::Voice19Start => 2,
            Reg::Voice19ADSR => 4,
            Reg::Voice19ADSRVolume => 2,
            Reg::Voice19Repeat => 2,
            Reg::Voice20Volume => 4,
            Reg::Voice20SampleRate => 2,
            Reg::Voice20Start => 2,
            Reg::Voice20ADSR => 4,
            Reg::Voice20ADSRVolume => 2,
            Reg::Voice20Repeat => 2,
            Reg::Voice21Volume => 4,
            Reg::Voice21SampleRate => 2,
            Reg::Voice21Start => 2,
            Reg::Voice21ADSR => 4,
            Reg::Voice21ADSRVolume => 2,
            Reg::Voice21Repeat => 2,
            Reg::Voice22Volume => 4,
            Reg::Voice22SampleRate => 2,
            Reg::Voice22Start => 2,
            Reg::Voice22ADSR => 4,
            Reg::Voice22ADSRVolume => 2,
            Reg::Voice22Repeat => 2,
            Reg::Voice23Volume => 4,
            Reg::Voice23SampleRate => 2,
            Reg::Voice23Start => 2,
            Reg::Voice23ADSR => 4,
            Reg::Voice23ADSRVolume => 2,
            Reg::Voice23Repeat => 2,
            Reg::MainVolume => 4,
            Reg::ReverbVolume => 4,
            Reg::VoiceKeyOn => 4,
            Reg::VoiceKeyOff => 4,
            Reg::VoiceChannelFmMode => 4,
            Reg::VoiceChannelNoiseMode => 4,
            Reg::VoiceChannelReverbMode => 4,
            Reg::VoiceChannelEnabled => 4,
            Reg::SramReverbAddress => 2,
            Reg::SramInterruptAddress => 2,
            Reg::SramAddress => 2,
            Reg::SramFifo => 2,
            Reg::SpuControl => 2,
            Reg::SramControl => 2,
            Reg::SpuStatus => 2,
            Reg::CdVolume => 4,
            Reg::ExternVolume => 4,
            Reg::Post => 1,
        }
    }

    /// The offset of the virtual address `addr` from this register, if the physical address it
    /// maps to lies in the register's range, `address..address + width` (at most four bytes).
    pub open spec fn spec_offset(self, addr: u32) -> Option<usize> {
        if spec_segment(addr) == Segment::KSEG2 {
            None
        } else {
            let p = addr % 0x2000_0000;
            let start = self.spec_address();
            if p >= start && p - start < 4 && p - start < self.spec_width() {
                Some((p - start) as usize)
            } else {
                None
            }
        }
    }

    /// Returns the offset of the given address with respect to this register, but only if it's
    /// contained inside the register's range `addr..(addr + width)`.
    #[inline(always)]
    pub fn offset(self, addr: Address) -> (r: Option<usize>)
        ensures
            r == self.spec_offset(addr.0),
    {
        let reg_addr = self.address().value();
        let physical = match addr.physical() {
            Some(p) => p.value(),
            None => return None,
        };
        if physical < reg_addr {
            return None;
        }
        let offset = (physical - reg_addr) as usize;
        if offset < 4 && offset < self.width() {
            Some(offset)
        } else {
            None
        }
    }

    /// Whether this register belongs to one of the SPU voices.
    pub open spec fn spec_is_spu_voice(self) -> bool {
        0x1F80_1C00 <= self.spec_address() <= 0x1F80_1D7E
    }

    /// Returns whether this register belongs to one of the SPU voices.
    pub fn is_spu_voice(&self) -> (r: bool)
        ensures
            r == self.spec_is_spu_voice(),
    {
        let address = self.address().value();
        Reg::Voice0Volume.address().value() <= address && address <= Reg::Voice23Repeat.address().value()
    }

    /// The DMA channel this register configures, if any.
    pub open spec fn spec_dma_channel(self) -> Option<dma::Channel> {
        match self {
            Reg::Dma0Base | Reg::Dma0BlockControl | Reg::Dma0Control => Some(dma::Channel::MdecIn),
            Reg::Dma1Base | Reg::Dma1BlockControl | Reg::Dma1Control => Some(dma::Channel::MdecOut),
            Reg::Dma2Base | Reg::Dma2BlockControl | Reg::Dma2Control => Some(dma::Channel::GPU),
            Reg::Dma3Base | Reg::Dma3BlockControl | Reg::Dma3Control => Some(dma::Channel::CDROM),
            Reg::Dma4Base | Reg::Dma4BlockControl | Reg::Dma4Control => Some(dma::Channel::SPU),
            Reg::Dma5Base | Reg::Dma5BlockControl | Reg::Dma5Control => Some(dma::Channel::PIO),
            Reg::Dma6Base | Reg::Dma6BlockControl | Reg::Dma6Control => Some(dma::Channel::OTC),
            _ => None,
        }
    }

    /// Returns the DMA channel this register configures, if any.
    pub fn dma_channel(&self) -> (r: Option<dma::Channel>)
        ensures
            r == self.spec_dma_channel(),
    {
        match self {
            Reg::Dma0Base | Reg::Dma0BlockControl | Reg::Dma0Control => Some(dma::Channel::MdecIn),
            Reg::Dma1Base | Reg::Dma1BlockControl | Reg::Dma1Control => Some(dma::Channel::MdecOut),
            Reg::Dma2Base | Reg::Dma2BlockControl | Reg::Dma2Control => Some(dma::Channel::GPU),
            Reg::Dma3Base | Reg::Dma3BlockControl | Reg::Dma3Control => Some(dma::Channel::CDROM),
            Reg::Dma4Base | Reg::Dma4BlockControl | Reg::Dma4Control => Some(dma::Channel::SPU),
            Reg::Dma5Base | Reg::Dma5BlockControl | Reg::Dma5Control => Some(dma::Channel::PIO),
            Reg::Dma6Base | Reg::Dma6BlockControl | Reg::Dma6Control => Some(dma::Channel::OTC),
            _ => None,
        }
    }

    /// The CDROM register this register gives access to, if any.
    pub open spec fn spec_cdrom_reg(self) -> Option<cdrom::Reg> {
        match self {
            Reg::Cdrom0 => Some(cdrom::Reg::Reg0),
            Reg::Cdrom1 => Some(cdrom::Reg::Reg1),
            Reg::Cdrom2 => Some(cdrom::Reg::Reg2),
            Reg::Cdrom3 => Some(cdrom::Reg::Reg3),
            _ => None,
        }
    }

    /// Returns the CDROM register this register gives access to, if any.
    pub fn cdrom_reg(&self) -> (r: Option<cdrom::Reg>)
        ensures
            r == self.spec_cdrom_reg(),
    {
        match self {
            Reg::Cdrom0 => Some(cdrom::Reg::Reg0),
            Reg::Cdrom1 => Some(cdrom::Reg::Reg1),
            Reg::Cdrom2 => Some(cdrom::Reg::Reg2),
            Reg::Cdrom3 => Some(cdrom::Reg::Reg3),
            _ => None,
        }
    }

    /// Returns the register for which a given address in inside, if any, and the offset of the
    /// address.
    pub fn reg_and_offset(addr: Address) -> (r: Option<(Reg, usize)>)
        ensures
            r == spec_first_match(addr.0, 0),
    {
        let mut i: usize = 0;
        while i < REG_COUNT
            invariant
                i <= REG_COUNT,
                spec_first_match(addr.0, 0) == spec_first_match(addr.0, i as int),
            decreases REG_COUNT - i,
        {
            let reg = Reg::variant(i);
            if let Some(offset) = reg.offset(addr) {
                return Some((reg, offset));
            }
            i += 1;
        }
        None
    }
}

/// The first register, from position `i` on in declaration order, whose range holds the virtual
/// address `addr`, with the offset of the address in it.
pub open spec fn spec_first_match(addr: u32, i: int) -> Option<(Reg, usize)>
    decreases REG_COUNT - i,
{
    if i < 0 || i >= REG_COUNT {
        None
    } else {
        match Reg::spec_variant(i).spec_offset(addr) {
            Some(offset) => Some((Reg::spec_variant(i), offset)),
            None => spec_first_match(addr, i + 1),
        }
    }
}

/// Proof that the register [`Reg::reg_and_offset`] finds from position `i` on holds the address
/// at the offset it gives.
proof fn lemma_first_match_sound(addr: u32, i: int)
    ensures
        spec_first_match(addr, i) matches Some((reg, offset)) ==> reg.spec_offset(addr) == Some(
            offset,
        ),
    decreases REG_COUNT - i,
{
    if 0 <= i < REG_COUNT {
        lemma_first_match_sound(addr, i + 1);
    }
}

/// Law: a register found for an address holds the address, at the offset found: if
/// `Reg::reg_and_offset(addr)` gives `(reg, offset)`, then `reg.offset(addr)` gives `offset`.
pub proof fn law_reg_and_offset_sound(addr: u32)
    ensures
        spec_first_match(addr, 0) matches Some((reg, offset)) ==> reg.spec_offset(addr) == Some(
            offset,
        ),
{
    lemma_first_match_sound(addr, 0);
}

} // verus!

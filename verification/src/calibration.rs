//! The sensor's calibration sequence.
//!
//! The register values come from the vendor's reference driver; the datasheet
//! does not explain them. Calibration reads four registers (0x67, 0x73, 0x70
//! and 0x71) and the values it writes depend on what they held.
use crate::protocol::Command;
use vstd::prelude::*;

verus! {

/// Register writes, one command per (register, value) pair, in order.
pub open spec fn writes(pairs: Seq<(u8, u8)>) -> Seq<Command> {
    pairs.map_values(|p: (u8, u8)| Command::Write { register: p.0, value: p.1 })
}

/// Written before the first calibration read.
pub open spec fn opening_writes() -> Seq<(u8, u8)> {
    seq![
        (0x7Fu8, 0x00u8),
        (0x55u8, 0x01u8),
        (0x50u8, 0x07u8),
        (0x7Fu8, 0x0Eu8),
        (0x43u8, 0x10u8),
    ]
}

fn opening_table() -> (table: [(u8, u8); 5])
    ensures
        table@ == opening_writes(),
{
    let table = [
        (0x7F, 0x00),
        (0x55, 0x01),
        (0x50, 0x07),
        (0x7F, 0x0E),
        (0x43, 0x10),
    ];
    assert(table@ =~= opening_writes());
    table
}

/// Written between the two calibration status reads.
pub open spec fn middle_writes() -> Seq<(u8, u8)> {
    seq![
        (0x7Fu8, 0x00u8),
        (0x51u8, 0x7Bu8),
        (0x50u8, 0x00u8),
        (0x55u8, 0x00u8),
        (0x7Fu8, 0x0Eu8),
    ]
}

fn middle_table() -> (table: [(u8, u8); 5])
    ensures
        table@ == middle_writes(),
{
    let table = [
        (0x7F, 0x00),
        (0x51, 0x7B),
        (0x50, 0x00),
        (0x55, 0x00),
        (0x7F, 0x0E),
    ];
    assert(table@ =~= middle_writes());
    table
}

/// The bulk of the calibration settings.
pub open spec fn settings_writes() -> Seq<(u8, u8)> {
    seq![
        (0x7Fu8, 0x00u8),
        (0x61u8, 0xADu8),
        (0x7Fu8, 0x03u8),
        (0x40u8, 0x00u8),
        (0x7Fu8, 0x05u8),
        (0x41u8, 0xB3u8),
        (0x43u8, 0xF1u8),
        (0x45u8, 0x14u8),
        (0x5Bu8, 0x32u8),
        (0x5Fu8, 0x34u8),
        (0x7Bu8, 0x08u8),
        (0x7Fu8, 0x06u8),
        (0x44u8, 0x1Bu8),
        (0x40u8, 0xBFu8),
        (0x4Eu8, 0x3Fu8),
        (0x7Fu8, 0x08u8),
        (0x65u8, 0x20u8),
        (0x6Au8, 0x18u8),
        (0x7Fu8, 0x09u8),
        (0x4Fu8, 0xAFu8),
        (0x5Fu8, 0x40u8),
        (0x48u8, 0x80u8),
        (0x49u8, 0x80u8),
        (0x57u8, 0x77u8),
        (0x60u8, 0x78u8),
        (0x61u8, 0x78u8),
        (0x62u8, 0x08u8),
        (0x63u8, 0x50u8),
        (0x7Fu8, 0x0Au8),
        (0x45u8, 0x60u8),
        (0x7Fu8, 0x00u8),
        (0x4Du8, 0x11u8),
        (0x55u8, 0x80u8),
        (0x74u8, 0x21u8),
        (0x75u8, 0x1Fu8),
        (0x4Au8, 0x78u8),
        (0x4Bu8, 0x78u8),
        (0x44u8, 0x08u8),
        (0x45u8, 0x50u8),
        (0x64u8, 0xFFu8),
        (0x65u8, 0x1Fu8),
        (0x7Fu8, 0x14u8),
        (0x65u8, 0x67u8),
        (0x66u8, 0x08u8),
        (0x63u8, 0x70u8),
        (0x7Fu8, 0x15u8),
        (0x48u8, 0x48u8),
        (0x7Fu8, 0x07u8),
        (0x41u8, 0x0Du8),
        (0x43u8, 0x14u8),
        (0x4Bu8, 0x0Eu8),
        (0x45u8, 0x0Fu8),
        (0x44u8, 0x42u8),
        (0x4Cu8, 0x80u8),
        (0x7Fu8, 0x10u8),
        (0x5Bu8, 0x02u8),
        (0x7Fu8, 0x07u8),
        (0x40u8, 0x41u8),
        (0x70u8, 0x00u8),
    ]
}

fn settings_table() -> (table: [(u8, u8); 59])
    ensures
        table@ == settings_writes(),
{
    let table = [
        (0x7F, 0x00),
        (0x61, 0xAD),
        (0x7F, 0x03),
        (0x40, 0x00),
        (0x7F, 0x05),
        (0x41, 0xB3),
        (0x43, 0xF1),
        (0x45, 0x14),
        (0x5B, 0x32),
        (0x5F, 0x34),
        (0x7B, 0x08),
        (0x7F, 0x06),
        (0x44, 0x1B),
        (0x40, 0xBF),
        (0x4E, 0x3F),
        (0x7F, 0x08),
        (0x65, 0x20),
        (0x6A, 0x18),
        (0x7F, 0x09),
        (0x4F, 0xAF),
        (0x5F, 0x40),
        (0x48, 0x80),
        (0x49, 0x80),
        (0x57, 0x77),
        (0x60, 0x78),
        (0x61, 0x78),
        (0x62, 0x08),
        (0x63, 0x50),
        (0x7F, 0x0A),
        (0x45, 0x60),
        (0x7F, 0x00),
        (0x4D, 0x11),
        (0x55, 0x80),
        (0x74, 0x21),
        (0x75, 0x1F),
        (0x4A, 0x78),
        (0x4B, 0x78),
        (0x44, 0x08),
        (0x45, 0x50),
        (0x64, 0xFF),
        (0x65, 0x1F),
        (0x7F, 0x14),
        (0x65, 0x67),
        (0x66, 0x08),
        (0x63, 0x70),
        (0x7F, 0x15),
        (0x48, 0x48),
        (0x7F, 0x07),
        (0x41, 0x0D),
        (0x43, 0x14),
        (0x4B, 0x0E),
        (0x45, 0x0F),
        (0x44, 0x42),
        (0x4C, 0x80),
        (0x7F, 0x10),
        (0x5B, 0x02),
        (0x7F, 0x07),
        (0x40, 0x41),
        (0x70, 0x00),
    ];
    assert(table@ =~= settings_writes());
    table
}

/// Written after the first settling delay.
pub open spec fn finishing_writes() -> Seq<(u8, u8)> {
    seq![
        (0x32u8, 0x44u8),
        (0x7Fu8, 0x07u8),
        (0x40u8, 0x40u8),
        (0x7Fu8, 0x06u8),
        (0x62u8, 0xF0u8),
        (0x63u8, 0x00u8),
        (0x7Fu8, 0x0Du8),
        (0x48u8, 0xC0u8),
        (0x6Fu8, 0xD5u8),
        (0x7Fu8, 0x00u8),
        (0x5Bu8, 0xA0u8),
        (0x4Eu8, 0xA8u8),
        (0x5Au8, 0x50u8),
        (0x40u8, 0x80u8),
    ]
}

fn finishing_table() -> (table: [(u8, u8); 14])
    ensures
        table@ == finishing_writes(),
{
    let table = [
        (0x32, 0x44),
        (0x7F, 0x07),
        (0x40, 0x40),
        (0x7F, 0x06),
        (0x62, 0xF0),
        (0x63, 0x00),
        (0x7F, 0x0D),
        (0x48, 0xC0),
        (0x6F, 0xD5),
        (0x7F, 0x00),
        (0x5B, 0xA0),
        (0x4E, 0xA8),
        (0x5A, 0x50),
        (0x40, 0x80),
    ];
    assert(table@ =~= finishing_writes());
    table
}

/// Enables LED_N pulsing; written last.
pub open spec fn led_writes() -> Seq<(u8, u8)> {
    seq![
        (0x7Fu8, 0x14u8),
        (0x6Fu8, 0x1Cu8),
        (0x7Fu8, 0x00u8),
    ]
}

fn led_table() -> (table: [(u8, u8); 3])
    ensures
        table@ == led_writes(),
{
    let table = [
        (0x7F, 0x14),
        (0x6F, 0x1C),
        (0x7F, 0x00),
    ];
    assert(table@ =~= led_writes());
    table
}

/// Register whose top bit selects the value written to register 0x48.
pub const SELECT_REGISTER: u8 = 0x67;

/// Register that tells, when it reads zero, that the trim registers need adjusting.
pub const TRIM_STATUS_REGISTER: u8 = 0x73;

/// First trim register.
pub const TRIM_REGISTER_A: u8 = 0x70;

/// Second trim register.
pub const TRIM_REGISTER_B: u8 = 0x71;

/// The values read during calibration, named by register.
#[derive(Debug, Clone, Copy, PartialEq, Eq, Structural)]
pub struct CalibrationReadings {
    pub reg_67: u8,
    pub reg_73: u8,
    pub reg_70: u8,
    pub reg_71: u8,
}

/// The value written to register 0x48: 0x04 when bit 7 of register 0x67 is set, else 0x02.
pub open spec fn selected_value(reg_67: u8) -> u8 {
    if reg_67 & 0x80 != 0 {
        0x04
    } else {
        0x02
    }
}

/// The adjusted value for register 0x70: raised by 14 when it is at most 28, then
/// raised by 11 when it is above 28, then capped at 0x3F; computed over the
/// integers, so no read overflows.
pub open spec fn trim_a_target(value: u8) -> u8 {
    let raised: int = if value <= 28 { value + 14 } else { value as int };
    let raised_again: int = if raised > 28 { raised + 11 } else { raised };
    (if raised_again > 0x3F { 0x3F } else { raised_again }) as u8
}

/// The adjusted value for register 0x71: 45 percent, rounded down (at most 114).
pub open spec fn trim_b_target(value: u8) -> u8 {
    ((value * 45) / 100) as u8
}

/// The writes that install the adjusted trim values.
pub open spec fn trim_writes(readings: CalibrationReadings) -> Seq<(u8, u8)> {
    seq![
        (0x7Fu8, 0x00u8),
        (0x61u8, 0xADu8),
        (0x51u8, 0x70u8),
        (0x7Fu8, 0x0Eu8),
        (TRIM_REGISTER_A, trim_a_target(readings.reg_70)),
        (TRIM_REGISTER_B, trim_b_target(readings.reg_71)),
    ]
}

/// The part of calibration up to and including the read of register 0x73.
pub open spec fn calibration_head(reg_67: u8) -> Seq<Command> {
    writes(opening_writes()) + seq![
        Command::Read { register: SELECT_REGISTER },
        Command::Write { register: 0x48, value: selected_value(reg_67) },
    ] + writes(middle_writes()) + seq![Command::Read { register: TRIM_STATUS_REGISTER }]
}

/// When register 0x73 reads zero: read both trim registers and write them back adjusted.
pub open spec fn calibration_trim(readings: CalibrationReadings) -> Seq<Command> {
    if readings.reg_73 == 0 {
        seq![
            Command::Read { register: TRIM_REGISTER_A },
            Command::Read { register: TRIM_REGISTER_B },
        ] + writes(trim_writes(readings))
    } else {
        Seq::empty()
    }
}

/// The fixed remainder of calibration, with its two settling delays.
pub open spec fn calibration_tail() -> Seq<Command> {
    writes(settings_writes()) + seq![Command::Delay { ms: 10 }] + writes(finishing_writes())
        + seq![Command::Delay { ms: 240 }] + writes(led_writes())
}

/// Every command of calibration, in order, given what its reads return.
pub open spec fn calibration_script(readings: CalibrationReadings) -> Seq<Command> {
    calibration_head(readings.reg_67) + calibration_trim(readings) + calibration_tail()
}

pub proof fn lemma_calibration_lengths(readings: CalibrationReadings)
    ensures
        calibration_head(readings.reg_67).len() == 13,
        calibration_trim(readings).len() == if readings.reg_73 == 0 { 8int } else { 0int },
        calibration_tail().len() == 78,
        calibration_script(readings).len() == 91 + calibration_trim(readings).len(),
{
}

/// The fixed remainder of calibration, command by command: the settings, a
/// 10 ms delay, the finishing writes, a 240 ms delay, and the writes that enable
/// LED_N pulsing and return to bank 0.
pub proof fn lemma_calibration_tail_values()
    ensures
        calibration_tail() == seq![
            Command::Write { register: 0x7F, value: 0x00 },
            Command::Write { register: 0x61, value: 0xAD },
            Command::Write { register: 0x7F, value: 0x03 },
            Command::Write { register: 0x40, value: 0x00 },
            Command::Write { register: 0x7F, value: 0x05 },
            Command::Write { register: 0x41, value: 0xB3 },
            Command::Write { register: 0x43, value: 0xF1 },
            Command::Write { register: 0x45, value: 0x14 },
            Command::Write { register: 0x5B, value: 0x32 },
            Command::Write { register: 0x5F, value: 0x34 },
            Command::Write { register: 0x7B, value: 0x08 },
            Command::Write { register: 0x7F, value: 0x06 },
            Command::Write { register: 0x44, value: 0x1B },
            Command::Write { register: 0x40, value: 0xBF },
            Command::Write { register: 0x4E, value: 0x3F },
            Command::Write { register: 0x7F, value: 0x08 },
            Command::Write { register: 0x65, value: 0x20 },
            Command::Write { register: 0x6A, value: 0x18 },
            Command::Write { register: 0x7F, value: 0x09 },
            Command::Write { register: 0x4F, value: 0xAF },
            Command::Write { register: 0x5F, value: 0x40 },
            Command::Write { register: 0x48, value: 0x80 },
            Command::Write { register: 0x49, value: 0x80 },
            Command::Write { register: 0x57, value: 0x77 },
            Command::Write { register: 0x60, value: 0x78 },
            Command::Write { register: 0x61, value: 0x78 },
            Command::Write { register: 0x62, value: 0x08 },
            Command::Write { register: 0x63, value: 0x50 },
            Command::Write { register: 0x7F, value: 0x0A },
            Command::Write { register: 0x45, value: 0x60 },
            Command::Write { register: 0x7F, value: 0x00 },
            Command::Write { register: 0x4D, value: 0x11 },
            Command::Write { register: 0x55, value: 0x80 },
            Command::Write { register: 0x74, value: 0x21 },
            Command::Write { register: 0x75, value: 0x1F },
            Command::Write { register: 0x4A, value: 0x78 },
            Command::Write { register: 0x4B, value: 0x78 },
            Command::Write { register: 0x44, value: 0x08 },
            Command::Write { register: 0x45, value: 0x50 },
            Command::Write { register: 0x64, value: 0xFF },
            Command::Write { register: 0x65, value: 0x1F },
            Command::Write { register: 0x7F, value: 0x14 },
            Command::Write { register: 0x65, value: 0x67 },
            Command::Write { register: 0x66, value: 0x08 },
            Command::Write { register: 0x63, value: 0x70 },
            Command::Write { register: 0x7F, value: 0x15 },
            Command::Write { register: 0x48, value: 0x48 },
            Command::Write { register: 0x7F, value: 0x07 },
            Command::Write { register: 0x41, value: 0x0D },
            Command::Write { register: 0x43, value: 0x14 },
            Command::Write { register: 0x4B, value: 0x0E },
            Command::Write { register: 0x45, value: 0x0F },
            Command::Write { register: 0x44, value: 0x42 },
            Command::Write { register: 0x4C, value: 0x80 },
            Command::Write { register: 0x7F, value: 0x10 },
            Command::Write { register: 0x5B, value: 0x02 },
            Command::Write { register: 0x7F, value: 0x07 },
            Command::Write { register: 0x40, value: 0x41 },
            Command::Write { register: 0x70, value: 0x00 },
            Command::Delay { ms: 10 },
            Command::Write { register: 0x32, value: 0x44 },
            Command::Write { register: 0x7F, value: 0x07 },
            Command::Write { register: 0x40, value: 0x40 },
            Command::Write { register: 0x7F, value: 0x06 },
            Command::Write { register: 0x62, value: 0xF0 },
            Command::Write { register: 0x63, value: 0x00 },
            Command::Write { register: 0x7F, value: 0x0D },
            Command::Write { register: 0x48, value: 0xC0 },
            Command::Write { register: 0x6F, value: 0xD5 },
            Command::Write { register: 0x7F, value: 0x00 },
            Command::Write { register: 0x5B, value: 0xA0 },
            Command::Write { register: 0x4E, value: 0xA8 },
            Command::Write { register: 0x5A, value: 0x50 },
            Command::Write { register: 0x40, value: 0x80 },
            Command::Delay { ms: 240 },
            Command::Write { register: 0x7F, value: 0x14 },
            Command::Write { register: 0x6F, value: 0x1C },
            Command::Write { register: 0x7F, value: 0x00 },
        ],
{
    assert(calibration_tail() =~= seq![
        Command::Write { register: 0x7F, value: 0x00 },
        Command::Write { register: 0x61, value: 0xAD },
        Command::Write { register: 0x7F, value: 0x03 },
        Command::Write { register: 0x40, value: 0x00 },
        Command::Write { register: 0x7F, value: 0x05 },
        Command::Write { register: 0x41, value: 0xB3 },
        Command::Write { register: 0x43, value: 0xF1 },
        Command::Write { register: 0x45, value: 0x14 },
        Command::Write { register: 0x5B, value: 0x32 },
        Command::Write { register: 0x5F, value: 0x34 },
        Command::Write { register: 0x7B, value: 0x08 },
        Command::Write { register: 0x7F, value: 0x06 },
        Command::Write { register: 0x44, value: 0x1B },
        Command::Write { register: 0x40, value: 0xBF },
        Command::Write { register: 0x4E, value: 0x3F },
        Command::Write { register: 0x7F, value: 0x08 },
        Command::Write { register: 0x65, value: 0x20 },
        Command::Write { register: 0x6A, value: 0x18 },
        Command::Write { register: 0x7F, value: 0x09 },
        Command::Write { register: 0x4F, value: 0xAF },
        Command::Write { register: 0x5F, value: 0x40 },
        Command::Write { register: 0x48, value: 0x80 },
        Command::Write { register: 0x49, value: 0x80 },
        Command::Write { register: 0x57, value: 0x77 },
        Command::Write { register: 0x60, value: 0x78 },
        Command::Write { register: 0x61, value: 0x78 },
        Command::Write { register: 0x62, value: 0x08 },
        Command::Write { register: 0x63, value: 0x50 },
        Command::Write { register: 0x7F, value: 0x0A },
        Command::Write { register: 0x45, value: 0x60 },
        Command::Write { register: 0x7F, value: 0x00 },
        Command::Write { register: 0x4D, value: 0x11 },
        Command::Write { register: 0x55, value: 0x80 },
        Command::Write { register: 0x74, value: 0x21 },
        Command::Write { register: 0x75, value: 0x1F },
        Command::Write { register: 0x4A, value: 0x78 },
        Command::Write { register: 0x4B, value: 0x78 },
        Command::Write { register: 0x44, value: 0x08 },
        Command::Write { register: 0x45, value: 0x50 },
        Command::Write { register: 0x64, value: 0xFF },
        Command::Write { register: 0x65, value: 0x1F },
        Command::Write { register: 0x7F, value: 0x14 },
        Command::Write { register: 0x65, value: 0x67 },
        Command::Write { register: 0x66, value: 0x08 },
        Command::Write { register: 0x63, value: 0x70 },
        Command::Write { register: 0x7F, value: 0x15 },
        Command::Write { register: 0x48, value: 0x48 },
        Command::Write { register: 0x7F, value: 0x07 },
        Command::Write { register: 0x41, value: 0x0D },
        Command::Write { register: 0x43, value: 0x14 },
        Command::Write { register: 0x4B, value: 0x0E },
        Command::Write { register: 0x45, value: 0x0F },
        Command::Write { register: 0x44, value: 0x42 },
        Command::Write { register: 0x4C, value: 0x80 },
        Command::Write { register: 0x7F, value: 0x10 },
        Command::Write { register: 0x5B, value: 0x02 },
        Command::Write { register: 0x7F, value: 0x07 },
        Command::Write { register: 0x40, value: 0x41 },
        Command::Write { register: 0x70, value: 0x00 },
        Command::Delay { ms: 10 },
        Command::Write { register: 0x32, value: 0x44 },
        Command::Write { register: 0x7F, value: 0x07 },
        Command::Write { register: 0x40, value: 0x40 },
        Command::Write { register: 0x7F, value: 0x06 },
        Command::Write { register: 0x62, value: 0xF0 },
        Command::Write { register: 0x63, value: 0x00 },
        Command::Write { register: 0x7F, value: 0x0D },
        Command::Write { register: 0x48, value: 0xC0 },
        Command::Write { register: 0x6F, value: 0xD5 },
        Command::Write { register: 0x7F, value: 0x00 },
        Command::Write { register: 0x5B, value: 0xA0 },
        Command::Write { register: 0x4E, value: 0xA8 },
        Command::Write { register: 0x5A, value: 0x50 },
        Command::Write { register: 0x40, value: 0x80 },
        Command::Delay { ms: 240 },
        Command::Write { register: 0x7F, value: 0x14 },
        Command::Write { register: 0x6F, value: 0x1C },
        Command::Write { register: 0x7F, value: 0x00 },
    ]);
}

/// The start of calibration, command by command: the opening writes, the read of
/// register 0x67, the write to register 0x48 selected by that read, the middle
/// writes and the read of register 0x73.
pub proof fn lemma_calibration_head_values(reg_67: u8)
    ensures
        calibration_head(reg_67) == seq![
            Command::Write { register: 0x7F, value: 0x00 },
            Command::Write { register: 0x55, value: 0x01 },
            Command::Write { register: 0x50, value: 0x07 },
            Command::Write { register: 0x7F, value: 0x0E },
            Command::Write { register: 0x43, value: 0x10 },
            Command::Read { register: 0x67 },
            Command::Write { register: 0x48, value: selected_value(reg_67) },
            Command::Write { register: 0x7F, value: 0x00 },
            Command::Write { register: 0x51, value: 0x7B },
            Command::Write { register: 0x50, value: 0x00 },
            Command::Write { register: 0x55, value: 0x00 },
            Command::Write { register: 0x7F, value: 0x0E },
            Command::Read { register: 0x73 },
        ],
{
    assert(calibration_head(reg_67) =~= seq![
        Command::Write { register: 0x7F, value: 0x00 },
        Command::Write { register: 0x55, value: 0x01 },
        Command::Write { register: 0x50, value: 0x07 },
        Command::Write { register: 0x7F, value: 0x0E },
        Command::Write { register: 0x43, value: 0x10 },
        Command::Read { register: 0x67 },
        Command::Write { register: 0x48, value: selected_value(reg_67) },
        Command::Write { register: 0x7F, value: 0x00 },
        Command::Write { register: 0x51, value: 0x7B },
        Command::Write { register: 0x50, value: 0x00 },
        Command::Write { register: 0x55, value: 0x00 },
        Command::Write { register: 0x7F, value: 0x0E },
        Command::Read { register: 0x73 },
    ]);
}

/// The trim part of calibration, command by command: when register 0x73 reads
/// zero, both trim registers are read and then written back adjusted; otherwise
/// nothing happens.
pub proof fn lemma_calibration_trim_values(readings: CalibrationReadings)
    ensures
        readings.reg_73 == 0 ==> calibration_trim(readings) == seq![
            Command::Read { register: 0x70 },
            Command::Read { register: 0x71 },
            Command::Write { register: 0x7F, value: 0x00 },
            Command::Write { register: 0x61, value: 0xAD },
            Command::Write { register: 0x51, value: 0x70 },
            Command::Write { register: 0x7F, value: 0x0E },
            Command::Write { register: 0x70, value: trim_a_target(readings.reg_70) },
            Command::Write { register: 0x71, value: trim_b_target(readings.reg_71) },
        ],
        readings.reg_73 != 0 ==> calibration_trim(readings).len() == 0,
{
    if readings.reg_73 == 0 {
        assert(calibration_trim(readings) =~= seq![
            Command::Read { register: 0x70 },
            Command::Read { register: 0x71 },
            Command::Write { register: 0x7F, value: 0x00 },
            Command::Write { register: 0x61, value: 0xAD },
            Command::Write { register: 0x51, value: 0x70 },
            Command::Write { register: 0x7F, value: 0x0E },
            Command::Write { register: 0x70, value: trim_a_target(readings.reg_70) },
            Command::Write { register: 0x71, value: trim_b_target(readings.reg_71) },
        ]);
    }
}

/// The value written to register 0x48 depends only on bit 7 of the reading of
/// register 0x67: 0x04 for every reading of at least 0x80, 0x02 for every other.
pub proof fn lemma_selected_value(reg_67: u8)
    ensures
        reg_67 >= 0x80 ==> selected_value(reg_67) == 0x04,
        reg_67 < 0x80 ==> selected_value(reg_67) == 0x02,
{
    assert(reg_67 & 0x80 != 0 <==> reg_67 >= 0x80) by (bit_vector);
}

/// The adjusted value of register 0x70 never exceeds 0x3F.
pub proof fn lemma_trim_a_bounded(value: u8)
    ensures
        trim_a_target(value) <= 0x3F,
{
}

/// The adjusted value of register 0x70 in closed form: readings up to 14 gain 14,
/// readings from 15 to 28 gain 25, readings from 29 to 52 gain 11, and every
/// reading from 52 on gives 0x3F. The result never exceeds 0x3F.
pub proof fn lemma_trim_a_values(value: u8)
    ensures
        value <= 14 ==> trim_a_target(value) == value + 14,
        15 <= value <= 28 ==> trim_a_target(value) == value + 25,
        29 <= value <= 52 ==> trim_a_target(value) == value + 11,
        value >= 52 ==> trim_a_target(value) == 0x3F,
        trim_a_target(value) <= 0x3F,
{
}

/// The adjusted value of register 0x71 is 45 percent of the reading, rounded
/// down: the largest `t` with `100 * t <= 45 * value`.
pub proof fn lemma_trim_b_values(value: u8)
    ensures
        100 * trim_b_target(value) <= 45 * value,
        45 * value < 100 * (trim_b_target(value) + 1),
        trim_b_target(value) <= 114,
{
    let v = value as int;
    assert(0 <= (v * 45) / 100 <= 114 && 100 * ((v * 45) / 100) <= 45 * v && 45 * v < 100 * ((v
        * 45) / 100 + 1)) by (nonlinear_arith)
        requires
            0 <= v <= 255,
    ;
}

/// `trim_a_target`, computed in 16 bits so that no read overflows.
pub fn trim_a(value: u8) -> (adjusted: u8)
    ensures
        adjusted == trim_a_target(value),
{
    let mut raised: u16 = value as u16;
    if raised <= 28 {
        raised += 14;
    }
    if raised > 28 {
        raised += 11;
    }
    if raised > 0x3F {
        0x3F
    } else {
        raised as u8
    }
}

/// `trim_b_target`, computed in 16 bits so that no read overflows; the result is at most 114.
pub fn trim_b(value: u8) -> (adjusted: u8)
    ensures
        adjusted == trim_b_target(value),
        adjusted <= 114,
{
    let scaled: u16 = (value as u16 * 45) / 100;
    scaled as u8
}

fn write_of(pair: (u8, u8)) -> (command: Command)
    ensures
        command == (Command::Write { register: pair.0, value: pair.1 }),
{
    Command::Write { register: pair.0, value: pair.1 }
}

/// The command at `index` of the calibration script, or `None` past its end.
pub fn calibration_command(index: usize, readings: &CalibrationReadings) -> (command: Option<Command>)
    ensures
        index < calibration_script(*readings).len() ==> command == Some(
            calibration_script(*readings)[index as int],
        ),
        index >= calibration_script(*readings).len() ==> command is None,
{
    proof {
        lemma_calibration_lengths(*readings);
    }
    let ghost head = calibration_head(readings.reg_67);
    let ghost trim = calibration_trim(*readings);
    let ghost tail = calibration_tail();
    let ghost script = calibration_script(*readings);
    assert(script == head + trim + tail);
    if index < 13 {
        assert(script[index as int] == head[index as int]);
        let c = if index < 5 {
            write_of(opening_table()[index])
        } else if index == 5 {
            Command::Read { register: SELECT_REGISTER }
        } else if index == 6 {
            let value: u8 = if readings.reg_67 & 0x80 != 0 {
                0x04
            } else {
                0x02
            };
            Command::Write { register: 0x48, value }
        } else if index < 12 {
            write_of(middle_table()[index - 7])
        } else {
            Command::Read { register: TRIM_STATUS_REGISTER }
        };
        return Some(c);
    }
    let trim_len: usize = if readings.reg_73 == 0 {
        8
    } else {
        0
    };
    let j = index - 13;
    if j < trim_len {
        assert(script[index as int] == trim[j as int]);
        let c = if j == 0 {
            Command::Read { register: TRIM_REGISTER_A }
        } else if j == 1 {
            Command::Read { register: TRIM_REGISTER_B }
        } else if j == 6 {
            Command::Write { register: TRIM_REGISTER_A, value: trim_a(readings.reg_70) }
        } else if j == 7 {
            Command::Write { register: TRIM_REGISTER_B, value: trim_b(readings.reg_71) }
        } else {
            let pairs: [(u8, u8); 4] = [(0x7F, 0x00), (0x61, 0xAD), (0x51, 0x70), (0x7F, 0x0E)];
            write_of(pairs[j - 2])
        };
        return Some(c);
    }
    let k = j - trim_len;
    if k >= 78 {
        return None;
    }
    assert(script[index as int] == tail[k as int]);
    let c = if k < 59 {
        write_of(settings_table()[k])
    } else if k == 59 {
        Command::Delay { ms: 10 }
    } else if k < 74 {
        write_of(finishing_table()[k - 60])
    } else if k == 74 {
        Command::Delay { ms: 240 }
    } else {
        write_of(led_table()[k - 75])
    };
    Some(c)
}

} // verus!

//! Bit-exact encoder for the device's 17-byte control reports.
//!
//! Every command becomes a fixed-size report
//! `[0x08, 0x07, 0x00, 0x00, opcode, length, payload.., trailer]`
//! whose payload checksums are firmware-specific arithmetic that must
//! be reproduced exactly, wraparound included, or the device rejects
//! the report.

use vstd::prelude::*;

use crate::command::Command;
use crate::command::cmd_valid;
use crate::command::{MIN_PROFILE_COUNT, MAX_PROFILE_COUNT, MAX_PROFILE_INDEX, MIN_DPI, MAX_DPI};

verus! {

/// Every report is exactly this many bytes long.
pub const REPORT_LEN: usize = 17;

/// Opcode of the Set-Profile-Count command.
pub const OPCODE_ACTIVATE: u8 = 0x02;

/// Opcode of the Select-Profile command.
pub const OPCODE_SELECT: u8 = 0x04;

/// Base opcode of the Set-Profile-DPI command; the profile index is
/// folded into the opcode in steps of four.
pub const OPCODE_SET_DPI_BASE: u8 = 0x0c;

/// A value reduced to a single byte, wrapping modulo 256.
pub open spec fn byte_of(v: int) -> u8 {
    (v % 256) as u8
}

/// Per-command checksum of the two single-argument commands: the
/// argument subtracted from 0x55, modulo 256.
pub open spec fn arg_checksum(arg: u8) -> u8 {
    byte_of(0x55 - arg)
}

/// The DPI index the device stores: the DPI value divided by 50
/// (rounding down), minus one.
pub open spec fn dpi_index(dpi: u16) -> int {
    dpi / 50 - 1
}

/// Low byte of the split DPI index.
pub open spec fn dpi_lo(dpi: u16) -> int {
    dpi_index(dpi) % 256
}

/// High byte of the split DPI index.
pub open spec fn dpi_hi(dpi: u16) -> int {
    dpi_index(dpi) / 256
}

/// Opcode of Set-Profile-DPI for a given profile.
pub open spec fn dpi_opcode(profile: u8) -> u8 {
    byte_of(OPCODE_SET_DPI_BASE + 4 * profile)
}

/// Fourth payload byte of Set-Profile-DPI: a checksum over the split
/// DPI index, modulo 256.
pub open spec fn dpi_payload_checksum(lo: int, hi: int) -> u8 {
    byte_of(0x55 - 2 * lo - 0x44 * hi)
}

/// Trailing byte of Set-Profile-DPI, derived from its opcode.
pub open spec fn dpi_trailer(profile: u8) -> u8 {
    byte_of(0x155 - (0x13 + (OPCODE_SET_DPI_BASE + 4 * profile) + 0x55))
}

/// Trailing byte of the two single-argument commands. It is fixed by
/// the firmware; for Set-Profile-Count it coincides with the formula
/// behind `dpi_trailer` applied to opcode 0x02.
pub const PLAIN_TRAILER: u8 = 0xeb;

/// The 17 bytes of the report encoding a command.
pub open spec fn report_bytes(c: Command) -> Seq<u8> {
    match c {
        Command::Activate { count } => seq![
            0x08u8,
            0x07,
            0x00,
            0x00,
            OPCODE_ACTIVATE,
            0x02,
            count,
            arg_checksum(count),
            0x00,
            0x00,
            0x00,
            0x00,
            0x00,
            0x00,
            0x00,
            0x00,
            PLAIN_TRAILER,
        ],
        Command::Select { profile } => seq![
            0x08u8,
            0x07,
            0x00,
            0x00,
            OPCODE_SELECT,
            0x02,
            profile,
            arg_checksum(profile),
            0x00,
            0x00,
            0x00,
            0x00,
            0x00,
            0x00,
            0x00,
            0x00,
            PLAIN_TRAILER,
        ],
        Command::SetDpi { profile, value } => seq![
            0x08u8,
            0x07,
            0x00,
            0x00,
            dpi_opcode(profile),
            0x04,
            byte_of(dpi_lo(value)),
            byte_of(dpi_lo(value)),
            byte_of(0x44 * dpi_hi(value)),
            dpi_payload_checksum(dpi_lo(value), dpi_hi(value)),
            0x00,
            0x00,
            0x00,
            0x00,
            0x00,
            0x00,
            dpi_trailer(profile),
        ],
    }
}

/// For every count in range, the Set-Profile-Count report carries the
/// count as its payload byte and `0x55 - count` (modulo 256) as its
/// checksum byte.
pub proof fn lemma_activate_report(count: u8)
    requires
        MIN_PROFILE_COUNT <= count <= MAX_PROFILE_COUNT,
    ensures
        report_bytes(Command::Activate { count })[6] == count,
        report_bytes(Command::Activate { count })[7] == (0x55 - count as int) % 256,
{
}

/// For every profile index in range, the Select-Profile report carries
/// the index as its payload byte and `0x55 - profile` (modulo 256) as
/// its checksum byte.
pub proof fn lemma_select_report(profile: u8)
    requires
        profile <= MAX_PROFILE_INDEX,
    ensures
        report_bytes(Command::Select { profile })[6] == profile,
        report_bytes(Command::Select { profile })[7] == (0x55 - profile as int) % 256,
{
}

/// For every profile index and DPI value in range, the split DPI index
/// recombines exactly (`lo + 256 * hi == dpi_index`), the report's
/// sixth byte is the low half, and its trailing checksum equals
/// `(0x155 - (0x13 + (0x0c + 4 * profile) + 0x55))` modulo 256.
pub proof fn lemma_set_dpi_report(profile: u8, value: u16)
    requires
        profile <= MAX_PROFILE_INDEX,
        MIN_DPI <= value <= MAX_DPI,
    ensures
        dpi_lo(value) + 256 * dpi_hi(value) == dpi_index(value),
        0 <= dpi_lo(value) < 256,
        0 <= dpi_hi(value) <= 2,
        report_bytes(Command::SetDpi { profile, value })[6] == dpi_lo(value),
        report_bytes(Command::SetDpi { profile, value })[16] == (0x155 - (0x13 + (0x0c + 4
            * profile as int) + 0x55)) % 256,
{
    vstd::arithmetic::div_mod::lemma_fundamental_div_mod(dpi_index(value), 256);
}

/// Build the report for a command whose arguments are in range.
pub fn encode_report(c: &Command) -> (r: Vec<u8>)
    requires
        cmd_valid(*c),
    ensures
        r@ == report_bytes(*c),
        r@.len() == REPORT_LEN,
{
    match *c {
        Command::Activate { count } => {
            let r: Vec<u8> = plain_report(OPCODE_ACTIVATE, count);
            assert(r@ =~= report_bytes(*c));
            r
        },
        Command::Select { profile } => {
            let r: Vec<u8> = plain_report(OPCODE_SELECT, profile);
            assert(r@ =~= report_bytes(*c));
            r
        },
        Command::SetDpi { profile, value } => {
            let index: u16 = value / 50 - 1;
            let lo: u8 = (index % 256) as u8;
            let hi: u8 = (index / 256) as u8;
            assert(lo == dpi_lo(value));
            assert(hi == dpi_hi(value));
            let blend: u8 = payload_checksum_of(lo, hi);
            let opcode: u8 = OPCODE_SET_DPI_BASE + 4 * profile;
            let trailer: u8 = 0xe1 - 4 * profile;
            assert(trailer == dpi_trailer(profile));
            let mut r: Vec<u8> = Vec::new();
            r.push(0x08);
            r.push(0x07);
            r.push(0x00);
            r.push(0x00);
            r.push(opcode);
            r.push(0x04);
            r.push(lo);
            r.push(lo);
            r.push(0x44 * hi);
            r.push(blend);
            r.push(0x00);
            r.push(0x00);
            r.push(0x00);
            r.push(0x00);
            r.push(0x00);
            r.push(0x00);
            r.push(trailer);
            assert(r@ =~= report_bytes(*c));
            r
        },
    }
}

/// Build the shared report shape of the two single-argument commands:
/// the argument at byte six, its checksum at byte seven, the fixed
/// trailer last.
fn plain_report(opcode: u8, arg: u8) -> (r: Vec<u8>)
    requires
        arg <= 0x55,
    ensures
        r@ =~= seq![
            0x08u8,
            0x07,
            0x00,
            0x00,
            opcode,
            0x02,
            arg,
            arg_checksum(arg),
            0x00,
            0x00,
            0x00,
            0x00,
            0x00,
            0x00,
            0x00,
            0x00,
            PLAIN_TRAILER,
        ],
{
    let checksum: u8 = 0x55 - arg;
    assert(checksum == arg_checksum(arg));
    let mut r: Vec<u8> = Vec::new();
    r.push(0x08);
    r.push(0x07);
    r.push(0x00);
    r.push(0x00);
    r.push(opcode);
    r.push(0x02);
    r.push(arg);
    r.push(checksum);
    r.push(0x00);
    r.push(0x00);
    r.push(0x00);
    r.push(0x00);
    r.push(0x00);
    r.push(0x00);
    r.push(0x00);
    r.push(0x00);
    r.push(PLAIN_TRAILER);
    r
}

/// Fourth payload byte of Set-Profile-DPI, computed without leaving
/// unsigned arithmetic: 768 is a multiple of 256 added to keep the
/// subtraction non-negative.
fn payload_checksum_of(lo: u8, hi: u8) -> (r: u8)
    requires
        hi <= 2,
    ensures
        r == dpi_payload_checksum(lo as int, hi as int),
{
    let wide: u32 = (0x55u32 + 768) - 2 * (lo as u32) - 0x44 * (hi as u32);
    let r: u8 = (wide % 256) as u8;
    proof {
        vstd::arithmetic::div_mod::lemma_mod_multiples_vanish(
            3,
            0x55 - 2 * (lo as int) - 0x44 * (hi as int),
            256,
        );
    }
    r
}

} // verus!

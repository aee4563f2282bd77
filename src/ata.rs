use vstd::prelude::*;
use vstd::string::StringExecFns;

use crate::errors::DeviceError;

verus! {

/// SCSI operation code of ATA PASS-THROUGH (16).
pub const SAT_ATA_PASS_THROUGH16: u8 = 0x85;

/// ATA CHECK POWER MODE.
pub const ATA_CHECK_POWER_MODE: u8 = 0xE5;

/// ATA STANDBY IMMEDIATE.
pub const ATA_OP_STANDBYNOW: u8 = 0xE0;

/// Length of the sense buffer that carries the ATA registers back.
pub const SENSE_LEN: usize = 32;

/// Offset in the sense buffer of the power-mode code (the sector count register).
pub const POWER_MODE_OFFSET: usize = 13;

/// Time that the kernel gives one pass-through, in milliseconds.
pub const SG_TIMEOUT_MS: u32 = 15000;

/// `dxfer_direction` of an SG_IO request that moves no data.
pub const SG_DXFER_NONE: i32 = -1;

/// `interface_id` of an SG_IO request: the character 'S'.
pub const SG_INTERFACE_ID: i32 = 83;

/// Pass-through protocol: non-data.
pub const PROTOCOL: u8 = 3;

/// 28-bit command: no extended registers.
pub const EXTEND: u8 = 0;

/// Ask for the ATA registers to be read back through a check condition.
pub const CHK_COND: u8 = 1;

/// Transfer direction: from the device.
pub const T_DIR: u8 = 1;

/// Transfer length counted in 512-byte blocks.
pub const BYTE_BLOCK: u8 = 1;

/// No data is transferred.
pub const T_LENGTH: u8 = 0;

/// Power state of a disk as reported by CHECK POWER MODE.
#[derive(Debug, Clone, Copy, PartialEq, Eq, Structural)]
pub enum PowerState {
    Standby,
    Idle,
    IdleA,
    IdleB,
    IdleC,
    ActiveOrIdle,
    Unknown,
}

/// The ATA power-mode code table; every code outside it is `Unknown`.
pub open spec fn power_state_of(code: u8) -> PowerState {
    if code == 0x00 {
        PowerState::Standby
    } else if code == 0x80 {
        PowerState::Idle
    } else if code == 0x81 {
        PowerState::IdleA
    } else if code == 0x82 {
        PowerState::IdleB
    } else if code == 0x83 {
        PowerState::IdleC
    } else if code == 0xFF {
        PowerState::ActiveOrIdle
    } else {
        PowerState::Unknown
    }
}

/// Decodes a power-mode code. Total: no code is an error.
pub fn decode_power_mode(code: u8) -> (r: PowerState)
    ensures
        r == power_state_of(code),
{
    match code {
        0x00 => PowerState::Standby,
        0x80 => PowerState::Idle,
        0x81 => PowerState::IdleA,
        0x82 => PowerState::IdleB,
        0x83 => PowerState::IdleC,
        0xFF => PowerState::ActiveOrIdle,
        _ => PowerState::Unknown,
    }
}

/// Decoding is total: the six codes of the table give their states, and every
/// other code gives `Unknown`.
pub proof fn lemma_power_mode_total(code: u8)
    ensures
        code == 0x00 <==> power_state_of(code) == PowerState::Standby,
        code == 0x80 <==> power_state_of(code) == PowerState::Idle,
        code == 0x81 <==> power_state_of(code) == PowerState::IdleA,
        code == 0x82 <==> power_state_of(code) == PowerState::IdleB,
        code == 0x83 <==> power_state_of(code) == PowerState::IdleC,
        code == 0xFF <==> power_state_of(code) == PowerState::ActiveOrIdle,
        (code != 0x00 && code != 0x80 && code != 0x81 && code != 0x82 && code != 0x83 && code
            != 0xFF) <==> power_state_of(code) == PowerState::Unknown,
{
}

/// Name of each power state.
pub open spec fn power_state_name(s: PowerState) -> Seq<char> {
    match s {
        PowerState::Standby => "Standby"@,
        PowerState::Idle => "Idle"@,
        PowerState::IdleA => "IdleA"@,
        PowerState::IdleB => "IdleB"@,
        PowerState::IdleC => "IdleC"@,
        PowerState::ActiveOrIdle => "ActiveOrIdle"@,
        PowerState::Unknown => "Unknown"@,
    }
}

impl PowerState {
    /// The state's name, as printed to the operator.
    pub fn name(&self) -> (r: &'static str)
        ensures
            r@ == power_state_name(*self),
    {
        match self {
            PowerState::Standby => "Standby",
            PowerState::Idle => "Idle",
            PowerState::IdleA => "IdleA",
            PowerState::IdleB => "IdleB",
            PowerState::IdleC => "IdleC",
            PowerState::ActiveOrIdle => "ActiveOrIdle",
            PowerState::Unknown => "Unknown",
        }
    }
}

/// Byte 1 of the command block: protocol and extend bit.
pub open spec fn cdb_protocol_byte() -> u8 {
    0x06
}

/// Byte 2 of the command block: check condition, direction, block units, length.
pub open spec fn cdb_flags_byte() -> u8 {
    0x2c
}

/// The 16-byte ATA PASS-THROUGH command block that carries the ATA `command`.
pub open spec fn ata_cdb(command: u8) -> Seq<u8> {
    seq![
        SAT_ATA_PASS_THROUGH16, cdb_protocol_byte(), cdb_flags_byte(), 0u8,
        0u8, 0u8, 0u8, 0u8,
        0u8, 0u8, 0u8, 0u8,
        0u8, 0u8, command, 0u8,
    ]
}

/// Builds the ATA PASS-THROUGH (16) command block for the ATA `command`.
pub fn ata_pass_through_cdb(command: u8) -> (r: [u8; 16])
    ensures
        r@ == ata_cdb(command),
{
    let protocol: u8 = (PROTOCOL << 1u8) | EXTEND;
    let flags: u8 = (CHK_COND << 5u8) | (T_DIR << 3u8) | (BYTE_BLOCK << 2u8) | T_LENGTH;
    assert(protocol == cdb_protocol_byte()) by (bit_vector)
        requires
            protocol == (3u8 << 1u8) | 0u8,
    ;
    assert(flags == cdb_flags_byte()) by (bit_vector)
        requires
            flags == (1u8 << 5u8) | (1u8 << 3u8) | (1u8 << 2u8) | 0u8,
    ;
    let r: [u8; 16] = [
        SAT_ATA_PASS_THROUGH16, protocol, flags, 0,
        0, 0, 0, 0,
        0, 0, 0, 0,
        0, 0, command, 0,
    ];
    assert(r@ =~= ata_cdb(command));
    r
}

/// Path of the device node of the block device `dev`.
pub open spec fn device_path(dev: Seq<char>) -> Seq<char> {
    "/dev/"@ + dev
}

/// An SG_IO request that runs one ATA command on a device and moves no data:
/// the ATA registers come back in a sense buffer of `sense_len` bytes.
pub struct PassthroughRequest {
    pub path: String,
    pub interface_id: i32,
    pub dxfer_direction: i32,
    pub cdb: [u8; 16],
    pub sense_len: usize,
    pub timeout_ms: u32,
}

/// What the request for the ATA `command` on the device `dev` holds.
pub open spec fn is_request_for(r: PassthroughRequest, dev: Seq<char>, command: u8) -> bool {
    &&& r.path@ == device_path(dev)
    &&& r.interface_id == SG_INTERFACE_ID
    &&& r.dxfer_direction == SG_DXFER_NONE
    &&& r.cdb@ == ata_cdb(command)
    &&& r.sense_len == SENSE_LEN
    &&& r.timeout_ms == SG_TIMEOUT_MS
}

/// Builds the SG_IO request that runs the ATA `command` on the device `dev`.
pub fn sg_request(dev: &String, command: u8) -> (r: PassthroughRequest)
    ensures
        is_request_for(r, dev@, command),
{
    let path = String::from_str("/dev/").concat(dev.as_str());
    PassthroughRequest {
        path,
        interface_id: SG_INTERFACE_ID,
        dxfer_direction: SG_DXFER_NONE,
        cdb: ata_pass_through_cdb(command),
        sense_len: SENSE_LEN,
        timeout_ms: SG_TIMEOUT_MS,
    }
}

/// Reads the power state out of the outcome of a CHECK POWER MODE request: the
/// code at `POWER_MODE_OFFSET` of the sense buffer, or the transport's error.
pub fn check_power_state(outcome: Result<[u8; 32], DeviceError>) -> (r: Result<
    PowerState,
    DeviceError,
>)
    ensures
        match outcome {
            Ok(sense) => r == Ok::<PowerState, DeviceError>(
                power_state_of(sense@[POWER_MODE_OFFSET as int]),
            ),
            Err(e) => r == Err::<PowerState, DeviceError>(e),
        },
{
    match outcome {
        Ok(sense) => Ok(decode_power_mode(sense[POWER_MODE_OFFSET])),
        Err(e) => Err(e),
    }
}

/// Builds the STANDBY IMMEDIATE request for the device `dev`. The command is
/// fire-and-forget: its sense buffer carries nothing to decode.
pub fn do_standby(dev: &String) -> (r: PassthroughRequest)
    ensures
        is_request_for(r, dev@, ATA_OP_STANDBYNOW),
{
    sg_request(dev, ATA_OP_STANDBYNOW)
}

} // verus!

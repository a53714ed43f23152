//! Report frame codec: the one place that knows the wire layout.
//!
//! Every exchange with the controller is one fixed-length report in and (for
//! most commands) one fixed-length report out. A request frame is laid out as
//! `[report id, command, address low, address high, length, payload...]`; a
//! response frame carries a status code in byte 0 and, for register reads,
//! the chunk data starting at byte 4.

use crate::error::MtError;
use vstd::prelude::*;

verus! {

/// Total length of one report frame in bytes (report id byte included).
pub const REPORT_LENGTH: usize = 33;

/// Bytes of a frame that the header occupies on a request; what is left is
/// the per-frame payload capacity of a register read or write.
pub const HEADER_LENGTH: usize = 5;

/// Largest register span one frame can carry.
pub const CHUNK_CAPACITY: usize = 28;

/// Status byte value the device answers with when a command succeeded.
pub const STATUS_OK: u8 = 0;

/// First magic byte of the version handshake.
pub const VERSION_MAGIC_0: u8 = 0x9A;

/// Second magic byte of the version handshake.
pub const VERSION_MAGIC_1: u8 = 0x4D;

/// Protocol version sent in the handshake, high byte then low byte.
pub const VERSION_HIGH: u8 = 0x00;

/// Low byte of the protocol version sent in the handshake.
pub const VERSION_LOW: u8 = 0x01;

/// The four wire commands of the protocol.
#[derive(Clone, Copy, PartialEq, Eq, Structural, Debug)]
pub enum WireCommand {
    /// Protocol version handshake.
    CheckVersion,
    /// Control-channel command (sub-command in byte 2).
    Command,
    /// Register read.
    Read,
    /// Register write.
    Write,
}

/// The control-channel sub-commands.
#[derive(Clone, Copy, PartialEq, Eq, Structural, Debug)]
pub enum SubCommand {
    /// Reboot the controller into its bootloader; no response follows.
    RebootBootloader,
    /// Enable or disable mouse mode; payload byte carries the flag.
    SetMouseMode,
    /// Query mouse mode; the response payload carries the flag.
    GetMouseMode,
}

/// Code sent on the wire for each command.
pub open spec fn command_code(c: WireCommand) -> u8 {
    match c {
        WireCommand::CheckVersion => 0,
        WireCommand::Command => 1,
        WireCommand::Read => 2,
        WireCommand::Write => 3,
    }
}

/// Code sent on the wire for each control sub-command.
pub open spec fn sub_command_code(c: SubCommand) -> u8 {
    match c {
        SubCommand::RebootBootloader => 0,
        SubCommand::SetMouseMode => 1,
        SubCommand::GetMouseMode => 2,
    }
}

impl WireCommand {
    /// Executable counterpart of [`command_code`].
    pub fn code(self) -> (code: u8)
        ensures
            code == command_code(self),
    {
        match self {
            WireCommand::CheckVersion => 0,
            WireCommand::Command => 1,
            WireCommand::Read => 2,
            WireCommand::Write => 3,
        }
    }
}

impl SubCommand {
    /// Executable counterpart of [`sub_command_code`].
    pub fn code(self) -> (code: u8)
        ensures
            code == sub_command_code(self),
    {
        match self {
            SubCommand::RebootBootloader => 0,
            SubCommand::SetMouseMode => 1,
            SubCommand::GetMouseMode => 2,
        }
    }
}

/// Low byte of a 16-bit register address as it travels on the wire.
pub open spec fn addr_low(address: u16) -> u8 {
    (address & 0xff) as u8
}

/// High byte of a 16-bit register address as it travels on the wire.
pub open spec fn addr_high(address: u16) -> u8 {
    (address >> 8) as u8
}

/// The two wire bytes of an address recombine to that address.
pub proof fn lemma_addr_bytes_roundtrip(address: u16)
    ensures
        ((addr_high(address) as u16) << 8) | (addr_low(address) as u16) == address,
{
    assert((((address >> 8) as u8 as u16) << 8) | ((address & 0xff) as u8 as u16)
        == address) by (bit_vector);
}

/// A register-read request for `length` bytes at `address`.
pub open spec fn is_read_request(f: Seq<u8>, address: u16, length: u8) -> bool {
    &&& f.len() == REPORT_LENGTH
    &&& f[0] == 0u8
    &&& f[1] == command_code(WireCommand::Read)
    &&& f[2] == addr_low(address)
    &&& f[3] == addr_high(address)
    &&& f[4] == length
    &&& forall|i: int| HEADER_LENGTH <= i < f.len() ==> f[i] == 0u8
}

/// A register-write request that puts `payload` at `address`.
pub open spec fn is_write_request(f: Seq<u8>, address: u16, payload: Seq<u8>) -> bool {
    &&& f.len() == REPORT_LENGTH
    &&& payload.len() <= CHUNK_CAPACITY
    &&& f[0] == 0u8
    &&& f[1] == command_code(WireCommand::Write)
    &&& f[2] == addr_low(address)
    &&& f[3] == addr_high(address)
    &&& f[4] == payload.len() as u8
    &&& forall|i: int|
        HEADER_LENGTH <= i < HEADER_LENGTH + payload.len() ==> #[trigger] f[i] == payload[i
            - HEADER_LENGTH]
    &&& forall|i: int|
        HEADER_LENGTH + payload.len() <= i < f.len() ==> #[trigger] f[i] == 0u8
}

/// The version-handshake request: two magic bytes then the protocol version.
pub open spec fn is_version_request(f: Seq<u8>) -> bool {
    &&& f.len() == REPORT_LENGTH
    &&& f[0] == 0u8
    &&& f[1] == command_code(WireCommand::CheckVersion)
    &&& f[2] == VERSION_MAGIC_0
    &&& f[3] == VERSION_MAGIC_1
    &&& f[4] == VERSION_HIGH
    &&& f[5] == VERSION_LOW
    &&& forall|i: int| 6 <= i < f.len() ==> f[i] == 0u8
}

/// A control-channel request with its sub-command and one argument byte.
pub open spec fn is_command_request(f: Seq<u8>, sub: SubCommand, arg: u8) -> bool {
    &&& f.len() == REPORT_LENGTH
    &&& f[0] == 0u8
    &&& f[1] == command_code(WireCommand::Command)
    &&& f[2] == sub_command_code(sub)
    &&& f[3] == arg
    &&& forall|i: int| 4 <= i < f.len() ==> f[i] == 0u8
}

/// A zero-filled frame of the fixed report length.
fn blank_frame() -> (frame: Vec<u8>)
    ensures
        frame@.len() == REPORT_LENGTH,
        forall|i: int| 0 <= i < frame@.len() ==> frame@[i] == 0u8,
{
    let mut frame: Vec<u8> = Vec::new();
    let mut i: usize = 0;
    while i < REPORT_LENGTH
        invariant
            i <= REPORT_LENGTH,
            frame@.len() == i,
            forall|j: int| 0 <= j < i ==> frame@[j] == 0u8,
        decreases REPORT_LENGTH - i,
    {
        frame.push(0);
        i = i + 1;
    }
    frame
}

/// Build the request frame that reads `length` bytes at `address`.
pub fn read_request(address: u16, length: u8) -> (frame: Vec<u8>)
    requires
        length <= CHUNK_CAPACITY,
    ensures
        is_read_request(frame@, address, length),
{
    let mut frame = blank_frame();
    frame.set(1, WireCommand::Read.code());
    frame.set(2, (address & 0xff) as u8);
    frame.set(3, (address >> 8) as u8);
    frame.set(4, length);
    frame
}

/// Build the request frame that writes `data[offset .. offset + length]` at
/// `address`.
pub fn write_request(address: u16, data: &Vec<u8>, offset: usize, length: usize) -> (frame: Vec<
    u8,
>)
    requires
        length <= CHUNK_CAPACITY,
        offset + length <= data@.len(),
    ensures
        is_write_request(frame@, address, data@.subrange(offset as int, offset + length)),
{
    let mut frame = blank_frame();
    frame.set(1, WireCommand::Write.code());
    frame.set(2, (address & 0xff) as u8);
    frame.set(3, (address >> 8) as u8);
    frame.set(4, length as u8);
    let data_len = data.len();
    let mut i: usize = 0;
    while i < length
        invariant
            i <= length,
            length <= CHUNK_CAPACITY,
            offset + length <= data_len,
            data_len == data@.len(),
            frame@.len() == REPORT_LENGTH,
            frame@[0] == 0u8,
            frame@[1] == command_code(WireCommand::Write),
            frame@[2] == addr_low(address),
            frame@[3] == addr_high(address),
            frame@[4] == length as u8,
            forall|j: int|
                HEADER_LENGTH <= j < HEADER_LENGTH + i ==> #[trigger] frame@[j] == data@[j
                    - HEADER_LENGTH + offset],
            forall|j: int|
                HEADER_LENGTH + i <= j < frame@.len() ==> #[trigger] frame@[j] == 0u8,
        decreases length - i,
    {
        frame.set(HEADER_LENGTH + i, data[offset + i]);
        i = i + 1;
    }
    frame
}

/// Build the version-handshake request frame.
pub fn version_request() -> (frame: Vec<u8>)
    ensures
        is_version_request(frame@),
{
    let mut frame = blank_frame();
    frame.set(1, WireCommand::CheckVersion.code());
    frame.set(2, VERSION_MAGIC_0);
    frame.set(3, VERSION_MAGIC_1);
    frame.set(4, VERSION_HIGH);
    frame.set(5, VERSION_LOW);
    frame
}

/// Build a control-channel request frame.
pub fn command_request(sub: SubCommand, arg: u8) -> (frame: Vec<u8>)
    ensures
        is_command_request(frame@, sub, arg),
{
    let mut frame = blank_frame();
    frame.set(1, WireCommand::Command.code());
    frame.set(2, sub.code());
    frame.set(3, arg);
    frame
}

/// Read a response frame's status byte: OK, or the device-reported error
/// code it carries.
pub fn response_status(frame: &Vec<u8>) -> (r: Result<(), MtError>)
    requires
        frame@.len() == REPORT_LENGTH,
    ensures
        r is Ok <==> frame@[0] == STATUS_OK,
        r is Err ==> r->Err_0 == MtError::DeviceError(frame@[0]),
    {
    if frame[0] == STATUS_OK {
        Ok(())
    } else {
        Err(MtError::DeviceError(frame[0]))
    }
}

/// Read the boolean answer of a mouse-mode query out of a response frame.
/// The flag travels in byte 1; any non-zero value means enabled.
pub fn response_flag(frame: &Vec<u8>) -> (flag: bool)
    requires
        frame@.len() == REPORT_LENGTH,
    ensures
        flag == (frame@[1] != 0u8),
{
    frame[1] != 0
}

} // verus!

//! Packet codec: commands, frame layouts, request validation and response
//! serialization.
use vstd::prelude::*;

use crate::checksum::{checksum_bytes, checksum_le};
use crate::section_mark::{SectionMark, CHUNK_BIT_IDX, PAGE_BITMAP_SIZE, WRITE_CHUNK_SIZE};

verus! {

/// Last byte of every frame.
pub const EOF_SIGNATURE: u8 = 0xFF;

/// Protocol revision reported by the device-info response.
pub const PROTOCOL_VERSION_BYTE: u8 = 0x01;

/// Smallest unit that the flash can program, in bytes.
pub const WRITE_SIZE: usize = 8;

/// Length of the device serial number, and of the nonce derived from it.
pub const SERIAL_LEN: usize = 12;

/// Size of every frame that carries no field besides its markers.
pub const BARE_FORM_SIZE: usize = 3;

/// Size of a device-info response.
pub const DEVICE_INFO_RESPONSE_SIZE: usize = 7 + SERIAL_LEN;

/// Size of a start-update response.
pub const START_UPDATE_RESPONSE_SIZE: usize = 5 + SERIAL_LEN;

/// Size of a write-chunk request.
pub const WRITE_CHUNK_REQUEST_SIZE: usize = 9 + WRITE_CHUNK_SIZE;

/// Size of a write-chunk response.
pub const WRITE_CHUNK_RESPONSE_SIZE: usize = 4;

/// Size of an update-status response.
pub const UPDATE_STATUS_RESPONSE_SIZE: usize = 5 + PAGE_BITMAP_SIZE;

#[derive(Clone, Copy, PartialEq, Eq, Structural, Debug)]
pub enum Command {
    Handshake,
    DeviceInfo,
    StartUpdate,
    WriteChunk,
    UpdateStatus,
    Reset,
    JumpToApplication,
}

impl Command {
    /// Wire code of the command.
    pub open spec fn spec_byte(self) -> u8 {
        match self {
            Command::Handshake => 0x01,
            Command::DeviceInfo => 0x02,
            Command::StartUpdate => 0x30,
            Command::WriteChunk => 0x40,
            Command::UpdateStatus => 0xE0,
            Command::Reset => 0xF0,
            Command::JumpToApplication => 0xF1,
        }
    }

    pub fn as_byte(&self) -> (r: u8)
        ensures
            r == self.spec_byte(),
    {
        match self {
            Command::Handshake => 0x01,
            Command::DeviceInfo => 0x02,
            Command::StartUpdate => 0x30,
            Command::WriteChunk => 0x40,
            Command::UpdateStatus => 0xE0,
            Command::Reset => 0xF0,
            Command::JumpToApplication => 0xF1,
        }
    }
}

/// The command whose wire code is `b`, or `UnknownCommand`.
pub open spec fn command_from_byte(b: u8) -> Result<Command, OtaError> {
    if b == 0x01 {
        Ok(Command::Handshake)
    } else if b == 0x02 {
        Ok(Command::DeviceInfo)
    } else if b == 0x30 {
        Ok(Command::StartUpdate)
    } else if b == 0x40 {
        Ok(Command::WriteChunk)
    } else if b == 0xE0 {
        Ok(Command::UpdateStatus)
    } else if b == 0xF0 {
        Ok(Command::Reset)
    } else if b == 0xF1 {
        Ok(Command::JumpToApplication)
    } else {
        Err(OtaError::UnknownCommand)
    }
}

impl TryFrom<u8> for Command {
    type Error = OtaError;

    fn try_from(value: u8) -> (r: Result<Self, Self::Error>) {
        match value {
            0x01 => Ok(Command::Handshake),
            0x02 => Ok(Command::DeviceInfo),
            0x30 => Ok(Command::StartUpdate),
            0x40 => Ok(Command::WriteChunk),
            0xE0 => Ok(Command::UpdateStatus),
            0xF0 => Ok(Command::Reset),
            0xF1 => Ok(Command::JumpToApplication),
            _ => Err(OtaError::UnknownCommand),
        }
    }
}

impl vstd::std_specs::convert::TryFromSpecImpl<u8> for Command {
    open spec fn obeys_try_from_spec() -> bool {
        true
    }

    open spec fn try_from_spec(v: u8) -> Result<Self, OtaError> {
        command_from_byte(v)
    }
}

/// Result codes, as carried by the write-chunk response.
#[derive(Clone, Copy, PartialEq, Eq, Structural, Debug)]
pub enum OtaError {
    Nothing,
    ChecksumError,
    UnknownCommand,
    OutOfRange,
    MissingEof,
    MissingSof,
    FlashProg,
    FlashSize,
    FlashMiss,
    FlashSeq,
    FlashProtected,
    FlashUnaligned,
    FlashParallelism,
    UnknownError,
}

impl OtaError {
    /// Wire code of the result.
    pub open spec fn spec_byte(self) -> u8 {
        match self {
            OtaError::Nothing => 0x00,
            OtaError::ChecksumError => 0x80,
            OtaError::UnknownCommand => 0x81,
            OtaError::OutOfRange => 0x82,
            OtaError::MissingEof => 0x83,
            OtaError::MissingSof => 0x84,
            OtaError::FlashProg => 0x90,
            OtaError::FlashSize => 0x91,
            OtaError::FlashMiss => 0x92,
            OtaError::FlashSeq => 0x93,
            OtaError::FlashProtected => 0x94,
            OtaError::FlashUnaligned => 0x95,
            OtaError::FlashParallelism => 0x96,
            OtaError::UnknownError => 0xFF,
        }
    }

    pub fn as_byte(&self) -> (r: u8)
        ensures
            r == self.spec_byte(),
    {
        match self {
            OtaError::Nothing => 0x00,
            OtaError::ChecksumError => 0x80,
            OtaError::UnknownCommand => 0x81,
            OtaError::OutOfRange => 0x82,
            OtaError::MissingEof => 0x83,
            OtaError::MissingSof => 0x84,
            OtaError::FlashProg => 0x90,
            OtaError::FlashSize => 0x91,
            OtaError::FlashMiss => 0x92,
            OtaError::FlashSeq => 0x93,
            OtaError::FlashProtected => 0x94,
            OtaError::FlashUnaligned => 0x95,
            OtaError::FlashParallelism => 0x96,
            OtaError::UnknownError => 0xFF,
        }
    }
}

/// Failures that the flash driver reports for a blocking write.
#[derive(Clone, Copy, PartialEq, Eq, Structural, Debug)]
pub enum FlashError {
    Prog,
    Size,
    Miss,
    Sequence,
    Protected,
    Unaligned,
    Parallelism,
}

/// The result code that reports a flash failure.
pub open spec fn flash_error_code(e: FlashError) -> OtaError {
    match e {
        FlashError::Prog => OtaError::FlashProg,
        FlashError::Size => OtaError::FlashSize,
        FlashError::Miss => OtaError::FlashMiss,
        FlashError::Sequence => OtaError::FlashSeq,
        FlashError::Protected => OtaError::FlashProtected,
        FlashError::Unaligned => OtaError::FlashUnaligned,
        FlashError::Parallelism => OtaError::FlashParallelism,
    }
}

impl From<FlashError> for OtaError {
    fn from(value: FlashError) -> (r: Self) {
        match value {
            FlashError::Prog => OtaError::FlashProg,
            FlashError::Size => OtaError::FlashSize,
            FlashError::Miss => OtaError::FlashMiss,
            FlashError::Sequence => OtaError::FlashSeq,
            FlashError::Protected => OtaError::FlashProtected,
            FlashError::Unaligned => OtaError::FlashUnaligned,
            FlashError::Parallelism => OtaError::FlashParallelism,
        }
    }
}

impl vstd::std_specs::convert::FromSpecImpl<FlashError> for OtaError {
    open spec fn obeys_from_spec() -> bool {
        true
    }

    open spec fn from_spec(v: FlashError) -> OtaError {
        flash_error_code(v)
    }
}

#[derive(Clone, Copy, PartialEq, Eq, Structural, Debug)]
pub enum Sof {
    /// Host to device.
    Request,
    /// Device to host.
    Response,
}

impl Sof {
    pub open spec fn spec_byte(self) -> u8 {
        match self {
            Sof::Request => 0xAA,
            Sof::Response => 0xBB,
        }
    }

    pub fn as_byte(&self) -> (r: u8)
        ensures
            r == self.spec_byte(),
    {
        match self {
            Sof::Request => 0xAA,
            Sof::Response => 0xBB,
        }
    }
}

/// Fixed size of the request frame of `c`.
pub open spec fn request_size(c: Command) -> nat {
    match c {
        Command::WriteChunk => WRITE_CHUNK_REQUEST_SIZE as nat,
        _ => BARE_FORM_SIZE as nat,
    }
}

/// Fixed size of the response frame of `c`.
pub open spec fn response_size(c: Command) -> nat {
    match c {
        Command::DeviceInfo => DEVICE_INFO_RESPONSE_SIZE as nat,
        Command::StartUpdate => START_UPDATE_RESPONSE_SIZE as nat,
        Command::WriteChunk => WRITE_CHUNK_RESPONSE_SIZE as nat,
        Command::UpdateStatus => UPDATE_STATUS_RESPONSE_SIZE as nat,
        _ => BARE_FORM_SIZE as nat,
    }
}

pub fn request_packet_size(command: Command) -> (r: usize)
    ensures
        r == request_size(command),
{
    match command {
        Command::WriteChunk => WRITE_CHUNK_REQUEST_SIZE,
        _ => BARE_FORM_SIZE,
    }
}

pub fn response_packet_size(command: Command) -> (r: usize)
    ensures
        r == response_size(command),
{
    match command {
        Command::Handshake => BARE_FORM_SIZE,
        Command::DeviceInfo => DEVICE_INFO_RESPONSE_SIZE,
        Command::StartUpdate => START_UPDATE_RESPONSE_SIZE,
        Command::WriteChunk => WRITE_CHUNK_RESPONSE_SIZE,
        Command::UpdateStatus => UPDATE_STATUS_RESPONSE_SIZE,
        Command::Reset => BARE_FORM_SIZE,
        Command::JumpToApplication => BARE_FORM_SIZE,
    }
}

fn max_usize(a: usize, b: usize) -> (r: usize)
    ensures
        r == if a > b { a } else { b },
{
    if a > b {
        a
    } else {
        b
    }
}

/// Size of the largest response frame: the transmit buffer must hold it.
pub fn response_packet_max_size() -> (r: usize)
    ensures
        forall|c: Command| response_size(c) <= r,
        exists|c: Command| response_size(c) == r,
{
    let mut ret = response_packet_size(Command::Handshake);
    ret = max_usize(ret, response_packet_size(Command::DeviceInfo));
    ret = max_usize(ret, response_packet_size(Command::StartUpdate));
    ret = max_usize(ret, response_packet_size(Command::WriteChunk));
    ret = max_usize(ret, response_packet_size(Command::UpdateStatus));
    ret = max_usize(ret, response_packet_size(Command::Reset));
    ret = max_usize(ret, response_packet_size(Command::JumpToApplication));
    assert(response_size(Command::UpdateStatus) == ret);
    ret
}

pub fn packet_size(sof: Sof, command: Command) -> (r: usize)
    ensures
        r == match sof {
            Sof::Request => request_size(command),
            Sof::Response => response_size(command),
        },
{
    match sof {
        Sof::Request => request_packet_size(command),
        Sof::Response => response_packet_size(command),
    }
}

/// Little-endian bytes of a 32-bit value.
pub open spec fn le32(v: u32) -> Seq<u8> {
    seq![
        (v % 0x100) as u8,
        (v / 0x100 % 0x100) as u8,
        (v / 0x100 / 0x100 % 0x100) as u8,
        (v / 0x100 / 0x100 / 0x100) as u8,
    ]
}

/// The 32-bit value whose little-endian bytes are `b[0..4]`.
pub open spec fn from_le32(b: Seq<u8>) -> u32 {
    (b[0] + 0x100 * b[1] + 0x1_0000 * b[2] + 0x100_0000 * b[3]) as u32
}

/// Bytes are read back as the value they encode.
pub proof fn lemma_le32_round_trip(v: u32)
    ensures
        from_le32(le32(v)) == v,
{
    let q1 = v / 0x100;
    let q2 = q1 / 0x100;
    let q3 = q2 / 0x100;
    assert(v == v % 0x100 + 0x100 * q1);
    assert(q1 == q1 % 0x100 + 0x100 * q2);
    assert(q2 == q2 % 0x100 + 0x100 * q3);
    assert(q3 < 0x100);
}

/// Appends `s` to `v`.
fn push_bytes(v: &mut Vec<u8>, s: &[u8])
    ensures
        final(v)@ == old(v)@ + s@,
{
    let mut i: usize = 0;
    while i < s.len()
        invariant
            i <= s@.len(),
            v@ == old(v)@ + s@.take(i as int),
        decreases s.len() - i,
    {
        v.push(s[i]);
        i = i + 1;
        assert(s@.take(i as int) =~= s@.take(i - 1) + seq![s@[i - 1]]);
    }
    assert(s@.take(s@.len() as int) =~= s@);
}

/// A three-byte frame: markers and command only.
pub open spec fn bare_bytes(sof: Sof, command: Command, eof: u8) -> Seq<u8> {
    seq![sof.spec_byte(), command.spec_byte(), eof]
}

fn bare_to_bytes(sof: Sof, command: Command, eof: u8) -> (r: Vec<u8>)
    ensures
        r@ == bare_bytes(sof, command, eof),
{
    let mut v: Vec<u8> = Vec::new();
    v.push(sof.as_byte());
    v.push(command.as_byte());
    v.push(eof);
    assert(v@ =~= bare_bytes(sof, command, eof));
    v
}

/// A request, decoded from a validated frame.
#[derive(Clone, Copy, Debug)]
pub enum RequestForm {
    Handshake,
    DeviceInfo,
    StartUpdate,
    WriteChunk(WriteChunkRequestForm),
    UpdateStatus,
    Reset,
    JumpToApplication,
}

impl RequestForm {
    pub open spec fn command(self) -> Command {
        match self {
            RequestForm::Handshake => Command::Handshake,
            RequestForm::DeviceInfo => Command::DeviceInfo,
            RequestForm::StartUpdate => Command::StartUpdate,
            RequestForm::WriteChunk(_) => Command::WriteChunk,
            RequestForm::UpdateStatus => Command::UpdateStatus,
            RequestForm::Reset => Command::Reset,
            RequestForm::JumpToApplication => Command::JumpToApplication,
        }
    }

    /// The frame that carries this request.
    pub open spec fn spec_bytes(self) -> Seq<u8> {
        match self {
            RequestForm::WriteChunk(f) => f.spec_bytes(),
            _ => bare_bytes(Sof::Request, self.command(), EOF_SIGNATURE),
        }
    }

    pub fn command_of(&self) -> (r: Command)
        ensures
            r == self.command(),
    {
        match self {
            RequestForm::Handshake => Command::Handshake,
            RequestForm::DeviceInfo => Command::DeviceInfo,
            RequestForm::StartUpdate => Command::StartUpdate,
            RequestForm::WriteChunk(_) => Command::WriteChunk,
            RequestForm::UpdateStatus => Command::UpdateStatus,
            RequestForm::Reset => Command::Reset,
            RequestForm::JumpToApplication => Command::JumpToApplication,
        }
    }
}

/// What validation of `p` as a request frame decides: the command, or the
/// framing error.
pub open spec fn parse_outcome(p: Seq<u8>) -> Result<Command, OtaError> {
    if p.len() == 0 {
        Err(OtaError::OutOfRange)
    } else if p[0] != Sof::Request.spec_byte() {
        Err(OtaError::MissingSof)
    } else if p.len() < 2 {
        Err(OtaError::OutOfRange)
    } else {
        match command_from_byte(p[1]) {
            Err(e) => Err(e),
            Ok(c) => if p.len() < request_size(c) {
                Err(OtaError::OutOfRange)
            } else if p[request_size(c) - 1] != EOF_SIGNATURE {
                Err(OtaError::MissingEof)
            } else {
                Ok(c)
            },
        }
    }
}

/// Validates `packet` as a request frame and decodes it. The frame is the
/// first `request_size` bytes; what follows them is not read.
pub fn test_packet(packet: &[u8]) -> (r: Result<RequestForm, OtaError>)
    ensures
        match parse_outcome(packet@) {
            Err(e) => r == Err::<RequestForm, OtaError>(e),
            Ok(c) => r is Ok && r->Ok_0.command() == c && r->Ok_0.spec_bytes() == packet@.take(
                request_size(c) as int,
            ),
        },
{
    if packet.len() == 0 {
        return Err(OtaError::OutOfRange);
    }
    if packet[0] != Sof::Request.as_byte() {
        return Err(OtaError::MissingSof);
    }
    if packet.len() < 2 {
        return Err(OtaError::OutOfRange);
    }
    let cmd = match Command::try_from(packet[1]) {
        Ok(c) => c,
        Err(e) => {
            return Err(e);
        },
    };
    let estimated_packet_size = request_packet_size(cmd);
    if packet.len() < estimated_packet_size {
        return Err(OtaError::OutOfRange);
    } else if packet[estimated_packet_size - 1] != EOF_SIGNATURE {
        return Err(OtaError::MissingEof);
    }
    let r = match cmd {
        Command::Handshake => RequestForm::Handshake,
        Command::DeviceInfo => RequestForm::DeviceInfo,
        Command::StartUpdate => RequestForm::StartUpdate,
        Command::WriteChunk => RequestForm::WriteChunk(WriteChunkRequestForm::decode(packet)),
        Command::UpdateStatus => RequestForm::UpdateStatus,
        Command::Reset => RequestForm::Reset,
        Command::JumpToApplication => RequestForm::JumpToApplication,
    };
    assert(r.spec_bytes() =~= packet@.take(request_size(cmd) as int));
    Ok(r)
}

/// Each command is recovered from its wire code; a byte that is no command's
/// code is an unknown command.
pub proof fn lemma_command_codes(b: u8, c: Command)
    ensures
        command_from_byte(c.spec_byte()) == Ok::<Command, OtaError>(c),
        command_from_byte(b) is Ok ==> command_from_byte(b)->Ok_0.spec_byte() == b,
        command_from_byte(b) is Err ==> command_from_byte(b) == Err::<Command, OtaError>(
            OtaError::UnknownCommand,
        ),
{
}

/// A frame that starts with the request marker decodes to the command that
/// its second byte names, once it is complete and terminated; a second byte
/// that names no command fails with `UnknownCommand`.
pub proof fn lemma_parse_recovers_command(p: Seq<u8>)
    requires
        p.len() >= 2,
        p[0] == Sof::Request.spec_byte(),
    ensures
        command_from_byte(p[1]) is Err ==> parse_outcome(p) == Err::<Command, OtaError>(
            OtaError::UnknownCommand,
        ),
        command_from_byte(p[1]) is Ok ==> {
            let c = command_from_byte(p[1])->Ok_0;
            p.len() >= request_size(c) && p[request_size(c) - 1] == EOF_SIGNATURE ==> parse_outcome(
                p,
            ) == Ok::<Command, OtaError>(c)
        },
        parse_outcome(p) is Ok ==> parse_outcome(p)->Ok_0.spec_byte() == p[1],
{
}

/// A request frame shorter than its command's fixed size is incomplete.
pub proof fn lemma_short_frame_out_of_range(p: Seq<u8>, c: Command)
    requires
        p.len() < request_size(c),
        p.len() >= 1 ==> p[0] == Sof::Request.spec_byte(),
        p.len() >= 2 ==> p[1] == c.spec_byte(),
    ensures
        parse_outcome(p) == Err::<Command, OtaError>(OtaError::OutOfRange),
{
}

/// A request frame of exactly its command's size is accepted when its last
/// byte is the end marker, and fails with `MissingEof` otherwise.
pub proof fn lemma_eof_decides(p: Seq<u8>, c: Command)
    requires
        p.len() == request_size(c),
        p[0] == Sof::Request.spec_byte(),
        p[1] == c.spec_byte(),
    ensures
        p.last() != EOF_SIGNATURE ==> parse_outcome(p) == Err::<Command, OtaError>(
            OtaError::MissingEof,
        ),
        p.last() == EOF_SIGNATURE ==> parse_outcome(p) == Ok::<Command, OtaError>(c),
{
}

#[derive(Clone, Copy, Debug)]
pub struct HandshakeForm {
    pub sof: Sof,
    pub command: Command,
    pub eof: u8,
}

impl HandshakeForm {
    pub open spec fn spec_bytes(&self) -> Seq<u8> {
        bare_bytes(self.sof, self.command, self.eof)
    }

    pub fn request_new() -> (r: Self)
        ensures
            r.spec_bytes() == RequestForm::Handshake.spec_bytes(),
    {
        Self { sof: Sof::Request, command: Command::Handshake, eof: EOF_SIGNATURE }
    }

    pub fn response_new() -> (r: Self)
        ensures
            r.spec_bytes() == bare_bytes(Sof::Response, Command::Handshake, EOF_SIGNATURE),
    {
        Self { sof: Sof::Response, command: Command::Handshake, eof: EOF_SIGNATURE }
    }

    pub fn to_bytes(&self) -> (r: Vec<u8>)
        ensures
            r@ == self.spec_bytes(),
    {
        bare_to_bytes(self.sof, self.command, self.eof)
    }
}

#[derive(Clone, Copy, Debug)]
pub struct DeviceInfoRequestForm {
    pub sof: Sof,
    pub command: Command,
    pub eof: u8,
}

impl DeviceInfoRequestForm {
    pub open spec fn spec_bytes(&self) -> Seq<u8> {
        bare_bytes(self.sof, self.command, self.eof)
    }

    pub fn new() -> (r: Self)
        ensures
            r.spec_bytes() == RequestForm::DeviceInfo.spec_bytes(),
    {
        Self { sof: Sof::Request, command: Command::DeviceInfo, eof: EOF_SIGNATURE }
    }

    pub fn to_bytes(&self) -> (r: Vec<u8>)
        ensures
            r@ == self.spec_bytes(),
    {
        bare_to_bytes(self.sof, self.command, self.eof)
    }
}

/// The bytes that the device-info checksum covers: protocol version, chunk
/// size exponent and serial number.
pub open spec fn device_info_source(version: u8, exponent: u8, serial: Seq<u8>) -> Seq<u8> {
    seq![version, exponent] + serial
}

#[derive(Clone, Copy, Debug)]
pub struct DeviceInfoResponseForm {
    pub sof: Sof,
    pub command: Command,
    pub checksum: [u8; 2],
    pub protocol_version: u8,
    pub payload_exponent: u8,
    pub serial_number: [u8; SERIAL_LEN],
    pub eof: u8,
}

impl DeviceInfoResponseForm {
    pub open spec fn spec_bytes(&self) -> Seq<u8> {
        seq![self.sof.spec_byte(), self.command.spec_byte()] + self.checksum@ + device_info_source(
            self.protocol_version,
            self.payload_exponent,
            self.serial_number@,
        ) + seq![self.eof]
    }

    pub open spec fn spec_checksum_source(&self) -> Seq<u8> {
        device_info_source(self.protocol_version, self.payload_exponent, self.serial_number@)
    }

    /// The response that reports `serial`, with its checksum.
    pub open spec fn is_response_for(&self, serial: Seq<u8>) -> bool {
        &&& self.sof == Sof::Response
        &&& self.command == Command::DeviceInfo
        &&& self.protocol_version == PROTOCOL_VERSION_BYTE
        &&& self.payload_exponent == CHUNK_BIT_IDX
        &&& self.serial_number@ == serial
        &&& self.eof == EOF_SIGNATURE
        &&& self.checksum@ == checksum_le(self.spec_checksum_source())
    }

    pub fn checksum_source(&self) -> (r: Vec<u8>)
        ensures
            r@ == self.spec_checksum_source(),
    {
        let mut v: Vec<u8> = Vec::new();
        v.push(self.protocol_version);
        v.push(self.payload_exponent);
        push_bytes(&mut v, &self.serial_number);
        assert(v@ =~= self.spec_checksum_source());
        v
    }

    pub fn new(board: &crate::session::Board) -> (r: Self)
        ensures
            r.is_response_for(board.serial_number@),
    {
        let mut ret = Self {
            sof: Sof::Response,
            command: Command::DeviceInfo,
            checksum: [0;2],
            protocol_version: PROTOCOL_VERSION_BYTE,
            payload_exponent: CHUNK_BIT_IDX as u8,
            serial_number: board.get_serial_number(),
            eof: EOF_SIGNATURE,
        };
        let source = ret.checksum_source();
        ret.checksum = checksum_bytes(source.as_slice());
        ret
    }

    pub fn to_bytes(&self) -> (r: Vec<u8>)
        ensures
            r@ == self.spec_bytes(),
    {
        let mut v: Vec<u8> = Vec::new();
        v.push(self.sof.as_byte());
        v.push(self.command.as_byte());
        push_bytes(&mut v, &self.checksum);
        v.push(self.protocol_version);
        v.push(self.payload_exponent);
        push_bytes(&mut v, &self.serial_number);
        v.push(self.eof);
        assert(v@ =~= self.spec_bytes());
        v
    }

    /// Reads a device-info response frame back into its fields.
    pub fn from_bytes(p: &[u8]) -> (r: Option<Self>)
        ensures
            r is Some <==> (p@.len() >= DEVICE_INFO_RESPONSE_SIZE && p@[0]
                == Sof::Response.spec_byte() && p@[1] == Command::DeviceInfo.spec_byte() && p@[
            DEVICE_INFO_RESPONSE_SIZE - 1] == EOF_SIGNATURE),
            r is Some ==> r->Some_0.spec_bytes() == p@.take(DEVICE_INFO_RESPONSE_SIZE as int),
    {
        if p.len() < DEVICE_INFO_RESPONSE_SIZE || p[0] != Sof::Response.as_byte() || p[1]
            != Command::DeviceInfo.as_byte() || p[DEVICE_INFO_RESPONSE_SIZE - 1] != EOF_SIGNATURE {
            return None;
        }
        let mut serial = [0u8; SERIAL_LEN];
        let mut i: usize = 0;
        while i < SERIAL_LEN
            invariant
                i <= SERIAL_LEN,
                p@.len() >= DEVICE_INFO_RESPONSE_SIZE,
                forall|j: int| 0 <= j < i ==> serial@[j] == p@[6 + j],
            decreases SERIAL_LEN - i,
        {
            serial[i] = p[6 + i];
            i = i + 1;
        }
        let r = Self {
            sof: Sof::Response,
            command: Command::DeviceInfo,
            checksum: [p[2], p[3]],
            protocol_version: p[4],
            payload_exponent: p[5],
            serial_number: serial,
            eof: p[DEVICE_INFO_RESPONSE_SIZE - 1],
        };
        assert(r.spec_bytes() =~= p@.take(DEVICE_INFO_RESPONSE_SIZE as int));
        Some(r)
    }
}

/// A device-info response read back from the bytes of one built for a serial
/// number carries the same protocol version, exponent and serial number, and
/// its checksum matches the one recomputed over the same byte range.
pub proof fn lemma_device_info_round_trip(
    built: DeviceInfoResponseForm,
    read: DeviceInfoResponseForm,
    serial: Seq<u8>,
)
    requires
        built.is_response_for(serial),
        read.spec_bytes() == built.spec_bytes(),
    ensures
        read.is_response_for(serial),
{
    let b = built.spec_bytes();
    let r = read.spec_bytes();
    assert(read.sof.spec_byte() == r[0]);
    assert(read.command.spec_byte() == r[1]);
    assert(read.checksum@ =~= r.subrange(2, 4));
    assert(built.checksum@ =~= b.subrange(2, 4));
    assert(read.serial_number@ =~= r.subrange(6, 6 + SERIAL_LEN));
    assert(built.serial_number@ =~= b.subrange(6, 6 + SERIAL_LEN));
    assert(read.protocol_version == r[4]);
    assert(read.payload_exponent == r[5]);
    assert(read.eof == r[DEVICE_INFO_RESPONSE_SIZE - 1]);
}

#[derive(Clone, Copy, Debug)]
pub struct StartUpdateRequestForm {
    pub sof: Sof,
    pub command: Command,
    pub eof: u8,
}

impl StartUpdateRequestForm {
    pub open spec fn spec_bytes(&self) -> Seq<u8> {
        bare_bytes(self.sof, self.command, self.eof)
    }

    pub fn new() -> (r: Self)
        ensures
            r.spec_bytes() == RequestForm::StartUpdate.spec_bytes(),
    {
        Self { sof: Sof::Request, command: Command::StartUpdate, eof: EOF_SIGNATURE }
    }

    pub fn to_bytes(&self) -> (r: Vec<u8>)
        ensures
            r@ == self.spec_bytes(),
    {
        bare_to_bytes(self.sof, self.command, self.eof)
    }
}

#[derive(Clone, Copy, Debug)]
pub struct StartUpdateResponseForm {
    pub sof: Sof,
    pub command: Command,
    pub checksum: [u8; 2],
    pub nonce: [u8; SERIAL_LEN],
    pub eof: u8,
}

impl StartUpdateResponseForm {
    pub open spec fn spec_bytes(&self) -> Seq<u8> {
        seq![self.sof.spec_byte(), self.command.spec_byte()] + self.checksum@ + self.nonce@ + seq![
            self.eof,
        ]
    }

    pub fn new(board: &crate::session::Board) -> (r: Self)
        ensures
            r.sof == Sof::Response,
            r.command == Command::StartUpdate,
            r.nonce == board.nonce(),
            r.checksum@ == checksum_le(r.nonce@),
            r.eof == EOF_SIGNATURE,
    {
        let nonce = board.get_nonce();
        Self {
            sof: Sof::Response,
            command: Command::StartUpdate,
            checksum: checksum_bytes(&nonce),
            nonce,
            eof: EOF_SIGNATURE,
        }
    }

    pub fn to_bytes(&self) -> (r: Vec<u8>)
        ensures
            r@ == self.spec_bytes(),
    {
        let mut v: Vec<u8> = Vec::new();
        v.push(self.sof.as_byte());
        v.push(self.command.as_byte());
        push_bytes(&mut v, &self.checksum);
        push_bytes(&mut v, &self.nonce);
        v.push(self.eof);
        assert(v@ =~= self.spec_bytes());
        v
    }
}

#[derive(Clone, Copy, Debug)]
pub struct WriteChunkRequestForm {
    pub sof: Sof,
    pub command: Command,
    /// Little-endian low 16 bits of the CRC of offset and payload.
    pub checksum: [u8; 2],
    /// Little-endian absolute flash offset.
    pub offset: [u8; 4],
    pub payload: [u8; WRITE_CHUNK_SIZE],
    pub eof: u8,
}

impl WriteChunkRequestForm {
    pub open spec fn spec_bytes(&self) -> Seq<u8> {
        seq![self.sof.spec_byte(), self.command.spec_byte()] + self.checksum@ + self.offset@
            + self.payload@ + seq![self.eof]
    }

    /// The bytes that the checksum covers: offset followed by payload.
    pub open spec fn spec_checksum_source(&self) -> Seq<u8> {
        self.offset@ + self.payload@
    }

    /// The flash offset that the request names.
    pub open spec fn address(&self) -> u32 {
        from_le32(self.offset@)
    }

    pub fn checksum_source(&self) -> (r: Vec<u8>)
        ensures
            r@ == self.spec_checksum_source(),
    {
        let mut v: Vec<u8> = Vec::new();
        push_bytes(&mut v, &self.offset);
        push_bytes(&mut v, &self.payload);
        v
    }

    pub fn flash_address(&self) -> (r: u32)
        ensures
            r == self.address(),
    {
        self.offset[0] as u32 + 0x100 * (self.offset[1] as u32) + 0x1_0000 * (self.offset[2] as u32)
            + 0x100_0000 * (self.offset[3] as u32)
    }

    /// Builds the request that carries `bytes` for `offset`, checksum
    /// included. An offset off the flash write granularity is refused.
    pub fn new_std(offset: u32, bytes: &[u8; WRITE_CHUNK_SIZE]) -> (r: Result<Self, OtaError>)
        ensures
            offset % (WRITE_SIZE as u32) != 0 ==> r == Err::<Self, OtaError>(
                OtaError::FlashUnaligned,
            ),
            offset % (WRITE_SIZE as u32) == 0 ==> r is Ok,
            r is Ok ==> {
                let f = r->Ok_0;
                &&& f.sof == Sof::Request
                &&& f.command == Command::WriteChunk
                &&& f.offset@ == le32(offset)
                &&& f.address() == offset
                &&& f.payload@ == bytes@
                &&& f.eof == EOF_SIGNATURE
                &&& f.checksum@ == checksum_le(f.spec_checksum_source())
            },
    {
        if offset % (WRITE_SIZE as u32) != 0 || WRITE_CHUNK_SIZE % WRITE_SIZE != 0 {
            return Err(OtaError::FlashUnaligned);
        }
        let offset_bytes = [
            (offset % 0x100) as u8,
            (offset / 0x100 % 0x100) as u8,
            (offset / 0x100 / 0x100 % 0x100) as u8,
            (offset / 0x100 / 0x100 / 0x100) as u8,
        ];
        let mut ret = Self {
            sof: Sof::Request,
            command: Command::WriteChunk,
            checksum: [0;2],
            offset: offset_bytes,
            payload: *bytes,
            eof: EOF_SIGNATURE,
        };
        assert(ret.offset@ =~= le32(offset));
        proof {
            lemma_le32_round_trip(offset);
        }
        let source = ret.checksum_source();
        ret.checksum = checksum_bytes(source.as_slice());
        Ok(ret)
    }

    /// Reads the fields of a write-chunk frame.
    fn decode(p: &[u8]) -> (r: Self)
        requires
            p@.len() >= WRITE_CHUNK_REQUEST_SIZE,
            p@[0] == Sof::Request.spec_byte(),
            p@[1] == Command::WriteChunk.spec_byte(),
        ensures
            r.spec_bytes() == p@.take(WRITE_CHUNK_REQUEST_SIZE as int),
    {
        let mut payload = [0u8; WRITE_CHUNK_SIZE];
        let mut i: usize = 0;
        while i < WRITE_CHUNK_SIZE
            invariant
                i <= WRITE_CHUNK_SIZE,
                p@.len() >= WRITE_CHUNK_REQUEST_SIZE,
                forall|j: int| 0 <= j < i ==> payload@[j] == p@[8 + j],
            decreases WRITE_CHUNK_SIZE - i,
        {
            payload[i] = p[8 + i];
            i = i + 1;
        }
        let r = Self {
            sof: Sof::Request,
            command: Command::WriteChunk,
            checksum: [p[2], p[3]],
            offset: [p[4], p[5], p[6], p[7]],
            payload,
            eof: p[WRITE_CHUNK_REQUEST_SIZE - 1],
        };
        assert(r.spec_bytes() =~= p@.take(WRITE_CHUNK_REQUEST_SIZE as int));
        r
    }

    pub fn to_bytes(&self) -> (r: Vec<u8>)
        ensures
            r@ == self.spec_bytes(),
    {
        let mut v: Vec<u8> = Vec::new();
        v.push(self.sof.as_byte());
        v.push(self.command.as_byte());
        push_bytes(&mut v, &self.checksum);
        push_bytes(&mut v, &self.offset);
        push_bytes(&mut v, &self.payload);
        v.push(self.eof);
        assert(v@ =~= self.spec_bytes());
        v
    }
}

/// The result code that reports `result`.
pub open spec fn result_code(result: Result<(), OtaError>) -> OtaError {
    match result {
        Ok(_) => OtaError::Nothing,
        Err(e) => e,
    }
}

#[derive(Clone, Copy, Debug)]
pub struct WriteChunkResponseForm {
    pub sof: Sof,
    pub command: Command,
    pub result: OtaError,
    pub eof: u8,
}

impl WriteChunkResponseForm {
    pub open spec fn spec_bytes(&self) -> Seq<u8> {
        seq![
            self.sof.spec_byte(),
            self.command.spec_byte(),
            self.result.spec_byte(),
            self.eof,
        ]
    }

    pub fn new(result: Result<(), OtaError>) -> (r: Self)
        ensures
            r.sof == Sof::Response,
            r.command == Command::WriteChunk,
            r.result == result_code(result),
            r.eof == EOF_SIGNATURE,
    {
        Self {
            sof: Sof::Response,
            command: Command::WriteChunk,
            result: match result {
                Ok(_) => OtaError::Nothing,
                Err(e) => e,
            },
            eof: EOF_SIGNATURE,
        }
    }

    pub fn to_bytes(&self) -> (r: Vec<u8>)
        ensures
            r@ == self.spec_bytes(),
    {
        let mut v: Vec<u8> = Vec::new();
        v.push(self.sof.as_byte());
        v.push(self.command.as_byte());
        v.push(self.result.as_byte());
        v.push(self.eof);
        assert(v@ =~= self.spec_bytes());
        v
    }
}

#[derive(Clone, Copy, Debug)]
pub struct UpdateStatusRequestForm {
    pub sof: Sof,
    pub command: Command,
    pub eof: u8,
}

impl UpdateStatusRequestForm {
    pub open spec fn spec_bytes(&self) -> Seq<u8> {
        bare_bytes(self.sof, self.command, self.eof)
    }

    pub fn new() -> (r: Self)
        ensures
            r.spec_bytes() == RequestForm::UpdateStatus.spec_bytes(),
    {
        Self { sof: Sof::Request, command: Command::UpdateStatus, eof: EOF_SIGNATURE }
    }

    pub fn to_bytes(&self) -> (r: Vec<u8>)
        ensures
            r@ == self.spec_bytes(),
    {
        bare_to_bytes(self.sof, self.command, self.eof)
    }
}

#[derive(Clone, Copy)]
pub struct UpdateStatusResponseForm {
    pub sof: Sof,
    pub command: Command,
    pub checksum: [u8; 2],
    pub chunk_mark: SectionMark,
    pub eof: u8,
}

impl UpdateStatusResponseForm {
    pub open spec fn spec_bytes(&self) -> Seq<u8> {
        seq![self.sof.spec_byte(), self.command.spec_byte()] + self.checksum@
            + self.chunk_mark.bitmap@ + seq![self.eof]
    }

    pub fn new(board: &crate::session::Board) -> (r: Self)
        ensures
            r.sof == Sof::Response,
            r.command == Command::UpdateStatus,
            r.chunk_mark == board.shared_resource.section_mark,
            r.checksum@ == checksum_le(r.chunk_mark.bitmap@),
            r.eof == EOF_SIGNATURE,
    {
        let chunk_mark = board.shared_resource.section_mark;
        Self {
            sof: Sof::Response,
            command: Command::UpdateStatus,
            checksum: checksum_bytes(&chunk_mark.bitmap),
            chunk_mark,
            eof: EOF_SIGNATURE,
        }
    }

    pub fn to_bytes(&self) -> (r: Vec<u8>)
        ensures
            r@ == self.spec_bytes(),
    {
        let mut v: Vec<u8> = Vec::new();
        v.push(self.sof.as_byte());
        v.push(self.command.as_byte());
        push_bytes(&mut v, &self.checksum);
        push_bytes(&mut v, &self.chunk_mark.bitmap);
        v.push(self.eof);
        assert(v@ =~= self.spec_bytes());
        v
    }
}

#[derive(Clone, Copy, Debug)]
pub struct ResetForm {
    pub sof: Sof,
    pub command: Command,
    pub eof: u8,
}

impl ResetForm {
    pub open spec fn spec_bytes(&self) -> Seq<u8> {
        bare_bytes(self.sof, self.command, self.eof)
    }

    pub fn request_new() -> (r: Self)
        ensures
            r.spec_bytes() == RequestForm::Reset.spec_bytes(),
    {
        Self { sof: Sof::Request, command: Command::Reset, eof: EOF_SIGNATURE }
    }

    pub fn response_new() -> (r: Self)
        ensures
            r.spec_bytes() == bare_bytes(Sof::Response, Command::Reset, EOF_SIGNATURE),
    {
        Self { sof: Sof::Response, command: Command::Reset, eof: EOF_SIGNATURE }
    }

    pub fn to_bytes(&self) -> (r: Vec<u8>)
        ensures
            r@ == self.spec_bytes(),
    {
        bare_to_bytes(self.sof, self.command, self.eof)
    }
}

#[derive(Clone, Copy, Debug)]
pub struct JumpToApplicationForm {
    pub sof: Sof,
    pub command: Command,
    pub eof: u8,
}

impl JumpToApplicationForm {
    pub open spec fn spec_bytes(&self) -> Seq<u8> {
        bare_bytes(self.sof, self.command, self.eof)
    }

    pub fn request_new() -> (r: Self)
        ensures
            r.spec_bytes() == RequestForm::JumpToApplication.spec_bytes(),
    {
        Self { sof: Sof::Request, command: Command::JumpToApplication, eof: EOF_SIGNATURE }
    }

    pub fn response_new() -> (r: Self)
        ensures
            r.spec_bytes() == bare_bytes(Sof::Response, Command::JumpToApplication, EOF_SIGNATURE),
    {
        Self { sof: Sof::Response, command: Command::JumpToApplication, eof: EOF_SIGNATURE }
    }

    pub fn to_bytes(&self) -> (r: Vec<u8>)
        ensures
            r@ == self.spec_bytes(),
    {
        bare_to_bytes(self.sof, self.command, self.eof)
    }
}

} // verus!

//! Update session: the cipher position and progress bitmap that persist across
//! requests, and the handling of each command.
use vstd::prelude::*;

use chacha20::cipher::{KeyIvInit, StreamCipher, StreamCipherSeek};

use crate::checksum::checksum_le;
use crate::ota::{
    bare_bytes, device_info_source, flash_error_code, parse_outcome, request_size, result_code,
    test_packet, Command, DeviceInfoResponseForm, FlashError, HandshakeForm, JumpToApplicationForm,
    OtaError, RequestForm, ResetForm, Sof, StartUpdateResponseForm, UpdateStatusResponseForm,
    WriteChunkRequestForm, WriteChunkResponseForm, BARE_FORM_SIZE, DEVICE_INFO_RESPONSE_SIZE,
    EOF_SIGNATURE, PROTOCOL_VERSION_BYTE, SERIAL_LEN, START_UPDATE_RESPONSE_SIZE,
    UPDATE_STATUS_RESPONSE_SIZE, WRITE_CHUNK_RESPONSE_SIZE,
};
use crate::section_mark::{
    in_region, page_of, unmarked_pages, SectionMark, CHUNK_BIT_IDX, REMAIN_OFFSET, REMAIN_SIZE,
    WRITE_CHUNK_SIZE,
};

verus! {

/// Key of the stream cipher that protects firmware chunks.
pub const CIPHER_KEY_BYTE: u8 = 0x42;

/// Keystream bytes that one session may consume: the position is kept as a
/// 32-bit byte count.
pub const KEYSTREAM_LIMIT: u64 = 0x1_0000_0000;

/// Milliseconds without traffic after which a partial frame is dropped.
pub const RX_IDLE_RESET_MS: u64 = 200;

/// `data` combined with the ChaCha20 keystream for `key` and `nonce`, from
/// keystream byte `pos` on.
pub uninterp spec fn chacha20_xor(key: Seq<u8>, nonce: Seq<u8>, pos: nat, data: Seq<u8>) -> Seq<u8>;

/// Relies on the chacha20 crate: `ChaCha20::new` keyed with `key` and `nonce`,
/// `seek` to byte `pos`, then `apply_keystream` over `data`. The result depends
/// on the arguments alone. A 32-bit position never exceeds the cipher's 32-bit
/// block counter, so neither call panics on a chunk.
#[verifier::external_body]
fn apply_keystream_at(
    key: &[u8; 32],
    nonce: &[u8; SERIAL_LEN],
    pos: u32,
    data: &mut [u8; WRITE_CHUNK_SIZE],
)
    ensures
        final(data)@ == chacha20_xor(key@, nonce@, pos as nat, old(data)@),
{
    let mut cipher = chacha20::ChaCha20::new(&(*key).into(), &(*nonce).into());
    cipher.seek(pos);
    cipher.apply_keystream(data);
}

/// The nonce of the cipher. Without a hardware random source it is the
/// device's serial number.
pub fn crypto_nonce(serial: [u8; SERIAL_LEN]) -> (r: [u8; SERIAL_LEN])
    ensures
        r == serial,
{
    serial
}

/// State that every command may read or change. It is not copied: a copy
/// would hand out the same keystream twice.
pub struct SharedResource {
    pub key: [u8; 32],
    pub nonce: [u8; SERIAL_LEN],
    /// Keystream bytes consumed so far.
    pub keystream_pos: u64,
    pub section_mark: SectionMark,
}

impl SharedResource {
    pub fn init(serial: [u8; SERIAL_LEN]) -> (r: Self)
        ensures
            r.key@ == Seq::new(32, |i: int| CIPHER_KEY_BYTE),
            r.nonce == serial,
            r.keystream_pos == 0,
            r.section_mark@ == unmarked_pages(),
    {
        let r = Self {
            key: [CIPHER_KEY_BYTE; 32],
            nonce: crypto_nonce(serial),
            keystream_pos: 0,
            section_mark: SectionMark::new(),
        };
        assert(r.key@ =~= Seq::new(32, |i: int| CIPHER_KEY_BYTE));
        r
    }
}

/// What the caller does with the response written to the transmit buffer;
/// the number is its length.
#[derive(Clone, Copy, PartialEq, Eq, Structural, Debug)]
pub enum Key {
    /// Transmit only.
    Tx(usize),
    /// Transmit, then reset the device.
    TxAndReset(usize),
    /// Transmit, then hand control to the application region.
    TxAndJump(usize),
}

/// Outcome of a request.
#[derive(Clone, Copy, Debug)]
pub enum Step {
    /// The response is in the transmit buffer.
    Reply(Key),
    /// Program these bytes at this flash offset, then report the result with
    /// `Board::finish_write_chunk`.
    Flash(u32, [u8; WRITE_CHUNK_SIZE]),
}

/// How a command's response is followed up.
pub open spec fn key_for(c: Command) -> Key {
    match c {
        Command::Reset => Key::TxAndReset(BARE_FORM_SIZE),
        Command::JumpToApplication => Key::TxAndJump(BARE_FORM_SIZE),
        Command::DeviceInfo => Key::Tx(DEVICE_INFO_RESPONSE_SIZE),
        Command::StartUpdate => Key::Tx(START_UPDATE_RESPONSE_SIZE),
        Command::UpdateStatus => Key::Tx(UPDATE_STATUS_RESPONSE_SIZE),
        Command::WriteChunk => Key::Tx(WRITE_CHUNK_RESPONSE_SIZE),
        Command::Handshake => Key::Tx(BARE_FORM_SIZE),
    }
}

/// The write-chunk response that reports `result`.
pub open spec fn write_chunk_reply(result: Result<(), OtaError>) -> Seq<u8> {
    seq![
        Sof::Response.spec_byte(),
        Command::WriteChunk.spec_byte(),
        result_code(result).spec_byte(),
        EOF_SIGNATURE,
    ]
}

/// Whether a whole chunk at `addr` lies inside the application region.
pub open spec fn chunk_in_region(addr: u32) -> bool {
    REMAIN_OFFSET <= addr && addr + WRITE_CHUNK_SIZE <= REMAIN_OFFSET + REMAIN_SIZE
}

/// Whether a write-chunk request is taken, with the keystream at `pos`: its
/// checksum must match, the chunk must fit the application region, and the
/// keystream must last.
pub open spec fn chunk_decision(f: WriteChunkRequestForm, pos: u64) -> Result<(), OtaError> {
    if f.checksum@ != checksum_le(f.spec_checksum_source()) {
        Err(OtaError::ChecksumError)
    } else if !chunk_in_region(f.address()) {
        Err(OtaError::FlashSize)
    } else if pos > KEYSTREAM_LIMIT - WRITE_CHUNK_SIZE {
        Err(OtaError::UnknownError)
    } else {
        Ok(())
    }
}

/// The device as the protocol sees it.
pub struct Board {
    pub serial_number: [u8; SERIAL_LEN],
    pub shared_resource: SharedResource,
}

impl Board {
    pub fn init(serial_number: [u8; SERIAL_LEN]) -> (r: Self)
        ensures
            r.serial_number == serial_number,
            r.shared_resource.key@ == Seq::new(32, |i: int| CIPHER_KEY_BYTE),
            r.shared_resource.nonce == serial_number,
            r.shared_resource.keystream_pos == 0,
            r.shared_resource.section_mark@ == unmarked_pages(),
    {
        Self { serial_number, shared_resource: SharedResource::init(serial_number) }
    }

    /// The nonce that seeded the cipher.
    pub open spec fn nonce(&self) -> [u8; SERIAL_LEN] {
        self.shared_resource.nonce
    }

    pub fn get_nonce(&self) -> (r: [u8; SERIAL_LEN])
        ensures
            r == self.nonce(),
    {
        self.shared_resource.nonce
    }

    pub fn get_serial_number(&self) -> (r: [u8; SERIAL_LEN])
        ensures
            r == self.serial_number,
    {
        self.serial_number
    }

    /// `payload` deciphered with the keystream from the current position on.
    pub open spec fn deciphered(&self, payload: Seq<u8>) -> Seq<u8> {
        chacha20_xor(
            self.shared_resource.key@,
            self.shared_resource.nonce@,
            self.shared_resource.keystream_pos as nat,
            payload,
        )
    }

    /// This board with `n` more keystream bytes consumed.
    pub open spec fn advanced(self, n: nat) -> Board {
        Board {
            shared_resource: SharedResource {
                keystream_pos: (self.shared_resource.keystream_pos + n) as u64,
                ..self.shared_resource
            },
            ..self
        }
    }

    /// The response to a request of command `c` other than a write-chunk.
    pub open spec fn reply_bytes(&self, c: Command) -> Seq<u8> {
        let head = seq![Sof::Response.spec_byte(), c.spec_byte()];
        match c {
            Command::DeviceInfo => {
                let source = device_info_source(
                    PROTOCOL_VERSION_BYTE,
                    CHUNK_BIT_IDX as u8,
                    self.serial_number@,
                );
                head + checksum_le(source) + source + seq![EOF_SIGNATURE]
            },
            Command::StartUpdate => head + checksum_le(self.nonce()@) + self.nonce()@ + seq![
                EOF_SIGNATURE,
            ],
            Command::UpdateStatus => {
                let bitmap = self.shared_resource.section_mark.bitmap@;
                head + checksum_le(bitmap) + bitmap + seq![EOF_SIGNATURE]
            },
            _ => bare_bytes(Sof::Response, c, EOF_SIGNATURE),
        }
    }
}

/// What handling `req` does: from board `pre` and transmit buffer `tx_pre` to
/// `post` and `tx_post`, with outcome `step`.
pub open spec fn dispatched(
    pre: Board,
    post: Board,
    req: RequestForm,
    tx_pre: Seq<u8>,
    tx_post: Seq<u8>,
    step: Step,
) -> bool {
    match req {
        RequestForm::WriteChunk(f) => match chunk_decision(f, pre.shared_resource.keystream_pos) {
            Err(e) => {
                &&& post == pre
                &&& tx_post == write_chunk_reply(Err(e))
                &&& step == Step::Reply(Key::Tx(WRITE_CHUNK_RESPONSE_SIZE))
            },
            Ok(_) => {
                &&& post == pre.advanced(WRITE_CHUNK_SIZE as nat)
                &&& tx_post == tx_pre
                &&& step is Flash
                &&& step->Flash_0 == f.address()
                &&& step->Flash_1@ == pre.deciphered(f.payload@)
            },
        },
        _ => {
            &&& post == pre
            &&& tx_post == pre.reply_bytes(req.command())
            &&& step == Step::Reply(key_for(req.command()))
        },
    }
}

/// Replaces the contents of `tx_buf` with `bytes`.
fn load_tx(tx_buf: &mut Vec<u8>, bytes: Vec<u8>)
    ensures
        final(tx_buf)@ == bytes@,
{
    *tx_buf = bytes;
}

impl WriteChunkRequestForm {
    /// Checks the chunk and deciphers its payload. On success the keystream
    /// moves on by one chunk and the flash offset and plaintext come back. A
    /// rejected chunk leaves the board as it was, keystream included.
    pub fn try_decrypt(&self, board: &mut Board) -> (r: Result<(u32, [u8; WRITE_CHUNK_SIZE]), OtaError>)
        ensures
            match chunk_decision(*self, old(board).shared_resource.keystream_pos) {
                Err(e) => r == Err::<(u32, [u8; WRITE_CHUNK_SIZE]), OtaError>(e) && *final(board)
                    == *old(board),
                Ok(_) => {
                    &&& r is Ok
                    &&& r->Ok_0.0 == self.address()
                    &&& r->Ok_0.1@ == old(board).deciphered(self.payload@)
                    &&& *final(board) == old(board).advanced(WRITE_CHUNK_SIZE as nat)
                },
            },
    {
        let source = self.checksum_source();
        let expected = crate::checksum::checksum_bytes(source.as_slice());
        if self.checksum[0] != expected[0] || self.checksum[1] != expected[1] {
            assert(self.checksum@ != expected@);
            return Err(OtaError::ChecksumError);
        }
        assert(self.checksum@ =~= expected@);
        let address = self.flash_address();
        if address < REMAIN_OFFSET as u32 || address > (REMAIN_OFFSET + REMAIN_SIZE
            - WRITE_CHUNK_SIZE) as u32 {
            return Err(OtaError::FlashSize);
        }
        let pos = board.shared_resource.keystream_pos;
        if pos > KEYSTREAM_LIMIT - WRITE_CHUNK_SIZE as u64 {
            return Err(OtaError::UnknownError);
        }
        let mut data = self.payload;
        apply_keystream_at(
            &board.shared_resource.key,
            &board.shared_resource.nonce,
            pos as u32,
            &mut data,
        );
        board.shared_resource.keystream_pos = pos + WRITE_CHUNK_SIZE as u64;
        Ok((address, data))
    }
}

impl Board {
    /// Takes the flash driver's result for a chunk written at `address`: on
    /// success the page is marked, and a failure comes back as its result code.
    pub fn finish_flash(&mut self, address: u32, result: Result<(), FlashError>) -> (r: Result<
        (),
        OtaError,
    >)
        ensures
            r == match result {
                Ok(_) => Ok::<(), OtaError>(()),
                Err(e) => Err(flash_error_code(e)),
            },
            final(self).serial_number == old(self).serial_number,
            final(self).shared_resource.key == old(self).shared_resource.key,
            final(self).shared_resource.nonce == old(self).shared_resource.nonce,
            final(self).shared_resource.keystream_pos == old(self).shared_resource.keystream_pos,
            final(self).shared_resource.section_mark@ == if result is Ok && in_region(address) {
                old(self).shared_resource.section_mark@.update(page_of(address), true)
            } else {
                old(self).shared_resource.section_mark@
            },
    {
        match result {
            Ok(()) => {
                if address >= REMAIN_OFFSET as u32 && address < (REMAIN_OFFSET + REMAIN_SIZE) as u32 {
                    self.shared_resource.section_mark.mark_offset(address);
                }
                Ok(())
            },
            Err(e) => Err(OtaError::from(e)),
        }
    }

    /// Handles a validated request: writes its response to `tx_buf`, or, for
    /// a chunk that passed its checks, asks for the flash write.
    pub fn dispatch(&mut self, req: &RequestForm, tx_buf: &mut Vec<u8>) -> (r: Step)
        ensures
            dispatched(*old(self), *final(self), *req, old(tx_buf)@, final(tx_buf)@, r),
    {
        match req {
            RequestForm::Handshake => {
                load_tx(tx_buf, HandshakeForm::response_new().to_bytes());
                Step::Reply(Key::Tx(BARE_FORM_SIZE))
            },
            RequestForm::DeviceInfo => {
                let form = DeviceInfoResponseForm::new(self);
                load_tx(tx_buf, form.to_bytes());
                assert(tx_buf@ =~= self.reply_bytes(Command::DeviceInfo));
                Step::Reply(Key::Tx(DEVICE_INFO_RESPONSE_SIZE))
            },
            RequestForm::StartUpdate => {
                let form = StartUpdateResponseForm::new(self);
                load_tx(tx_buf, form.to_bytes());
                assert(tx_buf@ =~= self.reply_bytes(Command::StartUpdate));
                Step::Reply(Key::Tx(START_UPDATE_RESPONSE_SIZE))
            },
            RequestForm::WriteChunk(chunk) => {
                match chunk.try_decrypt(self) {
                    Ok((address, data)) => Step::Flash(address, data),
                    Err(e) => {
                        load_tx(tx_buf, WriteChunkResponseForm::new(Err(e)).to_bytes());
                        assert(tx_buf@ =~= write_chunk_reply(Err(e)));
                        Step::Reply(Key::Tx(WRITE_CHUNK_RESPONSE_SIZE))
                    },
                }
            },
            RequestForm::UpdateStatus => {
                let form = UpdateStatusResponseForm::new(self);
                load_tx(tx_buf, form.to_bytes());
                assert(tx_buf@ =~= self.reply_bytes(Command::UpdateStatus));
                Step::Reply(Key::Tx(UPDATE_STATUS_RESPONSE_SIZE))
            },
            RequestForm::Reset => {
                load_tx(tx_buf, ResetForm::response_new().to_bytes());
                Step::Reply(Key::TxAndReset(BARE_FORM_SIZE))
            },
            RequestForm::JumpToApplication => {
                load_tx(tx_buf, JumpToApplicationForm::response_new().to_bytes());
                Step::Reply(Key::TxAndJump(BARE_FORM_SIZE))
            },
        }
    }

    /// Completes a write-chunk request once the flash driver has answered:
    /// the response goes to `tx_buf`.
    pub fn finish_write_chunk(
        &mut self,
        address: u32,
        result: Result<(), FlashError>,
        tx_buf: &mut Vec<u8>,
    ) -> (r: Key)
        ensures
            r == Key::Tx(WRITE_CHUNK_RESPONSE_SIZE),
            final(tx_buf)@ == write_chunk_reply(
                match result {
                    Ok(_) => Ok::<(), OtaError>(()),
                    Err(e) => Err(flash_error_code(e)),
                },
            ),
            final(self).serial_number == old(self).serial_number,
            final(self).shared_resource.key == old(self).shared_resource.key,
            final(self).shared_resource.nonce == old(self).shared_resource.nonce,
            final(self).shared_resource.keystream_pos == old(self).shared_resource.keystream_pos,
            final(self).shared_resource.section_mark@ == if result is Ok && in_region(address) {
                old(self).shared_resource.section_mark@.update(page_of(address), true)
            } else {
                old(self).shared_resource.section_mark@
            },
    {
        let outcome = self.finish_flash(address, result);
        load_tx(tx_buf, WriteChunkResponseForm::new(outcome).to_bytes());
        Key::Tx(WRITE_CHUNK_RESPONSE_SIZE)
    }

    /// Validates `frame` and handles the request it carries. A framing error
    /// comes back as it is, with nothing changed.
    pub fn handle_frame(&mut self, frame: &[u8], tx_buf: &mut Vec<u8>) -> (r: Result<
        Step,
        OtaError,
    >)
        ensures
            match parse_outcome(frame@) {
                Err(e) => r == Err::<Step, OtaError>(e) && *final(self) == *old(self)
                    && final(tx_buf)@ == old(tx_buf)@,
                Ok(c) => r is Ok && exists|req: RequestForm|
                    {
                        &&& req.command() == c
                        &&& req.spec_bytes() == frame@.take(request_size(c) as int)
                        &&& dispatched(
                            *old(self),
                            *final(self),
                            req,
                            old(tx_buf)@,
                            final(tx_buf)@,
                            r->Ok_0,
                        )
                    },
            },
    {
        match test_packet(frame) {
            Ok(req) => Ok(self.dispatch(&req, tx_buf)),
            Err(e) => Err(e),
        }
    }
}

/// How many received bytes to keep after a frame was tried: an incomplete
/// frame keeps them all, any other outcome drops them.
pub fn next_stacked(stacked: usize, rx_len: usize, outcome: &Result<Step, OtaError>) -> (r: usize)
    requires
        stacked + rx_len <= usize::MAX,
    ensures
        r == if *outcome == Err::<Step, OtaError>(OtaError::OutOfRange) {
            stacked + rx_len
        } else {
            0
        },
{
    match outcome {
        Err(OtaError::OutOfRange) => stacked + rx_len,
        _ => 0,
    }
}

/// Whether the line has been quiet long enough to drop a partial frame.
pub fn rx_idle_expired(last_rx_ms: u64, now_ms: u64) -> (r: bool)
    ensures
        r == (now_ms >= last_rx_ms && now_ms - last_rx_ms > RX_IDLE_RESET_MS),
{
    now_ms >= last_rx_ms && now_ms - last_rx_ms > RX_IDLE_RESET_MS
}

/// A write-chunk frame whose checksum does not match, handled twice, neither
/// asks for a flash write nor moves the keystream or the bitmap.
pub proof fn lemma_rejected_chunk_changes_nothing(
    b0: Board,
    b1: Board,
    b2: Board,
    f: WriteChunkRequestForm,
    t0: Seq<u8>,
    t1: Seq<u8>,
    t2: Seq<u8>,
    s1: Step,
    s2: Step,
)
    requires
        f.checksum@ != checksum_le(f.spec_checksum_source()),
        dispatched(b0, b1, RequestForm::WriteChunk(f), t0, t1, s1),
        dispatched(b1, b2, RequestForm::WriteChunk(f), t1, t2, s2),
    ensures
        b1 == b0,
        b2 == b0,
        !(s1 is Flash),
        !(s2 is Flash),
        t1 == write_chunk_reply(Err(OtaError::ChecksumError)),
        t2 == write_chunk_reply(Err(OtaError::ChecksumError)),
{
}

} // verus!

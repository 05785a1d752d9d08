use billmock_ota::ota::{FlashError, OtaError, WriteChunkRequestForm};
use billmock_ota::section_mark::REMAIN_OFFSET;
use billmock_ota::session::{crypto_nonce, next_stacked, rx_idle_expired, Board, Key, Step};

const SERIAL: [u8; 12] = [1, 2, 3, 4, 5, 6, 7, 8, 9, 10, 11, 12];

/// Flash stand-in that counts the writes it is asked for.
struct CountingFlash {
    writes: usize,
}

impl CountingFlash {
    fn write(&mut self, _address: u32, _data: &[u8; 256]) -> Result<(), FlashError> {
        self.writes += 1;
        Ok(())
    }
}

fn run(board: &mut Board, flash: &mut CountingFlash, frame: &[u8]) -> (Result<Step, OtaError>, Vec<u8>) {
    let mut tx = Vec::new();
    let step = board.handle_frame(frame, &mut tx);
    if let Ok(Step::Flash(address, data)) = step {
        let result = flash.write(address, &data);
        let key = board.finish_write_chunk(address, result, &mut tx);
        assert_eq!(key, Key::Tx(4));
    }
    (step, tx)
}

fn zero_chunk_frame() -> Vec<u8> {
    WriteChunkRequestForm::new_std(REMAIN_OFFSET as u32, &[0u8; 256]).ok().unwrap().to_bytes()
}

#[test]
fn handshake_end_to_end() {
    let mut board = Board::init(SERIAL);
    let mut tx = Vec::new();
    let step = board.handle_frame(&[0xAA, 0x01, 0xFF], &mut tx);
    assert!(matches!(step, Ok(Step::Reply(Key::Tx(3)))));
    assert_eq!(tx, vec![0xBB, 0x01, 0xFF]);
}

#[test]
fn write_chunk_end_to_end() {
    let mut board = Board::init(SERIAL);
    let mut flash = CountingFlash { writes: 0 };
    let (step, tx) = run(&mut board, &mut flash, &zero_chunk_frame());
    match step {
        Ok(Step::Flash(address, data)) => {
            assert_eq!(address, REMAIN_OFFSET as u32);
            // ciphertext of zeros is the keystream itself
            assert_eq!(&data[..8], &[94, 188, 131, 154, 58, 11, 164, 156]);
        }
        _ => panic!("chunk was not sent to flash"),
    }
    assert_eq!(tx, vec![0xBB, 0x40, 0x00, 0xFF]);
    assert!(board.shared_resource.section_mark.is_marked(0));
    assert_eq!(board.shared_resource.section_mark.popcount(), 1);
    assert_eq!(board.shared_resource.keystream_pos, 256);
    assert_eq!(flash.writes, 1);
}

#[test]
fn keystream_continues_across_chunks() {
    let mut board = Board::init(SERIAL);
    let mut tx = Vec::new();
    let frame = zero_chunk_frame();
    let _ = board.handle_frame(&frame, &mut tx);
    match board.handle_frame(&frame, &mut tx) {
        Ok(Step::Flash(_, data)) => {
            assert_eq!(&data[..8], &[171, 113, 224, 52, 203, 226, 205, 160]);
        }
        _ => panic!("chunk was not sent to flash"),
    }
    assert_eq!(board.shared_resource.keystream_pos, 512);
}

#[test]
fn bad_checksum_end_to_end() {
    let mut board = Board::init(SERIAL);
    let mut flash = CountingFlash { writes: 0 };
    let mut frame = zero_chunk_frame();
    frame[2] ^= 0x01;
    let before = board.shared_resource.section_mark.bitmap;
    let (step, tx) = run(&mut board, &mut flash, &frame);
    assert!(matches!(step, Ok(Step::Reply(Key::Tx(4)))));
    assert_eq!(tx, vec![0xBB, 0x40, 0x80, 0xFF]);
    assert_eq!(board.shared_resource.section_mark.bitmap, before);
    assert_eq!(board.shared_resource.section_mark.popcount(), 0);
}

#[test]
fn rejected_chunk_twice_changes_nothing() {
    let mut board = Board::init(SERIAL);
    let mut flash = CountingFlash { writes: 0 };
    let mut frame = zero_chunk_frame();
    frame[3] ^= 0x80;
    for _ in 0..2 {
        let (_, tx) = run(&mut board, &mut flash, &frame);
        assert_eq!(tx, vec![0xBB, 0x40, 0x80, 0xFF]);
    }
    assert_eq!(flash.writes, 0);
    assert_eq!(board.shared_resource.keystream_pos, 0);
    // the keystream still starts where it did
    let (step, _) = run(&mut board, &mut flash, &zero_chunk_frame());
    match step {
        Ok(Step::Flash(_, data)) => assert_eq!(&data[..4], &[94, 188, 131, 154]),
        _ => panic!("chunk was not sent to flash"),
    }
}

#[test]
fn chunk_outside_region_is_flash_size() {
    let mut board = Board::init(SERIAL);
    let frame = WriteChunkRequestForm::new_std(0x1000, &[0u8; 256]).ok().unwrap().to_bytes();
    let mut tx = Vec::new();
    let step = board.handle_frame(&frame, &mut tx);
    assert!(matches!(step, Ok(Step::Reply(Key::Tx(4)))));
    assert_eq!(tx, vec![0xBB, 0x40, 0x91, 0xFF]);
    assert_eq!(board.shared_resource.keystream_pos, 0);
    let frame = WriteChunkRequestForm::new_std(0x1_0000, &[0u8; 256]).ok().unwrap().to_bytes();
    let step = board.handle_frame(&frame, &mut tx);
    assert!(matches!(step, Ok(Step::Reply(Key::Tx(4)))));
    assert_eq!(tx, vec![0xBB, 0x40, 0x91, 0xFF]);
}

#[test]
fn flash_failure_is_reported_and_not_marked() {
    let mut board = Board::init(SERIAL);
    let mut tx = Vec::new();
    let key = board.finish_write_chunk(REMAIN_OFFSET as u32, Err(FlashError::Prog), &mut tx);
    assert_eq!(key, Key::Tx(4));
    assert_eq!(tx, vec![0xBB, 0x40, 0x90, 0xFF]);
    assert_eq!(board.shared_resource.section_mark.popcount(), 0);
    assert_eq!(
        board.finish_flash(REMAIN_OFFSET as u32, Err(FlashError::Unaligned)),
        Err(OtaError::FlashUnaligned)
    );
}

#[test]
fn reset_and_jump_reply_first() {
    let mut board = Board::init(SERIAL);
    let mut tx = Vec::new();
    assert!(matches!(board.handle_frame(&[0xAA, 0xF0, 0xFF], &mut tx), Ok(Step::Reply(Key::TxAndReset(3)))));
    assert_eq!(tx, vec![0xBB, 0xF0, 0xFF]);
    assert!(matches!(board.handle_frame(&[0xAA, 0xF1, 0xFF], &mut tx), Ok(Step::Reply(Key::TxAndJump(3)))));
    assert_eq!(tx, vec![0xBB, 0xF1, 0xFF]);
}

#[test]
fn status_reports_marked_pages() {
    let mut board = Board::init(SERIAL);
    let mut tx = Vec::new();
    board.finish_flash(REMAIN_OFFSET as u32 + 9 * 256, Ok(())).unwrap();
    assert!(matches!(board.handle_frame(&[0xAA, 0xE0, 0xFF], &mut tx), Ok(Step::Reply(Key::Tx(31)))));
    assert_eq!(tx.len(), 31);
    assert_eq!(tx[4 + 1], 0x02);
    assert_eq!(tx[30], 0xFF);
}

#[test]
fn device_info_and_start_update_replies() {
    let mut board = Board::init(SERIAL);
    let mut tx = Vec::new();
    assert!(matches!(board.handle_frame(&[0xAA, 0x02, 0xFF], &mut tx), Ok(Step::Reply(Key::Tx(19)))));
    assert_eq!(&tx[4..6], &[0x01, 0x08]);
    assert_eq!(&tx[6..18], &SERIAL);
    assert!(matches!(board.handle_frame(&[0xAA, 0x30, 0xFF], &mut tx), Ok(Step::Reply(Key::Tx(17)))));
    assert_eq!(&tx[4..16], &SERIAL);
    assert_eq!(board.get_nonce(), crypto_nonce(SERIAL));
    assert_eq!(board.get_serial_number(), SERIAL);
}

#[test]
fn framing_errors_change_nothing() {
    let mut board = Board::init(SERIAL);
    let mut tx = vec![9];
    assert!(matches!(board.handle_frame(&[0xAA, 0x55, 0xFF], &mut tx), Err(OtaError::UnknownCommand)));
    assert!(matches!(board.handle_frame(&[0xAA, 0x01, 0x00], &mut tx), Err(OtaError::MissingEof)));
    assert!(matches!(board.handle_frame(&[0xAA, 0x40, 0x00], &mut tx), Err(OtaError::OutOfRange)));
    assert!(matches!(board.handle_frame(&[], &mut tx), Err(OtaError::OutOfRange)));
    assert_eq!(tx, vec![9]);
}

#[test]
fn partial_frames_accumulate() {
    assert_eq!(next_stacked(3, 5, &Err(OtaError::OutOfRange)), 8);
    assert_eq!(next_stacked(3, 5, &Err(OtaError::MissingEof)), 0);
    assert_eq!(next_stacked(3, 5, &Ok(Step::Reply(Key::Tx(3)))), 0);
    assert!(rx_idle_expired(1000, 1201));
    assert!(!rx_idle_expired(1000, 1200));
    assert!(!rx_idle_expired(1000, 10));
}

use billmock_ota::checksum::{checksum_bytes, std_crc};
use billmock_ota::ota::{
    packet_size, request_packet_size, response_packet_max_size, response_packet_size, test_packet,
    Command, DeviceInfoRequestForm, DeviceInfoResponseForm, FlashError, HandshakeForm,
    JumpToApplicationForm, OtaError, RequestForm, ResetForm, Sof, StartUpdateRequestForm,
    StartUpdateResponseForm, UpdateStatusRequestForm, UpdateStatusResponseForm,
    WriteChunkRequestForm, WriteChunkResponseForm, EOF_SIGNATURE, WRITE_CHUNK_REQUEST_SIZE,
};
use billmock_ota::session::Board;

const SERIAL: [u8; 12] = [1, 2, 3, 4, 5, 6, 7, 8, 9, 10, 11, 12];

const CODES: [(u8, Command); 7] = [
    (0x01, Command::Handshake),
    (0x02, Command::DeviceInfo),
    (0x30, Command::StartUpdate),
    (0x40, Command::WriteChunk),
    (0xE0, Command::UpdateStatus),
    (0xF0, Command::Reset),
    (0xF1, Command::JumpToApplication),
];

fn frame_for(code: u8) -> Vec<u8> {
    let mut f = vec![0u8; WRITE_CHUNK_REQUEST_SIZE];
    f[0] = 0xAA;
    f[1] = code;
    f[2] = EOF_SIGNATURE;
    f[WRITE_CHUNK_REQUEST_SIZE - 1] = EOF_SIGNATURE;
    f
}

#[test]
fn crc_of_check_string() {
    assert_eq!(std_crc(b"123456789"), 0xA612_7172);
    assert_eq!(std_crc(b""), 0xA097);
    assert_eq!(checksum_bytes(b"123456789"), [0x72, 0x71]);
}

#[test]
fn every_command_code_is_recovered() {
    for (code, cmd) in CODES {
        assert_eq!(Command::try_from(code), Ok(cmd));
        assert_eq!(cmd.as_byte(), code);
        let req = test_packet(&frame_for(code)).ok().unwrap();
        assert_eq!(req.command_of(), cmd);
    }
}

#[test]
fn other_command_bytes_are_unknown() {
    for b in 0..=255u8 {
        if CODES.iter().any(|(c, _)| *c == b) {
            continue;
        }
        assert_eq!(Command::try_from(b), Err(OtaError::UnknownCommand));
        assert!(matches!(test_packet(&frame_for(b)), Err(OtaError::UnknownCommand)));
    }
}

#[test]
fn short_frames_are_out_of_range() {
    for (code, cmd) in CODES {
        let full = frame_for(code);
        let size = request_packet_size(cmd);
        for len in 0..size {
            assert!(matches!(test_packet(&full[..len]), Err(OtaError::OutOfRange)));
        }
    }
}

#[test]
fn corrupted_eof_is_missing_eof() {
    for (code, cmd) in CODES {
        let size = request_packet_size(cmd);
        let mut f = frame_for(code);
        f.truncate(size);
        assert!(test_packet(&f).is_ok());
        f[size - 1] = 0xFE;
        assert!(matches!(test_packet(&f), Err(OtaError::MissingEof)));
    }
}

#[test]
fn wrong_start_marker_is_missing_sof() {
    assert!(matches!(test_packet(&[0xBB, 0x01, 0xFF]), Err(OtaError::MissingSof)));
    assert!(matches!(test_packet(&[0x00]), Err(OtaError::MissingSof)));
}

#[test]
fn packet_size_table() {
    let req = [3, 3, 3, 265, 3, 3, 3];
    let resp = [3, 19, 17, 4, 31, 3, 3];
    for (i, (_, cmd)) in CODES.iter().enumerate() {
        assert_eq!(request_packet_size(*cmd), req[i]);
        assert_eq!(response_packet_size(*cmd), resp[i]);
        assert_eq!(packet_size(Sof::Request, *cmd), req[i]);
        assert_eq!(packet_size(Sof::Response, *cmd), resp[i]);
    }
    assert_eq!(response_packet_max_size(), 31);
}

#[test]
fn bare_forms_encode() {
    assert_eq!(HandshakeForm::request_new().to_bytes(), vec![0xAA, 0x01, 0xFF]);
    assert_eq!(HandshakeForm::response_new().to_bytes(), vec![0xBB, 0x01, 0xFF]);
    assert_eq!(DeviceInfoRequestForm::new().to_bytes(), vec![0xAA, 0x02, 0xFF]);
    assert_eq!(StartUpdateRequestForm::new().to_bytes(), vec![0xAA, 0x30, 0xFF]);
    assert_eq!(UpdateStatusRequestForm::new().to_bytes(), vec![0xAA, 0xE0, 0xFF]);
    assert_eq!(ResetForm::request_new().to_bytes(), vec![0xAA, 0xF0, 0xFF]);
    assert_eq!(ResetForm::response_new().to_bytes(), vec![0xBB, 0xF0, 0xFF]);
    assert_eq!(JumpToApplicationForm::request_new().to_bytes(), vec![0xAA, 0xF1, 0xFF]);
    assert_eq!(JumpToApplicationForm::response_new().to_bytes(), vec![0xBB, 0xF1, 0xFF]);
}

#[test]
fn device_info_round_trip() {
    let board = Board::init(SERIAL);
    let built = DeviceInfoResponseForm::new(&board);
    let bytes = built.to_bytes();
    assert_eq!(bytes.len(), 19);
    assert_eq!(&bytes[..2], &[0xBB, 0x02]);
    let read = DeviceInfoResponseForm::from_bytes(&bytes).unwrap();
    assert_eq!(read.protocol_version, 0x01);
    assert_eq!(read.payload_exponent, 8);
    assert_eq!(read.serial_number, SERIAL);
    let source = read.checksum_source();
    assert_eq!(source.len(), 14);
    assert_eq!(read.checksum, checksum_bytes(&source));
    assert_eq!(read.to_bytes(), bytes);
    assert!(DeviceInfoResponseForm::from_bytes(&bytes[..18]).is_none());
}

#[test]
fn start_update_carries_nonce() {
    let board = Board::init(SERIAL);
    let form = StartUpdateResponseForm::new(&board);
    assert_eq!(form.nonce, SERIAL);
    let bytes = form.to_bytes();
    assert_eq!(bytes.len(), 17);
    assert_eq!(&bytes[2..4], &checksum_bytes(&SERIAL));
    assert_eq!(&bytes[4..16], &SERIAL);
    assert_eq!(bytes[16], 0xFF);
}

#[test]
fn update_status_carries_bitmap() {
    let board = Board::init(SERIAL);
    let form = UpdateStatusResponseForm::new(&board);
    let bytes = form.to_bytes();
    assert_eq!(bytes.len(), 31);
    assert_eq!(&bytes[2..4], &checksum_bytes(&[0u8; 26]));
    assert!(bytes[4..30].iter().all(|b| *b == 0));
}

#[test]
fn write_chunk_request_round_trip() {
    let payload = [7u8; 256];
    let form = WriteChunkRequestForm::new_std(0x3100, &payload).ok().unwrap();
    assert_eq!(form.offset, [0x00, 0x31, 0x00, 0x00]);
    assert_eq!(form.flash_address(), 0x3100);
    let bytes = form.to_bytes();
    assert_eq!(bytes.len(), 265);
    match test_packet(&bytes) {
        Ok(RequestForm::WriteChunk(read)) => {
            assert_eq!(read.offset, form.offset);
            assert_eq!(read.checksum, form.checksum);
            assert_eq!(read.payload, payload);
        }
        _ => panic!("write-chunk frame not decoded"),
    }
}

#[test]
fn write_chunk_checksum_value() {
    let form = WriteChunkRequestForm::new_std(0x3000, &[0u8; 256]).ok().unwrap();
    assert_eq!(form.checksum, [0xBA, 0xEE]);
}

#[test]
fn unaligned_offset_is_refused() {
    assert!(matches!(
        WriteChunkRequestForm::new_std(0x3004, &[0u8; 256]),
        Err(OtaError::FlashUnaligned)
    ));
}

#[test]
fn result_codes() {
    let codes = [
        (OtaError::Nothing, 0x00),
        (OtaError::ChecksumError, 0x80),
        (OtaError::UnknownCommand, 0x81),
        (OtaError::OutOfRange, 0x82),
        (OtaError::MissingEof, 0x83),
        (OtaError::MissingSof, 0x84),
        (OtaError::FlashProg, 0x90),
        (OtaError::FlashSize, 0x91),
        (OtaError::FlashMiss, 0x92),
        (OtaError::FlashSeq, 0x93),
        (OtaError::FlashProtected, 0x94),
        (OtaError::FlashUnaligned, 0x95),
        (OtaError::FlashParallelism, 0x96),
        (OtaError::UnknownError, 0xFF),
    ];
    for (e, b) in codes {
        assert_eq!(e.as_byte(), b);
    }
    assert_eq!(OtaError::from(FlashError::Sequence), OtaError::FlashSeq);
    assert_eq!(OtaError::from(FlashError::Parallelism), OtaError::FlashParallelism);
}

#[test]
fn write_chunk_response_bytes() {
    assert_eq!(WriteChunkResponseForm::new(Ok(())).to_bytes(), vec![0xBB, 0x40, 0x00, 0xFF]);
    assert_eq!(
        WriteChunkResponseForm::new(Err(OtaError::FlashProtected)).to_bytes(),
        vec![0xBB, 0x40, 0x94, 0xFF]
    );
}

use std::mem::{align_of, size_of};

use fdpass::codec::{decode_message, encode_message, TransferMessage, SENTINEL};
use fdpass::error::TransferError;
use fdpass::layout::Platform;

fn platform() -> Platform {
    Platform::new(
        size_of::<libc::size_t>(),
        align_of::<libc::cmsghdr>(),
        size_of::<libc::c_int>(),
        libc::SOL_SOCKET,
        libc::SCM_RIGHTS,
        libc::MSG_TRUNC,
        libc::MSG_CTRUNC,
    )
    .expect("unsupported ancillary-record layout on this platform")
}

#[test]
fn layout_matches_the_platform() {
    let p = platform();
    assert_eq!(p.header_len(), size_of::<libc::cmsghdr>());
    assert_eq!(p.record_len(), size_of::<libc::cmsghdr>() + size_of::<libc::c_int>());
    assert!(p.space() >= p.record_len());
    if size_of::<libc::size_t>() == 8 {
        assert_eq!(p.header_len(), 16);
        assert_eq!(p.record_len(), 20);
        assert_eq!(p.space(), 24);
    }
}

#[test]
fn rejected_layouts() {
    assert!(Platform::new(3, 3, 4, 1, 1, 8, 8).is_none());
    assert!(Platform::new(8, 4, 4, 1, 1, 8, 8).is_none());
    assert!(Platform::new(8, 8, 8, 1, 1, 8, 8).is_none());
    assert!(Platform::new(16, 16, 4, 1, 1, 8, 8).is_none());
}

#[test]
fn encoded_control_block_bytes() {
    let p = platform();
    let fd: i32 = 0x1234_5678;
    let m = encode_message(&p, fd);
    assert_eq!(m.payload, SENTINEL);
    assert_eq!(m.control.len(), p.space());

    let mut expected: Vec<u8> = Vec::new();
    if size_of::<libc::size_t>() == 8 {
        expected.extend_from_slice(&(p.record_len() as u64).to_le_bytes());
    } else {
        expected.extend_from_slice(&(p.record_len() as u32).to_le_bytes());
    }
    expected.extend_from_slice(&(libc::SOL_SOCKET as u32).to_le_bytes());
    expected.extend_from_slice(&(libc::SCM_RIGHTS as u32).to_le_bytes());
    expected.extend_from_slice(&(fd as u32).to_le_bytes());
    while expected.len() < p.space() {
        expected.push(0);
    }
    assert_eq!(m.control, expected);
}

#[test]
fn round_trip_returns_the_descriptor() {
    let p = platform();
    for fd in [0i32, 1, 42, i32::MAX] {
        let m = encode_message(&p, fd);
        let r = decode_message(&p, 0, &m, p.space());
        assert_eq!(r, Ok(fd));
    }
}

#[test]
fn truncation_flags_are_rejected() {
    let p = platform();
    let m = encode_message(&p, 5);
    assert_eq!(
        decode_message(&p, libc::MSG_CTRUNC, &m, p.space()),
        Err(TransferError::TruncatedMessage)
    );
    assert_eq!(
        decode_message(&p, libc::MSG_TRUNC, &m, p.space()),
        Err(TransferError::TruncatedMessage)
    );
    assert_eq!(
        decode_message(&p, libc::MSG_TRUNC | libc::MSG_CTRUNC, &m, p.space()),
        Err(TransferError::TruncatedMessage)
    );
}

#[test]
fn missing_record_is_rejected() {
    let p = platform();
    let m = encode_message(&p, 5);
    // an undersized control portion holds no whole record header
    assert_eq!(decode_message(&p, 0, &m, 0), Err(TransferError::MalformedRecord));
    assert_eq!(
        decode_message(&p, 0, &m, p.header_len() - 1),
        Err(TransferError::MalformedRecord)
    );
}

#[test]
fn short_record_is_rejected() {
    let p = platform();
    let m = encode_message(&p, 5);
    // a whole header is present but the declared record is cut off
    assert_eq!(
        decode_message(&p, 0, &m, p.record_len() - 1),
        Err(TransferError::MalformedRecord)
    );
}

#[test]
fn wrong_declared_length_is_rejected() {
    let p = platform();
    let mut m = encode_message(&p, 5);
    m.control[0] = m.control[0].wrapping_add(1);
    assert_eq!(decode_message(&p, 0, &m, p.space()), Err(TransferError::MalformedRecord));
}

#[test]
fn wrong_record_level_is_rejected() {
    let p = platform();
    let mut m = encode_message(&p, 5);
    let off = size_of::<libc::size_t>();
    m.control[off] = m.control[off].wrapping_add(1);
    assert_eq!(decode_message(&p, 0, &m, p.space()), Err(TransferError::UnexpectedRecordKind));
}

#[test]
fn wrong_record_type_is_rejected() {
    let p = platform();
    let mut m = encode_message(&p, 5);
    let off = size_of::<libc::size_t>() + 4;
    m.control[off] = m.control[off].wrapping_add(1);
    assert_eq!(decode_message(&p, 0, &m, p.space()), Err(TransferError::UnexpectedRecordKind));
}

#[test]
fn wrong_payload_is_rejected() {
    let p = platform();
    let mut m = encode_message(&p, 5);
    m.payload = 0;
    assert_eq!(decode_message(&p, 0, &m, p.space()), Err(TransferError::UnexpectedPayload));
    m.payload = 2;
    assert_eq!(decode_message(&p, 0, &m, p.space()), Err(TransferError::UnexpectedPayload));
}

#[test]
fn extra_record_is_rejected() {
    let p = platform();
    let first = encode_message(&p, 5);
    let second = encode_message(&p, 7);
    let mut control = first.control.clone();
    control.extend_from_slice(&second.control);
    let len = control.len();
    let m = TransferMessage { payload: first.payload, control };
    // two valid-looking records: no descriptor comes out of either
    assert_eq!(decode_message(&p, 0, &m, len), Err(TransferError::ExtraRecord));
}

#[test]
fn first_failing_check_names_the_error() {
    let p = platform();
    // wrong kind and wrong payload at once: the kind check comes first
    let mut m = encode_message(&p, 5);
    let off = size_of::<libc::size_t>() + 4;
    m.control[off] = m.control[off].wrapping_add(1);
    m.payload = 0;
    assert_eq!(decode_message(&p, 0, &m, p.space()), Err(TransferError::UnexpectedRecordKind));
    // truncation flags outrank everything
    assert_eq!(
        decode_message(&p, libc::MSG_CTRUNC, &m, p.space()),
        Err(TransferError::TruncatedMessage)
    );
}

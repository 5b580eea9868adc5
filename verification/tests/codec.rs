use replicant_toolkit::util::{
    align_forward, bytes_eq, copy_range, push_u32_le, read_cstring, read_u32_le, resolve_offset,
};
use replicant_toolkit::Error;

#[test]
fn read_u32_le_reads_little_endian() {
    let data = [0x78u8, 0x56, 0x34, 0x12, 0xFF];
    assert_eq!(read_u32_le(&data, 0), Ok(0x12345678));
    assert_eq!(read_u32_le(&data, 1), Ok(0xFF123456));
    assert_eq!(read_u32_le(&data, 2), Err(Error::IoError));
}

#[test]
fn resolve_offset_adds_position_after_field() {
    // The relative value 2 stored at position 0 resolves to 0 + 4 + 2 = 6.
    let data = [0x02u8, 0x00, 0x00, 0x00, 0xAA, 0xBB, 0xCC, 0xDD];
    let (abs, rel) = resolve_offset(&data, 0).unwrap();
    assert_eq!(rel, 2);
    assert_eq!(abs, 6);
    assert_eq!(&data[abs as usize..], &[0xCC, 0xDD]);
}

#[test]
fn resolve_offset_round_trips_through_written_field() {
    // Write a relative value, place target bytes at the position it should
    // resolve to, and check that resolving reads exactly those bytes.
    let target = [0x11u8, 0x22, 0x33];
    let rel: u32 = 5;
    let mut data = Vec::new();
    push_u32_le(&mut data, rel);
    // The field ends at 4; the target must sit at 4 + rel = 9.
    while data.len() < 4 + rel as usize {
        data.push(0);
    }
    data.extend_from_slice(&target);
    let (abs, got_rel) = resolve_offset(&data, 0).unwrap();
    assert_eq!(got_rel, rel);
    assert_eq!(abs as usize, 9);
    assert_eq!(&data[abs as usize..abs as usize + 3], &target);
}

#[test]
fn resolve_offset_fails_on_short_read() {
    let data = [0x01u8, 0x02, 0x03];
    assert_eq!(resolve_offset(&data, 0), Err(Error::IoError));
}

#[test]
fn read_cstring_stops_at_null() {
    let data = [b'a', b'b', b'c', 0, b'd'];
    let s = read_cstring(&data, 0).unwrap();
    assert_eq!(s, b"abc".to_vec());
    let s2 = read_cstring(&data, 3).unwrap();
    assert_eq!(s2, Vec::<u8>::new());
}

#[test]
fn read_cstring_fails_without_terminator() {
    let data = [b'a', b'b', b'c'];
    assert_eq!(read_cstring(&data, 0), Err(Error::IoError));
    assert_eq!(read_cstring(&data, 7), Err(Error::IoError));
}

#[test]
fn align_forward_table() {
    let positions = [0u64, 1, 31, 32, 33, 63, 64];
    let expected = [0u64, 32, 32, 32, 64, 64, 64];
    for (p, e) in positions.iter().zip(expected.iter()) {
        assert_eq!(align_forward(*p, 32, 0), *e);
    }
}

#[test]
fn align_forward_is_idempotent() {
    for p in 0u64..200 {
        let once = align_forward(p, 32, 0);
        assert_eq!(align_forward(once, 32, 0), once);
    }
    // An already-aligned position is returned unchanged.
    assert_eq!(align_forward(96, 32, 0), 96);
    // A non-zero base shifts the boundary grid.
    assert_eq!(align_forward(13, 4, 1), 13);
    assert_eq!(align_forward(14, 4, 1), 17);
}

#[test]
fn push_u32_round_trips() {
    let mut data = Vec::new();
    push_u32_le(&mut data, 0xDEADBEEF);
    push_u32_le(&mut data, 7);
    assert_eq!(read_u32_le(&data, 0), Ok(0xDEADBEEF));
    assert_eq!(read_u32_le(&data, 4), Ok(7));
}

#[test]
fn copy_range_and_bytes_eq() {
    let data = [1u8, 2, 3, 4, 5];
    assert_eq!(copy_range(&data, 1, 3).unwrap(), vec![2, 3, 4]);
    assert_eq!(copy_range(&data, 3, 3), Err(Error::IoError));
    assert!(bytes_eq(&data, &[1, 2, 3, 4, 5]));
    assert!(!bytes_eq(&data, &[1, 2, 3, 4]));
    assert!(!bytes_eq(&data, &[1, 2, 3, 4, 6]));
}

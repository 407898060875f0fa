use extension_host::{read_bytes, read_text, write_bytes, GuestMemoryHandle, HostError};

#[test]
fn read_bytes_copies_the_range() {
    let memory = [10u8, 11, 12, 13, 14, 15];
    assert_eq!(read_bytes(&memory, 2, 3), Ok(vec![12, 13, 14]));
    assert_eq!(read_bytes(&memory, 0, 6), Ok(vec![10, 11, 12, 13, 14, 15]));
    assert_eq!(read_bytes(&memory, 6, 0), Ok(vec![]));
}

#[test]
fn read_bytes_rejects_one_byte_past_the_end() {
    let memory = [0u8; 8];
    for offset in 0..=9usize {
        let length = 9 - offset;
        assert_eq!(read_bytes(&memory, offset, length), Err(HostError::OutOfBounds));
    }
    assert_eq!(read_bytes(&memory, usize::MAX, 2), Err(HostError::OutOfBounds));
    assert_eq!(read_bytes(&memory, 2, usize::MAX), Err(HostError::OutOfBounds));
}

#[test]
fn write_bytes_overwrites_the_range_only() {
    let mut memory = [1u8, 2, 3, 4, 5, 6];
    assert_eq!(write_bytes(&mut memory, 1, &[9, 8, 7]), Ok(()));
    assert_eq!(memory, [1, 9, 8, 7, 5, 6]);
}

#[test]
fn write_bytes_rejects_one_byte_past_the_end_and_writes_nothing() {
    let mut memory = [1u8, 2, 3, 4];
    assert_eq!(write_bytes(&mut memory, 2, &[9, 9, 9]), Err(HostError::OutOfBounds));
    assert_eq!(write_bytes(&mut memory, 5, &[]), Err(HostError::OutOfBounds));
    assert_eq!(write_bytes(&mut memory, usize::MAX, &[9, 9]), Err(HostError::OutOfBounds));
    assert_eq!(memory, [1, 2, 3, 4]);
    assert_eq!(write_bytes(&mut memory, 4, &[]), Ok(()));
}

#[test]
fn read_text_stops_at_the_terminator() {
    let mut memory = vec![0xffu8; 4];
    memory.extend_from_slice(b"Hello, world!\0");
    memory.extend_from_slice(b"tail\0");
    assert_eq!(read_text(&memory, 4), Ok(String::from("Hello, world!")));
    assert_eq!(read_text(&memory, 11), Ok(String::from("world!")));
    assert_eq!(read_text(&memory, 17), Ok(String::new()));
}

#[test]
fn read_text_decodes_utf8() {
    let memory = "Hällü, Wörld!\0".as_bytes().to_vec();
    assert_eq!(read_text(&memory, 0), Ok(String::from("Hällü, Wörld!")));
}

#[test]
fn read_text_without_terminator_is_an_encoding_error() {
    let memory = b"no end in sight".to_vec();
    assert_eq!(read_text(&memory, 0), Err(HostError::MissingTerminator));
    assert_eq!(read_text(&memory, memory.len()), Err(HostError::MissingTerminator));
    assert_eq!(read_text(&memory, memory.len() + 1), Err(HostError::OutOfBounds));
}

#[test]
fn read_text_rejects_invalid_utf8() {
    let memory = [b'a', 0xc3, 0x28, 0];
    assert_eq!(read_text(&memory, 0), Err(HostError::InvalidText));
    assert_eq!(read_text(&memory, 2), Ok(String::from("(")));
}

#[test]
fn handle_bounds_check() {
    assert!(GuestMemoryHandle::new(0, 0).within(0));
    assert!(GuestMemoryHandle::new(4, 4).within(8));
    assert!(!GuestMemoryHandle::new(5, 4).within(8));
    assert!(!GuestMemoryHandle::new(usize::MAX, 1).within(usize::MAX));
    assert!(GuestMemoryHandle::new(usize::MAX, 0).within(usize::MAX));
}

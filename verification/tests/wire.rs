use type_kernel::wire::{
    int_len, read_bool_at, read_int_at, read_str_at, write_int_bare, LONG_INT_TRAILER,
    MAX_FOUR_BYTES_INT, MIN_FOUR_BYTES_INT,
};

fn encode(v: i64) -> Vec<u8> {
    let mut b = Vec::new();
    write_int_bare(&mut b, v);
    b
}

#[test]
fn short_int_forms() {
    assert_eq!(encode(0), vec![20]);
    assert_eq!(encode(-10), vec![0]);
    assert_eq!(encode(117), vec![254]);
    assert_eq!(encode(118), vec![0x69, 0x03]);
    assert_eq!(encode(200), vec![177, 4]);
    assert_eq!(encode(-11), vec![0x65, 0x01]);
    assert_eq!(encode(16283), vec![0xFD, 0xFF]);
    assert_eq!(encode(16284), encode_four(16284));
    assert_eq!(encode(-10000), vec![3, 0, 0, 0]);
    assert_eq!(encode(MAX_FOUR_BYTES_INT), vec![0xFB, 0xFF, 0xFF, 0xFF]);
}

fn encode_four(v: i64) -> Vec<u8> {
    let u = ((v - MIN_FOUR_BYTES_INT) * 8 + 3) as u32;
    u.to_le_bytes().to_vec()
}

#[test]
fn short_int_roundtrip_at_the_edges() {
    for v in [
        -10000, -10001 + 2, -101, -100, -11, -10, 0, 1, 117, 118, 16283, 16284, 1_000_000,
        MAX_FOUR_BYTES_INT,
    ] {
        let mut b = encode(v);
        assert_eq!(b.len() as u64, int_len(v));
        let n = b.len();
        b.extend_from_slice(&[9, 9]);
        assert_eq!(read_int_at(&b, 0), Some((v, n)));
    }
}

#[test]
fn unreadable_ints() {
    assert_eq!(read_int_at(&[LONG_INT_TRAILER, 1, 2, 3, 4], 0), None);
    assert_eq!(read_int_at(&[7, 0, 0, 0], 0), None);
    assert_eq!(read_int_at(&[1], 0), None);
    assert_eq!(read_int_at(&[3, 0, 0], 0), None);
    assert_eq!(read_int_at(&[], 0), None);
    // A non-canonical two-byte form of 0 still decodes.
    assert_eq!(read_int_at(&[0x91, 0x01], 0), Some((0, 2)));
}

#[test]
fn bools_and_strings() {
    assert_eq!(read_bool_at(&[0, 1, 2], 0), Some(false));
    assert_eq!(read_bool_at(&[0, 1, 2], 1), Some(true));
    assert_eq!(read_bool_at(&[0, 1, 2], 2), None);
    assert_eq!(read_bool_at(&[0], 1), None);
    let mut b = vec![5u8];
    write_int_bare(&mut b, 3);
    b.extend_from_slice(b"abcd");
    assert_eq!(read_str_at(&b, 1), Some(("abc".to_string(), 5)));
    assert_eq!(read_str_at(&b[..4], 1), None);
    assert_eq!(read_str_at(&[18], 0), None);
}

use wasm_o::wasm::{Leb128Stream, WasmDecodeError};

#[test]
fn fixed_width_reads_are_little_endian() {
    let bytes = [0x01, 0x02, 0x03, 0x04, 0x05, 0x06, 0x07, 0x08, 0x09, 0x0A, 0x0B, 0x0C, 0x0D];
    let mut s = Leb128Stream::from_slice(&bytes);
    assert_eq!(s.read_u8(), Ok(1));
    assert_eq!(s.read_u32_le(), Ok(0x0504_0302));
    assert_eq!(s.fetch_position(), 5);
    assert_eq!(s.read_u64_le(), Ok(0x0D0C_0B0A_0908_0706));
    assert!(s.is_eof());
    assert_eq!(s.read_u8(), Err(WasmDecodeError::UnexpectedEof));
}

#[test]
fn fixed_width_reads_fail_on_underrun_and_stay() {
    let bytes = [1, 2, 3];
    let mut s = Leb128Stream::from_slice(&bytes);
    assert_eq!(s.read_u32_le(), Err(WasmDecodeError::UnexpectedEof));
    assert_eq!(s.fetch_position(), 0);
    assert_eq!(s.read_u64_le(), Err(WasmDecodeError::UnexpectedEof));
    assert_eq!(s.fetch_position(), 0);
    assert_eq!(s.read_u8(), Ok(1));
}

#[test]
fn unsigned_leb128() {
    let bytes = [0x00, 0x7F, 0x80, 0x01, 0xE5, 0x8E, 0x26];
    let mut s = Leb128Stream::from_slice(&bytes);
    assert_eq!(s.read_uint(), Ok(0));
    assert_eq!(s.read_uint(), Ok(127));
    assert_eq!(s.read_uint(), Ok(128));
    assert_eq!(s.read_uint(), Ok(624485));
    assert_eq!(s.fetch_position(), 7);
    assert_eq!(s.read_uint(), Err(WasmDecodeError::UnexpectedEof));
}

#[test]
fn unsigned_leb128_of_64_bits() {
    let bytes = [0xFF, 0xFF, 0xFF, 0xFF, 0xFF, 0xFF, 0xFF, 0xFF, 0xFF, 0x01];
    let mut s = Leb128Stream::from_slice(&bytes);
    assert_eq!(s.read_uint(), Ok(u64::MAX));
    assert!(s.is_eof());
}

#[test]
fn unsigned_leb128_drops_bits_beyond_the_64th() {
    let bytes = [0x80, 0x80, 0x80, 0x80, 0x80, 0x80, 0x80, 0x80, 0x80, 0x7F];
    let mut s = Leb128Stream::from_slice(&bytes);
    assert_eq!(s.read_uint(), Ok(1 << 63));
    let bytes = [0x81, 0x80, 0x80, 0x80, 0x80, 0x80, 0x80, 0x80, 0x80, 0x80, 0x7F];
    let mut s = Leb128Stream::from_slice(&bytes);
    assert_eq!(s.read_uint(), Ok(1));
    assert_eq!(s.fetch_position(), 11);
}

#[test]
fn leb128_with_too_many_continuation_bytes() {
    let bytes = [0x80, 0x80, 0x80, 0x80, 0x80, 0x80, 0x80, 0x80, 0x80, 0x80, 0x80, 0x00];
    let mut s = Leb128Stream::from_slice(&bytes);
    assert_eq!(s.read_uint(), Err(WasmDecodeError::UnexpectedToken));
    assert_eq!(s.fetch_position(), 0);
    assert_eq!(s.read_sint(), Err(WasmDecodeError::UnexpectedToken));
    assert_eq!(s.fetch_position(), 0);
}

#[test]
fn leb128_cut_off() {
    let bytes = [0x80, 0x80];
    let mut s = Leb128Stream::from_slice(&bytes);
    assert_eq!(s.read_uint(), Err(WasmDecodeError::UnexpectedEof));
    assert_eq!(s.read_sint(), Err(WasmDecodeError::UnexpectedEof));
    assert_eq!(s.fetch_position(), 0);
}

#[test]
fn signed_leb128() {
    let bytes = [0x00, 0x3F, 0x40, 0x7F, 0xC0, 0xBB, 0x78, 0x80, 0x7F, 0xFF, 0x00, 0xFE, 0xFF, 0x03];
    let mut s = Leb128Stream::from_slice(&bytes);
    assert_eq!(s.read_sint(), Ok(0));
    assert_eq!(s.read_sint(), Ok(63));
    assert_eq!(s.read_sint(), Ok(-64));
    assert_eq!(s.read_sint(), Ok(-1));
    assert_eq!(s.read_sint(), Ok(-123456));
    assert_eq!(s.read_sint(), Ok(-128));
    assert_eq!(s.read_sint(), Ok(127));
    assert_eq!(s.read_sint(), Ok(65534));
    assert!(s.is_eof());
}

#[test]
fn signed_leb128_of_64_bits() {
    let bytes = [0x80, 0x80, 0x80, 0x80, 0x80, 0x80, 0x80, 0x80, 0x80, 0x7F];
    let mut s = Leb128Stream::from_slice(&bytes);
    assert_eq!(s.read_sint(), Ok(i64::MIN));
    let bytes = [0xFF, 0xFF, 0xFF, 0xFF, 0xFF, 0xFF, 0xFF, 0xFF, 0xFF, 0x00];
    let mut s = Leb128Stream::from_slice(&bytes);
    assert_eq!(s.read_sint(), Ok(i64::MAX));
}

#[test]
fn byte_runs() {
    let bytes = [1, 2, 3, 4, 5];
    let mut s = Leb128Stream::from_slice(&bytes);
    assert_eq!(s.read_bytes(2), Ok(&bytes[0..2]));
    assert_eq!(s.read_bytes(0), Ok(&bytes[0..0]));
    assert_eq!(s.read_bytes(4), Err(WasmDecodeError::UnexpectedEof));
    assert_eq!(s.fetch_position(), 2);
    assert_eq!(s.read_bytes(3), Ok(&bytes[2..5]));
    assert!(s.is_eof());
}

#[test]
fn strings() {
    let bytes = [0x03, b'a', b'b', b'c', 0x02, 0xC3, 0xA9, 0x00];
    let mut s = Leb128Stream::from_slice(&bytes);
    assert_eq!(s.read_string(), Ok("abc"));
    assert_eq!(s.read_string(), Ok("\u{e9}"));
    assert_eq!(s.read_string(), Ok(""));
    assert!(s.is_eof());
}

#[test]
fn string_that_is_not_utf8() {
    let bytes = [0x02, 0xC3, 0x28, 0x01, b'x'];
    let mut s = Leb128Stream::from_slice(&bytes);
    assert_eq!(s.read_string(), Err(WasmDecodeError::UnexpectedToken));
    assert_eq!(s.fetch_position(), 0);
}

#[test]
fn string_longer_than_the_input() {
    let bytes = [0x05, b'a', b'b'];
    let mut s = Leb128Stream::from_slice(&bytes);
    assert_eq!(s.read_string(), Err(WasmDecodeError::UnexpectedEof));
    assert_eq!(s.fetch_position(), 0);
}

#[test]
fn cursor_moves() {
    let bytes = [10, 20, 30];
    let mut s = Leb128Stream::from_slice(&bytes);
    s.set_position(2);
    assert_eq!(s.fetch_position(), 2);
    assert_eq!(s.read_u8(), Ok(30));
    s.set_position(7);
    assert!(s.is_eof());
    assert_eq!(s.read_u8(), Err(WasmDecodeError::UnexpectedEof));
    assert_eq!(s.read_uint(), Err(WasmDecodeError::UnexpectedEof));
    assert_eq!(s.read_bytes(0), Err(WasmDecodeError::UnexpectedEof));
    s.reset();
    assert_eq!(s.read_u8(), Ok(10));
}

use read_ext::{
    ByteReader, I32Be, I32Le, I64Be, I64Le, ReadError, ReadExt, U32Be, U32Le, U64Be, U64Le,
};

#[test]
fn read_array() {
    let mut cursor = ByteReader::new(vec![2, 0, 0, 0, 3, 0, 0, 0, 4, 0, 0, 0]);
    let result = cursor.read_array(&I32Le).unwrap();

    assert_eq!(result.as_slice(), &[3, 4]);
}

#[test]
fn read_fstring() {
    let mut cursor = ByteReader::new(vec![6u8, 0, 0, 0, 0x48, 0x65, 0x6c, 0x6c, 0x6f, 0x00]);
    let result = cursor.read_fstring().unwrap();

    assert_eq!(result, "Hello")
}

#[test]
fn fstring_consumes_prefix_and_payload() {
    let mut r = ByteReader::new(vec![6u8, 0, 0, 0, b'H', b'e', b'l', b'l', b'o', 0, 0xAA]);
    assert_eq!(r.read_fstring().unwrap(), "Hello");
    assert_eq!(r.remaining(), 1);
}

#[test]
fn fstring_empty() {
    let mut r = ByteReader::new(vec![0u8, 0, 0, 0, 7]);
    assert_eq!(r.read_fstring().unwrap(), "");
    assert_eq!(r.remaining(), 1);
}

#[test]
fn fstring_terminator_not_checked() {
    let mut r = ByteReader::new(vec![3u8, 0, 0, 0, b'h', b'i', b'!']);
    assert_eq!(r.read_fstring().unwrap(), "hi");
    assert_eq!(r.remaining(), 0);
}

#[test]
fn fstring_multibyte_utf8() {
    let mut r = ByteReader::new(vec![4u8, 0, 0, 0, 0xC3, 0xA9, b'x', 0]);
    assert_eq!(r.read_fstring().unwrap(), "\u{e9}x");
}

#[test]
fn fstring_invalid_utf8() {
    let mut r = ByteReader::new(vec![3u8, 0, 0, 0, 0xFF, b'a', 0]);
    assert_eq!(r.read_fstring(), Err(ReadError::InvalidUtf8));
}

#[test]
fn fstring_truncated_payload() {
    let mut r = ByteReader::new(vec![6u8, 0, 0, 0, b'H', b'e']);
    assert_eq!(r.read_fstring(), Err(ReadError::UnexpectedEof));
}

#[test]
fn fstring_truncated_length() {
    let mut r = ByteReader::new(vec![6u8, 0, 0]);
    assert_eq!(r.read_fstring(), Err(ReadError::UnexpectedEof));
}

#[test]
fn fstring_min_length_is_malformed() {
    let mut r = ByteReader::new(vec![0u8, 0, 0, 0x80]);
    assert_eq!(r.read_fstring(), Err(ReadError::MalformedLength));
}

#[test]
fn fstring_utf16_consumed_then_refused() {
    // length -2: two UTF-16 units, four bytes
    let mut r = ByteReader::new(vec![0xFEu8, 0xFF, 0xFF, 0xFF, b'h', 0, b'i', 0, 9]);
    assert_eq!(r.read_fstring(), Err(ReadError::UnsupportedEncoding));
    assert_eq!(r.remaining(), 1);
}

#[test]
fn fstring_utf16_truncated() {
    let mut r = ByteReader::new(vec![0xFEu8, 0xFF, 0xFF, 0xFF, b'h', 0, b'i']);
    assert_eq!(r.read_fstring(), Err(ReadError::UnexpectedEof));
}

#[test]
fn array_consumes_prefix_and_elements() {
    let mut r = ByteReader::new(vec![2, 0, 0, 0, 3, 0, 0, 0, 0xFF, 0xFF, 0xFF, 0xFF, 5]);
    assert_eq!(r.read_array(&I32Le).unwrap(), vec![3, -1]);
    assert_eq!(r.remaining(), 1);
}

#[test]
fn array_empty() {
    let mut r = ByteReader::new(vec![0, 0, 0, 0, 1]);
    assert_eq!(r.read_array(&I32Le).unwrap(), Vec::<i32>::new());
    assert_eq!(r.remaining(), 1);
}

#[test]
fn array_be_count() {
    let mut r = ByteReader::new(vec![0, 0, 0, 2, 3, 0, 0, 0, 4, 0, 0, 0]);
    assert_eq!(r.read_array_be(&I32Le).unwrap(), vec![3, 4]);
    assert_eq!(r.remaining(), 0);
}

#[test]
fn array_with_length_reads_no_prefix() {
    let mut r = ByteReader::new(vec![3, 0, 0, 0, 4, 0, 0, 0, 5]);
    assert_eq!(r.read_array_with_length(&I32Le, 2).unwrap(), vec![3, 4]);
    assert_eq!(r.remaining(), 1);
}

#[test]
fn array_negative_length() {
    let mut r = ByteReader::new(vec![0xFF, 0xFF, 0xFF, 0xFF, 1, 0, 0, 0]);
    assert_eq!(r.read_array(&I32Le), Err(ReadError::InvalidLength));
    let mut r = ByteReader::new(vec![1, 0, 0, 0]);
    assert_eq!(r.read_array_with_length(&I32Le, -1), Err(ReadError::InvalidLength));
}

#[test]
fn array_truncated_elements() {
    let mut r = ByteReader::new(vec![2, 0, 0, 0, 3, 0, 0, 0, 4, 0]);
    assert_eq!(r.read_array(&I32Le), Err(ReadError::UnexpectedEof));
}

#[test]
fn array_truncated_count() {
    let mut r = ByteReader::new(vec![2, 0]);
    assert_eq!(r.read_array_be(&I32Le), Err(ReadError::UnexpectedEof));
}

#[test]
fn array_of_u64_be() {
    let mut r = ByteReader::new(vec![1, 0, 0, 0, 0, 0, 0, 0, 0, 0, 1, 2]);
    assert_eq!(r.read_array(&U64Be).unwrap(), vec![0x0102]);
}

#[test]
fn integers_little_endian() {
    let mut r = ByteReader::new(vec![
        0x01, 0x02, 0x03, 0x04, // i32
        0xFE, 0xFF, 0xFF, 0xFF, // u32
        0x01, 0x02, 0x03, 0x04, 0x05, 0x06, 0x07, 0x08, // i64
        0xFF, 0xFF, 0xFF, 0xFF, 0xFF, 0xFF, 0xFF, 0xFE, // u64
    ]);
    assert_eq!(r.read_i32_le().unwrap(), 0x0403_0201);
    assert_eq!(r.read_u32_le().unwrap(), 0xFFFF_FFFE);
    assert_eq!(r.read_i64_le().unwrap(), 0x0807_0605_0403_0201);
    assert_eq!(r.read_u64_le().unwrap(), 0xFEFF_FFFF_FFFF_FFFF);
    assert_eq!(r.remaining(), 0);
}

#[test]
fn integers_big_endian() {
    let mut r = ByteReader::new(vec![
        0x01, 0x02, 0x03, 0x04, // i32
        0xFE, 0xFF, 0xFF, 0xFF, // u32
        0x01, 0x02, 0x03, 0x04, 0x05, 0x06, 0x07, 0x08, // i64
        0xFF, 0xFF, 0xFF, 0xFF, 0xFF, 0xFF, 0xFF, 0xFE, // u64
    ]);
    assert_eq!(r.read_i32_be().unwrap(), 0x0102_0304);
    assert_eq!(r.read_u32_be().unwrap(), 0xFEFF_FFFF);
    assert_eq!(r.read_i64_be().unwrap(), 0x0102_0304_0506_0708);
    assert_eq!(r.read_u64_be().unwrap(), 0xFFFF_FFFF_FFFF_FFFE);
}

#[test]
fn signed_integers_negative() {
    let mut r = ByteReader::new(vec![
        0xFE, 0xFF, 0xFF, 0xFF, 0xFF, 0xFF, 0xFF, 0xFE, 0xFE, 0xFF, 0xFF, 0xFF, 0xFF, 0xFF,
        0xFF, 0xFF, 0x80, 0, 0, 0, 0, 0, 0, 0,
    ]);
    assert_eq!(r.read_i32_le().unwrap(), -2);
    assert_eq!(r.read_i32_be().unwrap(), -2);
    assert_eq!(r.read_i64_le().unwrap(), -2);
    assert_eq!(r.read_i64_be().unwrap(), i64::MIN);
}

#[test]
fn integer_truncated() {
    let mut r = ByteReader::new(vec![1, 2, 3]);
    assert_eq!(r.read_u32_le(), Err(ReadError::UnexpectedEof));
    let mut r = ByteReader::new(vec![1, 2, 3, 4, 5, 6, 7]);
    assert_eq!(r.read_u64_be(), Err(ReadError::UnexpectedEof));
    assert_eq!(r.read_i32_be().unwrap(), 0x0102_0304);
}

#[test]
fn element_decoders() {
    let bytes = vec![1u8, 0, 0, 0, 0x80, 0, 0, 0, 0, 0, 0, 0, 0, 0, 0, 0x80];
    let mut r = ByteReader::new(bytes.clone());
    assert_eq!(r.read_array(&I32Be).unwrap(), vec![i32::MIN]);
    let mut r = ByteReader::new(bytes.clone());
    assert_eq!(r.read_array(&U32Le).unwrap(), vec![0x80]);
    let mut r = ByteReader::new(bytes.clone());
    assert_eq!(r.read_array(&U32Be).unwrap(), vec![0x8000_0000]);
    let mut r = ByteReader::new(bytes.clone());
    assert_eq!(r.read_array(&I64Le).unwrap(), vec![0x80]);
    let mut r = ByteReader::new(bytes.clone());
    assert_eq!(r.read_array(&I64Be).unwrap(), vec![i64::MIN]);
    let mut r = ByteReader::new(bytes);
    assert_eq!(r.read_array(&U64Le).unwrap(), vec![0x80]);
}

#[test]
fn error_messages() {
    assert_eq!(ReadError::UnexpectedEof.message(), "unexpected end of input");
    assert_eq!(ReadError::InvalidLength.message(), "invalid length");
}

use tesutil::strings::{read_string, write_str, read_bstring, write_bstring, write_bzstring, read_bzstring};

#[test]
fn test_extract_string() {
    let data = b"abcd\0\0\0\0\0\0";
    let s = read_string::<10>(&mut data.as_ref()).unwrap();
    assert_eq!(s, "abcd");
}

#[test]
fn test_serialize_str() {
    let mut buf: Vec<u8> = vec![];
    write_str::<10>("abcd", &mut buf);
    assert_eq!(buf, *b"abcd\0\0\0\0\0\0");
}

#[test]
fn padded_string_reads_back() {
    let mut buf: Vec<u8> = vec![];
    write_str::<8>("héllo", &mut buf);
    assert_eq!(buf.len(), 8);
    let s = read_string::<8>(&mut buf.as_slice()).unwrap();
    assert_eq!(s, "héllo");
}

#[test]
fn short_input_fails() {
    let data = b"abc";
    assert!(read_string::<10>(&mut data.as_ref()).is_err());
}

#[test]
fn bstrings_read_back() {
    let mut buf: Vec<u8> = vec![];
    write_bstring(&mut buf, "abc").unwrap();
    assert_eq!(buf, b"\x03abc");
    let s = read_bstring(&mut buf.as_slice()).unwrap();
    assert_eq!(s, "abc");
    let mut buf: Vec<u8> = vec![];
    write_bzstring(&mut buf, "abc").unwrap();
    assert_eq!(buf, b"\x04abc\0");
    let s = read_bzstring(&mut buf.as_slice()).unwrap();
    assert_eq!(s, "abc");
    let long = "x".repeat(256);
    let mut buf: Vec<u8> = vec![];
    assert!(write_bstring(&mut buf, &long).is_err());
}

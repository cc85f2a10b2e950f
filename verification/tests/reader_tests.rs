use dev_scope::reader::StringVecReader;

#[test]
fn test_read_single_line() {
    let lines = vec!["hello".to_string()];
    let mut reader = StringVecReader::new(&lines);
    let mut buf = [0u8; 16];
    let n = reader.read(&mut buf).unwrap();
    assert_eq!(&buf[..n], b"hello\n");
}

#[test]
fn test_read_multiple_lines() {
    let lines = vec!["foo".to_string(), "bar".to_string()];
    let mut reader = StringVecReader::new(&lines);
    let mut buf = [0u8; 16];
    let n = reader.read(&mut buf).unwrap();
    assert_eq!(&buf[..n], b"foo\nbar\n");
}

#[test]
fn test_read_partial_buffer() {
    let lines = vec!["abcdef".to_string()];
    let mut reader = StringVecReader::new(&lines);
    let mut buf = [0u8; 3];
    let n = reader.read(&mut buf).unwrap();
    assert_eq!(&buf[..n], b"abc");
    let n2 = reader.read(&mut buf).unwrap();
    assert_eq!(&buf[..n2], b"def");
    let n3 = reader.read(&mut buf).unwrap();
    assert_eq!(&buf[..n3], b"\n");
}

#[test]
fn test_empty_lines() {
    let lines: Vec<String> = vec![];
    let mut reader = StringVecReader::new(&lines);
    let mut buf = [0u8; 8];
    let n = reader.read(&mut buf).unwrap();
    assert_eq!(n, 0);
}

#[test]
fn test_read_exact_buffer() {
    let lines = vec!["abc".to_string()];
    let mut reader = StringVecReader::new(&lines);
    let mut buf = [0u8; 4];
    let n = reader.read(&mut buf).unwrap();
    assert_eq!(&buf[..n], b"abc\n");
    let n2 = reader.read(&mut buf).unwrap();
    assert_eq!(n2, 0);
}

#[test]
fn read_multibyte_lines_across_small_buffers() {
    let lines = vec!["é".to_string(), "".to_string()];
    let mut reader = StringVecReader::new(&lines);
    let mut out = Vec::new();
    let mut buf = [0u8; 1];
    loop {
        let n = reader.read(&mut buf).unwrap();
        if n == 0 {
            break;
        }
        out.extend_from_slice(&buf[..n]);
    }
    assert_eq!(out, "é\n\n".as_bytes());
}

#[test]
fn read_into_empty_buffer_reads_nothing() {
    let lines = vec!["abc".to_string()];
    let mut reader = StringVecReader::new(&lines);
    let mut empty: [u8; 0] = [];
    assert_eq!(reader.read(&mut empty).unwrap(), 0);
    let mut buf = [0u8; 8];
    let n = reader.read(&mut buf).unwrap();
    assert_eq!(&buf[..n], b"abc\n");
}

#[test]
fn test_poll_read_single_line() {
    let lines = vec!["hello".to_string()];
    let mut reader = StringVecReader::new(&lines);
    let mut buf = [0u8; 16];
    let n = reader.read(&mut buf).unwrap();
    assert_eq!(&buf[..n], b"hello\n");
}

#[test]
fn test_poll_read_multiple_lines() {
    let lines = vec!["foo".to_string(), "bar".to_string()];
    let mut reader = StringVecReader::new(&lines);
    let mut buf = [0u8; 16];
    let n = reader.read(&mut buf).unwrap();
    assert_eq!(&buf[..n], b"foo\nbar\n");
}

#[test]
fn test_poll_read_partial_buffer() {
    let lines = vec!["abcdef".to_string()];
    let mut reader = StringVecReader::new(&lines);
    let mut buf = [0u8; 3];
    let n = reader.read(&mut buf).unwrap();
    assert_eq!(&buf[..n], b"abc");
    let n2 = reader.read(&mut buf).unwrap();
    assert_eq!(&buf[..n2], b"def");
    let n3 = reader.read(&mut buf).unwrap();
    assert_eq!(&buf[..n3], b"\n");
}

#[test]
fn test_poll_read_empty_lines() {
    let lines: Vec<String> = vec![];
    let mut reader = StringVecReader::new(&lines);
    let mut buf = [0u8; 8];
    let n = reader.read(&mut buf).unwrap();
    assert_eq!(n, 0);
}

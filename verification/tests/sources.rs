use std::io::{Error, ErrorKind, Read};
use stream_buffer::{Buffer, BufferError};

/// A source whose every pull fails.
struct Broken;

impl Read for Broken {
    fn read(&mut self, _target: &mut [u8]) -> std::io::Result<usize> {
        Err(Error::new(ErrorKind::ConnectionReset, "peer went away"))
    }
}

/// A source that writes less than it reports.
struct Boasting;

impl Read for Boasting {
    fn read(&mut self, target: &mut [u8]) -> std::io::Result<usize> {
        for byte in target.iter_mut() {
            *byte = 5;
        }
        Ok(target.len() + 100)
    }
}

/// A source that fills the whole slice and reports three bytes.
struct Scribbling;

impl Read for Scribbling {
    fn read(&mut self, target: &mut [u8]) -> std::io::Result<usize> {
        for byte in target.iter_mut() {
            *byte = 0xEE;
        }
        Ok(3)
    }
}

#[test]
fn failed_pull_returns_the_error_of_the_source() {
    let mut buffer = Buffer::new();
    let mut request = &b"GET /"[..];
    assert!(matches!(buffer.read_from(&mut request), Ok(5)));

    let failed = buffer.read_from(&mut Broken);
    match failed {
        Err(BufferError::UnderlyingIO(error)) => {
            assert_eq!(error.kind(), ErrorKind::ConnectionReset);
            assert_eq!(error.to_string(), "peer went away");
        }
        other => panic!("unexpected outcome: {:?}", other),
    }
    assert_eq!(buffer.len(), 5);
    assert_eq!(buffer.bytes(), b"GET /");
    assert_eq!(buffer.capacity(), 4096);
}

#[test]
fn failed_pull_on_new_buffer_still_reserves() {
    let mut buffer = Buffer::new();
    assert!(matches!(buffer.read_from(&mut Broken), Err(BufferError::UnderlyingIO(_))));
    assert_eq!(buffer.len(), 0);
    assert!(buffer.is_empty());
    assert_eq!(buffer.capacity(), 4096);
}

#[test]
fn count_beyond_the_slice_is_cut_to_the_slice() {
    let mut buffer = Buffer::new();
    assert!(matches!(buffer.read_from(&mut Boasting), Ok(4096)));
    assert_eq!(buffer.len(), 4096);
    assert_eq!(buffer.capacity(), 4096);
    assert!(buffer.bytes().iter().all(|byte| *byte == 5));

    assert!(matches!(buffer.read_from(&mut Boasting), Ok(12288)));
    assert_eq!(buffer.len(), 16384);
    assert_eq!(buffer.capacity(), 16384);
}

#[test]
fn bytes_beyond_the_count_are_not_data() {
    let mut buffer = Buffer::new();
    assert!(matches!(buffer.read_from(&mut Scribbling), Ok(3)));
    assert_eq!(buffer.bytes(), &[0xEEu8; 3]);
    let mut text = &b"abc"[..];
    assert!(matches!(buffer.read_from(&mut text), Ok(3)));
    assert_eq!(buffer.bytes(), &[0xEE, 0xEE, 0xEE, b'a', b'b', b'c']);
}

#[test]
fn complete_read_takes_a_count_within_the_spare_room() {
    let mut buffer = Buffer::new();
    let mut request = &b"abcdef"[..];
    assert!(matches!(buffer.read_from(&mut request), Ok(6)));
    // The spare room holds zeros from the allocation.
    assert!(matches!(buffer.complete_read(Ok(3)), Ok(3)));
    assert_eq!(buffer.len(), 9);
    assert_eq!(buffer.bytes(), b"abcdef\0\0\0");
    assert!(matches!(buffer.complete_read(Ok(0)), Ok(0)));
    assert_eq!(buffer.len(), 9);
}

#[test]
fn complete_read_cuts_a_count_to_the_spare_room() {
    let mut buffer = Buffer::new();
    let mut request = &b"abcdef"[..];
    assert!(matches!(buffer.read_from(&mut request), Ok(6)));
    assert!(matches!(buffer.complete_read(Ok(10_000)), Ok(4090)));
    assert_eq!(buffer.len(), 4096);
    assert_eq!(buffer.capacity(), 4096);
    assert!(matches!(buffer.complete_read(Ok(usize::MAX)), Ok(0)));
    assert_eq!(buffer.len(), 4096);
}

#[test]
fn complete_read_without_storage_takes_nothing() {
    let mut buffer = Buffer::new();
    assert!(matches!(buffer.complete_read(Ok(5)), Ok(0)));
    assert_eq!(buffer.len(), 0);
    assert_eq!(buffer.capacity(), 0);
}

#[test]
fn complete_read_hands_an_error_on() {
    let mut buffer = Buffer::new();
    let mut request = &b"abcdef"[..];
    assert!(matches!(buffer.read_from(&mut request), Ok(6)));
    let outcome = buffer.complete_read(Err(Error::new(ErrorKind::TimedOut, "too slow")));
    match outcome {
        Err(BufferError::UnderlyingIO(error)) => {
            assert_eq!(error.kind(), ErrorKind::TimedOut);
            assert_eq!(error.to_string(), "too slow");
        }
        other => panic!("unexpected outcome: {:?}", other),
    }
    assert_eq!(buffer.len(), 6);
    assert_eq!(buffer.bytes(), b"abcdef");
}

#[test]
fn errors_can_be_printed_for_debugging() {
    let text = format!("{:?}", BufferError::InvalidConsumeLength);
    assert_eq!(text, "InvalidConsumeLength");
    let buffer = Buffer::new();
    assert!(format!("{:?}", buffer).contains("Buffer"));
}

use binview::binary::{other_message, ReadError, ViewReadError};

struct Boom(u32);

impl ViewReadError for Boom {
    fn describe(&self) -> String {
        format!("boom {}", self.0)
    }
}

#[test]
fn end_of_stream_equals_end_of_stream() {
    assert!(ReadError::EndOfStream == ReadError::EndOfStream);
}

#[test]
fn other_equals_nothing() {
    let a = ReadError::Other(Box::new(Boom(1)));
    let b = ReadError::Other(Box::new(Boom(1)));
    assert!(a != b);
    assert!(b != a);
    assert!(a != a);
    assert!(a != ReadError::EndOfStream);
    assert!(ReadError::EndOfStream != a);
}

#[test]
fn message_of_end_of_stream() {
    assert_eq!(ReadError::EndOfStream.message(), "end of stream");
}

#[test]
fn message_of_other_names_the_cause() {
    let e = ReadError::Other(Box::new(Boom(7)));
    assert_eq!(e.message(), "other: boom 7");
}

#[test]
fn other_message_puts_the_cause_behind_the_prefix() {
    assert_eq!(other_message("disk gone"), "other: disk gone");
    assert_eq!(other_message(""), "other: ");
}

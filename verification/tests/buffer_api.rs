use ftp_server::buffer::{AfterSend, BufferToWrite};

#[test]
fn fresh_buffers() {
    let b = BufferToWrite::default();
    assert_eq!(b.buffer, Vec::<u8>::new());
    assert_eq!(b.offset, 0);
    assert_eq!(b.callback_after_sending, AfterSend::Nothing);
    let b = BufferToWrite::new(b"abc".to_vec());
    assert_eq!(b.buffer, b"abc".to_vec());
    assert_eq!(b.offset, 0);
}

#[test]
fn reset_restarts_the_buffer() {
    let mut b = BufferToWrite::new(b"abc".to_vec());
    let drained = b.advance(3);
    assert!(drained);
    b.reset(b"defg".to_vec());
    assert_eq!(b.buffer, b"defg".to_vec());
    assert_eq!(b.offset, 0);
    b.reset_str("hi");
    assert_eq!(b.buffer, b"hi".to_vec());
    assert_eq!(b.offset, 0);
}

#[test]
fn advance_tracks_the_pending_bytes() {
    let mut b = BufferToWrite::new(b"hello".to_vec());
    assert_eq!(b.pending_slice(), b"hello");
    let drained = b.advance(2);
    assert!(!drained);
    assert_eq!(b.pending_slice(), b"llo");
    let drained = b.advance(3);
    assert!(drained);
    assert_eq!(b.pending_slice(), b"");
    assert!(b.drained());
}

#[test]
fn callback_runs_exactly_once() {
    let mut b = BufferToWrite::new(b"x".to_vec());
    b.load(b"y".to_vec(), AfterSend::CloseAfter);
    assert_eq!(b.take_callback(), AfterSend::CloseAfter);
    assert_eq!(b.take_callback(), AfterSend::Nothing);
}

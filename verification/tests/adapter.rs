use bio_adapter::bio::{
    bputs, bread, bwrite, create, ctrl, destroy, flush_verdict, get_mut, get_ref, new,
    read_verdict, strlen, take_error, take_stream, write_verdict, Bio,
};
use bio_adapter::error::{retriable_error, StreamError, StreamErrorKind};
use bio_adapter::method::{active_method, inert_method, BIO_CTRL_FLUSH, BIO_TYPE_NONE};
use bio_adapter::stream::MemoryStream;

#[test]
fn retriable_error_classification() {
    assert!(retriable_error(&StreamError { kind: StreamErrorKind::WouldBlock }));
    assert!(retriable_error(&StreamError { kind: StreamErrorKind::NotConnected }));
    assert!(!retriable_error(&StreamError { kind: StreamErrorKind::Other }));
}

#[test]
fn active_descriptor_shape() {
    let m = active_method();
    assert_eq!(m.type_tag, BIO_TYPE_NONE);
    assert_eq!(m.name, *b"rust\0");
    assert!(m.has_create && m.has_bwrite && m.has_bread && m.has_bputs && m.has_ctrl);
    assert!(!m.has_destroy && !m.has_bgets && !m.has_callback_ctrl);
}

#[test]
fn inert_descriptor_shape() {
    let m = inert_method();
    assert_eq!(m.type_tag, BIO_TYPE_NONE);
    assert_eq!(m.name, *b"rust\0");
    assert!(m.has_destroy);
    assert!(
        !m.has_create
            && !m.has_bwrite
            && !m.has_bread
            && !m.has_bputs
            && !m.has_ctrl
            && !m.has_bgets
            && !m.has_callback_ctrl
    );
}

#[test]
fn construction_starts_clean() {
    let (bio, method) = new(MemoryStream::new(Vec::new()));
    assert!(bio.init);
    assert!(bio.state.is_some());
    assert_eq!(bio.num, 0);
    assert!(!bio.retry_read && !bio.retry_write);
    assert!(method.has_bwrite && !method.has_destroy);
}

#[test]
fn write_reports_count_and_bytes_reach_stream() {
    let (mut bio, _method) = new(MemoryStream::new(Vec::new()));
    let r = bwrite(&mut bio, b"hello");
    assert_eq!(r, 5);
    assert!(!bio.retry_read && !bio.retry_write);
    assert_eq!(get_ref(&bio).out, b"hello".to_vec());
    assert_eq!(take_error(&mut bio), None);
}

#[test]
fn writes_accumulate_in_order() {
    let (mut bio, _method) = new(MemoryStream::new(Vec::new()));
    assert_eq!(bwrite(&mut bio, b"ab"), 2);
    assert_eq!(bwrite(&mut bio, b""), 0);
    assert_eq!(bwrite(&mut bio, b"cde"), 3);
    let s = take_stream(&mut bio);
    assert_eq!(s.out, b"abcde".to_vec());
}

#[test]
fn would_block_write_sets_retry_flag_and_stores_error() {
    let (mut bio, _method) = new(MemoryStream::new(Vec::new()));
    get_mut(&mut bio).force_failure(StreamErrorKind::WouldBlock);
    let r = bwrite(&mut bio, b"hello");
    assert_eq!(r, -1);
    assert!(bio.retry_write);
    assert!(!bio.retry_read);
    assert_eq!(get_ref(&bio).out, Vec::<u8>::new());
    assert_eq!(
        take_error(&mut bio),
        Some(StreamError { kind: StreamErrorKind::WouldBlock })
    );
}

#[test]
fn not_connected_write_is_retriable() {
    let (mut bio, _method) = new(MemoryStream::new(Vec::new()));
    get_mut(&mut bio).force_failure(StreamErrorKind::NotConnected);
    assert_eq!(bwrite(&mut bio, b"x"), -1);
    assert!(bio.retry_write);
    assert_eq!(
        take_error(&mut bio),
        Some(StreamError { kind: StreamErrorKind::NotConnected })
    );
}

#[test]
fn fatal_write_stores_error_without_retry_flag() {
    let (mut bio, _method) = new(MemoryStream::new(Vec::new()));
    get_mut(&mut bio).force_failure(StreamErrorKind::Other);
    let r = bwrite(&mut bio, b"hello");
    assert_eq!(r, -1);
    assert!(!bio.retry_write && !bio.retry_read);
    assert_eq!(
        take_error(&mut bio),
        Some(StreamError { kind: StreamErrorKind::Other })
    );
}

#[test]
fn error_query_clears_the_slot() {
    let (mut bio, _method) = new(MemoryStream::new(Vec::new()));
    get_mut(&mut bio).force_failure(StreamErrorKind::WouldBlock);
    assert_eq!(bwrite(&mut bio, b"hello"), -1);
    assert!(take_error(&mut bio).is_some());
    assert_eq!(take_error(&mut bio), None);
    assert_eq!(take_error(&mut bio), None);
}

#[test]
fn read_hands_out_front_bytes() {
    let (mut bio, _method) = new(MemoryStream::new(vec![1, 2, 3, 4]));
    let (r1, d1) = bread(&mut bio, 2);
    assert_eq!(r1, 2);
    assert_eq!(d1, vec![1, 2]);
    let (r2, d2) = bread(&mut bio, 10);
    assert_eq!(r2, 2);
    assert_eq!(d2, vec![3, 4]);
    let (r3, d3) = bread(&mut bio, 10);
    assert_eq!(r3, 0);
    assert_eq!(d3, Vec::<u8>::new());
}

#[test]
fn would_block_read_sets_read_retry_flag() {
    let (mut bio, _method) = new(MemoryStream::new(vec![9]));
    get_mut(&mut bio).force_failure(StreamErrorKind::WouldBlock);
    let (r, d) = bread(&mut bio, 1);
    assert_eq!(r, -1);
    assert_eq!(d, Vec::<u8>::new());
    assert!(bio.retry_read);
    assert!(!bio.retry_write);
    assert_eq!(
        take_error(&mut bio),
        Some(StreamError { kind: StreamErrorKind::WouldBlock })
    );
    let (r2, d2) = bread(&mut bio, 1);
    assert_eq!((r2, d2), (1, vec![9]));
}

#[test]
fn puts_equals_write_of_measured_prefix() {
    let (mut bio_puts, _m1) = new(MemoryStream::new(Vec::new()));
    let (mut bio_write, _m2) = new(MemoryStream::new(Vec::new()));
    let rp = bputs(&mut bio_puts, b"abc\0tail");
    let rw = bwrite(&mut bio_write, b"abc");
    assert_eq!(rp, rw);
    assert_eq!(rp, 3);
    assert_eq!(get_ref(&bio_puts).out, get_ref(&bio_write).out);
    assert_eq!(get_ref(&bio_puts).out, b"abc".to_vec());
}

#[test]
fn strlen_measures_to_first_null() {
    assert_eq!(strlen(b"rust\0"), 4);
    assert_eq!(strlen(b"\0"), 0);
    assert_eq!(strlen(b"a\0b\0"), 1);
}

#[test]
fn ctrl_flush_reports_stream_outcome() {
    let (mut bio, _method) = new(MemoryStream::new(Vec::new()));
    assert_eq!(ctrl(&mut bio, BIO_CTRL_FLUSH, 0), 1);
    get_mut(&mut bio).force_failure(StreamErrorKind::Other);
    assert_eq!(ctrl(&mut bio, BIO_CTRL_FLUSH, 0), 0);
    assert_eq!(
        take_error(&mut bio),
        Some(StreamError { kind: StreamErrorKind::Other })
    );
}

#[test]
fn ctrl_other_commands_are_not_handled() {
    let (mut bio, _method) = new(MemoryStream::new(Vec::new()));
    assert_eq!(ctrl(&mut bio, 0, 0), 0);
    assert_eq!(ctrl(&mut bio, 6, 123), 0);
    assert_eq!(ctrl(&mut bio, -1, 0), 0);
    // a pending failure is irrelevant to unrecognised commands
    get_mut(&mut bio).force_failure(StreamErrorKind::Other);
    assert_eq!(ctrl(&mut bio, 99, 0), 0);
    assert_eq!(take_error(&mut bio), None);
}

#[test]
fn create_blanks_the_object() {
    let (mut bio, _method) = new(MemoryStream::new(Vec::new()));
    bio.num = 7;
    bio.retry_write = true;
    let r = create(&mut bio);
    assert_eq!(r, 1);
    assert!(!bio.init);
    assert_eq!(bio.num, 0);
    assert!(bio.state.is_none());
    assert!(!bio.retry_read && !bio.retry_write);
}

#[test]
fn detachment_returns_the_same_stream_and_inerts_the_object() {
    let (mut bio, _method) = new(MemoryStream::new(vec![7, 8]));
    assert_eq!(bwrite(&mut bio, b"xyz"), 3);
    let s = take_stream(&mut bio);
    assert_eq!(s.out, b"xyz".to_vec());
    assert_eq!(s.input, vec![7, 8]);
    assert!(bio.state.is_none());
    assert!(!bio.init);
    assert!(bio.method.has_destroy);
    assert!(!bio.method.has_bwrite && !bio.method.has_bread && !bio.method.has_bputs);
    assert!(!bio.method.has_ctrl && !bio.method.has_create);
    assert_eq!(destroy(Some(&bio)), 1);
}

#[test]
fn destroy_reports_missing_objects() {
    assert_eq!(destroy(None::<&Bio<MemoryStream>>), 0);
}

#[test]
fn borrow_operations_expose_the_stream() {
    let (mut bio, _method) = new(MemoryStream::new(vec![5]));
    assert_eq!(bwrite(&mut bio, b"ok"), 2);
    assert_eq!(get_ref(&bio).out, b"ok".to_vec());
    get_mut(&mut bio).input.push(6);
    let (r, d) = bread(&mut bio, 4);
    assert_eq!((r, d), (2, vec![5, 6]));
}

#[test]
fn write_verdict_on_each_outcome() {
    let wb = StreamError { kind: StreamErrorKind::WouldBlock };
    let other = StreamError { kind: StreamErrorKind::Other };
    assert_eq!(write_verdict(Ok(3), None), (3, false, None));
    assert_eq!(write_verdict(Ok(0), Some(other)), (0, false, Some(other)));
    assert_eq!(write_verdict(Err(wb), None), (-1, true, Some(wb)));
    assert_eq!(write_verdict(Err(other), Some(wb)), (-1, false, Some(other)));
}

#[test]
fn read_verdict_on_each_outcome() {
    let wb = StreamError { kind: StreamErrorKind::WouldBlock };
    assert_eq!(
        read_verdict(Ok(vec![1, 2]), None),
        (2, vec![1, 2], false, None)
    );
    assert_eq!(
        read_verdict(Err(wb), None),
        (-1, Vec::new(), true, Some(wb))
    );
}

#[test]
fn flush_verdict_on_each_outcome() {
    let other = StreamError { kind: StreamErrorKind::Other };
    assert_eq!(flush_verdict(Ok(()), None), (1, None));
    assert_eq!(flush_verdict(Err(other), None), (0, Some(other)));
}

#[test]
fn adapter_scenario_over_memory_buffer() {
    // construct over an in-memory buffer stream
    let (mut bio, _method) = new(MemoryStream::new(Vec::new()));

    // a 5-byte write succeeds and lands in the buffer
    assert_eq!(bwrite(&mut bio, b"12345"), 5);
    assert_eq!(get_ref(&bio).out, b"12345".to_vec());

    // the next write would block: -1, write-retry flag, error retrievable
    get_mut(&mut bio).force_failure(StreamErrorKind::WouldBlock);
    assert_eq!(bwrite(&mut bio, b"67890"), -1);
    assert!(bio.retry_write);
    assert_eq!(
        take_error(&mut bio),
        Some(StreamError { kind: StreamErrorKind::WouldBlock })
    );

    // flush succeeds
    assert_eq!(ctrl(&mut bio, BIO_CTRL_FLUSH, 0), 1);

    // detachment returns the buffer with the bytes of the first write
    let s = take_stream(&mut bio);
    assert_eq!(s.out, b"12345".to_vec());

    // and the object is inert thereafter
    assert!(bio.state.is_none());
    assert!(!bio.init);
    assert!(bio.method.has_destroy && !bio.method.has_bwrite);
    assert_eq!(destroy(Some(&bio)), 1);
}

use echo_service::handler::{echo_session, Handler, ReadOutcome, ReadStep, SessionEnd, BUF_SIZE};

#[test]
fn test_echo_single_chunk() {
    let reads = vec![b"hello".to_vec()];
    let (out, end) = echo_session(&reads);
    assert_eq!(out, b"hello".to_vec());
    assert_eq!(end, SessionEnd::CleanClose);
}

#[test]
fn test_chunking_single_vs_split() {
    let whole = vec![b"hello".to_vec()];
    let split = vec![b"hel".to_vec(), b"lo".to_vec()];
    let (out_whole, _) = echo_session(&whole);
    let (out_split, _) = echo_session(&split);
    assert_eq!(out_whole, b"hello".to_vec());
    assert_eq!(out_split, b"hello".to_vec());
    assert_eq!(out_whole, out_split);
}

#[test]
fn test_orderly_close_ping() {
    let reads = vec![b"ping".to_vec()];
    let (out, end) = echo_session(&reads);
    assert_eq!(out, b"ping".to_vec());
    assert_eq!(end, SessionEnd::CleanClose);
}

#[test]
fn test_echo_empty_session() {
    let reads: Vec<Vec<u8>> = vec![];
    let (out, end) = echo_session(&reads);
    assert!(out.is_empty());
    assert_eq!(end, SessionEnd::CleanClose);
}

#[test]
fn test_echo_preserves_order() {
    let reads = vec![vec![1u8, 2], vec![3u8], vec![4u8, 5, 6]];
    let (out, end) = echo_session(&reads);
    assert_eq!(out, vec![1u8, 2, 3, 4, 5, 6]);
    assert_eq!(end, SessionEnd::CleanClose);
}

#[test]
fn test_echo_full_buffer_chunk() {
    let reads = vec![vec![42u8; BUF_SIZE]];
    let (out, end) = echo_session(&reads);
    assert_eq!(out, vec![42u8; BUF_SIZE]);
    assert_eq!(end, SessionEnd::CleanClose);
}

#[test]
fn test_connection_isolation_interleaved() {
    // Two concurrent clients: A sends "alpha", B sends "beta", their steps
    // interleaved in time. Each must get back exactly its own bytes.
    let mut a = Handler::new();
    let mut b = Handler::new();
    let mut a_out: Vec<u8> = Vec::new();
    let mut b_out: Vec<u8> = Vec::new();

    let a_step = a.on_read(ReadOutcome::Data(b"alp".to_vec()));
    let b_step = b.on_read(ReadOutcome::Data(b"be".to_vec()));
    match a_step {
        ReadStep::Write(w) => a_out.extend_from_slice(&w),
        ReadStep::Done(_) => panic!("A should be writing"),
    }
    assert!(a.on_write_result(true).is_none());
    match b_step {
        ReadStep::Write(w) => b_out.extend_from_slice(&w),
        ReadStep::Done(_) => panic!("B should be writing"),
    }
    assert!(b.on_write_result(true).is_none());

    let b_step = b.on_read(ReadOutcome::Data(b"ta".to_vec()));
    let a_step = a.on_read(ReadOutcome::Data(b"ha".to_vec()));
    match b_step {
        ReadStep::Write(w) => b_out.extend_from_slice(&w),
        ReadStep::Done(_) => panic!("B should be writing"),
    }
    assert!(b.on_write_result(true).is_none());
    match a_step {
        ReadStep::Write(w) => a_out.extend_from_slice(&w),
        ReadStep::Done(_) => panic!("A should be writing"),
    }
    assert!(a.on_write_result(true).is_none());

    assert!(matches!(a.on_read(ReadOutcome::Eof), ReadStep::Done(SessionEnd::CleanClose)));
    assert!(matches!(b.on_read(ReadOutcome::Eof), ReadStep::Done(SessionEnd::CleanClose)));
    assert_eq!(a_out, b"alpha".to_vec());
    assert_eq!(b_out, b"beta".to_vec());
}

#[test]
fn test_handler_clean_close() {
    let mut h = Handler::new();
    assert!(h.is_reading());
    assert_eq!(h.end(), None);
    let step = h.on_read(ReadOutcome::Eof);
    assert!(matches!(step, ReadStep::Done(SessionEnd::CleanClose)));
    assert_eq!(h.end(), Some(SessionEnd::CleanClose));
    assert!(!h.is_reading());
    assert!(!h.is_writing());
}

#[test]
fn test_read_error_ends_session() {
    let mut h = Handler::new();
    let step = h.on_read(ReadOutcome::Failed);
    assert!(matches!(step, ReadStep::Done(SessionEnd::ReadError)));
    assert_eq!(h.end(), Some(SessionEnd::ReadError));
}

#[test]
fn test_write_error_ends_session() {
    let mut h = Handler::new();
    let step = h.on_read(ReadOutcome::Data(b"data".to_vec()));
    match step {
        ReadStep::Write(w) => assert_eq!(w, b"data".to_vec()),
        ReadStep::Done(_) => panic!("should be writing"),
    }
    assert!(h.is_writing());
    let done = h.on_write_result(false);
    assert_eq!(done, Some(SessionEnd::WriteError));
    assert_eq!(h.end(), Some(SessionEnd::WriteError));
}

#[test]
fn test_write_success_returns_to_reading() {
    let mut h = Handler::new();
    let step = h.on_read(ReadOutcome::Data(vec![9u8]));
    assert!(matches!(step, ReadStep::Write(_)));
    let done = h.on_write_result(true);
    assert_eq!(done, None);
    assert!(h.is_reading());
}

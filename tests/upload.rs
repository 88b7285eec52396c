use r2_upload::upload::{
    DecodeError, UploadAction, UploadError, UploadEvent, UploadPhase, UploadSession,
};
use std::collections::HashMap;

/// One part of a request as the multipart reader would yield it.
enum Read {
    Part(Option<&'static str>, Vec<u8>),
    Broken,
}

struct Outcome {
    response: Result<(), UploadError>,
    writes: Vec<String>,
    bucket: HashMap<String, Vec<u8>>,
    reads: usize,
}

/// Drives a session over `reads`; the write with index `fail_at` fails.
fn drive(reads: Vec<Read>, fail_at: Option<usize>) -> Outcome {
    let mut reads = reads.into_iter();
    let mut session = UploadSession::new();
    let mut bucket = HashMap::new();
    let mut writes = Vec::new();
    let mut n_reads = 0;
    let mut action = UploadAction::ReadPart;
    loop {
        let event = match action {
            UploadAction::ReadPart => {
                n_reads += 1;
                match reads.next() {
                    Some(Read::Part(name, data)) => UploadEvent::Part {
                        file_name: name.map(|n| n.to_string()),
                        data,
                    },
                    Some(Read::Broken) => UploadEvent::DecodeFailed,
                    None => UploadEvent::PartsEnd,
                }
            }
            UploadAction::Store(object) => {
                let k = writes.len();
                writes.push(object.key.clone());
                if fail_at == Some(k) {
                    UploadEvent::StoreFailed
                } else {
                    bucket.insert(object.key, object.data);
                    UploadEvent::Stored
                }
            }
            UploadAction::Respond(response) => {
                return Outcome { response, writes, bucket, reads: n_reads };
            }
        };
        assert!(session.accepts(&event));
        action = session.step(event);
    }
}

#[test]
fn all_parts_are_stored_with_their_bytes() {
    let o = drive(
        vec![
            Read::Part(Some("a.txt"), b"alpha".to_vec()),
            Read::Part(Some("img/b.png"), vec![0, 255, 7]),
            Read::Part(Some("c"), vec![]),
        ],
        None,
    );
    assert_eq!(o.response, Ok(()));
    assert_eq!(o.writes, vec!["a.txt", "img/b.png", "c"]);
    assert_eq!(o.bucket.len(), 3);
    assert_eq!(o.bucket["a.txt"], b"alpha".to_vec());
    assert_eq!(o.bucket["img/b.png"], vec![0, 255, 7]);
    assert_eq!(o.bucket["c"], Vec::<u8>::new());
}

#[test]
fn single_part_upload() {
    let o = drive(vec![Read::Part(Some("only"), vec![9; 1000])], None);
    assert_eq!(o.response, Ok(()));
    assert_eq!(o.bucket["only"], vec![9; 1000]);
}

#[test]
fn empty_request_succeeds_without_writes() {
    let o = drive(vec![], None);
    assert_eq!(o.response, Ok(()));
    assert!(o.writes.is_empty());
    assert_eq!(o.reads, 1);
}

#[test]
fn absent_file_name_fails_before_any_write() {
    let o = drive(
        vec![
            Read::Part(Some("a"), vec![1]),
            Read::Part(None, vec![2]),
            Read::Part(Some("c"), vec![3]),
        ],
        None,
    );
    assert_eq!(o.response, Err(UploadError::Decode(DecodeError::MissingFileName)));
    assert!(o.writes.is_empty());
    assert!(o.bucket.is_empty());
    assert_eq!(o.reads, 2);
}

#[test]
fn empty_file_name_fails_before_any_write() {
    let o = drive(vec![Read::Part(Some(""), vec![2])], None);
    assert_eq!(o.response, Err(UploadError::Decode(DecodeError::MissingFileName)));
    assert!(o.writes.is_empty());
}

#[test]
fn malformed_stream_fails_before_any_write() {
    let o = drive(vec![Read::Part(Some("a"), vec![1]), Read::Broken], None);
    assert_eq!(o.response, Err(UploadError::Decode(DecodeError::Malformed)));
    assert!(o.writes.is_empty());
}

#[test]
fn failed_write_keeps_earlier_and_skips_later() {
    let o = drive(
        vec![
            Read::Part(Some("p1"), vec![1]),
            Read::Part(Some("p2"), vec![2]),
            Read::Part(Some("p3"), vec![3]),
            Read::Part(Some("p4"), vec![4]),
        ],
        Some(2),
    );
    assert_eq!(o.response, Err(UploadError::Store));
    assert_eq!(o.writes, vec!["p1", "p2", "p3"]);
    assert_eq!(o.bucket.len(), 2);
    assert_eq!(o.bucket["p1"], vec![1]);
    assert_eq!(o.bucket["p2"], vec![2]);
}

#[test]
fn failed_first_write_stores_nothing() {
    let o = drive(
        vec![Read::Part(Some("p1"), vec![1]), Read::Part(Some("p2"), vec![2])],
        Some(0),
    );
    assert_eq!(o.response, Err(UploadError::Store));
    assert_eq!(o.writes, vec!["p1"]);
    assert!(o.bucket.is_empty());
}

#[test]
fn same_name_second_write_wins() {
    let o = drive(
        vec![
            Read::Part(Some("dup"), b"first".to_vec()),
            Read::Part(Some("dup"), b"second".to_vec()),
        ],
        None,
    );
    assert_eq!(o.response, Ok(()));
    assert_eq!(o.writes, vec!["dup", "dup"]);
    assert_eq!(o.bucket.len(), 1);
    assert_eq!(o.bucket["dup"], b"second".to_vec());
}

#[test]
fn finished_session_accepts_nothing() {
    let mut s = UploadSession::new();
    assert_eq!(s.phase(), UploadPhase::Decoding);
    assert!(!s.accepts(&UploadEvent::Stored));
    let a = s.step(UploadEvent::PartsEnd);
    assert!(matches!(a, UploadAction::Respond(Ok(()))));
    assert_eq!(s.phase(), UploadPhase::Complete);
    assert!(!s.accepts(&UploadEvent::PartsEnd));
    assert!(!s.accepts(&UploadEvent::Stored));
    assert!(!s.accepts(&UploadEvent::DecodeFailed));
}

#[test]
fn storing_phase_waits_for_write_results() {
    let mut s = UploadSession::new();
    s.step(UploadEvent::Part { file_name: Some("k".to_string()), data: vec![5] });
    let a = s.step(UploadEvent::PartsEnd);
    match a {
        UploadAction::Store(o) => {
            assert_eq!(o.key, "k");
            assert_eq!(o.data, vec![5]);
        }
        _ => panic!("expected a write"),
    }
    assert_eq!(s.phase(), UploadPhase::Storing);
    assert!(s.accepts(&UploadEvent::Stored));
    assert!(!s.accepts(&UploadEvent::PartsEnd));
}

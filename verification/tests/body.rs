use s3_runner::body::Drain;
use s3_runner::outcome::TransferResult;

fn drain_into(chunks: &[Vec<u8>]) -> (Vec<u8>, Drain) {
    let mut drain = Drain::new();
    let mut sink = Vec::new();
    for chunk in chunks {
        if let Some(bytes) = drain.accept(chunk) {
            sink.extend_from_slice(bytes);
        }
    }
    drain.close();
    (sink, drain)
}

fn cut(body: &[u8], size: usize) -> Vec<Vec<u8>> {
    body.chunks(size).map(|chunk| chunk.to_vec()).collect()
}

#[test]
fn a_new_drain_is_open() {
    let drain = Drain::new();
    assert!(drain.is_open());
    assert!(!drain.is_complete());
    assert_eq!(drain.conclude("GetObjectOutput".to_string()), None);
}

#[test]
fn an_open_drain_hands_each_chunk_on_whole() {
    let mut drain = Drain::new();
    assert_eq!(drain.accept(&[1, 2, 3]), Some(&[1u8, 2, 3][..]));
    assert_eq!(drain.accept(&[]), Some(&[][..]));
    assert_eq!(drain.accept(&[255]), Some(&[255u8][..]));
    assert!(drain.is_open());
}

#[test]
fn one_chunk_or_many_give_the_same_bytes() {
    let body: Vec<u8> = (0..=255u8).cycle().take(1000).collect();
    let (whole, _) = drain_into(&[body.clone()]);
    assert_eq!(whole, body);
    for size in [1usize, 2, 3, 7, 64, 999, 1000, 4096] {
        let (pieces, drain) = drain_into(&cut(&body, size));
        assert_eq!(pieces, body);
        assert!(drain.is_complete());
    }
}

#[test]
fn empty_chunks_add_nothing() {
    let chunks = vec![vec![], b"ab".to_vec(), vec![], vec![], b"c".to_vec(), vec![]];
    let (sink, _) = drain_into(&chunks);
    assert_eq!(sink, b"abc".to_vec());
}

#[test]
fn an_empty_body_drains_to_nothing() {
    let (sink, drain) = drain_into(&[]);
    assert!(sink.is_empty());
    assert!(drain.is_complete());
    assert_eq!(
        drain.conclude("empty".to_string()),
        Some(TransferResult::Body("empty".to_string()))
    );
}

#[test]
fn nothing_is_written_after_the_end() {
    let mut drain = Drain::new();
    assert!(drain.accept(b"first").is_some());
    drain.close();
    assert!(!drain.is_open());
    assert!(drain.is_complete());
    assert_eq!(drain.accept(b"late"), None);
    drain.fail("too late".to_string());
    assert!(drain.is_complete());
    assert_eq!(drain.conclude("done".to_string()), Some(TransferResult::Body("done".to_string())));
}

#[test]
fn nothing_is_written_after_a_failure() {
    let mut drain = Drain::new();
    assert!(drain.accept(b"first").is_some());
    drain.fail("connection reset".to_string());
    assert!(!drain.is_open());
    assert!(!drain.is_complete());
    assert_eq!(drain.accept(b"more"), None);
    drain.close();
    assert!(!drain.is_complete());
    assert_eq!(
        drain.conclude("ignored".to_string()),
        Some(TransferResult::Failed("connection reset".to_string()))
    );
}

#[test]
fn the_first_failure_is_kept() {
    let mut drain = Drain::new();
    drain.fail("disk full".to_string());
    drain.fail("connection reset".to_string());
    assert_eq!(
        drain.conclude(String::new()),
        Some(TransferResult::Failed("disk full".to_string()))
    );
}

use get_chunk::data_chunk::{ChunkError, ChunkSize};
use get_chunk::iterator::FileIter;
use get_chunk::source::MemorySource;
use get_chunk::stream::{FileStream, PollStart};
use tokio::runtime::Runtime;

const HELLO: [u8; 13] = [72, 101, 108, 108, 111, 44, 32, 119, 111, 114, 108, 100, 33];
const TEST_TEXT: &str = "Hello world :D, I'm a test file!";

fn synthetic(len: usize) -> Vec<u8> {
    let mut state: u64 = 0x9e37_79b9_7f4a_7c15;
    let mut out = Vec::with_capacity(len);
    for _ in 0..len {
        state = state.wrapping_mul(6_364_136_223_846_793_005).wrapping_add(1_442_695_040_888_963_407);
        out.push((state >> 33) as u8);
    }
    out
}

/// One poll cycle, with the read run on tokio's blocking pool.
fn next(rt: &Runtime, s: &mut FileStream<MemorySource>) -> Option<Result<Vec<u8>, ChunkError>> {
    match s.poll_start() {
        PollStart::Spawn(pack) => {
            let joined = rt.block_on(rt.spawn_blocking(move || pack.read_chunk_owned()));
            s.poll_complete(joined.map_err(|_| ChunkError::TaskFailure))
        }
        PollStart::Wait => panic!("no read was in flight"),
        PollStart::Finished => None,
    }
}

fn drain(rt: &Runtime, mut s: FileStream<MemorySource>) -> Vec<Vec<u8>> {
    let mut chunks = Vec::new();
    while let Some(chunk) = next(rt, &mut s) {
        chunks.push(chunk.unwrap());
    }
    chunks
}

#[test]
fn stream_set_mode_t_0() {
    let rt = Runtime::new().unwrap();
    let s = FileStream::from_bytes(synthetic(960 * 1024)).set_mode(ChunkSize::Bytes(150 * 1024));
    let mut elements = drain(&rt, s);
    elements.pop();
    for chunk in elements {
        assert_eq!(chunk.len(), 150 * 1024);
    }
}

#[test]
fn stream_set_mode_t_1() {
    let rt = Runtime::new().unwrap();
    let s = FileStream::from_bytes(synthetic(960 * 1024)).set_mode(ChunkSize::Percent(1500));
    let mut elements = drain(&rt, s);
    elements.pop();
    assert_eq!(elements.len(), 6);
    for chunk in elements {
        assert_eq!(chunk.len(), 144 * 1024);
    }
}

#[test]
fn stream_set_mode_t_2() {
    let rt = Runtime::new().unwrap();
    let data = synthetic(700 * 1024);
    let s = FileStream::from_bytes(data.clone());
    assert_eq!(drain(&rt, s).concat(), data);
}

#[test]
fn stream_set_start_position_t_0() {
    let rt = Runtime::new().unwrap();
    let s = FileStream::from_slice(TEST_TEXT.as_bytes());
    let mut s = s.set_start_position_percent(5000).unwrap().set_mode(ChunkSize::Bytes(1));
    assert_eq!("I", String::from_utf8_lossy(&next(&rt, &mut s).unwrap().unwrap()));

    let s = FileStream::from_slice(TEST_TEXT.as_bytes());
    let mut s = s.set_start_position_percent(42000).unwrap().set_mode(ChunkSize::Bytes(1));
    assert!(next(&rt, &mut s).is_none(), "Error in set_start_position_t_0");
}

#[test]
fn stream_set_start_position_t_1() {
    let rt = Runtime::new().unwrap();
    let s = FileStream::from_slice(TEST_TEXT.as_bytes());
    let mut s = s.set_start_position_bytes(6).unwrap().set_mode(ChunkSize::Bytes(1));
    assert_eq!("w", String::from_utf8_lossy(&next(&rt, &mut s).unwrap().unwrap()));

    let s = FileStream::from_slice(TEST_TEXT.as_bytes());
    let mut s = s.set_start_position_bytes(420).unwrap().set_mode(ChunkSize::Bytes(1));
    assert!(next(&rt, &mut s).is_none(), "Error in set_start_position_t_1");
}

#[test]
fn stream_get_file_size_t_0() {
    let s = FileStream::from_bytes(synthetic(960 * 1024));
    assert_eq!(s.get_file_size(), 983_040);
}

#[test]
fn stream_is_read_complete_t_0() {
    let rt = Runtime::new().unwrap();
    let mut s = FileStream::from_bytes(synthetic(900 * 1024)).set_mode(ChunkSize::Percent(5000));
    next(&rt, &mut s);
    assert!(!s.is_read_complete());
    next(&rt, &mut s);
    assert!(!s.is_read_complete());
    next(&rt, &mut s);
    assert!(s.is_read_complete());
}

#[test]
fn stream_impl_try_from_t_2() {
    let rt = Runtime::new().unwrap();
    let mut s = FileStream::from_bytes(HELLO.to_vec()).set_mode(ChunkSize::Percent(5000));
    assert_eq!(next(&rt, &mut s).unwrap().unwrap(), [72, 101, 108, 108, 111, 44]);
    assert_eq!(next(&rt, &mut s).unwrap().unwrap(), [32, 119, 111, 114, 108, 100]);
    assert_eq!(next(&rt, &mut s).unwrap().unwrap(), [33]);
}

#[test]
fn stream_chunk_bytes_t_0() {
    let rt = Runtime::new().unwrap();
    let mut s = FileStream::from_slice(&HELLO).set_mode(ChunkSize::Bytes(4));
    assert_eq!(next(&rt, &mut s).unwrap().unwrap(), [72, 101, 108, 108]);
    assert_eq!(next(&rt, &mut s).unwrap().unwrap(), [111, 44, 32, 119]);
    assert_eq!(next(&rt, &mut s).unwrap().unwrap(), [111, 114, 108, 100]);
    assert_eq!(next(&rt, &mut s).unwrap().unwrap(), [33]);
    assert!(next(&rt, &mut s).is_none());
}

#[test]
fn stream_and_iterator_yield_the_same_bytes() {
    let rt = Runtime::new().unwrap();
    let data = synthetic(300_000);
    for mode in [ChunkSize::Auto, ChunkSize::Percent(700), ChunkSize::Bytes(12_345)] {
        let from_stream = drain(&rt, FileStream::from_bytes(data.clone()).set_mode(mode)).concat();
        let mut it = FileIter::from_bytes(data.clone()).set_mode(mode);
        let from_iter = it.collect_chunks().concat();
        assert_eq!(from_stream, from_iter);
        assert_eq!(from_iter, data);
    }
}

#[test]
fn pending_stream_holds_no_source() {
    let mut s = FileStream::from_slice(&HELLO);
    let pack = match s.poll_start() {
        PollStart::Spawn(pack) => pack,
        _ => panic!("an idle stream hands its source over"),
    };
    assert!(s.is_pending());
    assert!(matches!(s.poll_start(), PollStart::Wait));
    let s = s.set_start_position_bytes(2);
    assert!(matches!(s, Err(ChunkError::SeekFailure)));
    drop(pack);
}

#[test]
fn task_failure_is_reported_once_then_the_stream_ends() {
    let mut s = FileStream::from_slice(&HELLO);
    assert!(matches!(s.poll_start(), PollStart::Spawn(_)));
    assert_eq!(s.poll_complete(Err(ChunkError::TaskFailure)), Some(Err(ChunkError::TaskFailure)));
    assert!(s.is_read_complete());
    assert!(matches!(s.poll_start(), PollStart::Finished));
}

#[test]
fn stream_collect_on_the_calling_thread_matches_the_source() {
    let data = synthetic(20_000);
    let mut s = FileStream::from_bytes(data.clone()).set_mode(ChunkSize::Bytes(3_000));
    let chunks = s.collect_chunks();
    let lens: Vec<usize> = chunks.iter().map(|c| c.len()).collect();
    assert_eq!(lens, vec![3_000, 3_000, 3_000, 3_000, 3_000, 3_000, 2_000]);
    assert_eq!(chunks.concat(), data);
    assert!(s.is_read_complete());
}

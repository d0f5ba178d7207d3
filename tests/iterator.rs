use get_chunk::data_chunk::ChunkSize;
use get_chunk::iterator::FileIter;
use get_chunk::memory::Memory;

const KIB: usize = 1024;
const HELLO: [u8; 13] = [72, 101, 108, 108, 111, 44, 32, 119, 111, 114, 108, 100, 33];
const TEST_TEXT: &str = "Hello world :D, I'm a test file!";

/// Deterministic pseudo-random bytes.
fn synthetic(len: usize) -> Vec<u8> {
    let mut state: u64 = 0x2545_f491_4f6c_dd1d;
    let mut out = Vec::with_capacity(len);
    for _ in 0..len {
        state = state.wrapping_mul(6_364_136_223_846_793_005).wrapping_add(1_442_695_040_888_963_407);
        out.push((state >> 33) as u8);
    }
    out
}

fn drain(mut it: FileIter<get_chunk::source::MemorySource>) -> Vec<Vec<u8>> {
    let mut chunks = Vec::new();
    while let Some(chunk) = it.next() {
        chunks.push(chunk);
    }
    chunks
}

#[test]
fn iterator_set_mode_t_0() {
    let chunk_size = 150 * KIB;
    let data = synthetic(960 * KIB);
    let it = FileIter::from_bytes(data.clone()).set_mode(ChunkSize::Bytes(chunk_size));
    let mut elements = drain(it);
    elements.pop();
    assert!(!elements.is_empty());
    for chunk in elements {
        assert_eq!(chunk.len(), chunk_size);
    }
}

#[test]
fn iterator_set_mode_t_1() {
    let data = synthetic(960 * KIB);
    let it = FileIter::from_bytes(data).set_mode(ChunkSize::Percent(1500));
    let mut elements = drain(it);
    elements.pop();
    assert_eq!(elements.len(), 6);
    for chunk in elements {
        assert_eq!(chunk.len(), 144 * KIB);
    }
}

#[test]
fn iterator_set_mode_t_2() {
    let data = synthetic(700 * KIB);
    let it = FileIter::from_bytes(data.clone());
    let chunks = drain(it);
    assert_eq!(chunks.concat(), data);
}

#[test]
fn iterator_set_start_position_t_0() {
    let it = FileIter::from_slice(TEST_TEXT.as_bytes());
    let mut it = it.set_start_position_percent(5000).unwrap().set_mode(ChunkSize::Bytes(1));
    assert_eq!("I", String::from_utf8_lossy(&it.next().expect("Error in set_start_position_t_0")));

    let it = FileIter::from_slice(TEST_TEXT.as_bytes());
    let mut it = it.set_start_position_percent(42000).unwrap().set_mode(ChunkSize::Bytes(1));
    assert!(it.next().is_none(), "Error in set_start_position_t_0");
}

#[test]
fn iterator_set_start_position_t_1() {
    let it = FileIter::from_slice(TEST_TEXT.as_bytes());
    let mut it = it.set_start_position_bytes(6).unwrap().set_mode(ChunkSize::Bytes(1));
    assert_eq!("w", String::from_utf8_lossy(&it.next().expect("Error in set_start_position_t_1")));

    let it = FileIter::from_slice(TEST_TEXT.as_bytes());
    let mut it = it.set_start_position_bytes(420).unwrap().set_mode(ChunkSize::Bytes(1));
    assert!(it.next().is_none(), "Error in set_start_position_t_1");
}

#[test]
fn iterator_get_file_size_t_0() {
    let it = FileIter::from_bytes(synthetic(960 * KIB));
    assert_eq!(it.get_file_size(), 983_040);
}

#[test]
fn iterator_is_read_complete_t_0() {
    let mut it = FileIter::from_bytes(synthetic(900 * KIB)).set_mode(ChunkSize::Percent(5000));
    it.next();
    assert!(!it.is_read_complete());
    it.next();
    assert!(!it.is_read_complete());
    it.next();
    assert!(it.is_read_complete());
}

#[test]
fn iterator_impl_try_from_t_2() {
    let bytes: [u8; 13] = HELLO;
    let mut it = FileIter::from_slice(bytes.as_slice()).set_mode(ChunkSize::Percent(5000));
    assert_eq!(it.next().unwrap(), [72, 101, 108, 108, 111, 44]);
    assert_eq!(it.next().unwrap(), [32, 119, 111, 114, 108, 100]);
    assert_eq!(it.next().unwrap(), [33]);
}

#[test]
fn iterator_impl_try_from_t_3() {
    let bytes: Vec<u8> = HELLO.to_vec();
    let mut it = FileIter::from_bytes(bytes).set_mode(ChunkSize::Percent(5000));
    assert_eq!(it.next().unwrap(), [72, 101, 108, 108, 111, 44]);
    assert_eq!(it.next().unwrap(), [32, 119, 111, 114, 108, 100]);
    assert_eq!(it.next().unwrap(), [33]);
}

#[test]
fn iterator_impl_try_from_t_4() {
    let bytes: Vec<u8> = HELLO.to_vec();
    let mut it = FileIter::from_slice(&bytes).set_mode(ChunkSize::Percent(5000));
    assert_eq!(it.next().unwrap(), [72, 101, 108, 108, 111, 44]);
    assert_eq!(it.next().unwrap(), [32, 119, 111, 114, 108, 100]);
    assert_eq!(it.next().unwrap(), [33]);
}

#[test]
fn impl_try_from_t_7() {
    let bytes: [u8; 13] = HELLO;
    let mut it = FileIter::from_slice(bytes.as_slice()).set_mode(ChunkSize::Percent(5000));
    assert_eq!(it.next().unwrap(), [72, 101, 108, 108, 111, 44]);
    assert_eq!(it.next().unwrap(), [32, 119, 111, 114, 108, 100]);
    assert_eq!(it.next().unwrap(), [33]);
}

#[test]
fn iterator_chunk_bytes_t_0() {
    let bytes: [u8; 13] = HELLO;
    let mut it = FileIter::from_slice(bytes.as_slice()).set_mode(ChunkSize::Bytes(4));
    assert_eq!(it.next().unwrap(), [72, 101, 108, 108]);
    assert_eq!(it.next().unwrap(), [111, 44, 32, 119]);
    assert_eq!(it.next().unwrap(), [111, 114, 108, 100]);
    assert_eq!(it.next().unwrap(), [33]);
}

#[test]
fn percent_half_of_900_kib_gives_two_chunks_then_end() {
    let mut it = FileIter::from_bytes(synthetic(900 * KIB)).set_mode(ChunkSize::Percent(5000));
    assert_eq!(it.next().unwrap().len(), 450 * KIB);
    assert_eq!(it.next().unwrap().len(), 450 * KIB);
    assert!(it.next().is_none());
    assert!(it.next().is_none());
}

#[test]
fn percent_half_of_hello_concatenates_back() {
    let it = FileIter::from_slice(&HELLO).set_mode(ChunkSize::Percent(5000));
    let chunks = drain(it);
    let lens: Vec<usize> = chunks.iter().map(|c| c.len()).collect();
    assert_eq!(lens, vec![6, 6, 1]);
    assert_eq!(chunks.concat(), HELLO.to_vec());
}

#[test]
fn bytes_mode_collects_whole_source_then_one_end() {
    let data = synthetic(10_000);
    let mut it = FileIter::from_bytes(data.clone()).set_mode(ChunkSize::Bytes(3_000));
    let chunks = it.collect_chunks();
    let lens: Vec<usize> = chunks.iter().map(|c| c.len()).collect();
    assert_eq!(lens, vec![3_000, 3_000, 3_000, 1_000]);
    assert_eq!(chunks.concat(), data);
    assert!(it.is_read_complete());
    assert!(it.next().is_none());
}

#[test]
fn bytes_mode_larger_than_source_takes_it_whole() {
    let mut it = FileIter::from_slice(&HELLO).set_mode(ChunkSize::Bytes(1_000));
    assert_eq!(it.next().unwrap(), HELLO.to_vec());
    assert!(it.next().is_none());
}

#[test]
fn bytes_mode_zero_still_reads_one_byte() {
    let mut it = FileIter::from_slice(&HELLO).set_mode(ChunkSize::Bytes(0));
    let chunks = it.collect_chunks();
    assert_eq!(chunks.len(), 13);
    assert_eq!(chunks.concat(), HELLO.to_vec());
}

#[test]
fn fixed_memory_caps_every_chunk() {
    let data = synthetic(1_000);
    let mut it = FileIter::from_bytes(data.clone())
        .set_mode(ChunkSize::Bytes(500))
        .set_memory(Memory::fixed(200));
    let chunks = it.collect_chunks();
    assert!(chunks[..chunks.len() - 1].iter().all(|c| c.len() == 170));
    assert_eq!(chunks.concat(), data);
}

#[test]
fn start_at_size_is_exhausted_at_once() {
    let mut it = FileIter::from_slice(&HELLO).set_start_position_bytes(13).unwrap();
    assert!(it.next().is_none());
    assert!(it.is_read_complete());
}

#[test]
fn percent_start_is_capped_at_one_hundred_bytes() {
    let data = synthetic(1_000);
    let mut it = FileIter::from_bytes(data.clone())
        .set_start_position_percent(5000)
        .unwrap()
        .set_mode(ChunkSize::Bytes(10));
    assert_eq!(it.next().unwrap(), data[100..110].to_vec());
}

#[test]
fn empty_source_ends_at_once() {
    let mut it = FileIter::from_bytes(Vec::new());
    assert_eq!(it.get_file_size(), 0);
    assert!(it.next().is_none());
    assert!(it.is_read_complete());
}

#[test]
fn auto_mode_with_swap_reads_everything() {
    let data = synthetic(50_000);
    let mut it = FileIter::from_bytes(data.clone()).include_available_swap();
    assert_eq!(it.collect_chunks().concat(), data);
}

#[test]
fn begin_read_plans_nothing_once_exhausted() {
    let mut it = FileIter::with_source((), 10)
        .set_mode(ChunkSize::Bytes(4))
        .set_memory(Memory::fixed(1 << 20));
    assert_eq!(it.begin_read(), Some(4));
    assert_eq!(it.finish_read(vec![1, 2, 3, 4], 0), Some(vec![1, 2, 3, 4]));
    assert_eq!(it.begin_read(), Some(4));
    assert_eq!(it.finish_read(Vec::new(), 0), None);
    assert!(it.is_read_complete());
    assert_eq!(it.begin_read(), None);
}

#[test]
fn failed_read_exhausts_the_reader() {
    let mut it = FileIter::with_source((), 10);
    assert!(it.begin_read().is_some());
    it.fail_read();
    assert!(it.is_read_complete());
    assert_eq!(it.begin_read(), None);
}

#[test]
fn memory_reading_adds_swap_only_when_it_counts() {
    let mut ram_only = Memory::fixed(0);
    ram_only.record_reading(1_000, 500);
    assert_eq!(ram_only.available(), 1_000);

    let mut with_swap = Memory::fixed(0);
    with_swap.include_swap();
    with_swap.record_reading(1_000, 500);
    assert_eq!(with_swap.available(), 1_500);
    with_swap.record_reading(u64::MAX - 10, 500);
    assert_eq!(with_swap.available(), u64::MAX);
}

#[test]
fn host_memory_reading_is_taken() {
    let mut memory = Memory::new();
    memory.update_ram();
    assert!(memory.available() > 0);
}

#[test]
fn bytes_mode_chunk_count_is_rounded_up() {
    let data = synthetic(10_001);
    let mut it = FileIter::from_bytes(data.clone())
        .set_mode(ChunkSize::Bytes(1_000))
        .set_memory(Memory::fixed(1 << 20));
    let chunks = it.collect_chunks();
    assert_eq!(chunks.len(), 11);
    assert_eq!(chunks[10].len(), 1);
    assert_eq!(chunks.concat(), data);
}

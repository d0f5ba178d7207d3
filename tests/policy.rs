use get_chunk::data_chunk::{throughput, ChunkInfo, ChunkSize, FileInfo};

const RAM: u64 = 1 << 40;

#[test]
fn auto_first_probe_is_a_thousandth() {
    assert_eq!(ChunkSize::calculate_chunk(None, None, 1_000_000, RAM, ChunkSize::Auto), 1_000);
    assert_eq!(ChunkSize::calculate_chunk(Some(0), Some(7), 1_000_000, RAM, ChunkSize::Auto), 1_000);
}

#[test]
fn auto_keeps_target_without_throughput() {
    assert_eq!(ChunkSize::calculate_chunk(Some(4_000), None, 1_000_000, RAM, ChunkSize::Auto), 4_000);
}

#[test]
fn auto_shrinks_by_at_most_45_percent() {
    assert_eq!(ChunkSize::calculate_chunk(Some(1_000), Some(100), 0, RAM, ChunkSize::Auto), 550);
    assert_eq!(ChunkSize::calculate_chunk(Some(1_000), Some(900), 0, RAM, ChunkSize::Auto), 900);
    assert_eq!(ChunkSize::calculate_chunk(Some(3), Some(0), 0, RAM, ChunkSize::Auto), 2);
}

#[test]
fn auto_grows_by_at_most_15_percent() {
    assert_eq!(ChunkSize::calculate_chunk(Some(1_000), Some(1_000_000), 0, RAM, ChunkSize::Auto), 1_150);
    assert_eq!(ChunkSize::calculate_chunk(Some(1_000), Some(1_100), 0, RAM, ChunkSize::Auto), 1_100);
    assert_eq!(ChunkSize::calculate_chunk(Some(1_000), Some(1_000), 0, RAM, ChunkSize::Auto), 1_000);
}

#[test]
fn auto_steps_stay_within_bounds() {
    for prev in [1u64, 7, 100, 1_000, 123_456] {
        for now in [0u64, 1, 50, 999, 1_000_000, u64::MAX] {
            let next = ChunkSize::calculate_chunk(Some(prev), Some(now), 0, RAM, ChunkSize::Auto);
            assert!(100 * next as u128 >= 55 * prev as u128);
            assert!(100 * next as u128 <= 115 * prev as u128);
        }
    }
}

#[test]
fn every_mode_respects_memory_ceiling() {
    for mode in [ChunkSize::Auto, ChunkSize::Percent(10_000), ChunkSize::Bytes(usize::MAX)] {
        let next = ChunkSize::calculate_chunk(Some(1_000_000), Some(u64::MAX), 10_000_000, 1_000, mode);
        assert_eq!(next, 850);
    }
}

#[test]
fn percent_is_a_share_of_the_size() {
    assert_eq!(ChunkSize::calculate_chunk(None, None, 983_040, RAM, ChunkSize::Percent(1500)), 147_456);
    assert_eq!(ChunkSize::calculate_chunk(None, None, 13, RAM, ChunkSize::Percent(5000)), 6);
}

#[test]
fn percent_out_of_range_is_clamped() {
    let below = ChunkSize::calculate_chunk(None, None, 1_000_000, RAM, ChunkSize::Percent(1));
    let low = ChunkSize::calculate_chunk(None, None, 1_000_000, RAM, ChunkSize::Percent(10));
    assert_eq!(below, low);
    assert_eq!(low, 1_000);
    let above = ChunkSize::calculate_chunk(None, None, 1_000_000, RAM, ChunkSize::Percent(42_000));
    assert_eq!(above, 1_000_000);
}

#[test]
fn bytes_never_exceed_the_source() {
    assert_eq!(ChunkSize::calculate_chunk(None, None, 13, RAM, ChunkSize::Bytes(4)), 4);
    assert_eq!(ChunkSize::calculate_chunk(None, None, 13, RAM, ChunkSize::Bytes(40)), 13);
}

#[test]
fn throughput_is_bytes_per_second() {
    assert_eq!(throughput(1_000, 1_000_000_000, None), Some(1_000));
    assert_eq!(throughput(500, 250_000_000, None), Some(2_000));
    assert_eq!(throughput(500, 0, Some(77)), Some(77));
    assert_eq!(throughput(500, 0, None), None);
}

#[test]
fn plan_records_target() {
    let mut info = ChunkInfo::default();
    info.mode = ChunkSize::Bytes(4);
    assert_eq!(info.plan(13, RAM), 4);
    assert_eq!(info.prev_target, Some(4));
    assert_eq!(info.read_limit(), 4);
    let fresh = FileInfo::new(13, 2);
    assert_eq!(fresh.size, 13);
    assert_eq!(fresh.start_position, 2);
    assert_eq!(fresh.chunk_info.prev_target, None);
    assert_eq!(fresh.chunk_info.read_limit(), 1);
}

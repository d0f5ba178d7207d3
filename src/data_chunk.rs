//! The sizing policy: how large the next chunk should be.

use vstd::prelude::*;

verus! {

/// Hundredths of a percent that make up the whole source (100.00%).
pub const PERCENT_SCALE: u64 = 10_000;

/// Smallest share accepted by [`ChunkSize::Percent`]: 0.10%.
pub const PERCENT_MIN: u64 = 10;

/// Largest share accepted by [`ChunkSize::Percent`]: 100.00%.
pub const PERCENT_MAX: u64 = 10_000;

/// How the size of each chunk is chosen.
///
/// Whatever the mode, a target never exceeds 85% of the memory available
/// at the moment it is computed.
#[derive(Debug, Clone, Copy, PartialEq, Eq, Structural)]
pub enum ChunkSize {
    /// Starts with 0.1% of the source, then follows the measured throughput:
    /// shrinks by at most 45% when it drops, grows by at most 15% when it rises.
    Auto,
    /// A share of the total size, in hundredths of a percent (`5000` is 50%),
    /// clamped to the range from 0.10% to 100.00%.
    Percent(u64),
    /// A fixed number of bytes per chunk, never more than the whole source.
    Bytes(usize),
}

/// 85% of the available memory, rounded down: the ceiling of every target.
pub open spec fn memory_ceiling(ram: u64) -> int {
    ram as int * 85 / 100
}

/// A share in hundredths of a percent, brought into the accepted range.
pub open spec fn clamp_percent(p: u64) -> int {
    if p < PERCENT_MIN {
        PERCENT_MIN as int
    } else if p > PERCENT_MAX {
        PERCENT_MAX as int
    } else {
        p as int
    }
}

/// The smallest integer not below 55% of `p`.
pub open spec fn shrink_floor(p: u64) -> int {
    (p as int * 55 + 99) / 100
}

/// The largest integer not above 115% of `p`.
pub open spec fn grow_ceiling(p: u64) -> int {
    p as int * 115 / 100
}

pub open spec fn min_int(a: int, b: int) -> int {
    if a <= b { a } else { b }
}

pub open spec fn max_int(a: int, b: int) -> int {
    if a >= b { a } else { b }
}

/// Whether a previous target carries information: an unset target, or one of
/// zero bytes, does not.
pub open spec fn target_known(prev: Option<u64>) -> bool {
    prev is Some && prev->0 > 0
}

/// The automatic mode before the memory ceiling.
///
/// Without a previous target it probes 0.1% of the source. With a target but
/// no measured throughput it keeps the target. Otherwise the throughput `n` is
/// compared with the target `p`: below it, the target becomes `n` but not less
/// than 55% of `p`; at or above it, `n` but not more than 115% of `p`.
pub open spec fn auto_target(prev: Option<u64>, now: Option<u64>, size: u64) -> int {
    if !target_known(prev) {
        size as int / 1000
    } else {
        let p = prev->0;
        match now {
            None => p as int,
            Some(n) => if n < p {
                max_int(n as int, shrink_floor(p))
            } else {
                min_int(n as int, grow_ceiling(p))
            },
        }
    }
}

/// The target of a mode before the memory ceiling.
pub open spec fn mode_target(prev: Option<u64>, now: Option<u64>, size: u64, mode: ChunkSize) -> int {
    match mode {
        ChunkSize::Auto => auto_target(prev, now, size),
        ChunkSize::Percent(p) => size as int * clamp_percent(p) / PERCENT_SCALE as int,
        ChunkSize::Bytes(n) => min_int(n as int, size as int),
    }
}

/// The next target size in bytes: the mode's target, capped by the memory ceiling.
pub open spec fn chunk_target(
    prev: Option<u64>,
    now: Option<u64>,
    size: u64,
    ram: u64,
    mode: ChunkSize,
) -> int {
    min_int(mode_target(prev, now, size, mode), memory_ceiling(ram))
}

/// No mode ever asks for more than 85% of the memory available when the
/// target is computed.
pub proof fn lemma_target_within_memory_ceiling(
    prev: Option<u64>,
    now: Option<u64>,
    size: u64,
    ram: u64,
    mode: ChunkSize,
)
    ensures
        chunk_target(prev, now, size, ram, mode) <= memory_ceiling(ram),
{
}

/// Once a previous target `prev` and a measured throughput exist, the
/// automatic mode moves to at most 115% of `prev`, and to at least 55% of it
/// wherever the memory ceiling leaves room for that much.
pub proof fn lemma_auto_step_bounds(prev: u64, now: u64, size: u64, ram: u64)
    requires
        prev > 0,
    ensures
        100 * chunk_target(Some(prev), Some(now), size, ram, ChunkSize::Auto) <= 115 * prev,
        100 * memory_ceiling(ram) >= 55 * prev ==> 100 * chunk_target(
            Some(prev),
            Some(now),
            size,
            ram,
            ChunkSize::Auto,
        ) >= 55 * prev,
        chunk_target(Some(prev), Some(now), size, ram, ChunkSize::Auto) <= memory_ceiling(ram),
{
}

/// A share outside the accepted range sizes chunks exactly as the nearest
/// bound of the range does.
pub proof fn lemma_percent_clamped(prev: Option<u64>, now: Option<u64>, size: u64, ram: u64, p: u64)
    ensures
        p < PERCENT_MIN ==> chunk_target(prev, now, size, ram, ChunkSize::Percent(p))
            == chunk_target(prev, now, size, ram, ChunkSize::Percent(PERCENT_MIN)),
        p > PERCENT_MAX ==> chunk_target(prev, now, size, ram, ChunkSize::Percent(p))
            == chunk_target(prev, now, size, ram, ChunkSize::Percent(PERCENT_MAX)),
{
}

impl ChunkSize {
    /// Computes the next target size.
    ///
    /// `prev` is the target of the previous read, `now` the throughput it
    /// achieved in bytes per second, `size` the total size of the source and
    /// `ram` the memory available now, all in bytes.
    pub fn calculate_chunk(
        prev: Option<u64>,
        now: Option<u64>,
        size: u64,
        ram: u64,
        mode: ChunkSize,
    ) -> (r: u64)
        ensures
            r as int == chunk_target(prev, now, size, ram, mode),
            r as int <= memory_ceiling(ram),
    {
        let raw: u64 = match mode {
            ChunkSize::Auto => {
                match prev {
                    Some(p) if p > 0 => match now {
                        Some(n) => if n < p {
                            ChunkSize::decrease_chunk(p, n)
                        } else {
                            ChunkSize::increase_chunk(p, n)
                        },
                        None => p,
                    },
                    _ => ChunkSize::default_chunk_size(size),
                }
            },
            ChunkSize::Percent(percent) => ChunkSize::percentage_chunk(size, percent),
            ChunkSize::Bytes(bytes) => ChunkSize::bytes_chunk(size, bytes),
        };
        let ceiling = ChunkSize::ram_ceiling(ram);
        if raw <= ceiling {
            raw
        } else {
            ceiling
        }
    }

    /// 85% of `ram`, rounded down.
    fn ram_ceiling(ram: u64) -> (r: u64)
        ensures
            r as int == memory_ceiling(ram),
    {
        (ram as u128 * 85 / 100) as u64
    }

    /// The throughput `now` fell below the target `prev`: follow it down, by at most 45%.
    fn decrease_chunk(prev: u64, now: u64) -> (r: u64)
        requires
            now < prev,
        ensures
            r as int == max_int(now as int, shrink_floor(prev)),
    {
        let floor = ((prev as u128 * 55 + 99) / 100) as u64;
        if now >= floor {
            now
        } else {
            floor
        }
    }

    /// The throughput `now` reached the target `prev`: follow it up, by at most 15%.
    fn increase_chunk(prev: u64, now: u64) -> (r: u64)
        requires
            now >= prev,
        ensures
            r as int == min_int(now as int, grow_ceiling(prev)),
    {
        let ceiling = prev as u128 * 115 / 100;
        if (now as u128) <= ceiling {
            now
        } else {
            ceiling as u64
        }
    }

    /// The first probe of the automatic mode: 0.1% of the source.
    fn default_chunk_size(size: u64) -> (r: u64)
        ensures
            r as int == size as int / 1000,
    {
        size / 1000
    }

    /// A clamped share of the source.
    fn percentage_chunk(size: u64, percent: u64) -> (r: u64)
        ensures
            r as int == size as int * clamp_percent(percent) / PERCENT_SCALE as int,
    {
        let p: u64 = if percent < PERCENT_MIN {
            PERCENT_MIN
        } else if percent > PERCENT_MAX {
            PERCENT_MAX
        } else {
            percent
        };
        assert(size as int * p as int <= u64::MAX as int * 10000) by (nonlinear_arith)
            requires
                p <= 10000,
        ;
        let r = size as u128 * p as u128 / PERCENT_SCALE as u128;
        assert(r <= size) by (nonlinear_arith)
            requires
                r == size as int * p as int / 10000,
                p <= 10000,
        ;
        r as u64
    }

    /// The requested number of bytes, never more than the source.
    fn bytes_chunk(size: u64, bytes: usize) -> (r: u64)
        ensures
            r as int == min_int(bytes as int, size as int),
    {
        if (bytes as u64) <= size {
            bytes as u64
        } else {
            size
        }
    }
}

/// Nanoseconds in one second.
pub const NANOS_PER_SECOND: u128 = 1_000_000_000;

/// The throughput of one read of `bytes` bytes that took `nanos` nanoseconds,
/// in bytes per second (rounded down, saturated at `u64::MAX`). A read that
/// took no measurable time carries `previous` over.
pub open spec fn measured_throughput(bytes: nat, nanos: u128, previous: Option<u64>) -> Option<u64> {
    if nanos == 0 {
        previous
    } else {
        let rate = bytes * NANOS_PER_SECOND / nanos as int;
        Some(if rate > u64::MAX { u64::MAX } else { rate as u64 })
    }
}

/// Computes [`measured_throughput`].
pub fn throughput(bytes: usize, nanos: u128, previous: Option<u64>) -> (r: Option<u64>)
    ensures
        r == measured_throughput(bytes as nat, nanos, previous),
{
    if nanos == 0 {
        previous
    } else {
        assert(bytes as int * 1_000_000_000 <= u128::MAX) by (nonlinear_arith)
            requires
                bytes <= usize::MAX,
        ;
        let rate = bytes as u128 * NANOS_PER_SECOND / nanos;
        if rate > u64::MAX as u128 {
            Some(u64::MAX)
        } else {
            Some(rate as u64)
        }
    }
}

/// One unit of bytes produced by a read, with the throughput measured for it.
pub struct Chunk {
    pub value: Vec<u8>,
    /// Bytes per second; `None` while nothing has been measured.
    pub bytes_per_second: Option<u64>,
}

/// The throughput history that drives the sizing policy.
#[derive(Debug, Clone, Copy, PartialEq, Eq, Structural)]
pub struct ChunkInfo {
    /// Bytes per second achieved by the most recent read; `None` while unknown.
    pub achieved: Option<u64>,
    pub mode: ChunkSize,
    /// The size requested by the most recent read; `None` while unset.
    pub prev_target: Option<u64>,
}

impl Default for ChunkInfo {
    fn default() -> (r: ChunkInfo)
        ensures
            r == (ChunkInfo { achieved: None, mode: ChunkSize::Auto, prev_target: None }),
    {
        ChunkInfo { achieved: None, mode: ChunkSize::Auto, prev_target: None }
    }
}

impl ChunkInfo {
    /// Computes the next target from the history, the source size and the
    /// memory available now, and records it as the target of the next read.
    pub fn plan(&mut self, size: u64, ram: u64) -> (r: u64)
        ensures
            r as int == chunk_target(old(self).prev_target, old(self).achieved, size, ram, old(self).mode),
            *final(self) == (ChunkInfo { prev_target: Some(r), ..*old(self) }),
    {
        let target = ChunkSize::calculate_chunk(self.prev_target, self.achieved, size, ram, self.mode);
        self.prev_target = Some(target);
        target
    }

    /// The most bytes the next read may take: the recorded target, but at
    /// least one byte, so that every read makes progress.
    pub fn read_limit(&self) -> (r: u64)
        ensures
            r == read_limit_of(self.prev_target),
    {
        match self.prev_target {
            Some(t) if t > 0 => t,
            _ => 1,
        }
    }
}

/// The most bytes a read may take under the recorded target `prev`.
pub open spec fn read_limit_of(prev: Option<u64>) -> u64 {
    if prev is Some && prev->0 > 0 {
        prev->0
    } else {
        1
    }
}

/// What a reader knows of its source: its total size, where reading
/// starts, and the throughput history.
#[derive(Debug, Clone, Copy, PartialEq, Eq, Structural)]
pub struct FileInfo {
    pub size: u64,
    pub start_position: usize,
    pub chunk_info: ChunkInfo,
}

impl FileInfo {
    pub fn new(size: u64, start_position: usize) -> (r: FileInfo)
        ensures
            r.size == size,
            r.start_position == start_position,
            r.chunk_info == (ChunkInfo { achieved: None, mode: ChunkSize::Auto, prev_target: None }),
    {
        FileInfo { size, start_position, chunk_info: ChunkInfo::default() }
    }
}

impl Default for FileInfo {
    fn default() -> (r: FileInfo)
        ensures
            r == FileInfo::spec_new(0, 0),
    {
        FileInfo::new(0, 0)
    }
}

impl FileInfo {
    pub open spec fn spec_new(size: u64, start_position: usize) -> FileInfo {
        FileInfo {
            size,
            start_position,
            chunk_info: ChunkInfo { achieved: None, mode: ChunkSize::Auto, prev_target: None },
        }
    }
}

/// Why a reader failed. Each failure is reported once; a reader that
/// reported a read or task failure is complete and yields nothing more.
#[derive(Debug, Clone, Copy, PartialEq, Eq, Structural)]
pub enum ChunkError {
    /// The source could not be opened or its size could not be queried.
    OpenFailure,
    /// The configured start offset could not be applied.
    SeekFailure,
    /// A bounded read failed.
    ReadFailure,
    /// The background unit of work could not be scheduled or awaited.
    TaskFailure,
}

/// The offset that a start given as a share of the source resolves to:
/// `percent` (in hundredths of a percent) of `size`, rounded down, capped at
/// 100 bytes and at the size.
pub open spec fn percent_start(size: u64, percent: u64) -> int {
    let raw = size as int * percent as int / 10_000;
    let capped = if raw > 100 { 100 } else { raw };
    if capped > size { size as int } else { capped }
}

/// The offset that a start given in bytes resolves to: `position`, or the
/// size where that is smaller.
pub open spec fn bytes_start(size: u64, position: usize) -> int {
    if position > size { size as int } else { position as int }
}

/// Computes [`bytes_start`].
pub fn bytes_start_offset(size: u64, position: usize) -> (r: usize)
    ensures
        r as int == bytes_start(size, position),
{
    if position as u64 > size {
        size as usize
    } else {
        position
    }
}

/// Computes [`percent_start`].
pub fn percent_start_offset(size: u64, percent: u64) -> (r: usize)
    ensures
        r as int == percent_start(size, percent),
{
    assert(size as int * percent as int <= u128::MAX) by (nonlinear_arith)
        requires
            size <= u64::MAX,
            percent <= u64::MAX,
    ;
    let raw = size as u128 * percent as u128 / 10_000;
    let capped: u64 = if raw > 100 {
        100
    } else {
        raw as u64
    };
    if capped > size {
        size as usize
    } else {
        capped as usize
    }
}

} // verus!

//! The blocking pull reader.

use vstd::prelude::*;
use crate::data_chunk::{
    bytes_start, bytes_start_offset, chunk_target, memory_ceiling, min_int, measured_throughput, percent_start,
    percent_start_offset, read_limit_of, ChunkError, ChunkSize, FileInfo,
};
use crate::memory::Memory;
use crate::pack::FilePack;
use crate::source::{pull, MemorySource};

verus! {

/// A synchronous reader that yields a source chunk by chunk.
///
/// Before each read it takes a fresh reading of available memory and asks
/// the sizing policy for a target; after the read it records the measured
/// throughput. The first empty read exhausts it.
pub struct FileIter<S> {
    memory: Memory,
    file: FilePack<S>,
}

impl<S> FileIter<S> {
    pub closed spec fn pack(&self) -> FilePack<S> {
        self.file
    }

    pub closed spec fn probe(&self) -> Memory {
        self.memory
    }

    /// A reader over `source`, of `size` bytes, from its current position,
    /// in the automatic mode, probing the host's memory.
    pub fn with_source(source: S, size: u64) -> (r: FileIter<S>)
        ensures
            r.pack().info() == FileInfo::spec_new(size, 0),
            r.pack().spec_source() == source,
            !r.pack().complete(),
            !r.probe().is_fixed(),
            !r.probe().spec_swap_check(),
    {
        FileIter { memory: Memory::new(), file: FilePack::new(source, size) }
    }

    /// Whether the reader is exhausted. A source changed while it is read
    /// may be reported exhausted before its end.
    pub fn is_read_complete(&self) -> (r: bool)
        ensures
            r == self.pack().complete(),
    {
        self.file.is_read_complete()
    }

    /// The size of the source in bytes, as found when the reader was made.
    pub fn get_file_size(&self) -> (r: u64)
        ensures
            r == self.pack().info().size,
    {
        self.file.metadata().size
    }

    /// Chooses how chunks are sized from the next pull on.
    pub fn set_mode(self, mode: ChunkSize) -> (r: Self)
        ensures
            r.pack().info().chunk_info.mode == mode,
            r.pack().info().chunk_info.prev_target == self.pack().info().chunk_info.prev_target,
            r.pack().info().chunk_info.achieved == self.pack().info().chunk_info.achieved,
            r.pack().info().size == self.pack().info().size,
            r.pack().info().start_position == self.pack().info().start_position,
            r.pack().spec_source() == self.pack().spec_source(),
            r.pack().complete() == self.pack().complete(),
            r.probe() == self.probe(),
    {
        let mut this = self;
        this.file.set_mode(mode);
        this
    }

    /// Counts free swap as available memory.
    pub fn include_available_swap(self) -> (r: Self)
        ensures
            r.pack() == self.pack(),
            r.probe().spec_swap_check(),
            r.probe().is_fixed() == self.probe().is_fixed(),
            r.probe().spec_available() == self.probe().spec_available(),
    {
        let mut this = self;
        this.memory.include_swap();
        this
    }

    /// Replaces the memory probe, for instance by a fixed one.
    pub fn set_memory(self, memory: Memory) -> (r: Self)
        ensures
            r.pack() == self.pack(),
            r.probe() == memory,
    {
        let mut this = self;
        this.memory = memory;
        this
    }

    /// The first half of a pull whose read the caller performs. An exhausted
    /// reader plans nothing and returns `None`: no read may follow. Otherwise
    /// it takes a fresh memory reading, records the next target and returns
    /// the most bytes the read may take.
    pub fn begin_read(&mut self) -> (r: Option<u64>)
        ensures
            r is None <==> old(self).pack().complete(),
            r is None ==> *final(self) == *old(self),
            final(self).probe().is_fixed() == old(self).probe().is_fixed(),
            final(self).probe().spec_swap_check() == old(self).probe().spec_swap_check(),
            old(self).probe().is_fixed() ==> final(self).probe().spec_available()
                == old(self).probe().spec_available(),
            r is Some ==> final(self).pack().info() == (FileInfo {
                chunk_info: crate::data_chunk::ChunkInfo {
                    prev_target: Some(
                        chunk_target(
                            old(self).pack().info().chunk_info.prev_target,
                            old(self).pack().info().chunk_info.achieved,
                            old(self).pack().info().size,
                            final(self).probe().spec_available(),
                            old(self).pack().info().chunk_info.mode,
                        ) as u64,
                    ),
                    ..old(self).pack().info().chunk_info
                },
                ..old(self).pack().info()
            }),
            r is Some ==> r->0 == read_limit_of(final(self).pack().info().chunk_info.prev_target),
            final(self).pack().spec_source() == old(self).pack().spec_source(),
            final(self).pack().complete() == old(self).pack().complete(),
    {
        if self.file.is_read_complete() {
            return None;
        }
        self.memory.update_ram();
        let ram = self.memory.available();
        self.file.plan(ram);
        Some(self.file.read_limit())
    }

    /// The source, for a caller that performs the read or the seek itself.
    pub fn source_mut(&mut self) -> (r: &mut S)
        ensures
            *r == old(self).pack().spec_source(),
            final(self).pack().spec_source() == *final(r),
            final(self).pack().info() == old(self).pack().info(),
            final(self).pack().complete() == old(self).pack().complete(),
            final(self).probe() == old(self).probe(),
    {
        self.file.source_mut()
    }

    /// The second half of a pull whose read the caller performed: records
    /// the read of `value` that took `nanos` nanoseconds and yields it, or
    /// ends the sequence if it is empty.
    pub fn finish_read(&mut self, value: Vec<u8>, nanos: u128) -> (r: Option<Vec<u8>>)
        ensures
            r == (if value@.len() == 0 { None } else { Some(value) }),
            final(self).pack().info().chunk_info.achieved == measured_throughput(
                value@.len(),
                nanos,
                old(self).pack().info().chunk_info.achieved,
            ),
            final(self).pack().complete() == (old(self).pack().complete() || value@.len() == 0),
            final(self).pack().spec_source() == old(self).pack().spec_source(),
            final(self).probe() == old(self).probe(),
    {
        let chunk = self.file.finish_read(value, nanos);
        if chunk.value.len() == 0 {
            None
        } else {
            Some(chunk.value)
        }
    }

    /// Records that the caller's read failed: the reader is exhausted.
    pub fn fail_read(&mut self)
        ensures
            final(self).pack().complete(),
            final(self).pack().info() == old(self).pack().info(),
            final(self).pack().spec_source() == old(self).pack().spec_source(),
            final(self).probe() == old(self).probe(),
    {
        self.file.fail_read();
    }

    /// Where a start of `position` bytes resolves to.
    pub fn start_from_bytes(&self, position: usize) -> (r: usize)
        ensures
            r as int == bytes_start(self.pack().info().size, position),
    {
        bytes_start_offset(self.file.metadata().size, position)
    }

    /// Where a start of `percent` hundredths of a percent resolves to.
    pub fn start_from_percent(&self, percent: u64) -> (r: usize)
        ensures
            r as int == percent_start(self.pack().info().size, percent),
    {
        percent_start_offset(self.file.metadata().size, percent)
    }

    /// Records `position` as the start; the caller has moved the source there.
    pub fn record_start(&mut self, position: usize)
        ensures
            final(self).pack().info() == (FileInfo { start_position: position, ..old(self).pack().info() }),
            final(self).pack().spec_source() == old(self).pack().spec_source(),
            final(self).pack().complete() == old(self).pack().complete(),
            final(self).probe() == old(self).probe(),
    {
        self.file.set_start_position(position);
    }
}

impl FileIter<MemorySource> {
    pub open spec fn wf(&self) -> bool {
        self.pack().wf()
    }

    pub open spec fn content(&self) -> Seq<u8> {
        self.pack().content()
    }

    pub open spec fn position(&self) -> nat {
        self.pack().position()
    }

    /// The chunks yielded since the start position, concatenated.
    pub open spec fn emitted(&self) -> Seq<u8> {
        self.pack().emitted()
    }

    /// The bytes still to be yielded.
    pub open spec fn remaining(&self) -> Seq<u8> {
        self.pack().remaining()
    }

    /// The length of every pull but the last, where it is fixed: see
    /// [`fixed_chunk_len_of`].
    pub open spec fn fixed_chunk_len(&self) -> Option<nat> {
        fixed_chunk_len_of(self.pack().info(), self.probe())
    }

    /// A reader over an in-memory buffer, from its first byte, in the
    /// automatic mode, probing the host's memory.
    pub fn from_bytes(bytes: Vec<u8>) -> (r: FileIter<MemorySource>)
        ensures
            r.wf(),
            r.content() == bytes@,
            r.position() == 0,
            r.pack().info() == FileInfo::spec_new(bytes@.len() as u64, 0),
            !r.pack().complete(),
            !r.probe().is_fixed(),
            !r.probe().spec_swap_check(),
    {
        FileIter { memory: Memory::new(), file: FilePack::from_bytes(bytes) }
    }

    /// A reader over a copy of `bytes`, from its first byte, in the automatic
    /// mode, probing the host's memory.
    pub fn from_slice(bytes: &[u8]) -> (r: FileIter<MemorySource>)
        ensures
            r.wf(),
            r.content() == bytes@,
            r.position() == 0,
            r.pack().info() == FileInfo::spec_new(bytes@.len() as u64, 0),
            !r.pack().complete(),
            !r.probe().is_fixed(),
            !r.probe().spec_swap_check(),
    {
        FileIter { memory: Memory::new(), file: FilePack::from_source(MemorySource::copied(bytes)) }
    }

    /// Starts reading at `position` bytes, or at the end where the source is
    /// shorter. An in-memory source always accepts the seek.
    pub fn set_start_position_bytes(self, position: usize) -> (r: Result<Self, ChunkError>)
        requires
            self.wf(),
        ensures
            r is Ok,
            r->Ok_0.wf(),
            r->Ok_0.content() == self.content(),
            r->Ok_0.position() == bytes_start(self.pack().info().size, position),
            r->Ok_0.pack().info() == (FileInfo {
                start_position: bytes_start(self.pack().info().size, position) as usize,
                ..self.pack().info()
            }),
            r->Ok_0.probe() == self.probe(),
            r->Ok_0.pack().complete() ==> r->Ok_0.remaining().len() == 0,
    {
        let start = self.start_from_bytes(position);
        let mut this = self;
        this.file.seek_start(start);
        Ok(this)
    }

    /// Starts reading at `percent` hundredths of a percent of the size; the
    /// resulting offset is capped at 100 bytes and at the size. An in-memory
    /// source always accepts the seek.
    pub fn set_start_position_percent(self, percent: u64) -> (r: Result<Self, ChunkError>)
        requires
            self.wf(),
        ensures
            r is Ok,
            r->Ok_0.wf(),
            r->Ok_0.content() == self.content(),
            r->Ok_0.position() == percent_start(self.pack().info().size, percent),
            r->Ok_0.pack().info() == (FileInfo {
                start_position: percent_start(self.pack().info().size, percent) as usize,
                ..self.pack().info()
            }),
            r->Ok_0.probe() == self.probe(),
            r->Ok_0.pack().complete() ==> r->Ok_0.remaining().len() == 0,
    {
        let start = self.start_from_percent(percent);
        let mut this = self;
        this.file.seek_start(start);
        Ok(this)
    }

    /// Pulls the next chunk: at most the new target (at least one byte) from
    /// the read position, or `None` once the source is exhausted.
    pub fn next(&mut self) -> (r: Option<Vec<u8>>)
        requires
            old(self).wf(),
        ensures
            final(self).wf(),
            final(self).content() == old(self).content(),
            final(self).pack().info().size == old(self).pack().info().size,
            final(self).pack().info().start_position == old(self).pack().info().start_position,
            final(self).pack().info().chunk_info.mode == old(self).pack().info().chunk_info.mode,
            final(self).probe().is_fixed() == old(self).probe().is_fixed(),
            final(self).probe().spec_swap_check() == old(self).probe().spec_swap_check(),
            old(self).probe().is_fixed() ==> final(self).probe().spec_available()
                == old(self).probe().spec_available(),
            old(self).pack().complete() ==> r is None && final(self).position() == old(self).position()
                && final(self).pack().complete(),
            !old(self).pack().complete() ==> {
                let ram = final(self).probe().spec_available();
                let chunk = old(self).pack().pull_for(ram);
                &&& final(self).pack().info().chunk_info.prev_target == Some(
                    old(self).pack().target_for(ram),
                )
                &&& exists|nanos: u128|
                    final(self).pack().info().chunk_info.achieved == measured_throughput(
                        chunk.len(),
                        nanos,
                        old(self).pack().info().chunk_info.achieved,
                    )
                &&& final(self).position() == old(self).position() + chunk.len()
                &&& final(self).pack().complete() == (chunk.len() == 0)
                &&& r is Some == (chunk.len() > 0)
                &&& r is Some ==> r->0@ == chunk
            },
            r is Some ==> r->0@.len() > 0 && final(self).emitted() == old(self).emitted() + r->0@,
            r is None ==> final(self).emitted() == old(self).emitted() && final(self).pack().complete()
                && final(self).remaining().len() == 0,
    {
        if self.begin_read().is_none() {
            return None;
        }
        let chunk = self.file.read_chunk();
        proof {
            let old_pack = old(self).pack();
            assert(self.emitted() =~= old_pack.emitted() + chunk.value@);
        }
        if chunk.value.len() == 0 {
            None
        } else {
            Some(chunk.value)
        }
    }

    /// Pulls until the reader is exhausted and returns the chunks, each
    /// non-empty; together they are exactly the bytes that remained.
    pub fn collect_chunks(&mut self) -> (r: Vec<Vec<u8>>)
        requires
            old(self).wf(),
        ensures
            final(self).wf(),
            final(self).content() == old(self).content(),
            final(self).pack().complete(),
            final(self).remaining().len() == 0,
            chunk_views(r@).flatten() == old(self).remaining(),
            forall|i: int| 0 <= i < r@.len() ==> (#[trigger] r@[i])@.len() > 0,
            old(self).fixed_chunk_len() is Some ==> forall|i: int|
                0 <= i < r@.len() ==> (#[trigger] r@[i])@.len() <= old(self).fixed_chunk_len()->0
                    && (i < r@.len() - 1 ==> r@[i]@.len() == old(self).fixed_chunk_len()->0),
            old(self).fixed_chunk_len() is Some ==> r@.len() == (old(self).remaining().len()
                + old(self).fixed_chunk_len()->0 - 1) as int / old(self).fixed_chunk_len()->0 as int,
    {
        let mut chunks: Vec<Vec<u8>> = Vec::new();
        loop
            invariant
                self.wf(),
                self.content() == old(self).content(),
                chunk_views(chunks@).flatten_alt() + self.remaining() == old(self).remaining(),
                forall|i: int| 0 <= i < chunks@.len() ==> (#[trigger] chunks@[i])@.len() > 0,
                old(self).fixed_chunk_len() is Some ==> self.fixed_chunk_len() == old(
                    self,
                ).fixed_chunk_len() && forall|i: int|
                    0 <= i < chunks@.len() ==> (#[trigger] chunks@[i])@.len() <= old(
                        self,
                    ).fixed_chunk_len()->0 && (chunks@[i]@.len() == old(self).fixed_chunk_len()->0
                        || (i == chunks@.len() - 1 && self.remaining().len() == 0)),
                old(self).fixed_chunk_len() is Some ==> {
                    let k = old(self).fixed_chunk_len()->0;
                    let consumed = old(self).remaining().len() - self.remaining().len();
                    &&& consumed <= chunks@.len() * k
                    &&& chunks@.len() > 0 ==> consumed > (chunks@.len() - 1) * k
                    &&& self.remaining().len() > 0 ==> consumed == chunks@.len() * k
                },
            ensures
                self.wf(),
                self.content() == old(self).content(),
                self.pack().complete(),
                self.remaining().len() == 0,
                chunk_views(chunks@).flatten_alt() == old(self).remaining(),
                forall|i: int| 0 <= i < chunks@.len() ==> (#[trigger] chunks@[i])@.len() > 0,
                old(self).fixed_chunk_len() is Some ==> forall|i: int|
                    0 <= i < chunks@.len() ==> (#[trigger] chunks@[i])@.len() <= old(
                        self,
                    ).fixed_chunk_len()->0 && (i < chunks@.len() - 1 ==> chunks@[i]@.len() == old(
                        self,
                    ).fixed_chunk_len()->0),
                old(self).fixed_chunk_len() is Some ==> {
                    let k = old(self).fixed_chunk_len()->0;
                    let n = old(self).remaining().len();
                    &&& n <= chunks@.len() * k
                    &&& chunks@.len() > 0 ==> n > (chunks@.len() - 1) * k
                },
            decreases (self.content().len() - self.position()) * 2 + (if self.pack().complete() {
                0int
            } else {
                1int
            }),
        {
            let ghost before = self.remaining();
            let ghost views = chunk_views(chunks@);
            match self.next() {
                Some(c) => {
                    let ghost cv = c@;
                    chunks.push(c);
                    proof {
                        assert(chunk_views(chunks@) =~= views.push(cv));
                        assert(chunk_views(chunks@).drop_last() =~= views);
                        assert(before =~= cv + self.remaining());
                        assert(views.flatten_alt() + cv + self.remaining() =~= views.flatten_alt() + (
                        cv + self.remaining()));
                        if old(self).fixed_chunk_len() is Some {
                            let k = old(self).fixed_chunk_len()->0 as int;
                            let m = chunks@.len() as int;
                            assert(m * k == (m - 1) * k + k) by (nonlinear_arith);
                            assert(chunks@[m - 1]@ == cv);
                        }
                    }
                },
                None => {
                    proof {
                        assert(self.remaining() =~= Seq::<u8>::empty());
                        assert(views.flatten_alt() + self.remaining() =~= views.flatten_alt());
                    }
                    break;
                },
            }
        }
        proof {
            chunk_views(chunks@).lemma_flatten_and_flatten_alt_are_equivalent();
            if old(self).fixed_chunk_len() is Some {
                let k = old(self).fixed_chunk_len()->0 as int;
                let n = old(self).remaining().len() as int;
                let m = chunks@.len() as int;
                assert(m == (n + k - 1) / k) by (nonlinear_arith)
                    requires
                        k >= 1,
                        n <= m * k,
                        m > 0 ==> n > (m - 1) * k,
                        m >= 0,
                        n >= 0,
                ;
            }
        }
        chunks
    }
}

/// The length of every pull but the last in `Bytes(n)` mode: `n`, or the
/// size where that is smaller, when it is at least one byte and the probe is
/// fixed with a memory ceiling that leaves room for it; `None` otherwise.
pub open spec fn fixed_chunk_len_of(info: FileInfo, probe: Memory) -> Option<nat> {
    match info.chunk_info.mode {
        ChunkSize::Bytes(n) => {
            let k = min_int(n as int, info.size as int);
            if probe.is_fixed() && k >= 1 && memory_ceiling(probe.spec_available()) >= k {
                Some(k as nat)
            } else {
                None
            }
        },
        _ => None,
    }
}

/// The bytes of each chunk.
pub open spec fn chunk_views(chunks: Seq<Vec<u8>>) -> Seq<Seq<u8>> {
    chunks.map_values(|c: Vec<u8>| c@)
}

/// A start at or beyond the end resolves to the end of the source; a reader
/// positioned there yields nothing, whatever memory its next pull sees, so
/// its first pull ends the sequence.
pub proof fn lemma_start_at_end_yields_nothing(
    it: FileIter<MemorySource>,
    position: usize,
    percent: u64,
    ram: u64,
)
    requires
        it.wf(),
    ensures
        position >= it.pack().info().size ==> bytes_start(it.pack().info().size, position)
            == it.pack().info().size,
        percent_start(it.pack().info().size, percent) <= it.pack().info().size,
        it.position() >= it.content().len() ==> it.pack().pull_for(ram).len() == 0
            && it.remaining().len() == 0,
{
}

} // verus!

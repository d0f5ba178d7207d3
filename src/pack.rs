//! A source together with what its reader knows of it.

use vstd::prelude::*;
use crate::data_chunk::{
    chunk_target, measured_throughput, read_limit_of, throughput, Chunk, ChunkInfo, ChunkSize,
    FileInfo,
};
use crate::source::{duration_nanos, pull, timer_elapsed, timer_start, MemorySource};

verus! {

/// A source, its metadata and whether it is exhausted: everything a read
/// needs, owned as one value so that it can be handed to a background
/// unit of work and taken back.
pub struct FilePack<S> {
    metadata: FileInfo,
    source: S,
    read_complete: bool,
}

impl<S> FilePack<S> {
    pub closed spec fn info(&self) -> FileInfo {
        self.metadata
    }

    pub closed spec fn spec_source(&self) -> S {
        self.source
    }

    pub closed spec fn complete(&self) -> bool {
        self.read_complete
    }

    /// A pack over `source` of `size` bytes, read from its current position,
    /// in the automatic mode.
    pub fn new(source: S, size: u64) -> (r: FilePack<S>)
        ensures
            r.info() == FileInfo::spec_new(size, 0),
            r.spec_source() == source,
            !r.complete(),
    {
        FilePack { metadata: FileInfo::new(size, 0), source, read_complete: false }
    }

    pub fn metadata(&self) -> (r: FileInfo)
        ensures
            r == self.info(),
    {
        self.metadata
    }

    pub fn is_read_complete(&self) -> (r: bool)
        ensures
            r == self.complete(),
    {
        self.read_complete
    }

    /// The source, for a caller that performs the read or the seek itself.
    pub fn source_mut(&mut self) -> (r: &mut S)
        ensures
            *r == old(self).spec_source(),
            final(self).spec_source() == *final(r),
            final(self).info() == old(self).info(),
            final(self).complete() == old(self).complete(),
    {
        &mut self.source
    }

    pub fn set_mode(&mut self, mode: ChunkSize)
        ensures
            final(self).info() == (FileInfo {
                chunk_info: ChunkInfo { mode, ..old(self).info().chunk_info },
                ..old(self).info()
            }),
            final(self).spec_source() == old(self).spec_source(),
            final(self).complete() == old(self).complete(),
    {
        self.metadata.chunk_info.mode = mode;
    }

    /// Records where reading starts; the caller has moved the source there.
    pub fn set_start_position(&mut self, position: usize)
        ensures
            final(self).info() == (FileInfo { start_position: position, ..old(self).info() }),
            final(self).spec_source() == old(self).spec_source(),
            final(self).complete() == old(self).complete(),
    {
        self.metadata.start_position = position;
    }

    /// Computes the target of the next read from the history, the size and
    /// `ram`, the memory available now, and records it.
    pub fn plan(&mut self, ram: u64) -> (r: u64)
        ensures
            r as int == chunk_target(
                old(self).info().chunk_info.prev_target,
                old(self).info().chunk_info.achieved,
                old(self).info().size,
                ram,
                old(self).info().chunk_info.mode,
            ),
            final(self).info() == (FileInfo {
                chunk_info: ChunkInfo { prev_target: Some(r), ..old(self).info().chunk_info },
                ..old(self).info()
            }),
            final(self).spec_source() == old(self).spec_source(),
            final(self).complete() == old(self).complete(),
    {
        let size = self.metadata.size;
        self.metadata.chunk_info.plan(size, ram)
    }

    /// The most bytes the next read may take.
    pub fn read_limit(&self) -> (r: u64)
        ensures
            r == read_limit_of(self.info().chunk_info.prev_target),
    {
        self.metadata.chunk_info.read_limit()
    }

    /// Records a read of `value` that took `nanos` nanoseconds: the source is
    /// exhausted if nothing was read, and the measured throughput becomes the
    /// history's (the previous one carries over where no time passed).
    pub fn finish_read(&mut self, value: Vec<u8>, nanos: u128) -> (r: Chunk)
        ensures
            r.value == value,
            r.bytes_per_second == measured_throughput(
                value@.len(),
                nanos,
                old(self).info().chunk_info.achieved,
            ),
            final(self).info() == (FileInfo {
                chunk_info: ChunkInfo { achieved: r.bytes_per_second, ..old(self).info().chunk_info },
                ..old(self).info()
            }),
            final(self).complete() == (old(self).complete() || value@.len() == 0),
            final(self).spec_source() == old(self).spec_source(),
    {
        let bytes_per_second = throughput(value.len(), nanos, self.metadata.chunk_info.achieved);
        if value.len() == 0 {
            self.read_complete = true;
        }
        self.metadata.chunk_info.achieved = bytes_per_second;
        Chunk { value, bytes_per_second }
    }

    /// Records that a read failed: the source counts as exhausted.
    pub fn fail_read(&mut self)
        ensures
            final(self).complete(),
            final(self).info() == old(self).info(),
            final(self).spec_source() == old(self).spec_source(),
    {
        self.read_complete = true;
    }
}

impl FilePack<MemorySource> {
    /// The bytes of the source.
    pub open spec fn content(&self) -> Seq<u8> {
        self.spec_source().content()
    }

    /// Where the next read starts.
    pub open spec fn position(&self) -> nat {
        self.spec_source().position()
    }

    /// The source is consistent with the metadata: the size is its length,
    /// reading started no later than the read position, and an exhausted
    /// source has been read to its end.
    pub open spec fn wf(&self) -> bool {
        &&& self.spec_source().wf()
        &&& self.position() <= self.content().len()
        &&& self.info().size == self.content().len()
        &&& self.info().start_position <= self.position()
        &&& self.complete() ==> self.position() == self.content().len()
    }

    /// The bytes yielded since the start position.
    pub open spec fn emitted(&self) -> Seq<u8> {
        self.content().subrange(self.info().start_position as int, self.position() as int)
    }

    /// The target the next read gets when `ram` bytes of memory are available.
    pub open spec fn target_for(&self, ram: u64) -> u64 {
        chunk_target(
            self.info().chunk_info.prev_target,
            self.info().chunk_info.achieved,
            self.info().size,
            ram,
            self.info().chunk_info.mode,
        ) as u64
    }

    /// The bytes the next read yields when `ram` bytes of memory are available.
    pub open spec fn pull_for(&self, ram: u64) -> Seq<u8> {
        pull(self.content(), self.position(), read_limit_of(Some(self.target_for(ram))) as nat)
    }

    /// The bytes still to be yielded.
    pub open spec fn remaining(&self) -> Seq<u8> {
        self.content().subrange(self.position() as int, self.content().len() as int)
    }

    /// A pack over an in-memory buffer, read from its start.
    pub fn from_bytes(bytes: Vec<u8>) -> (r: FilePack<MemorySource>)
        ensures
            r.wf(),
            r.content() == bytes@,
            r.position() == 0,
            r.info() == FileInfo::spec_new(bytes@.len() as u64, 0),
            !r.complete(),
    {
        FilePack::from_source(MemorySource::new(bytes))
    }

    /// A pack over an in-memory source, read from its current position.
    pub fn from_source(source: MemorySource) -> (r: FilePack<MemorySource>)
        requires
            source.wf(),
            source.position() == 0,
        ensures
            r.wf(),
            r.spec_source() == source,
            r.info() == FileInfo::spec_new(source.content().len() as u64, 0),
            !r.complete(),
    {
        let size = source.len();
        FilePack::new(source, size)
    }

    /// Moves the read position to `position`, which is at most the size,
    /// and records it as the start.
    pub fn seek_start(&mut self, position: usize)
        requires
            old(self).wf(),
            position <= old(self).info().size,
        ensures
            final(self).wf(),
            final(self).content() == old(self).content(),
            final(self).position() == position,
            final(self).info() == (FileInfo { start_position: position, ..old(self).info() }),
            final(self).complete() == (old(self).complete() && position == old(self).content().len()),
    {
        self.source.seek(position as u64);
        self.metadata.start_position = position;
        if position as u64 != self.metadata.size {
            self.read_complete = false;
        }
    }

    /// Performs the timed read of at most the recorded target (at least one
    /// byte) and records it.
    pub fn read_chunk(&mut self) -> (r: Chunk)
        requires
            old(self).wf(),
        ensures
            final(self).wf(),
            final(self).content() == old(self).content(),
            r.value@ == pull(
                old(self).content(),
                old(self).position(),
                read_limit_of(old(self).info().chunk_info.prev_target) as nat,
            ),
            final(self).position() == old(self).position() + r.value@.len(),
            exists|nanos: u128|
                r.bytes_per_second == measured_throughput(
                    r.value@.len(),
                    nanos,
                    old(self).info().chunk_info.achieved,
                ),
            final(self).info() == (FileInfo {
                chunk_info: ChunkInfo { achieved: r.bytes_per_second, ..old(self).info().chunk_info },
                ..old(self).info()
            }),
            final(self).complete() == (old(self).complete() || r.value@.len() == 0),
    {
        let limit = self.read_limit();
        let timer = timer_start();
        let value = self.source.read_up_to(limit);
        let nanos = duration_nanos(&timer_elapsed(&timer));
        self.finish_read(value, nanos)
    }

    /// [`Self::read_chunk`] on a pack that is handed over and handed back.
    pub fn read_chunk_owned(self) -> (r: (Chunk, FilePack<MemorySource>))
        requires
            self.wf(),
        ensures
            r.1.wf(),
            r.1.content() == self.content(),
            r.0.value@ == pull(
                self.content(),
                self.position(),
                read_limit_of(self.info().chunk_info.prev_target) as nat,
            ),
            r.1.position() == self.position() + r.0.value@.len(),
            exists|nanos: u128|
                r.0.bytes_per_second == measured_throughput(
                    r.0.value@.len(),
                    nanos,
                    self.info().chunk_info.achieved,
                ),
            r.1.info() == (FileInfo {
                chunk_info: ChunkInfo { achieved: r.0.bytes_per_second, ..self.info().chunk_info },
                ..self.info()
            }),
            r.1.complete() == (self.complete() || r.0.value@.len() == 0),
    {
        let mut pack = self;
        let chunk = pack.read_chunk();
        (chunk, pack)
    }
}

} // verus!

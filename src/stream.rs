//! The offloaded reader: each read runs as a background unit of work that
//! owns the source while it runs.

use vstd::prelude::*;
use crate::data_chunk::{
    bytes_start, bytes_start_offset, chunk_target, percent_start, percent_start_offset, Chunk,
    ChunkError, ChunkInfo, ChunkSize, FileInfo,
};
use crate::iterator::{chunk_views, fixed_chunk_len_of};
use crate::memory::Memory;
use crate::pack::FilePack;
use crate::source::{lemma_run_covers_rest, pull, run_output, MemorySource};

verus! {

/// Who holds the source. While a read is in flight the stream holds
/// nothing of it, so at most one read can run at a time.
pub enum TaskSlot<S> {
    /// The stream owns the source and its metadata.
    Idle(FilePack<S>),
    /// A background read owns them.
    Pending,
    /// The sequence has ended, or failed.
    Completed,
}

/// What the caller of [`FileStream::poll_start`] does next.
pub enum PollStart<S> {
    /// Run the read of this pack in the background, and hand the chunk and
    /// the pack back to [`FileStream::poll_complete`].
    Spawn(FilePack<S>),
    /// A read is in flight: wait for it.
    Wait,
    /// The sequence has ended.
    Finished,
}

/// An asynchronous reader's decisions, independent of the executor that
/// runs its reads.
///
/// Each poll first takes a fresh memory reading. If the stream holds the
/// source, it records the next target in the metadata and hands the whole
/// pack to the caller, who runs the read in the background; the chunk and
/// the pack come back through [`FileStream::poll_complete`].
pub struct FileStream<S> {
    memory: Memory,
    /// The pack while the stream holds it.
    file: Option<FilePack<S>>,
    /// Whether the sequence has ended.
    finished: bool,
    size: u64,
}

impl<S> FileStream<S> {
    pub closed spec fn state(&self) -> TaskSlot<S> {
        if self.finished {
            TaskSlot::Completed
        } else {
            match self.file {
                Some(pack) => TaskSlot::Idle(pack),
                None => TaskSlot::Pending,
            }
        }
    }

    pub closed spec fn probe(&self) -> Memory {
        self.memory
    }

    pub closed spec fn spec_size(&self) -> u64 {
        self.size
    }

    /// A stream over `source`, of `size` bytes, from its current position,
    /// in the automatic mode, probing the host's memory.
    pub fn with_source(source: S, size: u64) -> (r: FileStream<S>)
        ensures
            r.state() is Idle,
            r.state()->Idle_0.info() == FileInfo::spec_new(size, 0),
            r.state()->Idle_0.spec_source() == source,
            !r.state()->Idle_0.complete(),
            r.spec_size() == size,
            !r.probe().is_fixed(),
            !r.probe().spec_swap_check(),
    {
        FileStream {
            memory: Memory::new(),
            file: Some(FilePack::new(source, size)),
            finished: false,
            size,
        }
    }

    /// Whether the sequence has ended. A source changed while it is read
    /// may be reported exhausted before its end.
    pub fn is_read_complete(&self) -> (r: bool)
        ensures
            r == (self.state() is Completed || (self.state() is Idle
                && self.state()->Idle_0.complete())),
    {
        if self.finished {
            true
        } else {
            match &self.file {
                Some(pack) => pack.is_read_complete(),
                None => false,
            }
        }
    }

    /// Whether a read is in flight.
    pub fn is_pending(&self) -> (r: bool)
        ensures
            r == self.state() is Pending,
    {
        self.file.is_none() && !self.finished
    }

    /// The size of the source in bytes, as found when the stream was made.
    pub fn get_file_size(&self) -> (r: u64)
        ensures
            r == self.spec_size(),
    {
        self.size
    }

    /// Chooses how chunks are sized from the next read on. It takes effect
    /// only while the stream holds the source.
    pub fn set_mode(self, mode: ChunkSize) -> (r: Self)
        ensures
            r.spec_size() == self.spec_size(),
            r.probe() == self.probe(),
            self.state() is Idle ==> r.state() is Idle && r.state()->Idle_0.info() == (FileInfo {
                chunk_info: ChunkInfo { mode, ..self.state()->Idle_0.info().chunk_info },
                ..self.state()->Idle_0.info()
            }) && r.state()->Idle_0.spec_source() == self.state()->Idle_0.spec_source()
                && r.state()->Idle_0.complete() == self.state()->Idle_0.complete(),
            !(self.state() is Idle) ==> r.state() == self.state(),
    {
        let mut this = self;
        match &mut this.file {
            Some(pack) => pack.set_mode(mode),
            None => {},
        }
        this
    }

    /// The source while the stream holds it, for a caller that moves it to
    /// a start position itself; `None` while a read is in flight or after the
    /// end.
    pub fn source_mut(&mut self) -> (r: Option<&mut S>)
        ensures
            old(self).state() is Idle <==> r is Some,
            r is Some ==> *r->0 == old(self).state()->Idle_0.spec_source(),
            r is Some ==> final(self).state() is Idle && final(self).state()->Idle_0.spec_source()
                == *final(r->0) && final(self).state()->Idle_0.info() == old(self).state()->Idle_0.info()
                && final(self).state()->Idle_0.complete() == old(self).state()->Idle_0.complete(),
            r is None ==> final(self).state() == old(self).state(),
            final(self).spec_size() == old(self).spec_size(),
            final(self).probe() == old(self).probe(),
    {
        if self.finished {
            return None;
        }
        match &mut self.file {
            Some(pack) => Some(pack.source_mut()),
            None => None,
        }
    }

    /// Where a start of `position` bytes resolves to.
    pub fn start_from_bytes(&self, position: usize) -> (r: usize)
        ensures
            r as int == bytes_start(self.spec_size(), position),
    {
        bytes_start_offset(self.size, position)
    }

    /// Where a start of `percent` hundredths of a percent resolves to.
    pub fn start_from_percent(&self, percent: u64) -> (r: usize)
        ensures
            r as int == percent_start(self.spec_size(), percent),
    {
        percent_start_offset(self.size, percent)
    }

    /// Records `position` as the start while the stream holds the source;
    /// the caller has moved the source there.
    pub fn record_start(&mut self, position: usize)
        ensures
            old(self).state() is Idle ==> final(self).state() is Idle && final(self).state()->Idle_0.info()
                == (FileInfo { start_position: position, ..old(self).state()->Idle_0.info() })
                && final(self).state()->Idle_0.spec_source() == old(self).state()->Idle_0.spec_source()
                && final(self).state()->Idle_0.complete() == old(self).state()->Idle_0.complete(),
            !(old(self).state() is Idle) ==> final(self).state() == old(self).state(),
            final(self).spec_size() == old(self).spec_size(),
            final(self).probe() == old(self).probe(),
    {
        if self.finished {
            return;
        }
        match &mut self.file {
            Some(pack) => pack.set_start_position(position),
            None => {},
        }
    }

    /// Counts free swap as available memory.
    pub fn include_available_swap(self) -> (r: Self)
        ensures
            r.state() == self.state(),
            r.spec_size() == self.spec_size(),
            r.probe().spec_swap_check(),
            r.probe().is_fixed() == self.probe().is_fixed(),
            r.probe().spec_available() == self.probe().spec_available(),
    {
        let mut this = self;
        this.memory.include_swap();
        this
    }

    /// Replaces the memory probe, for instance by a fixed one.
    pub fn set_memory(self, memory: Memory) -> (r: Self)
        ensures
            r.state() == self.state(),
            r.spec_size() == self.spec_size(),
            r.probe() == memory,
    {
        let mut this = self;
        this.memory = memory;
        this
    }

    /// The first half of a poll. Takes a fresh memory reading; if the
    /// stream holds the source, records the next target and hands the pack
    /// over, leaving the stream pending.
    pub fn poll_start(&mut self) -> (r: PollStart<S>)
        ensures
            final(self).spec_size() == old(self).spec_size(),
            final(self).probe().is_fixed() == old(self).probe().is_fixed(),
            final(self).probe().spec_swap_check() == old(self).probe().spec_swap_check(),
            old(self).probe().is_fixed() ==> final(self).probe().spec_available()
                == old(self).probe().spec_available(),
            old(self).state() is Pending ==> r is Wait && final(self).state() is Pending,
            old(self).state() is Completed ==> r is Finished && final(self).state() is Completed,
            old(self).state() is Idle ==> {
                let pack = old(self).state()->Idle_0;
                let ram = final(self).probe().spec_available();
                &&& final(self).state() is Pending
                &&& r is Spawn
                &&& r->Spawn_0.info() == (FileInfo {
                    chunk_info: ChunkInfo {
                        prev_target: Some(
                            chunk_target(
                                pack.info().chunk_info.prev_target,
                                pack.info().chunk_info.achieved,
                                pack.info().size,
                                ram,
                                pack.info().chunk_info.mode,
                            ) as u64,
                        ),
                        ..pack.info().chunk_info
                    },
                    ..pack.info()
                })
                &&& r->Spawn_0.spec_source() == pack.spec_source()
                &&& r->Spawn_0.complete() == pack.complete()
            },
    {
        self.memory.update_ram();
        let ram = self.memory.available();
        if self.finished {
            return PollStart::Finished;
        }
        match self.file.take() {
            Some(pack) => {
                let mut pack = pack;
                pack.plan(ram);
                PollStart::Spawn(pack)
            },
            None => PollStart::Wait,
        }
    }

    /// The second half of a poll, once the background read has finished:
    /// `outcome` holds the chunk and the pack it handed back, or the failure
    /// of the read or of the unit of work. A non-empty chunk is yielded and
    /// the stream holds the source again; an empty chunk ends the sequence;
    /// a failure is reported once and ends it too.
    pub fn poll_complete(&mut self, outcome: Result<(Chunk, FilePack<S>), ChunkError>) -> (r: Option<
        Result<Vec<u8>, ChunkError>,
    >)
        requires
            old(self).state() is Pending,
        ensures
            final(self).spec_size() == old(self).spec_size(),
            final(self).probe() == old(self).probe(),
            match outcome {
                Ok((chunk, pack)) => if chunk.value@.len() == 0 {
                    r is None && final(self).state() is Completed
                } else {
                    r == Some(Ok::<Vec<u8>, ChunkError>(chunk.value)) && final(self).state() == TaskSlot::Idle(pack)
                },
                Err(e) => r == Some(Err::<Vec<u8>, ChunkError>(e)) && final(self).state() is Completed,
            },
    {
        match outcome {
            Ok((chunk, pack)) => {
                if chunk.value.len() == 0 {
                    self.finished = true;
                    None
                } else {
                    self.file = Some(pack);
                    Some(Ok(chunk.value))
                }
            },
            Err(e) => {
                self.finished = true;
                Some(Err(e))
            },
        }
    }
}

impl FileStream<MemorySource> {
    /// An in-memory stream is consistent while it holds its pack.
    pub open spec fn wf(&self) -> bool {
        self.state() is Idle ==> self.state()->Idle_0.wf() && self.state()->Idle_0.info().size
            == self.spec_size()
    }

    /// A stream over an in-memory buffer, from its first byte, in the
    /// automatic mode, probing the host's memory.
    pub fn from_bytes(bytes: Vec<u8>) -> (r: FileStream<MemorySource>)
        ensures
            r.wf(),
            r.state() is Idle,
            r.state()->Idle_0.content() == bytes@,
            r.state()->Idle_0.position() == 0,
            r.state()->Idle_0.info() == FileInfo::spec_new(bytes@.len() as u64, 0),
            !r.state()->Idle_0.complete(),
            r.spec_size() == bytes@.len(),
            !r.probe().is_fixed(),
            !r.probe().spec_swap_check(),
    {
        let pack = FilePack::from_bytes(bytes);
        let size = pack.metadata().size;
        FileStream { memory: Memory::new(), file: Some(pack), finished: false, size }
    }

    /// A stream over a copy of `bytes`, from its first byte, in the automatic
    /// mode, probing the host's memory.
    pub fn from_slice(bytes: &[u8]) -> (r: FileStream<MemorySource>)
        ensures
            r.wf(),
            r.state() is Idle,
            r.state()->Idle_0.content() == bytes@,
            r.state()->Idle_0.position() == 0,
            r.state()->Idle_0.info() == FileInfo::spec_new(bytes@.len() as u64, 0),
            !r.state()->Idle_0.complete(),
            r.spec_size() == bytes@.len(),
            !r.probe().is_fixed(),
            !r.probe().spec_swap_check(),
    {
        let pack = FilePack::from_source(MemorySource::copied(bytes));
        let size = pack.metadata().size;
        FileStream { memory: Memory::new(), file: Some(pack), finished: false, size }
    }

    /// The bytes still to be yielded while the stream holds the source.
    pub open spec fn remaining(&self) -> Seq<u8> {
        self.state()->Idle_0.remaining()
    }

    /// The length of every read but the last, where it is fixed: see
    /// [`fixed_chunk_len_of`].
    pub open spec fn fixed_chunk_len(&self) -> Option<nat> {
        if self.state() is Idle {
            fixed_chunk_len_of(self.state()->Idle_0.info(), self.probe())
        } else {
            None
        }
    }

    /// The bytes still to be yielded: none once the stream has ended.
    pub open spec fn left(&self) -> nat {
        if self.state() is Idle {
            self.remaining().len()
        } else {
            0
        }
    }

    /// Drives the stream to its end on the calling thread: each cycle hands
    /// the pack over, reads it, and hands it back. Returns the chunks, each
    /// non-empty; together they are exactly the bytes that remained.
    pub fn collect_chunks(&mut self) -> (r: Vec<Vec<u8>>)
        requires
            old(self).wf(),
            old(self).state() is Idle,
        ensures
            final(self).state() is Completed,
            chunk_views(r@).flatten() == old(self).remaining(),
            forall|i: int| 0 <= i < r@.len() ==> (#[trigger] r@[i])@.len() > 0,
            old(self).fixed_chunk_len() is Some ==> forall|i: int|
                0 <= i < r@.len() ==> (#[trigger] r@[i])@.len() <= old(self).fixed_chunk_len()->0
                    && (i < r@.len() - 1 ==> r@[i]@.len() == old(self).fixed_chunk_len()->0),
            old(self).fixed_chunk_len() is Some ==> r@.len() == (old(self).remaining().len()
                + old(self).fixed_chunk_len()->0 - 1) as int / old(self).fixed_chunk_len()->0 as int,
    {
        let mut chunks: Vec<Vec<u8>> = Vec::new();
        loop
            invariant
                self.wf(),
                self.state() is Idle || self.state() is Completed,
                self.state() is Idle ==> chunk_views(chunks@).flatten_alt() + self.remaining()
                    == old(self).remaining(),
                self.state() is Completed ==> chunk_views(chunks@).flatten_alt() == old(
                    self,
                ).remaining(),
                forall|i: int| 0 <= i < chunks@.len() ==> (#[trigger] chunks@[i])@.len() > 0,
                old(self).fixed_chunk_len() is Some ==> {
                    let k = old(self).fixed_chunk_len()->0;
                    let m = chunks@.len();
                    let consumed = old(self).remaining().len() - self.left();
                    &&& self.state() is Idle ==> self.fixed_chunk_len() == old(self).fixed_chunk_len()
                    &&& forall|i: int|
                        0 <= i < m ==> (#[trigger] chunks@[i])@.len() <= k && (chunks@[i]@.len() == k
                            || (i == m - 1 && self.left() == 0))
                    &&& consumed <= m * k
                    &&& m > 0 ==> consumed > (m - 1) * k
                    &&& self.left() > 0 ==> consumed == m * k
                },
            ensures
                self.state() is Completed,
                chunk_views(chunks@).flatten_alt() == old(self).remaining(),
                forall|i: int| 0 <= i < chunks@.len() ==> (#[trigger] chunks@[i])@.len() > 0,
                old(self).fixed_chunk_len() is Some ==> {
                    let k = old(self).fixed_chunk_len()->0;
                    let m = chunks@.len();
                    let n = old(self).remaining().len();
                    &&& forall|i: int|
                        0 <= i < m ==> (#[trigger] chunks@[i])@.len() <= k && (i < m - 1
                            ==> chunks@[i]@.len() == k)
                    &&& n <= m * k
                    &&& m > 0 ==> n > (m - 1) * k
                },
            decreases (if self.state() is Idle {
                self.remaining().len() + 1
            } else {
                0
            }),
        {
            let ghost views = chunk_views(chunks@);
            let ghost before = self.remaining();
            match self.poll_start() {
                PollStart::Spawn(pack) => {
                    let outcome = pack.read_chunk_owned();
                    let ghost after = outcome.1.remaining();
                    let ghost cv = outcome.0.value@;
                    proof {
                        assert(before =~= cv + after);
                    }
                    match self.poll_complete(Ok(outcome)) {
                        Some(Ok(c)) => {
                            chunks.push(c);
                            proof {
                                assert(chunk_views(chunks@) =~= views.push(cv));
                                assert(chunk_views(chunks@).drop_last() =~= views);
                                assert(views.flatten_alt() + cv + after =~= views.flatten_alt() + (
                                cv + after));
                                if old(self).fixed_chunk_len() is Some {
                                    let k = old(self).fixed_chunk_len()->0 as int;
                                    let m = chunks@.len() as int;
                                    assert(m * k == (m - 1) * k + k) by (nonlinear_arith);
                                    assert(chunks@[m - 1]@ == cv);
                                }
                            }
                        },
                        _ => {
                            proof {
                                assert(after.len() == 0);
                                assert(before =~= Seq::<u8>::empty());
                                assert(views.flatten_alt() + before =~= views.flatten_alt());
                            }
                            break;
                        },
                    }
                },
                _ => {
                    break;
                },
            }
        }
        proof {
            chunk_views(chunks@).lemma_flatten_and_flatten_alt_are_equivalent();
            if old(self).fixed_chunk_len() is Some {
                let k = old(self).fixed_chunk_len()->0 as int;
                let n = old(self).remaining().len() as int;
                let m = chunks@.len() as int;
                assert(m == (n + k - 1) / k) by (nonlinear_arith)
                    requires
                        k >= 1,
                        n <= m * k,
                        m > 0 ==> n > (m - 1) * k,
                        m >= 0,
                        n >= 0,
                ;
            }
        }
        chunks
    }

    /// Starts reading at `position` bytes, or at the end where the source is
    /// shorter. Fails while a read is in flight or after the end, when the
    /// stream does not hold the source.
    pub fn set_start_position_bytes(self, position: usize) -> (r: Result<Self, ChunkError>)
        requires
            self.wf(),
        ensures
            r is Err <==> !(self.state() is Idle),
            r is Err ==> r->Err_0 == ChunkError::SeekFailure,
            r is Ok ==> {
                let pack = r->Ok_0.state()->Idle_0;
                &&& r->Ok_0.wf()
                &&& r->Ok_0.state() is Idle
                &&& pack.content() == self.state()->Idle_0.content()
                &&& pack.position() == bytes_start(self.spec_size(), position)
                &&& pack.info() == (FileInfo {
                    start_position: bytes_start(self.spec_size(), position) as usize,
                    ..self.state()->Idle_0.info()
                })
                &&& pack.complete() ==> pack.remaining().len() == 0
                &&& r->Ok_0.probe() == self.probe()
                &&& r->Ok_0.spec_size() == self.spec_size()
            },
    {
        let mut this = self;
        if this.finished {
            return Err(ChunkError::SeekFailure);
        }
        let size = this.size;
        match &mut this.file {
            Some(pack) => {
                let start = bytes_start_offset(size, position);
                pack.seek_start(start);
                Ok(this)
            },
            None => Err(ChunkError::SeekFailure),
        }
    }

    /// Starts reading at `percent` hundredths of a percent of the size; the
    /// resulting offset is capped at 100 bytes and at the size. Fails while a
    /// read is in flight or after the end, when the stream does not hold the
    /// source.
    pub fn set_start_position_percent(self, percent: u64) -> (r: Result<Self, ChunkError>)
        requires
            self.wf(),
        ensures
            r is Err <==> !(self.state() is Idle),
            r is Err ==> r->Err_0 == ChunkError::SeekFailure,
            r is Ok ==> {
                let pack = r->Ok_0.state()->Idle_0;
                &&& r->Ok_0.wf()
                &&& r->Ok_0.state() is Idle
                &&& pack.content() == self.state()->Idle_0.content()
                &&& pack.position() == percent_start(self.spec_size(), percent)
                &&& pack.info() == (FileInfo {
                    start_position: percent_start(self.spec_size(), percent) as usize,
                    ..self.state()->Idle_0.info()
                })
                &&& pack.complete() ==> pack.remaining().len() == 0
                &&& r->Ok_0.probe() == self.probe()
                &&& r->Ok_0.spec_size() == self.spec_size()
            },
    {
        let mut this = self;
        if this.finished {
            return Err(ChunkError::SeekFailure);
        }
        let size = this.size;
        match &mut this.file {
            Some(pack) => {
                let start = percent_start_offset(size, percent);
                pack.seek_start(start);
                Ok(this)
            },
            None => Err(ChunkError::SeekFailure),
        }
    }
}

/// The blocking and the offloaded reader yield the same bytes.
///
/// Drained to the end, each yields exactly the bytes that remained
/// ([`FileIter::collect_chunks`](crate::iterator::FileIter::collect_chunks),
/// [`FileStream::collect_chunks`]). More generally, both read through [`FilePack::read_chunk`] (the offloaded one through
/// [`FilePack::read_chunk_owned`]), which yields [`pull`] of the content at
/// the read position, taking at least one byte; only the sizes of their reads
/// may differ, with the memory and the timing each one observes. Whatever the
/// sizes `a` and `b` of their reads, two runs over the same content from the
/// same start that go on until the end yield the same concatenated bytes:
/// the content from that start on.
pub proof fn lemma_readers_agree(content: Seq<u8>, start: nat, a: Seq<nat>, b: Seq<nat>)
    requires
        start <= content.len(),
        forall|i: int| 0 <= i < a.len() ==> a[i] >= 1,
        forall|i: int| 0 <= i < b.len() ==> b[i] >= 1,
        a.len() >= content.len() - start,
        b.len() >= content.len() - start,
    ensures
        run_output(content, start, a) == run_output(content, start, b),
        run_output(content, start, a) == content.subrange(start as int, content.len() as int),
{
    lemma_run_covers_rest(content, start, a);
    lemma_run_covers_rest(content, start, b);
}

} // verus!

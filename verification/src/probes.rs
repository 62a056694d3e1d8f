//! Byte-stream probes: a reader that hands out a limited number of bytes in
//! bounded chunks, and a writer that accepts everything, both recording the
//! largest buffer they were offered.

use vstd::prelude::*;

verus! {

/// `std::io::Error` is carried through results without being inspected.
#[verifier::external_type_specification]
#[verifier::external_body]
pub struct ExIoError(std::io::Error);

/// The smaller of two lengths.
pub open spec fn min_len(a: nat, b: nat) -> nat {
    if a <= b { a } else { b }
}

/// The larger of two lengths.
pub open spec fn max_len(a: nat, b: nat) -> nat {
    if a >= b { a } else { b }
}

/// A reader that still has `cap` bytes to give, hands out at most
/// `read_size` of them per call, and remembers the largest buffer it saw.
pub struct ShortReader {
    pub cap: usize,
    pub read_size: usize,
    pub observed_buffer: usize,
}

impl ShortReader {
    /// How many bytes a read into a buffer of `buf_len` bytes yields.
    pub open spec fn spec_chunk(self, buf_len: nat) -> nat {
        min_len(min_len(self.cap as nat, self.read_size as nat), buf_len)
    }

    /// The reader after a read into a buffer of `buf_len` bytes: the chunk
    /// is taken off `cap`, and the largest buffer seen is updated.
    pub open spec fn after_read(self, buf_len: nat) -> ShortReader {
        ShortReader {
            cap: (self.cap - self.spec_chunk(buf_len)) as usize,
            read_size: self.read_size,
            observed_buffer: max_len(self.observed_buffer as nat, buf_len) as usize,
        }
    }

    /// Reads into `buf`: reports `min(cap, read_size, buf.len())` bytes,
    /// takes them off `cap`, and records the buffer's length. The buffer's
    /// contents are left as they were; the call never fails.
    pub fn read(&mut self, buf: &mut [u8]) -> (r: std::io::Result<usize>)
        ensures
            r == Ok::<usize, std::io::Error>(old(self).spec_chunk(old(buf)@.len()) as usize),
            r matches Ok(n) ==> {
                &&& n <= old(self).cap
                &&& n <= old(self).read_size
                &&& n <= old(buf)@.len()
                &&& (n == old(self).cap || n == old(self).read_size || n == old(buf)@.len())
            },
            *final(self) == old(self).after_read(old(buf)@.len()),
            final(self).cap == old(self).cap - old(self).spec_chunk(old(buf)@.len()),
            final(self).observed_buffer == max_len(
                old(self).observed_buffer as nat,
                old(buf)@.len(),
            ),
            final(buf)@ == old(buf)@,
    {
        let bytes = self.cap.min(self.read_size).min(buf.len());
        self.cap = self.cap - bytes;
        self.observed_buffer = self.observed_buffer.max(buf.len());
        Ok(bytes)
    }
}

/// A writer that accepts every byte it is given and remembers the largest
/// buffer it was handed.
pub struct WriteObserver {
    pub observed_buffer: usize,
}

impl WriteObserver {
    /// The observer after being handed a buffer of `buf_len` bytes.
    pub open spec fn after_write(self, buf_len: nat) -> WriteObserver {
        WriteObserver { observed_buffer: max_len(self.observed_buffer as nat, buf_len) as usize }
    }

    /// Accepts the whole of `buf` and records its length.
    pub fn write(&mut self, buf: &[u8]) -> (r: std::io::Result<usize>)
        ensures
            r == Ok::<usize, std::io::Error>(buf@.len() as usize),
            *final(self) == old(self).after_write(buf@.len()),
            final(self).observed_buffer == max_len(old(self).observed_buffer as nat, buf@.len()),
    {
        self.observed_buffer = self.observed_buffer.max(buf.len());
        Ok(buf.len())
    }

    /// Nothing is buffered, so flushing always succeeds and changes nothing.
    pub fn flush(&mut self) -> (r: std::io::Result<()>)
        ensures
            r == Ok::<(), std::io::Error>(()),
            *final(self) == *old(self),
    {
        Ok(())
    }
}

} // verus!

verus! {

/// Bytes handed out by successive reads into buffers of the lengths in
/// `lens`, in that order, starting from `r`.
pub open spec fn reads_total(r: ShortReader, lens: Seq<nat>) -> nat
    decreases lens.len(),
{
    if lens.len() == 0 {
        0
    } else {
        r.spec_chunk(lens[0]) + reads_total(r.after_read(lens[0]), lens.drop_first())
    }
}

/// The reader after successive reads into buffers of the lengths in `lens`.
pub open spec fn after_reads(r: ShortReader, lens: Seq<nat>) -> ShortReader
    decreases lens.len(),
{
    if lens.len() == 0 {
        r
    } else {
        after_reads(r.after_read(lens[0]), lens.drop_first())
    }
}

/// The observer after being handed buffers of the lengths in `lens`.
pub open spec fn after_writes(w: WriteObserver, lens: Seq<nat>) -> WriteObserver
    decreases lens.len(),
{
    if lens.len() == 0 {
        w
    } else {
        after_writes(w.after_write(lens[0]), lens.drop_first())
    }
}

/// Every length in `lens` fits in a `usize`.
pub open spec fn lens_fit(lens: Seq<nat>) -> bool {
    forall|i: int| 0 <= i < lens.len() ==> #[trigger] lens[i] <= usize::MAX
}

/// A single read hands out exactly the least of the bytes the reader still
/// holds, its chunk size and the buffer's length: never more than any of
/// the three, and equal to one of them; the bytes handed out come off the
/// capacity and nothing else about the reader changes but the largest
/// buffer seen.
pub proof fn lemma_read_is_least_of_cap_chunk_and_buffer(r: ShortReader, buf_len: nat)
    ensures
        r.spec_chunk(buf_len) <= r.cap,
        r.spec_chunk(buf_len) <= r.read_size,
        r.spec_chunk(buf_len) <= buf_len,
        r.spec_chunk(buf_len) == r.cap || r.spec_chunk(buf_len) == r.read_size
            || r.spec_chunk(buf_len) == buf_len,
        r.after_read(buf_len).cap + r.spec_chunk(buf_len) == r.cap,
        r.after_read(buf_len).read_size == r.read_size,
        buf_len <= usize::MAX ==> r.after_read(buf_len).observed_buffer >= buf_len,
        buf_len <= usize::MAX ==> r.after_read(buf_len).observed_buffer >= r.observed_buffer,
        buf_len <= usize::MAX ==> (r.after_read(buf_len).observed_buffer == buf_len
            || r.after_read(buf_len).observed_buffer == r.observed_buffer),
{
}

/// Whatever buffers a reader is offered, the bytes it has handed out and the
/// bytes it still holds always add up to the capacity it started with, and
/// its chunk size never changes.
pub proof fn lemma_reads_conserve_capacity(r: ShortReader, lens: Seq<nat>)
    ensures
        reads_total(r, lens) + after_reads(r, lens).cap == r.cap,
        after_reads(r, lens).read_size == r.read_size,
    decreases lens.len(),
{
    if lens.len() > 0 {
        lemma_reads_conserve_capacity(r.after_read(lens[0]), lens.drop_first());
    }
}

/// A reader with a non-zero chunk size that is read into non-empty buffers
/// at least `cap` times is exhausted: it has handed out exactly its whole
/// capacity, so copying it to the end yields `cap` bytes.
pub proof fn lemma_reads_drain_capacity(r: ShortReader, lens: Seq<nat>)
    requires
        r.read_size >= 1,
        forall|i: int| 0 <= i < lens.len() ==> #[trigger] lens[i] >= 1,
        lens.len() >= r.cap,
    ensures
        after_reads(r, lens).cap == 0,
        reads_total(r, lens) == r.cap,
    decreases lens.len(),
{
    lemma_reads_conserve_capacity(r, lens);
    if lens.len() > 0 {
        let tail = lens.drop_first();
        assert forall|i: int| 0 <= i < tail.len() implies #[trigger] tail[i] >= 1 by {
            assert(tail[i] == lens[i + 1]);
        }
        lemma_reads_drain_capacity(r.after_read(lens[0]), tail);
    }
}

/// After a series of reads, the recorded buffer size is the largest of the
/// initial record and the lengths of all buffers offered.
pub proof fn lemma_reads_observe_largest(r: ShortReader, lens: Seq<nat>)
    requires
        lens_fit(lens),
    ensures
        after_reads(r, lens).observed_buffer >= r.observed_buffer,
        forall|i: int| 0 <= i < lens.len() ==> #[trigger] lens[i] <= after_reads(r, lens).observed_buffer,
        after_reads(r, lens).observed_buffer == r.observed_buffer
            || exists|i: int| 0 <= i < lens.len() && #[trigger] lens[i] == after_reads(r, lens).observed_buffer,
    decreases lens.len(),
{
    if lens.len() > 0 {
        let tail = lens.drop_first();
        assert forall|i: int| 0 <= i < tail.len() implies #[trigger] tail[i] <= usize::MAX by {
            assert(tail[i] == lens[i + 1]);
        }
        let next = r.after_read(lens[0]);
        lemma_reads_observe_largest(next, tail);
        let last = after_reads(r, lens).observed_buffer;
        assert(last == after_reads(next, tail).observed_buffer);
        assert forall|i: int| 0 <= i < lens.len() implies #[trigger] lens[i] <= last by {
            if i > 0 {
                assert(lens[i] == tail[i - 1]);
            }
        }
        if last != r.observed_buffer {
            if last == next.observed_buffer {
                assert(lens[0] == last);
            } else {
                let j = choose|j: int| 0 <= j < tail.len() && #[trigger] tail[j] == last;
                assert(lens[j + 1] == last);
            }
        }
    }
}

/// After a series of writes, the recorded buffer size is the largest of the
/// initial record and the lengths of all buffers written.
pub proof fn lemma_writes_observe_largest(w: WriteObserver, lens: Seq<nat>)
    requires
        lens_fit(lens),
    ensures
        after_writes(w, lens).observed_buffer >= w.observed_buffer,
        forall|i: int| 0 <= i < lens.len() ==> #[trigger] lens[i] <= after_writes(w, lens).observed_buffer,
        after_writes(w, lens).observed_buffer == w.observed_buffer
            || exists|i: int| 0 <= i < lens.len() && #[trigger] lens[i] == after_writes(w, lens).observed_buffer,
    decreases lens.len(),
{
    if lens.len() > 0 {
        let tail = lens.drop_first();
        assert forall|i: int| 0 <= i < tail.len() implies #[trigger] tail[i] <= usize::MAX by {
            assert(tail[i] == lens[i + 1]);
        }
        let next = w.after_write(lens[0]);
        lemma_writes_observe_largest(next, tail);
        let last = after_writes(w, lens).observed_buffer;
        assert forall|i: int| 0 <= i < lens.len() implies #[trigger] lens[i] <= last by {
            if i > 0 {
                assert(lens[i] == tail[i - 1]);
            }
        }
        if last != w.observed_buffer {
            if last == next.observed_buffer {
                assert(lens[0] == last);
            } else {
                let j = choose|j: int| 0 <= j < tail.len() && #[trigger] tail[j] == last;
                assert(lens[j + 1] == last);
            }
        }
    }
}

} // verus!

//! Accounting for the streamed download of the audio clip. The shell that
//! performs the network reads and file writes records each chunk here, in
//! arrival order; the tracker pins down what the destination must hold and
//! how many bytes were transferred.

use vstd::prelude::*;

verus! {

/// The total length of the chunks.
pub open spec fn total_len(chunks: Seq<Seq<u8>>) -> int
    decreases chunks.len(),
{
    if chunks.len() == 0 {
        0
    } else {
        total_len(chunks.drop_last()) + chunks.last().len()
    }
}

/// The chunks laid end to end in order: the bytes the destination holds
/// after every chunk has been appended verbatim.
pub open spec fn concat_chunks(chunks: Seq<Seq<u8>>) -> Seq<u8>
    decreases chunks.len(),
{
    if chunks.len() == 0 {
        Seq::empty()
    } else {
        concat_chunks(chunks.drop_last()) + chunks.last()
    }
}

/// Tracks one streamed download: the chunks recorded so far, in arrival
/// order, and the running byte count.
pub struct Download {
    size: usize,
    chunks: Ghost<Seq<Seq<u8>>>,
}

impl Download {
    /// The chunks recorded so far, in arrival order.
    pub closed spec fn chunk_log(&self) -> Seq<Seq<u8>> {
        self.chunks@
    }

    /// The running byte count.
    pub closed spec fn total(&self) -> int {
        self.size as int
    }

    /// The byte count equals the total length of the recorded chunks.
    pub open spec fn wf(&self) -> bool {
        self.total() == total_len(self.chunk_log())
    }

    /// Starts the accounting for one download, with nothing received yet.
    pub fn new() -> (d: Download)
        ensures
            d.wf(),
            d.chunk_log() == Seq::<Seq<u8>>::empty(),
            d.total() == 0,
    {
        Download { size: 0, chunks: Ghost(Seq::empty()) }
    }

    /// Records the next chunk of the stream, which the caller appends
    /// verbatim to the destination.
    pub fn record_chunk(&mut self, chunk: &[u8])
        requires
            old(self).wf(),
            old(self).total() + chunk@.len() <= usize::MAX,
        ensures
            final(self).wf(),
            final(self).chunk_log() == old(self).chunk_log().push(chunk@),
            final(self).total() == old(self).total() + chunk@.len(),
    {
        proof {
            let pushed = self.chunks@.push(chunk@);
            assert(pushed.drop_last() =~= self.chunks@);
        }
        self.size = self.size + chunk.len();
        self.chunks = Ghost(self.chunks@.push(chunk@));
    }

    /// The number of bytes recorded so far.
    pub fn byte_count(&self) -> (n: usize)
        ensures
            n == self.total(),
    {
        self.size
    }
}

/// The returned byte count of a download equals the sum of the lengths of
/// the chunks received, which is the size of a destination that holds
/// exactly those chunks in arrival order.
pub proof fn lemma_total_is_destination_size(d: Download)
    requires
        d.wf(),
    ensures
        d.total() == total_len(d.chunk_log()),
        d.total() == concat_chunks(d.chunk_log()).len(),
{
    lemma_concat_len(d.chunk_log());
}

proof fn lemma_concat_len(chunks: Seq<Seq<u8>>)
    ensures
        concat_chunks(chunks).len() == total_len(chunks),
    decreases chunks.len(),
{
    if chunks.len() > 0 {
        lemma_concat_len(chunks.drop_last());
    }
}

} // verus!

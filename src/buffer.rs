//! An append-only store of interleaved samples, filled by an audio callback
//! while the stream is open and harvested once after it has been closed.
use vstd::prelude::*;

verus! {

/// The abstract state of a buffer: the samples held, in arrival order, and
/// whether appends are still taken.
pub type BufferState<T> = (Seq<T>, bool);

/// The state after offering `chunk` to a buffer in state `s`: an open buffer
/// takes every sample of the chunk, a closed one takes none.
pub open spec fn appended<T>(s: BufferState<T>, chunk: Seq<T>) -> BufferState<T> {
    if s.1 {
        (s.0 + chunk, true)
    } else {
        s
    }
}

/// The state after offering each chunk of `chunks` in turn.
pub open spec fn appended_all<T>(s: BufferState<T>, chunks: Seq<Seq<T>>) -> BufferState<T>
    decreases chunks.len(),
{
    if chunks.len() == 0 {
        s
    } else {
        appended(appended_all(s, chunks.drop_last()), chunks.last())
    }
}

/// The chunks laid end to end.
pub open spec fn joined<T>(chunks: Seq<Seq<T>>) -> Seq<T>
    decreases chunks.len(),
{
    if chunks.len() == 0 {
        Seq::empty()
    } else {
        joined(chunks.drop_last()) + chunks.last()
    }
}

/// The state of a fresh buffer: empty and open.
pub open spec fn fresh<T>() -> BufferState<T> {
    (Seq::empty(), true)
}

/// Samples written by one producer (the capture callback) and read by one
/// consumer, which drains them only once the buffer has been closed.
pub struct SampleBuffer<T> {
    samples: Vec<T>,
    open: bool,
}

impl<T> View for SampleBuffer<T> {
    type V = BufferState<T>;

    closed spec fn view(&self) -> BufferState<T> {
        (self.samples@, self.open)
    }
}

impl<T: Copy> SampleBuffer<T> {
    /// An empty buffer that takes appends.
    pub fn new() -> (r: Self)
        ensures
            r@ == fresh::<T>(),
    {
        SampleBuffer { samples: Vec::new(), open: true }
    }

    /// Offers a chunk from the producer. While the buffer is open every
    /// sample is kept, after the ones already held; once it is closed the
    /// chunk is refused. Returns whether the chunk was kept.
    pub fn append(&mut self, chunk: &[T]) -> (kept: bool)
        ensures
            kept == old(self)@.1,
            final(self)@ == appended(old(self)@, chunk@),
    {
        if !self.open {
            return false;
        }
        let ghost start = self.samples@;
        let mut i: usize = 0;
        while i < chunk.len()
            invariant
                i <= chunk@.len(),
                self.open,
                self.samples@ == start + chunk@.subrange(0, i as int),
            decreases chunk@.len() - i,
        {
            self.samples.push(chunk[i]);
            i = i + 1;
        }
        assert(chunk@.subrange(0, chunk@.len() as int) == chunk@);
        true
    }

    /// Stops taking appends; the samples held stay as they are.
    pub fn close(&mut self)
        ensures
            final(self)@ == (old(self)@.0, false),
    {
        self.open = false;
    }

    /// Whether the buffer still takes appends.
    pub fn is_open(&self) -> (r: bool)
        ensures
            r == self@.1,
    {
        self.open
    }

    /// The number of samples held.
    pub fn len(&self) -> (r: usize)
        ensures
            r == self@.0.len(),
    {
        self.samples.len()
    }

    /// Hands out every sample held, in arrival order, and leaves the buffer
    /// empty. Only a closed buffer is drained, so that no append can run
    /// alongside.
    pub fn drain(&mut self) -> (r: Vec<T>)
        requires
            !old(self)@.1,
        ensures
            r@ == old(self)@.0,
            final(self)@ == (Seq::<T>::empty(), false),
    {
        let mut out: Vec<T> = Vec::new();
        out.append(&mut self.samples);
        out
    }
}

/// Whatever chunks the producer manages to hand over while the buffer is
/// open, a buffer that is then closed holds exactly those samples, chunk
/// after chunk in the order they were appended, each sample once.
pub proof fn lemma_appends_are_kept_in_order<T>(chunks: Seq<Seq<T>>)
    ensures
        appended_all(fresh::<T>(), chunks) == (joined(chunks), true),
    decreases chunks.len(),
{
    if chunks.len() > 0 {
        lemma_appends_are_kept_in_order(chunks.drop_last());
    }
}

/// Once a buffer is closed, no later chunk reaches it: the samples drained
/// are those held at the moment of closing.
pub proof fn lemma_closed_buffer_refuses<T>(held: Seq<T>, chunks: Seq<Seq<T>>)
    ensures
        appended_all((held, false), chunks) == (held, false),
    decreases chunks.len(),
{
    if chunks.len() > 0 {
        lemma_closed_buffer_refuses(held, chunks.drop_last());
    }
}

} // verus!

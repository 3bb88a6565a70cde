//! What the recognition engine found, and the text a session publishes.
use vstd::prelude::*;

verus! {

/// The text segments the recognition engine returned, in order.
#[derive(Clone, Debug)]
pub struct Transcript {
    pub segments: Vec<String>,
}

/// The published text: the first segment, or nothing when there is none.
pub open spec fn published(segments: Seq<String>) -> Seq<char> {
    if segments.len() == 0 {
        Seq::empty()
    } else {
        segments[0]@
    }
}

impl Transcript {
    /// The text a session publishes: the first segment only; the segments
    /// after it are left out, and no segment gives the empty text.
    pub fn text(&self) -> (r: String)
        ensures
            r@ == published(self.segments@),
    {
        if self.segments.len() == 0 {
            String::new()
        } else {
            self.segments[0].clone()
        }
    }
}

/// A recognition engine's settings and the text it published last.
pub struct WhisperProcessor {
    /// Path of the model data the engine loads.
    pub modelpath: String,
    /// The text of the last transcript published.
    pub outputstring: String,
}

impl WhisperProcessor {
    pub fn new(p: String) -> (r: WhisperProcessor)
        ensures
            r.modelpath == p,
            r.outputstring@ == Seq::<char>::empty(),
    {
        WhisperProcessor { modelpath: p, outputstring: String::new() }
    }

    /// Records the text of a new transcript, replacing the one before.
    pub fn publish(&mut self, t: &Transcript)
        ensures
            final(self).modelpath == old(self).modelpath,
            final(self).outputstring@ == published(t.segments@),
    {
        self.outputstring = t.text();
    }
}

} // verus!

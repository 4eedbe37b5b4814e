//! The capabilities a run is given: a model backend, tools, and the stream
//! and sink through which chunks pass. Each is an interface with any number
//! of implementations; the engine depends on the interface alone and assumes
//! nothing of what an implementation returns.

use vstd::prelude::*;
use crate::errors::CoreError;
use crate::model::{AnswerChunk, UserQuery};

verus! {

/// A single-use, forward-only sequence of chunks, produced as the model
/// produces them.
pub trait ChunkStream: Send {
    /// The next chunk, or `None` when the stream is exhausted. A run asks a
    /// stream for nothing more once it has answered `None`. An implementation
    /// bounds its own waiting: a stream that gives up ends.
    fn next_chunk(&mut self) -> Option<AnswerChunk>;
}

/// A language model: a local model, a remote provider, a test double. Calls
/// may come from several runs at once.
pub trait ModelBackend: Send + Sync {
    /// Begins a completion of the query and hands out its stream, or reports
    /// at once that it cannot begin: with `ProviderUnavailable`,
    /// `ProviderError`, `LocalModelLoadFailed` or `Timeout`. Whether to try
    /// again is the implementation's business; a run asks once.
    fn complete(&self, query: &UserQuery) -> Result<Box<dyn ChunkStream>, CoreError>;
}

/// A tool that a model can ask for: search, retrieval, a calculator. Calls may
/// come from several runs at once.
pub trait Tool: Send + Sync {
    /// The stable name by which requests ask for the tool and under which its
    /// calls are traced.
    fn name(&self) -> &'static str;

    /// Answers the input, or fails: with `SearchUnavailable`, `SearchError`,
    /// `Timeout` or `Internal`. An implementation bounds its own waiting.
    fn invoke(&self, input: &str) -> Result<String, CoreError>;
}

/// A consumer of chunks as they are produced.
pub trait ChunkSink {
    /// Takes one chunk.
    fn accept(&mut self, chunk: &AnswerChunk);
}

/// A stream over chunks that are in memory already.
pub struct BufferedStream {
    chunks: Vec<AnswerChunk>,
    next: usize,
}

impl BufferedStream {
    /// The texts of the chunks that the stream has yet to yield, in order.
    pub closed spec fn remaining(&self) -> Seq<Seq<char>> {
        if self.next <= self.chunks@.len() {
            Seq::new(
                (self.chunks@.len() - self.next) as nat,
                |i: int| self.chunks@[self.next + i].text@,
            )
        } else {
            Seq::empty()
        }
    }

    /// A stream that yields the given chunks, in order.
    pub fn new(chunks: Vec<AnswerChunk>) -> (s: Self)
        ensures
            s.remaining() == Seq::new(chunks@.len(), |i: int| chunks@[i].text@),
    {
        BufferedStream { chunks, next: 0 }
    }
}

impl ChunkStream for BufferedStream {
    /// Yields the next chunk, if one is left.
    fn next_chunk(&mut self) -> (r: Option<AnswerChunk>)
        ensures
            match r {
                Some(chunk) => {
                    &&& old(self).remaining().len() > 0
                    &&& chunk.text@ == old(self).remaining()[0]
                    &&& final(self).remaining() == old(self).remaining().skip(1)
                },
                None => old(self).remaining().len() == 0 && final(self).remaining() == old(
                    self,
                ).remaining(),
            },
    {
        if self.next < self.chunks.len() {
            let chunk = AnswerChunk { text: self.chunks[self.next].text.clone() };
            self.next = self.next + 1;
            Some(chunk)
        } else {
            None
        }
    }
}

/// The sink of a caller who asked for no streaming: every chunk is dropped.
pub struct Silent;

impl ChunkSink for Silent {
    fn accept(&mut self, chunk: &AnswerChunk) {
    }
}

/// A sink together with the record of what was handed to it. The record is
/// ghost: it costs nothing at run time, and contracts speak of the sink
/// through it.
pub struct Forwarder<S: ChunkSink> {
    inner: S,
    log: Ghost<Seq<Seq<char>>>,
}

impl<S: ChunkSink> Forwarder<S> {
    /// The texts of the chunks handed to the sink so far, in order.
    pub closed spec fn forwarded(&self) -> Seq<Seq<char>> {
        self.log@
    }

    /// The sink inside.
    pub closed spec fn sink(&self) -> S {
        self.inner
    }

    /// Wraps a sink. The record begins empty.
    pub fn new(inner: S) -> (f: Self)
        ensures
            f.forwarded() == Seq::<Seq<char>>::empty(),
            f.sink() == inner,
    {
        Forwarder { inner, log: Ghost(Seq::empty()) }
    }

    /// Hands one chunk to the sink, whole.
    pub fn forward(&mut self, chunk: &AnswerChunk)
        ensures
            final(self).forwarded() == old(self).forwarded().push(chunk.text@),
    {
        self.inner.accept(chunk);
        self.log = Ghost(self.log@.push(chunk.text@));
    }

    /// Gives the sink back, as the chunks handed to it have left it.
    pub fn into_inner(self) -> (inner: S)
        ensures
            inner == self.sink(),
    {
        self.inner
    }
}

} // verus!

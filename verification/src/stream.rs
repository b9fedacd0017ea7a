//! The lazy, cancellable output stream of one pipeline invocation.

use vstd::prelude::*;

use crate::cancel::CancelToken;
use crate::codecs::{reader_model, ByteReader};
use crate::error::{PluginError, Span};

verus! {

/// The most bytes one pull may hand back: consumers drive production
/// chunk by chunk, and no pull materializes more than this.
pub const CHUNK_SIZE: usize = 8192;

/// A lazy, ordered, finite sequence of bytes, produced on demand by the
/// codec transform it wraps. It carries the span errors are attributed
/// to and a cancellation signal checked at every pull boundary. Consumed
/// once; not restartable.
///
/// Its model is `remaining()`: the bytes still to be produced, or `None`
/// when producing them will eventually fail.
pub struct OutputStream {
    reader: ByteReader,
    cancel: CancelToken,
    span: Span,
    finished: bool,
}

impl OutputStream {
    /// The span this stream attributes errors to.
    pub closed spec fn spec_span(self) -> Span {
        self.span
    }

    /// The bytes a full drain of the stream would still deliver, or
    /// `None` when a pull will eventually fail.
    pub closed spec fn remaining(self) -> Option<Seq<u8>> {
        if self.finished {
            Some(Seq::<u8>::empty())
        } else {
            reader_model(self.reader)
        }
    }

    /// Wraps a constructed codec transform as the caller-facing stream.
    pub fn new(reader: ByteReader, cancel: CancelToken, span: Span) -> (r: OutputStream)
        ensures
            r.remaining() == reader_model(reader),
            r.spec_span() == span,
    {
        OutputStream { reader, cancel, span, finished: false }
    }

    pub fn span(&self) -> (r: Span)
        ensures
            r == self.spec_span(),
    {
        self.span
    }

    /// Pulls the next chunk: `Ok(Some(..))` carries at least one and at
    /// most [`CHUNK_SIZE`] bytes, `Ok(None)` is the clean end of the
    /// stream, and an error terminates the stream early.
    ///
    /// If the cancellation signal is observed, the pull returns
    /// `Interrupted` without attempting further codec work. A stream
    /// whose production is bound to fail never reports a clean end: the
    /// failure surfaces as `CodecRuntime`, carrying this stream's span.
    pub fn next_chunk(&mut self) -> (r: Result<Option<Vec<u8>>, PluginError>)
        ensures
            final(self).spec_span() == old(self).spec_span(),
            r matches Ok(Some(chunk)) ==> chunk@.len() <= CHUNK_SIZE,
            r matches Err(e) ==> final(self).remaining() == Some(Seq::<u8>::empty()),
            r matches Err(e) ==> e.spec_span() == old(self).spec_span(),
            r matches Err(e) ==> (e matches PluginError::Interrupted { .. } || e matches
                PluginError::CodecRuntime { .. }),
            old(self).remaining() matches Some(s) ==> match r {
                Ok(Some(chunk)) => {
                    &&& 0 < chunk@.len() <= CHUNK_SIZE
                    &&& chunk@.len() <= s.len()
                    &&& chunk@ == s.take(chunk@.len() as int)
                    &&& final(self).remaining() == Some(s.skip(chunk@.len() as int))
                },
                Ok(None) => s.len() == 0 && final(self).remaining() == Some(
                    Seq::<u8>::empty(),
                ),
                Err(e) => e matches PluginError::Interrupted { .. },
            },
            old(self).remaining() is None ==> match r {
                Ok(Some(chunk)) => chunk@.len() > 0 && final(self).remaining() is None,
                Ok(None) => false,
                Err(e) => true,
            },
    {
        if self.finished {
            return Ok(None);
        }
        if self.cancel.is_raised() {
            self.finished = true;
            return Err(PluginError::Interrupted { span: self.span });
        }
        match self.reader.read_chunk(CHUNK_SIZE) {
            Ok(chunk) => {
                if chunk.len() == 0 {
                    self.finished = true;
                    Ok(None)
                } else {
                    Ok(Some(chunk))
                }
            },
            Err(msg) => {
                self.finished = true;
                Err(PluginError::CodecRuntime { msg, span: self.span })
            },
        }
    }

    /// Drains a stream that is known to be able to deliver its bytes,
    /// pulling chunk by chunk until the clean end. Only cancellation can
    /// keep the result from being exactly the stream's remaining bytes.
    #[verifier::loop_isolation(false)]
    pub fn drain(self) -> (r: Result<Vec<u8>, PluginError>)
        requires
            self.remaining() is Some,
        ensures
            r matches Ok(v) ==> self.remaining() == Some(v@),
            r matches Err(e) ==> e matches PluginError::Interrupted { .. },
            r matches Err(e) ==> e.spec_span() == self.spec_span(),
    {
        let ghost whole = self.remaining()->0;
        let ghost sp = self.spec_span();
        let mut stream = self;
        let mut acc: Vec<u8> = Vec::new();
        loop
            invariant
                stream.spec_span() == sp,
                stream.remaining() is Some,
                acc@ + stream.remaining()->0 == whole,
            decreases stream.remaining()->0.len(),
        {
            let ghost rem = stream.remaining()->0;
            match stream.next_chunk() {
                Ok(Some(mut chunk)) => {
                    proof {
                        assert(rem.take(chunk@.len() as int) + rem.skip(chunk@.len() as int)
                            =~= rem);
                        assert(acc@ + chunk@ + rem.skip(chunk@.len() as int) =~= acc@ + rem);
                    }
                    acc.append(&mut chunk);
                },
                Ok(None) => {
                    proof {
                        assert(acc@ + rem =~= acc@);
                    }
                    return Ok(acc);
                },
                Err(e) => {
                    return Err(e);
                },
            }
        }
    }
}

} // verus!

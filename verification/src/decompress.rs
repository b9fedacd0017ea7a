//! The decompression family: one operation per codec.

use vstd::prelude::*;

use crate::cancel::CancelToken;
use crate::codecs::{
    bz2_decoder, decoded, gzip_decoder, reader_model, xz_decoder, zstd_decoder, ByteReader, Codec,
};
use crate::error::{PluginError, Span};
use crate::input::{
    adapt_input, input_is_accepted, input_model, input_span, rejection_of, PipelineInput,
};
use crate::signature::{CommandCategory, CommandSignature, IoType};
use crate::stream::OutputStream;

verus! {

/// One decompression operation, selected by codec. Levels do not apply
/// to decoding.
#[derive(Clone, Copy, PartialEq, Eq, Structural, Debug)]
pub enum DecompressCommand {
    Gzip,
    Zstd,
    Xz,
    Bzip2,
}

impl DecompressCommand {
    /// The codec this operation decodes with.
    pub open spec fn codec(self) -> Codec {
        match self {
            DecompressCommand::Gzip => Codec::Gzip,
            DecompressCommand::Zstd => Codec::Zstd,
            DecompressCommand::Xz => Codec::Xz,
            DecompressCommand::Bzip2 => Codec::Bzip2,
        }
    }

    /// The decompression operation for a codec.
    pub fn for_codec(c: Codec) -> (r: DecompressCommand)
        ensures
            r.codec() == c,
    {
        match c {
            Codec::Gzip => DecompressCommand::Gzip,
            Codec::Zstd => DecompressCommand::Zstd,
            Codec::Xz => DecompressCommand::Xz,
            Codec::Bzip2 => DecompressCommand::Bzip2,
        }
    }

    pub open spec fn name_spec(self) -> Seq<char> {
        match self {
            DecompressCommand::Gzip => "from gz"@,
            DecompressCommand::Zstd => "from zst"@,
            DecompressCommand::Xz => "from xz"@,
            DecompressCommand::Bzip2 => "from bz2"@,
        }
    }

    pub fn name(&self) -> (r: &'static str)
        ensures
            r@ == self.name_spec(),
    {
        match self {
            DecompressCommand::Gzip => "from gz",
            DecompressCommand::Zstd => "from zst",
            DecompressCommand::Xz => "from xz",
            DecompressCommand::Bzip2 => "from bz2",
        }
    }

    pub open spec fn description_spec(self) -> Seq<char> {
        match self {
            DecompressCommand::Gzip => "Decompress with gzip."@,
            DecompressCommand::Zstd => "Decompress with zstd."@,
            DecompressCommand::Xz => "Decompress with xz."@,
            DecompressCommand::Bzip2 => "Decompress with bzip2."@,
        }
    }

    pub fn description(&self) -> (r: &'static str)
        ensures
            r@ == self.description_spec(),
    {
        match self {
            DecompressCommand::Gzip => "Decompress with gzip.",
            DecompressCommand::Zstd => "Decompress with zstd.",
            DecompressCommand::Xz => "Decompress with xz.",
            DecompressCommand::Bzip2 => "Decompress with bzip2.",
        }
    }

    /// What the operation declares for discovery: binary input, any
    /// output, no level flag, experimental category.
    pub fn signature(&self) -> (r: CommandSignature)
        ensures
            r.name@ == self.name_spec(),
            r.input == IoType::Binary,
            r.output == IoType::Any,
            !r.has_level_flag,
            r.category == CommandCategory::Experimental,
    {
        CommandSignature {
            name: self.name().to_owned(),
            input: IoType::Binary,
            output: IoType::Any,
            has_level_flag: false,
            category: CommandCategory::Experimental,
        }
    }

    /// Wraps a readable source with this codec's decoder and exposes it
    /// as the output stream. Construction succeeds for every codec.
    ///
    /// The stream's model is exactly what decoding the source's bytes
    /// yields: in particular, a source that is not a valid container
    /// gives a stream bound to fail, never a clean empty one.
    pub fn decompress(&self, source: ByteReader, span: Span, cancel: CancelToken) -> (r: Result<
        OutputStream,
        PluginError,
    >)
        ensures
            r is Ok,
            r matches Ok(out) ==> out.spec_span() == span,
            r matches Ok(out) ==> (reader_model(source) matches Some(b) ==> out.remaining()
                == decoded(self.codec(), b)),
    {
        let reader = match self {
            DecompressCommand::Gzip => gzip_decoder(source),
            DecompressCommand::Zstd => match zstd_decoder(source) {
                Ok(t) => t,
                Err(msg) => {
                    return Err(PluginError::CodecInit { msg, span });
                },
            },
            DecompressCommand::Xz => xz_decoder(source),
            DecompressCommand::Bzip2 => bz2_decoder(source),
        };
        Ok(OutputStream::new(reader, cancel, span))
    }

    /// One whole invocation: adapt the input and hand back the lazy
    /// stream of decoded bytes. Every rejected input is owed exactly
    /// the error of its shape; every accepted input is owed a stream
    /// whose model is what decoding the input's bytes yields.
    pub fn run(&self, input: PipelineInput, cancel: CancelToken) -> (r: Result<
        OutputStream,
        PluginError,
    >)
        ensures
            !input_is_accepted(input) ==> (r matches Err(e) && rejection_of(input, e)),
            input_is_accepted(input) ==> r is Ok,
            r matches Ok(out) ==> out.spec_span() == input_span(input),
            r matches Ok(out) ==> (input_model(input) matches Some(b) ==> out.remaining()
                == decoded(self.codec(), b)),
    {
        match adapt_input(input) {
            Ok((source, span)) => self.decompress(source, span, cancel),
            Err(e) => Err(e),
        }
    }
}

} // verus!

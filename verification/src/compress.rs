//! The compression family: one operation per codec.

use vstd::prelude::*;

use crate::cancel::CancelToken;
use crate::codecs::{
    bz2_encoder, decoded, encode_level_ok, encoded, gzip_encoder, reader_model, xz_encoder,
    zstd_encoder, ByteReader, Codec,
};
use crate::error::{PluginError, Span};
use crate::input::{
    adapt_input, input_is_accepted, input_model, input_span, level_of_flag, level_spec,
    rejection_of, FlagValue, PipelineInput,
};
use crate::signature::{CommandCategory, CommandSignature, IoType};
use crate::stream::OutputStream;

verus! {

/// One compression operation, selected by codec.
#[derive(Clone, Copy, PartialEq, Eq, Structural, Debug)]
pub enum CompressCommand {
    Gzip,
    Zstd,
    Xz,
    Bzip2,
}

impl CompressCommand {
    /// The codec this operation encodes with.
    pub open spec fn codec(self) -> Codec {
        match self {
            CompressCommand::Gzip => Codec::Gzip,
            CompressCommand::Zstd => Codec::Zstd,
            CompressCommand::Xz => Codec::Xz,
            CompressCommand::Bzip2 => Codec::Bzip2,
        }
    }

    /// The compression operation for a codec.
    pub fn for_codec(c: Codec) -> (r: CompressCommand)
        ensures
            r.codec() == c,
    {
        match c {
            Codec::Gzip => CompressCommand::Gzip,
            Codec::Zstd => CompressCommand::Zstd,
            Codec::Xz => CompressCommand::Xz,
            Codec::Bzip2 => CompressCommand::Bzip2,
        }
    }

    pub open spec fn name_spec(self) -> Seq<char> {
        match self {
            CompressCommand::Gzip => "to gz"@,
            CompressCommand::Zstd => "to zst"@,
            CompressCommand::Xz => "to xz"@,
            CompressCommand::Bzip2 => "to bz2"@,
        }
    }

    pub fn name(&self) -> (r: &'static str)
        ensures
            r@ == self.name_spec(),
    {
        match self {
            CompressCommand::Gzip => "to gz",
            CompressCommand::Zstd => "to zst",
            CompressCommand::Xz => "to xz",
            CompressCommand::Bzip2 => "to bz2",
        }
    }

    pub open spec fn description_spec(self) -> Seq<char> {
        match self {
            CompressCommand::Gzip => "Compress with gzip."@,
            CompressCommand::Zstd => "Compress with zstd."@,
            CompressCommand::Xz => "Compress with xz."@,
            CompressCommand::Bzip2 => "Compress with bzip2."@,
        }
    }

    pub fn description(&self) -> (r: &'static str)
        ensures
            r@ == self.description_spec(),
    {
        match self {
            CompressCommand::Gzip => "Compress with gzip.",
            CompressCommand::Zstd => "Compress with zstd.",
            CompressCommand::Xz => "Compress with xz.",
            CompressCommand::Bzip2 => "Compress with bzip2.",
        }
    }

    /// What the operation declares for discovery: any input, binary
    /// output, an optional integer level, experimental category.
    pub fn signature(&self) -> (r: CommandSignature)
        ensures
            r.name@ == self.name_spec(),
            r.input == IoType::Any,
            r.output == IoType::Binary,
            r.has_level_flag,
            r.category == CommandCategory::Experimental,
    {
        CommandSignature {
            name: self.name().to_owned(),
            input: IoType::Any,
            output: IoType::Binary,
            has_level_flag: true,
            category: CommandCategory::Experimental,
        }
    }

    /// Wraps a readable source with this codec's encoder at the given
    /// level and exposes it as the output stream.
    ///
    /// For any level the codec's constructor is known to accept, the
    /// stream is owed, and its bytes are pinned: the nonempty container
    /// `encoded(codec, bytes, level)` — a function of those three
    /// alone — which the same codec decodes back to the source bytes.
    /// Levels the constructor would panic on are refused here as
    /// `CodecInit`; the zstd constructor judges its own level eagerly.
    pub fn compress(&self, source: ByteReader, span: Span, cancel: CancelToken, level: i32) -> (r:
        Result<OutputStream, PluginError>)
        ensures
            encode_level_ok(self.codec(), level as int) ==> r is Ok,
            r matches Err(e) ==> (e matches PluginError::CodecInit { span: s, .. } && s == span),
            r matches Ok(out) ==> out.spec_span() == span,
            r matches Ok(out) ==> (reader_model(source) matches Some(b) ==> (out.remaining()
                == Some(encoded(self.codec(), b, level as int)) && decoded(
                self.codec(),
                encoded(self.codec(), b, level as int),
            ) == Some(b) && encoded(self.codec(), b, level as int).len() > 0)),
            r matches Ok(out) ==> (reader_model(source) is None ==> out.remaining() is None),
            self.codec() != Codec::Zstd && !encode_level_ok(self.codec(), level as int)
                ==> r is Err,
    {
        let reader = match self {
            CompressCommand::Gzip => {
                if level < 0 || level > 9 {
                    return Err(
                        PluginError::CodecInit {
                            msg: "gzip accepts compression levels 0 through 9".to_owned(),
                            span,
                        },
                    );
                }
                gzip_encoder(source, level as u32)
            },
            CompressCommand::Zstd => match zstd_encoder(source, level) {
                Ok(t) => t,
                Err(msg) => {
                    return Err(PluginError::CodecInit { msg, span });
                },
            },
            CompressCommand::Xz => {
                if level < 0 || level > 9 {
                    return Err(
                        PluginError::CodecInit {
                            msg: "xz accepts compression levels 0 through 9".to_owned(),
                            span,
                        },
                    );
                }
                xz_encoder(source, level as u32)
            },
            CompressCommand::Bzip2 => {
                if level < 1 || level > 9 {
                    return Err(
                        PluginError::CodecInit {
                            msg: "bzip2 accepts compression levels 1 through 9".to_owned(),
                            span,
                        },
                    );
                }
                bz2_encoder(source, level as u32)
            },
        };
        Ok(OutputStream::new(reader, cancel, span))
    }

    /// One whole invocation: adapt the input, read the level flag
    /// (defaulting to 3), construct the encoder, and hand back the lazy
    /// output stream. Every rejected input is owed exactly the error of
    /// its shape; every accepted input with an acceptable level is owed
    /// a stream whose bytes decode back to the input's bytes.
    pub fn run(
        &self,
        input: PipelineInput,
        level_flag: Option<FlagValue>,
        cancel: CancelToken,
    ) -> (r: Result<OutputStream, PluginError>)
        ensures
            !input_is_accepted(input) ==> (r matches Err(e) && rejection_of(input, e)),
            input_is_accepted(input) && encode_level_ok(self.codec(), level_spec(level_flag))
                ==> r is Ok,
            input_is_accepted(input) && self.codec() != Codec::Zstd && !encode_level_ok(
                self.codec(),
                level_spec(level_flag),
            ) ==> r is Err,
            input_is_accepted(input) ==> (r matches Err(e) ==> (e matches PluginError::CodecInit {
                span: s,
                ..
            } && s == input_span(input))),
            r matches Ok(out) ==> out.spec_span() == input_span(input),
            r matches Ok(out) ==> (input_model(input) matches Some(b) ==> (out.remaining()
                == Some(encoded(self.codec(), b, level_spec(level_flag))) && decoded(
                self.codec(),
                encoded(self.codec(), b, level_spec(level_flag)),
            ) == Some(b) && encoded(self.codec(), b, level_spec(level_flag)).len() > 0)),
            r matches Ok(out) ==> (input_model(input) is None ==> out.remaining() is None),
    {
        let level = level_of_flag(&level_flag);
        match adapt_input(input) {
            Ok((source, span)) => self.compress(source, span, cancel, level),
            Err(e) => Err(e),
        }
    }
}

} // verus!

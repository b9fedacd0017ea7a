//! The properties that hold across the pipeline's operations.

use vstd::prelude::*;

use crate::cancel::CancelToken;
use crate::codecs::{encode_level_ok, encoded, Codec};
use crate::compress::CompressCommand;
use crate::decompress::DecompressCommand;
use crate::error::{PluginError, Span};
use crate::input::{level_spec, FlagValue, InputValue, PipelineInput};
use crate::stream::OutputStream;

verus! {

/// Round-trip law: for every codec, every byte sequence, and every
/// level flag selecting a level the codec's encoder accepts, running
/// the encode operation and then the decode operation on its output
/// restores the bytes exactly. Only an observed cancellation can keep
/// the result from being produced, and it never yields wrong bytes.
pub fn round_trip(codec: Codec, data: Vec<u8>, level_flag: Option<FlagValue>) -> (r: Result<
    Vec<u8>,
    PluginError,
>)
    requires
        encode_level_ok(codec, level_spec(level_flag)),
    ensures
        r matches Ok(v) ==> v@ == data@,
        r matches Err(e) ==> e matches PluginError::Interrupted { .. },
{
    let span = Span::new(0, 0);
    let cancel = CancelToken::new();
    let encoder = CompressCommand::for_codec(codec);
    let input = PipelineInput::Value(InputValue::Binary { data, span });
    let stream = match encoder.run(input, level_flag, cancel.share()) {
        Ok(s) => s,
        Err(e) => {
            return Err(e);
        },
    };
    let container = match stream.drain() {
        Ok(v) => v,
        Err(e) => {
            return Err(e);
        },
    };
    let decoder = DecompressCommand::for_codec(codec);
    let input = PipelineInput::Value(InputValue::Binary { data: container, span });
    let restored = match decoder.run(input, cancel) {
        Ok(s) => s,
        Err(e) => {
            return Err(e);
        },
    };
    restored.drain()
}

/// Determinism law: the container an encode stream delivers is a
/// function of the codec, the source bytes and the selected level
/// alone — `compress` and `run` pin each stream's remaining bytes to
/// `encoded(codec, bytes, level)`, so two invocations on equal inputs
/// at equal levels are owed streams holding the same bytes in the same
/// order.
pub proof fn lemma_encode_deterministic(
    c: Codec,
    data: Seq<u8>,
    level: int,
    s1: OutputStream,
    s2: OutputStream,
)
    requires
        s1.remaining() == Some(encoded(c, data, level)),
        s2.remaining() == Some(encoded(c, data, level)),
    ensures
        s1.remaining() == s2.remaining(),
{
}

/// Level-default law: invoking an encode operation without a level
/// flag selects the same level as an explicit level of 3, and so does
/// a flag of the wrong shape; every pipeline contract depends on the
/// flag only through [`level_spec`].
pub proof fn lemma_level_default()
    ensures
        level_spec(None) == 3,
        level_spec(Some(FlagValue::Int(3))) == level_spec(None),
        level_spec(Some(FlagValue::Other)) == level_spec(None),
{
}

/// Level-default law at the byte level: for every codec and input, an
/// invocation without a level flag — or with one of the wrong shape —
/// is owed the very same container bytes as one with an explicit
/// level of 3.
pub proof fn lemma_level_default_same_container(c: Codec, data: Seq<u8>)
    ensures
        encoded(c, data, level_spec(None)) == encoded(
            c,
            data,
            level_spec(Some(FlagValue::Int(3))),
        ),
        encoded(c, data, level_spec(None)) == encoded(c, data, level_spec(Some(FlagValue::Other))),
{
}

} // verus!

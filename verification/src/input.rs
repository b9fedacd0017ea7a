//! The input adapter: normalizing caller-supplied input into one
//! readable byte source, and reading the optional compression level.

use vstd::prelude::*;

use crate::codecs::{reader_model, ByteReader};
use crate::error::{PluginError, Span};

verus! {

/// A materialized value handed in by the host, reduced to what the
/// adapter inspects: a binary buffer, a string (coerced to its UTF-8
/// bytes), or any other shape, kept only as its type name for the
/// diagnostic.
pub enum InputValue {
    Binary { data: Vec<u8>, span: Span },
    Text { text: String, span: Span },
    Other { ty: String, span: Span },
}

/// One invocation's input as the host hands it over: a materialized
/// value, an already-open byte stream (whose readable handle may be
/// missing when the stream was drained or empty), or another pipeline
/// shape altogether, kept as its type name.
pub enum PipelineInput {
    Value(InputValue),
    Stream { reader: Option<ByteReader>, span: Span },
    Other { ty: String, span: Span },
}

/// An evaluated flag argument: an integer, or a value of some other
/// shape (which the level logic treats as absent).
pub enum FlagValue {
    Int(i64),
    Other,
}

/// Whether the adapter accepts this input at all.
pub open spec fn input_is_accepted(input: PipelineInput) -> bool {
    match input {
        PipelineInput::Value(InputValue::Other { .. }) => false,
        PipelineInput::Stream { reader: None, .. } => false,
        PipelineInput::Other { .. } => false,
        _ => true,
    }
}

/// For an accepted input, the model of the byte source it becomes: the
/// bytes of a binary value, the UTF-8 bytes of a string, or whatever
/// the live stream's handle will deliver.
pub open spec fn input_model(input: PipelineInput) -> Option<Seq<u8>> {
    match input {
        PipelineInput::Value(InputValue::Binary { data, .. }) => Some(data@),
        PipelineInput::Value(InputValue::Text { text, .. }) => Some(
            vstd::utf8::encode_utf8(text@),
        ),
        PipelineInput::Stream { reader: Some(src), .. } => reader_model(src),
        _ => None,
    }
}

/// The span the input attributes work and errors to.
pub open spec fn input_span(input: PipelineInput) -> Span {
    match input {
        PipelineInput::Value(InputValue::Binary { span, .. }) => span,
        PipelineInput::Value(InputValue::Text { span, .. }) => span,
        PipelineInput::Value(InputValue::Other { span, .. }) => span,
        PipelineInput::Stream { span, .. } => span,
        PipelineInput::Other { span, .. } => span,
    }
}

/// The error owed to a rejected input: a value of the wrong type, a
/// stream with no readable handle, or an unsupported pipeline shape.
pub open spec fn rejection_of(input: PipelineInput, e: PluginError) -> bool {
    match input {
        PipelineInput::Value(InputValue::Other { ty, span }) => e matches PluginError::InputType {
            ty: t,
            span: s,
        } && t@ == ty@ && s == span,
        PipelineInput::Stream { reader: None, span } => e matches PluginError::EmptyInput {
            span: s,
        } && s == span,
        PipelineInput::Other { ty, span } => e matches PluginError::UnsupportedInput {
            ty: t,
            span: s,
        } && t@ == ty@ && s == span,
        _ => false,
    }
}

/// Normalizes the caller's input into one readable byte source, or the
/// error the input shape is owed. Performs no further work: a buffer is
/// wrapped in place, a live handle is reused directly.
pub fn adapt_input(input: PipelineInput) -> (r: Result<(ByteReader, Span), PluginError>)
    ensures
        input_is_accepted(input) ==> (r matches Ok(p) && reader_model(p.0) == input_model(
            input,
        ) && p.1 == input_span(input)),
        !input_is_accepted(input) ==> (r matches Err(e) && rejection_of(input, e)),
{
    match input {
        PipelineInput::Value(InputValue::Binary { data, span }) => {
            Ok((ByteReader::from_vec(data), span))
        },
        PipelineInput::Value(InputValue::Text { text, span }) => {
            let bytes = text_bytes(&text);
            Ok((ByteReader::from_vec(bytes), span))
        },
        PipelineInput::Value(InputValue::Other { ty, span }) => {
            Err(PluginError::InputType { ty, span })
        },
        PipelineInput::Stream { reader: Some(src), span } => Ok((src, span)),
        PipelineInput::Stream { reader: None, span } => Err(PluginError::EmptyInput { span }),
        PipelineInput::Other { ty, span } => Err(PluginError::UnsupportedInput { ty, span }),
    }
}

/// The UTF-8 bytes of a string.
fn text_bytes(text: &String) -> (r: Vec<u8>)
    ensures
        r@ == vstd::utf8::encode_utf8(text@),
{
    vstd::slice::slice_to_vec(text.as_str().as_bytes())
}

/// The compression level an evaluated flag selects: the integer it
/// carries when that fits a machine level, and the default of 3 when
/// the flag is absent, of another shape, or out of range.
pub open spec fn level_spec(flag: Option<FlagValue>) -> int {
    match flag {
        Some(FlagValue::Int(v)) => if i32::MIN <= v <= i32::MAX {
            v as int
        } else {
            3
        },
        Some(FlagValue::Other) => 3,
        None => 3,
    }
}

/// Reads the level out of the optional flag, defaulting to 3.
pub fn level_of_flag(flag: &Option<FlagValue>) -> (r: i32)
    ensures
        r as int == level_spec(*flag),
{
    match flag {
        Some(FlagValue::Int(v)) => {
            let v = *v;
            if i32::MIN as i64 <= v && v <= i32::MAX as i64 {
                v as i32
            } else {
                3
            }
        },
        Some(FlagValue::Other) => 3,
        None => 3,
    }
}

} // verus!

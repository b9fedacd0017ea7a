//! Spans and the error taxonomy of the compression pipeline.

use vstd::prelude::*;

verus! {

/// A source-location tag: errors carry one so the host can attribute them
/// to the call or input that caused them.
#[derive(Clone, Copy, PartialEq, Eq, Structural, Debug)]
pub struct Span {
    pub start: usize,
    pub end: usize,
}

impl Span {
    pub fn new(start: usize, end: usize) -> (r: Span)
        ensures
            r.start == start,
            r.end == end,
    {
        Span { start, end }
    }
}

/// Every failure of the pipeline, as a returned value: no operation panics.
///
/// - `InputType`: a materialized value could not be coerced to a binary
///   buffer; carries the name of the offending type.
/// - `EmptyInput`: a stream input reported no readable handle.
/// - `UnsupportedInput`: the input shape is not accepted at all (for
///   example a structured table); carries the name of the offending type.
/// - `CodecInit`: a transform constructor failed eagerly; carries the
///   underlying cause text.
/// - `CodecRuntime`: a pull on the output stream failed (corrupt or
///   truncated data, or an I/O failure on the source); carries the cause.
/// - `Interrupted`: the cancellation signal was observed at a pull
///   boundary and the stream was terminated early.
#[derive(Debug)]
pub enum PluginError {
    InputType { ty: String, span: Span },
    EmptyInput { span: Span },
    UnsupportedInput { ty: String, span: Span },
    CodecInit { msg: String, span: Span },
    CodecRuntime { msg: String, span: Span },
    Interrupted { span: Span },
}

impl PluginError {
    /// The span the error is attributed to.
    pub open spec fn spec_span(&self) -> Span {
        match *self {
            PluginError::InputType { span, .. } => span,
            PluginError::EmptyInput { span } => span,
            PluginError::UnsupportedInput { span, .. } => span,
            PluginError::CodecInit { span, .. } => span,
            PluginError::CodecRuntime { span, .. } => span,
            PluginError::Interrupted { span } => span,
        }
    }

    pub fn span(&self) -> (r: Span)
        ensures
            r == self.spec_span(),
    {
        match *self {
            PluginError::InputType { span, .. } => span,
            PluginError::EmptyInput { span } => span,
            PluginError::UnsupportedInput { span, .. } => span,
            PluginError::CodecInit { span, .. } => span,
            PluginError::CodecRuntime { span, .. } => span,
            PluginError::Interrupted { span } => span,
        }
    }

    /// A short fixed label for the error category, for user-facing
    /// diagnostics assembled by the host.
    pub fn label(&self) -> (r: &'static str)
        ensures
            r@ == self.spec_label(),
    {
        match *self {
            PluginError::InputType { .. } => "input cannot be coerced to binary",
            PluginError::EmptyInput { .. } => "empty input",
            PluginError::UnsupportedInput { .. } => "unsupported input shape",
            PluginError::CodecInit { .. } => "codec construction failed",
            PluginError::CodecRuntime { .. } => "codec error while producing bytes",
            PluginError::Interrupted { .. } => "operation interrupted",
        }
    }

    pub open spec fn spec_label(&self) -> Seq<char> {
        match *self {
            PluginError::InputType { .. } => "input cannot be coerced to binary"@,
            PluginError::EmptyInput { .. } => "empty input"@,
            PluginError::UnsupportedInput { .. } => "unsupported input shape"@,
            PluginError::CodecInit { .. } => "codec construction failed"@,
            PluginError::CodecRuntime { .. } => "codec error while producing bytes"@,
            PluginError::Interrupted { .. } => "operation interrupted"@,
        }
    }
}

} // verus!

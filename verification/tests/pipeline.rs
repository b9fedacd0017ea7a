use nu_plugin_compress::cancel::CancelToken;
use nu_plugin_compress::codecs::Codec;
use nu_plugin_compress::compress::CompressCommand;
use nu_plugin_compress::decompress::DecompressCommand;
use nu_plugin_compress::error::{PluginError, Span};
use nu_plugin_compress::input::{FlagValue, InputValue, PipelineInput};
use nu_plugin_compress::laws::round_trip;
use nu_plugin_compress::stream::OutputStream;

fn span() -> Span {
    Span::new(0, 0)
}

fn binary_input(data: Vec<u8>) -> PipelineInput {
    PipelineInput::Value(InputValue::Binary { data, span: span() })
}

fn text_input(text: &str) -> PipelineInput {
    PipelineInput::Value(InputValue::Text { text: text.to_string(), span: span() })
}

fn drain_all(stream: OutputStream) -> Result<Vec<u8>, PluginError> {
    let mut stream = stream;
    let mut acc = Vec::new();
    loop {
        match stream.next_chunk() {
            Ok(Some(chunk)) => acc.extend_from_slice(&chunk),
            Ok(None) => return Ok(acc),
            Err(e) => return Err(e),
        }
    }
}

fn encode(codec: Codec, data: &[u8], level: Option<i64>) -> Result<Vec<u8>, PluginError> {
    let cmd = CompressCommand::for_codec(codec);
    let flag = level.map(FlagValue::Int);
    let stream = cmd.run(binary_input(data.to_vec()), flag, CancelToken::new())?;
    drain_all(stream)
}

fn decode(codec: Codec, data: &[u8]) -> Result<Vec<u8>, PluginError> {
    let cmd = DecompressCommand::for_codec(codec);
    let stream = cmd.run(binary_input(data.to_vec()), CancelToken::new())?;
    drain_all(stream)
}

const CODECS: [Codec; 4] = [Codec::Gzip, Codec::Zstd, Codec::Xz, Codec::Bzip2];

#[test]
fn round_trip_all_codecs() {
    let data: Vec<u8> = (0..10_000u32).map(|i| (i % 251) as u8).collect();
    for codec in CODECS {
        let container = encode(codec, &data, Some(3)).unwrap();
        assert_ne!(container, data);
        let restored = decode(codec, &container).unwrap();
        assert_eq!(restored, data, "round trip failed for {codec:?}");
    }
}

#[test]
fn round_trip_function_all_codecs() {
    let data: Vec<u8> = b"the quick brown fox jumps over the lazy dog".to_vec();
    for codec in CODECS {
        let restored = round_trip(codec, data.clone(), Some(FlagValue::Int(1))).unwrap();
        assert_eq!(restored, data);
        let restored = round_trip(codec, data.clone(), Some(FlagValue::Int(9))).unwrap();
        assert_eq!(restored, data);
        let restored = round_trip(codec, data.clone(), None).unwrap();
        assert_eq!(restored, data);
    }
}

#[test]
fn encoding_is_deterministic_across_invocations() {
    let data: Vec<u8> = (0..30_000u32).map(|i| (i * 11 % 256) as u8).collect();
    for codec in CODECS {
        let first = encode(codec, &data, Some(5)).unwrap();
        let second = encode(codec, &data, Some(5)).unwrap();
        assert_eq!(first, second, "encoder output differs across calls for {codec:?}");
    }
}

#[test]
fn gzip_hello_world_level_6() {
    let container = encode(Codec::Gzip, b"hello world", Some(6)).unwrap();
    let restored = decode(Codec::Gzip, &container).unwrap();
    assert_eq!(restored, b"hello world");
    assert_eq!(restored.len(), 11);
}

#[test]
fn string_input_is_coerced_to_utf8_bytes() {
    let cmd = CompressCommand::for_codec(Codec::Gzip);
    let stream = cmd.run(text_input("hello world"), None, CancelToken::new()).unwrap();
    let container = drain_all(stream).unwrap();
    let restored = decode(Codec::Gzip, &container).unwrap();
    assert_eq!(restored, b"hello world");
}

#[test]
fn absent_level_behaves_like_level_3() {
    let data: Vec<u8> = (0..50_000u32).map(|i| (i * 7 % 256) as u8).collect();
    for codec in CODECS {
        let defaulted = encode(codec, &data, None).unwrap();
        let explicit = encode(codec, &data, Some(3)).unwrap();
        assert_eq!(defaulted, explicit, "level default differs for {codec:?}");
    }
}

#[test]
fn wrong_shaped_level_behaves_like_level_3() {
    let data = b"abcabcabc".to_vec();
    for codec in CODECS {
        let cmd = CompressCommand::for_codec(codec);
        let stream = cmd
            .run(binary_input(data.clone()), Some(FlagValue::Other), CancelToken::new())
            .unwrap();
        let odd = drain_all(stream).unwrap();
        let explicit = encode(codec, &data, Some(3)).unwrap();
        assert_eq!(odd, explicit);
    }
}

#[test]
fn empty_input_yields_empty_payload_container() {
    for codec in CODECS {
        let container = encode(codec, b"", Some(3))
            .unwrap_or_else(|e| panic!("empty encode failed for {codec:?}: {e:?}"));
        assert!(!container.is_empty(), "empty payload container is empty for {codec:?}");
        let restored = decode(codec, &container).unwrap();
        assert_eq!(restored, b"", "empty round trip failed for {codec:?}");
    }
}

#[test]
fn corrupt_input_yields_codec_runtime_error() {
    // Not a valid container for any of the codecs.
    let garbage: Vec<u8> = (0..256u32).map(|i| (i * 37 % 256) as u8).collect();
    for codec in CODECS {
        let cmd = DecompressCommand::for_codec(codec);
        let mut stream = cmd.run(binary_input(garbage.clone()), CancelToken::new()).unwrap();
        let mut saw_error = false;
        loop {
            match stream.next_chunk() {
                Ok(Some(_)) => continue,
                Ok(None) => break,
                Err(e) => {
                    assert!(
                        matches!(e, PluginError::CodecRuntime { .. }),
                        "unexpected error for {codec:?}: {e:?}"
                    );
                    saw_error = true;
                    break;
                }
            }
        }
        assert!(saw_error, "corrupt input decoded silently for {codec:?}");
    }
}

#[test]
fn truncated_container_is_an_error_not_partial_success() {
    let data: Vec<u8> = (0..100_000u32).map(|i| (i % 256) as u8).collect();
    let container = encode(Codec::Gzip, &data, Some(6)).unwrap();
    let truncated = container[..container.len() / 2].to_vec();
    match decode(Codec::Gzip, &truncated) {
        Err(PluginError::CodecRuntime { .. }) => {}
        other => panic!("expected a codec runtime error, got {other:?}"),
    }
}

#[test]
fn streaming_pulls_are_chunk_bounded() {
    // A large repeating pattern: every pull must stay within the fixed
    // chunk bound, so no pull materializes the whole payload.
    let data: Vec<u8> = std::iter::repeat(b"0123456789abcdef".as_slice())
        .take(650_000)
        .flatten()
        .copied()
        .collect();
    assert!(data.len() > 10_000_000);
    let cmd = CompressCommand::for_codec(Codec::Gzip);
    let mut stream = cmd
        .run(binary_input(data.clone()), Some(FlagValue::Int(1)), CancelToken::new())
        .unwrap();
    let mut container = Vec::new();
    loop {
        match stream.next_chunk() {
            Ok(Some(chunk)) => {
                assert!(!chunk.is_empty());
                assert!(chunk.len() <= 8192);
                container.extend_from_slice(&chunk);
            }
            Ok(None) => break,
            Err(e) => panic!("unexpected error: {e:?}"),
        }
    }
    let dcmd = DecompressCommand::for_codec(Codec::Gzip);
    let mut stream = dcmd.run(binary_input(container), CancelToken::new()).unwrap();
    let mut total = 0usize;
    loop {
        match stream.next_chunk() {
            Ok(Some(chunk)) => {
                assert!(!chunk.is_empty());
                assert!(chunk.len() <= 8192);
                total += chunk.len();
            }
            Ok(None) => break,
            Err(e) => panic!("unexpected error: {e:?}"),
        }
    }
    assert_eq!(total, data.len());
}

#[test]
fn structured_input_is_rejected_with_input_type_error() {
    for codec in CODECS {
        let cmd = CompressCommand::for_codec(codec);
        let input = PipelineInput::Value(InputValue::Other {
            ty: "record".to_string(),
            span: span(),
        });
        match cmd.run(input, None, CancelToken::new()) {
            Err(PluginError::InputType { ty, .. }) => assert_eq!(ty, "record"),
            Err(e) => panic!("expected an input type error, got {e:?}"),
            Ok(_) => panic!("expected an input type error, got a stream"),
        }
    }
}

#[test]
fn unsupported_pipeline_shape_is_rejected() {
    let cmd = CompressCommand::for_codec(Codec::Gzip);
    let input = PipelineInput::Other { ty: "list stream".to_string(), span: span() };
    match cmd.run(input, None, CancelToken::new()) {
        Err(PluginError::UnsupportedInput { ty, .. }) => assert_eq!(ty, "list stream"),
        Err(e) => panic!("expected an unsupported input error, got {e:?}"),
        Ok(_) => panic!("expected an unsupported input error, got a stream"),
    }
    let dcmd = DecompressCommand::for_codec(Codec::Gzip);
    let input = PipelineInput::Other { ty: "list stream".to_string(), span: span() };
    match dcmd.run(input, CancelToken::new()) {
        Err(PluginError::UnsupportedInput { ty, .. }) => assert_eq!(ty, "list stream"),
        Err(e) => panic!("expected an unsupported input error, got {e:?}"),
        Ok(_) => panic!("expected an unsupported input error, got a stream"),
    }
}

#[test]
fn stream_without_readable_handle_is_empty_input_error() {
    let cmd = CompressCommand::for_codec(Codec::Zstd);
    let input = PipelineInput::Stream { reader: None, span: Span::new(3, 9) };
    match cmd.run(input, None, CancelToken::new()) {
        Err(PluginError::EmptyInput { span }) => {
            assert_eq!(span, Span::new(3, 9));
        }
        Err(e) => panic!("expected an empty input error, got {e:?}"),
        Ok(_) => panic!("expected an empty input error, got a stream"),
    }
}

#[test]
fn out_of_range_levels_fail_at_construction() {
    match encode(Codec::Gzip, b"x", Some(100)) {
        Err(PluginError::CodecInit { .. }) => {}
        other => panic!("expected a codec init error, got {other:?}"),
    }
    match encode(Codec::Gzip, b"x", Some(-1)) {
        Err(PluginError::CodecInit { .. }) => {}
        other => panic!("expected a codec init error, got {other:?}"),
    }
    match encode(Codec::Xz, b"x", Some(10)) {
        Err(PluginError::CodecInit { .. }) => {}
        other => panic!("expected a codec init error, got {other:?}"),
    }
    match encode(Codec::Bzip2, b"x", Some(0)) {
        Err(PluginError::CodecInit { .. }) => {}
        other => panic!("expected a codec init error, got {other:?}"),
    }
    // zstd clamps an out-of-range level instead of rejecting it: the
    // container is still produced and still round-trips.
    let container = encode(Codec::Zstd, b"x", Some(1000)).unwrap();
    assert_eq!(decode(Codec::Zstd, &container).unwrap(), b"x");
}

#[test]
fn cancellation_is_observed_at_the_next_pull() {
    let cmd = CompressCommand::for_codec(Codec::Gzip);
    let token = CancelToken::new();
    let mut stream = cmd
        .run(binary_input(vec![7u8; 100_000]), None, token.share())
        .unwrap();
    token.raise();
    match stream.next_chunk() {
        Err(PluginError::Interrupted { .. }) => {}
        other => panic!("expected an interruption, got {other:?}"),
    }
    // A terminated stream stays terminated.
    assert!(matches!(stream.next_chunk(), Ok(None)));
}

#[test]
fn open_stream_input_is_reused_directly() {
    let data: Vec<u8> = (0..40_000u32).map(|i| (i / 3 % 256) as u8).collect();
    let source = nu_plugin_compress::codecs::ByteReader::from_read(std::io::Cursor::new(
        data.clone(),
    ));
    let cmd = CompressCommand::for_codec(Codec::Xz);
    let input = PipelineInput::Stream { reader: Some(source), span: span() };
    let stream = cmd.run(input, None, CancelToken::new()).unwrap();
    let container = drain_all(stream).unwrap();

    let back = nu_plugin_compress::codecs::ByteReader::from_read(std::io::Cursor::new(container));
    let dcmd = DecompressCommand::for_codec(Codec::Xz);
    let input = PipelineInput::Stream { reader: Some(back), span: span() };
    let stream = dcmd.run(input, CancelToken::new()).unwrap();
    assert_eq!(drain_all(stream).unwrap(), data);
}

/// A handle that misuses the `Read` protocol: it reports end-of-input
/// once and then hands over more data.
struct ResumingReader {
    phase: usize,
}

impl std::io::Read for ResumingReader {
    fn read(&mut self, buf: &mut [u8]) -> std::io::Result<usize> {
        self.phase += 1;
        match self.phase {
            1 => {
                buf[..5].copy_from_slice(b"early");
                Ok(5)
            }
            2 => Ok(0),
            _ => {
                buf[..4].copy_from_slice(b"late");
                Ok(4)
            }
        }
    }
}

#[test]
fn host_stream_end_of_input_is_final() {
    // The wrapped handle's first end-of-input must be final: the bytes
    // it would produce afterwards never reach the codec, and the pull
    // pipeline neither panics nor resumes.
    let source = nu_plugin_compress::codecs::ByteReader::from_read(ResumingReader { phase: 0 });
    let cmd = CompressCommand::for_codec(Codec::Xz);
    let input = PipelineInput::Stream { reader: Some(source), span: span() };
    let stream = cmd.run(input, None, CancelToken::new()).unwrap();
    let container = drain_all(stream).unwrap();
    assert_eq!(decode(Codec::Xz, &container).unwrap(), b"early");
}

//! The trusted boundary around the codec libraries.
//!
//! A [`ByteReader`] is one pull-based source of bytes: either an in-memory
//! buffer, a live stream handle supplied by the host, or a codec transform
//! wrapped around another reader. Its ghost model, [`reader_model`], is the
//! sequence of bytes a full drain of the reader would deliver, or `None`
//! when draining it would eventually fail. Every claim below is conditioned
//! on that model.
//!
//! With a fixed codec, decoding a byte sequence — and, at a fixed
//! level, encoding one — is a deterministic function of the bytes
//! alone, so each direction of each codec is given a name
//! (`gzip_decoded`, `gzip_encoded` and their peers). The encoders'
//! substantive contract is that the container they produce is restored
//! to the source bytes by the matching decoder — exactly the
//! lossless-ness the codec libraries document.

use vstd::prelude::*;

verus! {

/// One compression format, selecting both the encode and decode transform.
#[derive(Clone, Copy, PartialEq, Eq, Structural, Debug)]
pub enum Codec {
    Gzip,
    Zstd,
    Xz,
    Bzip2,
}

/// The I/O error type of std, declared so that `std::io::Result` may
/// stand in signatures here; it is carried through opaquely.
#[verifier::external_type_specification]
#[verifier::external_body]
pub struct ExIoError(std::io::Error);

/// A raw byte source whose end-of-input is made final: after the first
/// read that reports exhaustion, every further read reports exhaustion
/// too, and the wrapped handle is not consulted again.
#[verifier::external_body]
struct LatchedRead {
    inner: std::boxed::Box<dyn std::io::Read + Send + 'static>,
    exhausted: bool,
}

impl std::io::Read for LatchedRead {
    #[verifier::external_body]
    fn read(&mut self, buf: &mut [u8]) -> std::io::Result<usize> {
        if self.exhausted {
            return Ok(0);
        }
        let n = self.inner.read(buf)?;
        if n == 0 {
            self.exhausted = true;
        }
        Ok(n)
    }
}

/// A pull-based source of bytes, opaque to verification: an in-memory
/// buffer, a host-supplied stream handle, or a codec transform over
/// another reader.
#[verifier::external_body]
pub struct ByteReader {
    inner: std::boxed::Box<dyn std::io::Read + Send + 'static>,
}

/// The bytes a full drain of this reader would deliver, or `None` when
/// draining it would eventually fail with an error.
pub uninterp spec fn reader_model(r: ByteReader) -> Option<Seq<u8>>;

/// What decoding a byte sequence as a gzip container yields: the decoded
/// bytes, or `None` when the sequence is not a container the decoder
/// accepts in full.
pub uninterp spec fn gzip_decoded(data: Seq<u8>) -> Option<Seq<u8>>;

/// What decoding a byte sequence as a Zstandard frame yields.
pub uninterp spec fn zstd_decoded(data: Seq<u8>) -> Option<Seq<u8>>;

/// What decoding a byte sequence as an xz container yields.
pub uninterp spec fn xz_decoded(data: Seq<u8>) -> Option<Seq<u8>>;

/// What decoding a byte sequence as a bzip2 stream yields.
pub uninterp spec fn bz2_decoded(data: Seq<u8>) -> Option<Seq<u8>>;

/// The gzip member flate2's encoder emits for a byte sequence at a
/// level: a deterministic function of the two alone (the default
/// header is fixed — zero timestamp, unknown operating system).
pub uninterp spec fn gzip_encoded(data: Seq<u8>, level: int) -> Seq<u8>;

/// The Zstandard frame zstd's encoder emits for a byte sequence at a
/// level (out-of-range levels are clamped by the library, so the
/// function is total in the level).
pub uninterp spec fn zstd_encoded(data: Seq<u8>, level: int) -> Seq<u8>;

/// The xz container liblzma's encoder emits for a byte sequence at a
/// preset.
pub uninterp spec fn xz_encoded(data: Seq<u8>, level: int) -> Seq<u8>;

/// The bzip2 stream libbz2's encoder emits for a byte sequence at a
/// level.
pub uninterp spec fn bz2_encoded(data: Seq<u8>, level: int) -> Seq<u8>;

/// Decode dispatch over the codec variant.
pub open spec fn decoded(c: Codec, data: Seq<u8>) -> Option<Seq<u8>> {
    match c {
        Codec::Gzip => gzip_decoded(data),
        Codec::Zstd => zstd_decoded(data),
        Codec::Xz => xz_decoded(data),
        Codec::Bzip2 => bz2_decoded(data),
    }
}

/// Encode dispatch over the codec variant.
pub open spec fn encoded(c: Codec, data: Seq<u8>, level: int) -> Seq<u8> {
    match c {
        Codec::Gzip => gzip_encoded(data, level),
        Codec::Zstd => zstd_encoded(data, level),
        Codec::Xz => xz_encoded(data, level),
        Codec::Bzip2 => bz2_encoded(data, level),
    }
}

/// The levels at which constructing the codec's encoder is sure to
/// succeed. zstd accepts its documented range, negative "fast" levels
/// included, and clamps the rest; the gzip, xz and bzip2 constructors
/// are not reliable outside their documented ranges, so the pipeline
/// refuses such levels itself.
pub open spec fn encode_level_ok(c: Codec, level: int) -> bool {
    match c {
        Codec::Gzip => 0 <= level <= 9,
        Codec::Zstd => -131072 <= level <= 22,
        Codec::Xz => 0 <= level <= 9,
        Codec::Bzip2 => 1 <= level <= 9,
    }
}

impl ByteReader {
    /// Wraps a materialized buffer as a finite in-memory reader.
    ///
    /// Relies on `std::io::Cursor`: reading it to the end yields exactly
    /// the wrapped bytes.
    #[verifier::external_body]
    pub fn from_vec(data: Vec<u8>) -> (r: ByteReader)
        ensures
            reader_model(r) == Some(data@),
    {
        ByteReader { inner: std::boxed::Box::new(std::io::Cursor::new(data)) }
    }

    /// Wraps an already-open byte source supplied by the host, with its
    /// end-of-input made final: std allows a raw reader to report zero
    /// bytes and later produce more, so the handle is latched before
    /// anything here — a drain or a codec transform — consumes it.
    /// Nothing is known of what it will deliver, so nothing is claimed
    /// of the model.
    #[verifier::external_body]
    pub fn from_read<R: std::io::Read + Send + 'static>(source: R) -> ByteReader {
        ByteReader {
            inner: std::boxed::Box::new(
                LatchedRead { inner: std::boxed::Box::new(source), exhausted: false },
            ),
        }
    }

    /// Pulls at most `max` bytes from the reader.
    ///
    /// Relies on `std::io::Read::read`: the buffer's filled prefix is
    /// returned, and a return of zero bytes means the reader is
    /// exhausted. Every reader held here makes exhaustion final —
    /// cursors and the codec transforms latch their own end, and a raw
    /// host handle is wrapped in the latch at construction — so a read
    /// delivers at least one byte whenever a full drain would still
    /// deliver one, and a successful read leaves a doomed drain
    /// doomed. Nothing is claimed of the state after an error: some
    /// decoders answer later reads with a clean zero.
    #[verifier::external_body]
    pub fn read_chunk(&mut self, max: usize) -> (r: Result<Vec<u8>, String>)
        requires
            max >= 1,
        ensures
            r matches Ok(c) ==> c@.len() <= max,
            reader_model(*old(self)) matches Some(s) ==> {
                &&& r matches Ok(c)
                &&& c@.len() <= s.len()
                &&& c@ == s.take(c@.len() as int)
                &&& reader_model(*final(self)) == Some(s.skip(c@.len() as int))
                &&& (c@.len() == 0 ==> s.len() == 0)
            },
            reader_model(*old(self)) is None ==> (r matches Ok(c) ==> (c@.len() > 0
                && reader_model(*final(self)) is None)),
    {
        let mut buf = vec![0u8; max];
        match self.inner.read(&mut buf) {
            Ok(n) => {
                buf.truncate(n);
                Ok(buf)
            }
            Err(e) => Err(e.to_string()),
        }
    }
}

/// Relies on `flate2::read::GzEncoder`: for levels 0 through 9 (the
/// documented scale) it emits one nonempty gzip member, a function of
/// the source bytes and the level, whose decoding by
/// `flate2::read::GzDecoder` restores the source bytes; and it
/// propagates a failure of the source (the member is complete only
/// once the source is read to its end). Levels outside the scale are
/// excluded here: the backend does not accept them reliably.
#[verifier::external_body]
pub fn gzip_encoder(source: ByteReader, level: u32) -> (r: ByteReader)
    requires
        level <= 9,
    ensures
        reader_model(source) matches Some(b) ==> reader_model(r) == Some(
            gzip_encoded(b, level as int),
        ) && gzip_decoded(reader_model(r)->0) == Some(b) && reader_model(r)->0.len() > 0,
        reader_model(source) is None ==> reader_model(r) is None,
{
    let buffered = std::io::BufReader::new(source.inner);
    let encoder = flate2::read::GzEncoder::new(buffered, flate2::Compression::new(level));
    ByteReader { inner: std::boxed::Box::new(encoder) }
}

/// Relies on `zstd::stream::read::Encoder`: construction succeeds for the
/// level range the zstd library documents, and the emitted frame is
/// restored to the source bytes by `zstd::stream::read::Decoder`.
#[verifier::external_body]
pub fn zstd_encoder(source: ByteReader, level: i32) -> (r: Result<ByteReader, String>)
    ensures
        -131072 <= level <= 22 ==> r is Ok,
        r matches Ok(t) ==> {
            &&& (reader_model(source) matches Some(b) ==> {
                &&& reader_model(t) == Some(zstd_encoded(b, level as int))
                &&& zstd_decoded(zstd_encoded(b, level as int)) == Some(b)
                &&& zstd_encoded(b, level as int).len() > 0
            })
            &&& (reader_model(source) is None ==> reader_model(t) is None)
        },
{
    let buffered = std::io::BufReader::new(source.inner);
    match zstd::stream::read::Encoder::new(buffered, level) {
        Ok(encoder) => Ok(ByteReader { inner: std::boxed::Box::new(encoder) }),
        Err(e) => Err(e.to_string()),
    }
}

/// Relies on `xz2::bufread::XzEncoder`: for presets up to 9 construction
/// succeeds, and the emitted container is restored to the source bytes
/// by `xz2::bufread::XzDecoder`. Presets above 9 make the constructor
/// panic, so they are excluded here.
#[verifier::external_body]
pub fn xz_encoder(source: ByteReader, level: u32) -> (r: ByteReader)
    requires
        level <= 9,
    ensures
        reader_model(source) matches Some(b) ==> reader_model(r) == Some(
            xz_encoded(b, level as int),
        ) && xz_decoded(reader_model(r)->0) == Some(b) && reader_model(r)->0.len() > 0,
        reader_model(source) is None ==> reader_model(r) is None,
{
    let buffered = std::io::BufReader::new(source.inner);
    let encoder = xz2::bufread::XzEncoder::new(buffered, level);
    ByteReader { inner: std::boxed::Box::new(encoder) }
}

/// Relies on `bzip2::bufread::BzEncoder`: for levels 1 through 9
/// construction succeeds, and the emitted stream is restored to the
/// source bytes by `bzip2::bufread::BzDecoder`. Other levels make the
/// level constructor panic, so they are excluded here.
#[verifier::external_body]
pub fn bz2_encoder(source: ByteReader, level: u32) -> (r: ByteReader)
    requires
        1 <= level <= 9,
    ensures
        reader_model(source) matches Some(b) ==> reader_model(r) == Some(
            bz2_encoded(b, level as int),
        ) && bz2_decoded(reader_model(r)->0) == Some(b) && reader_model(r)->0.len() > 0,
        reader_model(source) is None ==> reader_model(r) is None,
{
    let buffered = std::io::BufReader::new(source.inner);
    let encoder = bzip2::bufread::BzEncoder::new(buffered, bzip2::Compression::new(level));
    ByteReader { inner: std::boxed::Box::new(encoder) }
}

/// Relies on `flate2::read::GzDecoder`: given source bytes, a drain of
/// the decoder yields exactly what decoding those bytes yields. It
/// stops at the end of the first gzip member, so nothing is claimed of
/// a source that would fail only past that point.
#[verifier::external_body]
pub fn gzip_decoder(source: ByteReader) -> (r: ByteReader)
    ensures
        reader_model(source) matches Some(b) ==> reader_model(r) == gzip_decoded(b),
{
    let buffered = std::io::BufReader::new(source.inner);
    let decoder = flate2::read::GzDecoder::new(buffered);
    ByteReader { inner: std::boxed::Box::new(decoder) }
}

/// Relies on `zstd::stream::read::Decoder`: construction inspects no
/// input — it only allocates a decompression context, so (allocation
/// taken to succeed, as vstd takes it everywhere) it succeeds. A drain
/// of the decoder yields exactly what decoding the source bytes
/// yields, and a failing source keeps failing: the clean end comes
/// only once the source reports end-of-input.
#[verifier::external_body]
pub fn zstd_decoder(source: ByteReader) -> (r: Result<ByteReader, String>)
    ensures
        r is Ok,
        r matches Ok(t) ==> {
            &&& (reader_model(source) matches Some(b) ==> reader_model(t) == zstd_decoded(b))
            &&& (reader_model(source) is None ==> reader_model(t) is None)
        },
{
    let buffered = std::io::BufReader::new(source.inner);
    match zstd::stream::Decoder::with_buffer(buffered) {
        Ok(decoder) => Ok(ByteReader { inner: std::boxed::Box::new(decoder) }),
        Err(e) => Err(e.to_string()),
    }
}

/// Relies on `xz2::bufread::XzDecoder`: a drain of the decoder yields
/// exactly what decoding the source bytes yields, and a failing source
/// keeps failing.
#[verifier::external_body]
pub fn xz_decoder(source: ByteReader) -> (r: ByteReader)
    ensures
        reader_model(source) matches Some(b) ==> reader_model(r) == xz_decoded(b),
        reader_model(source) is None ==> reader_model(r) is None,
{
    let buffered = std::io::BufReader::new(source.inner);
    let decoder = xz2::bufread::XzDecoder::new(buffered);
    ByteReader { inner: std::boxed::Box::new(decoder) }
}

/// Relies on `bzip2::bufread::BzDecoder`: a drain of the decoder yields
/// exactly what decoding the source bytes yields. It stops at the end
/// of the first bzip2 stream, so nothing is claimed of a source that
/// would fail only past that point.
#[verifier::external_body]
pub fn bz2_decoder(source: ByteReader) -> (r: ByteReader)
    ensures
        reader_model(source) matches Some(b) ==> reader_model(r) == bz2_decoded(b),
{
    let buffered = std::io::BufReader::new(source.inner);
    let decoder = bzip2::bufread::BzDecoder::new(buffered);
    ByteReader { inner: std::boxed::Box::new(decoder) }
}

} // verus!

//! The gzip codec: a streaming encoder with an explicit finish protocol,
//! one-shot compression and decompression, and the round-trip law.
//!
//! The compressed form of a byte sequence is named by the uninterpreted
//! spec function [`gzip_of`]: the encoder is configured with a fixed header
//! (no timestamp, fixed operating-system byte) and a fixed compression
//! level, so the stream it produces depends on the input bytes alone.

use vstd::prelude::*;

verus! {

/// An internal failure of the compression codec. A transfer that hits one
/// is aborted, never retried: the encoder state is not trustworthy after it.
#[derive(Clone, Copy, Debug, PartialEq, Eq, Structural)]
pub struct CodecError;

/// The complete gzip stream that encoding `data` at the codec's fixed
/// configuration produces: header, compressed body and trailer.
pub uninterp spec fn gzip_of(data: Seq<u8>) -> Seq<u8>;

/// The raw gzip encoder of the outside crate. Verus sees nothing inside it;
/// what it holds is described by [`enc_fed`] and [`enc_taken`].
#[verifier::external_body]
pub struct RawEncoder {
    inner: flate2::write::GzEncoder<Vec<u8>>,
}

/// The raw bytes an encoder has consumed since its construction.
pub uninterp spec fn enc_fed(e: RawEncoder) -> Seq<u8>;

/// The compressed bytes already drained out of an encoder's sink.
pub uninterp spec fn enc_taken(e: RawEncoder) -> Seq<u8>;

/// Relies on flate2::write::GzEncoder::new with an empty Vec sink and the
/// default compression level: a fresh encoder has consumed no input and its
/// sink holds no output.
#[verifier::external_body]
fn gz_new() -> (e: RawEncoder)
    ensures
        enc_fed(e) == Seq::<u8>::empty(),
        enc_taken(e) == Seq::<u8>::empty(),
{
    RawEncoder { inner: flate2::write::GzEncoder::new(Vec::new(), flate2::Compression::default()) }
}

/// Relies on Write::write_all for flate2::write::GzEncoder, which consumes
/// all of `chunk` on success, and on GzEncoder::get_mut, whose documentation
/// allows taking the Vec sink between writes: concatenating the pieces taken
/// reconstructs the encoder's output stream. On an error the encoder state
/// is unspecified.
#[verifier::external_body]
fn gz_feed(e: &mut RawEncoder, chunk: &[u8]) -> (r: Result<Vec<u8>, CodecError>)
    ensures
        r is Ok ==> enc_fed(*final(e)) == enc_fed(*old(e)) + chunk@,
        r is Ok ==> enc_taken(*final(e)) == enc_taken(*old(e)) + r->Ok_0@,
{
    match std::io::Write::write_all(&mut e.inner, chunk) {
        Ok(()) => Ok(core::mem::take(e.inner.get_mut())),
        Err(_) => Err(CodecError),
    }
}

/// Relies on flate2::write::GzEncoder::finish: it completes the gzip stream
/// and returns the Vec sink, holding every output byte not yet taken, so
/// that everything taken followed by this remainder is the whole stream for
/// the bytes consumed.
#[verifier::external_body]
fn gz_finish(e: RawEncoder) -> (r: Result<Vec<u8>, CodecError>)
    ensures
        r is Ok ==> enc_taken(e) + r->Ok_0@ == gzip_of(enc_fed(e)),
{
    match e.inner.finish() {
        Ok(v) => Ok(v),
        Err(_) => Err(CodecError),
    }
}

/// Relies on flate2::read::GzDecoder with Read::read_to_end: decoding a
/// complete gzip stream recovers exactly the bytes that were encoded.
#[verifier::external_body]
fn gz_decode(data: &[u8]) -> (r: Result<Vec<u8>, CodecError>)
    ensures
        forall|b: Seq<u8>| data@ == gzip_of(b) ==> r is Ok && r->Ok_0@ == b,
{
    let mut dec = flate2::read::GzDecoder::new(data);
    let mut out = Vec::new();
    match std::io::Read::read_to_end(&mut dec, &mut out) {
        Ok(_) => Ok(out),
        Err(_) => Err(CodecError),
    }
}

/// A streaming gzip encoder. Feeding returns whatever compressed bytes are
/// ready; finishing consumes the encoder, so no input can follow the finish,
/// and returns the rest of the stream.
pub struct Encoder {
    inner: RawEncoder,
}

impl Encoder {
    /// The raw bytes this encoder has consumed.
    pub closed spec fn fed(&self) -> Seq<u8> {
        enc_fed(self.inner)
    }

    /// The compressed bytes this encoder has handed out.
    pub closed spec fn emitted(&self) -> Seq<u8> {
        enc_taken(self.inner)
    }

    pub fn new() -> (e: Encoder)
        ensures
            e.fed() == Seq::<u8>::empty(),
            e.emitted() == Seq::<u8>::empty(),
    {
        Encoder { inner: gz_new() }
    }

    /// Consume a chunk of raw bytes; the returned bytes extend the emitted
    /// compressed stream. The split of the stream into returned pieces is
    /// the codec's own business: only the concatenation is specified.
    pub fn feed(&mut self, chunk: &[u8]) -> (r: Result<Vec<u8>, CodecError>)
        ensures
            r is Ok ==> final(self).fed() == old(self).fed() + chunk@,
            r is Ok ==> final(self).emitted() == old(self).emitted() + r->Ok_0@,
    {
        gz_feed(&mut self.inner, chunk)
    }

    /// Finish the stream: everything emitted so far followed by the returned
    /// bytes is the complete gzip stream of everything fed.
    pub fn finish(self) -> (r: Result<Vec<u8>, CodecError>)
        ensures
            r is Ok ==> self.emitted() + r->Ok_0@ == gzip_of(self.fed()),
    {
        gz_finish(self.inner)
    }
}

/// Compress a whole byte sequence in one step.
pub fn compress(data: &[u8]) -> (r: Result<Vec<u8>, CodecError>)
    ensures
        r is Ok ==> r->Ok_0@ == gzip_of(data@),
{
    let mut enc = Encoder::new();
    let mut out = match enc.feed(data) {
        Ok(v) => v,
        Err(e) => {
            return Err(e);
        },
    };
    let mut tail = match enc.finish() {
        Ok(v) => v,
        Err(e) => {
            return Err(e);
        },
    };
    out.append(&mut tail);
    Ok(out)
}

/// Decompress a gzip stream. On the stream `gzip_of(b)` this succeeds and
/// recovers `b`; on bytes that are no such stream the codec decides.
pub fn decompress(data: &[u8]) -> (r: Result<Vec<u8>, CodecError>)
    ensures
        forall|b: Seq<u8>| data@ == gzip_of(b) ==> r is Ok && r->Ok_0@ == b,
{
    gz_decode(data)
}

/// Round-trip law: decompressing the compressed form of any byte sequence,
/// the empty one included, yields exactly that sequence; it can only fail
/// where compression itself fails.
pub fn compress_round_trip(data: &[u8]) -> (r: Result<Vec<u8>, CodecError>)
    ensures
        r is Ok ==> r->Ok_0@ == data@,
{
    match compress(data) {
        Ok(c) => {
            let d = decompress(&c);
            proof {
                assert(c@ == gzip_of(data@));
            }
            d
        },
        Err(e) => Err(e),
    }
}

} // verus!

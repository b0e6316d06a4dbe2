use vstd::prelude::*;
use flate2::write::GzEncoder;
use flate2::Compression;
use std::io::Write;
use crate::error::CoreError;

verus! {

/// Largest number of bytes taken from the source stream in one read.
pub const CHUNK_CAP: usize = 524288;

/// flate2's `GzEncoder` writing into a `Vec`, held out of Verus's sight.
#[verifier::external_body]
pub struct GzStream {
    encoder: GzEncoder<Vec<u8>>,
}

#[verifier::external_type_specification]
#[verifier::external_body]
pub struct ExIoError(std::io::Error);

/// The single gzip member that flate2's `GzEncoder`, at the default level,
/// produces for `data`.
pub uninterp spec fn gzip_of(data: Seq<u8>) -> Seq<u8>;

/// The bytes that the encoder of a `GzStream` has accepted so far.
pub uninterp spec fn encoder_input(e: GzStream) -> Seq<u8>;

/// Relies on flate2's `GzEncoder::new`: a fresh encoder over an empty `Vec`,
/// at `Compression::default()`, has accepted nothing.
#[verifier::external_body]
fn gz_new() -> (e: GzStream)
    ensures
        encoder_input(e) == Seq::<u8>::empty(),
{
    GzStream { encoder: GzEncoder::new(Vec::new(), Compression::default()) }
}

/// Relies on `Write::write_all` for flate2's `GzEncoder`: the whole buffer is
/// accepted, after what came before. Writing into a `Vec` sink cannot fail,
/// and the encoder is never finished while a `GzStream` exists.
#[verifier::external_body]
fn gz_write_all(e: &mut GzStream, buf: &[u8]) -> (r: Result<(), std::io::Error>)
    ensures
        r is Ok,
        encoder_input(*final(e)) == encoder_input(*old(e)) + buf@,
{
    e.encoder.write_all(buf)
}

/// Relies on flate2's `GzEncoder::finish`: it writes the trailer and hands
/// back the output, one gzip member of all the accepted bytes. Writes are
/// compressed without flushing, so the output depends on those bytes alone
/// and not on how they were split between writes. With a `Vec` as the sink
/// nothing here can fail.
#[verifier::external_body]
fn gz_finish(e: GzStream) -> (r: Result<Vec<u8>, std::io::Error>)
    ensures
        r is Ok,
        r matches Ok(v) ==> v@ == gzip_of(encoder_input(e)),
{
    e.encoder.finish()
}

/// Relies on `ToString::to_string` through `io::Error`'s `Display`: the text of the error.
#[verifier::external_body]
fn io_error_text(e: &std::io::Error) -> (r: String)
{
    e.to_string()
}

/// The concatenation of a sequence of chunks.
pub open spec fn flatten(chunks: Seq<Seq<u8>>) -> Seq<u8>
    decreases chunks.len(),
{
    if chunks.len() == 0 {
        Seq::empty()
    } else {
        flatten(chunks.drop_last()) + chunks.last()
    }
}

/// The views of a vector of chunks.
pub open spec fn chunk_views(chunks: Seq<Vec<u8>>) -> Seq<Seq<u8>> {
    chunks.map_values(|c: Vec<u8>| c@)
}

/// `data` cut into consecutive pieces of `cap` bytes, the last one shorter.
pub open spec fn fixed_chunks(data: Seq<u8>, cap: nat) -> Seq<Seq<u8>>
    recommends
        cap > 0,
    decreases data.len(),
{
    if cap == 0 || data.len() == 0 {
        Seq::empty()
    } else if data.len() <= cap {
        seq![data]
    } else {
        seq![data.take(cap as int)] + fixed_chunks(data.skip(cap as int), cap)
    }
}

proof fn lemma_flatten_prepend(first: Seq<u8>, rest: Seq<Seq<u8>>)
    ensures
        flatten(seq![first] + rest) == first + flatten(rest),
    decreases rest.len(),
{
    if rest.len() == 0 {
        assert(seq![first] + rest =~= seq![first]);
        assert(seq![first].drop_last() =~= Seq::<Seq<u8>>::empty());
        assert(Seq::<u8>::empty() + first =~= first);
        assert(first + Seq::<u8>::empty() =~= first);
        assert(flatten(seq![first]) == flatten(seq![first].drop_last()) + first);
        assert(flatten(rest) == Seq::<u8>::empty());
    } else {
        let all = seq![first] + rest;
        assert(all.drop_last() =~= seq![first] + rest.drop_last());
        assert(all.last() == rest.last());
        lemma_flatten_prepend(first, rest.drop_last());
        assert(flatten(all) == flatten(all.drop_last()) + all.last());
        assert(flatten(rest) == flatten(rest.drop_last()) + rest.last());
        assert(first + flatten(rest.drop_last()) + rest.last() =~= first + (flatten(rest.drop_last())
            + rest.last()));
    }
}

proof fn lemma_flatten_fixed_chunks(data: Seq<u8>, cap: nat)
    requires
        cap > 0,
    ensures
        flatten(fixed_chunks(data, cap)) == data,
    decreases data.len(),
{
    if data.len() == 0 {
        assert(data =~= Seq::<u8>::empty());
    } else if data.len() <= cap {
        lemma_flatten_prepend(data, Seq::empty());
        assert(seq![data] + Seq::<Seq<u8>>::empty() =~= seq![data]);
        assert(data + Seq::<u8>::empty() =~= data);
    } else {
        lemma_flatten_fixed_chunks(data.skip(cap as int), cap);
        lemma_flatten_prepend(data.take(cap as int), fixed_chunks(data.skip(cap as int), cap));
        assert(data.take(cap as int) + data.skip(cap as int) =~= data);
    }
}

/// Chunk boundaries never show in the output: a body read in pieces of
/// `cap` bytes compresses to exactly the bytes that the same body fed as a
/// single buffer compresses to.
pub proof fn lemma_chunking_invisible(data: Seq<u8>, cap: nat)
    requires
        cap > 0,
    ensures
        gzip_of(flatten(fixed_chunks(data, cap))) == gzip_of(flatten(seq![data])),
        gzip_of(flatten(seq![data])) == gzip_of(data),
{
    lemma_flatten_fixed_chunks(data, cap);
    lemma_flatten_prepend(data, Seq::empty());
    assert(seq![data] + Seq::<Seq<u8>>::empty() =~= seq![data]);
    assert(data + Seq::<u8>::empty() =~= data);
}

/// An incremental gzip compressor: chunks are fed in arrival order into one
/// continuous stream, and `finish` yields the single member for all of them.
pub struct StreamCompressor {
    encoder: GzStream,
}

impl StreamCompressor {
    /// The bytes fed so far.
    pub closed spec fn fed(&self) -> Seq<u8> {
        encoder_input(self.encoder)
    }

    pub fn new() -> (r: StreamCompressor)
        ensures
            r.fed() == Seq::<u8>::empty(),
    {
        StreamCompressor { encoder: gz_new() }
    }

    /// Feeds one chunk, after those fed before.
    pub fn feed(&mut self, chunk: &[u8]) -> (r: Result<(), CoreError>)
        ensures
            r is Ok,
            final(self).fed() == old(self).fed() + chunk@,
    {
        match gz_write_all(&mut self.encoder, chunk) {
            Ok(()) => Ok(()),
            Err(e) => Err(CoreError::Encode(io_error_text(&e))),
        }
    }

    /// Takes one read of the source stream: a chunk is fed, a failed read
    /// becomes a fetch error and feeds nothing.
    pub fn accept(&mut self, read: Result<Vec<u8>, String>) -> (r: Result<(), CoreError>)
        ensures
            read matches Err(m) ==> r == Err::<(), CoreError>(CoreError::Fetch(m)) && final(self).fed()
                == old(self).fed(),
            read is Ok ==> r is Ok,
            read matches Ok(c) ==> final(self).fed() == old(self).fed() + c@,
    {
        match read {
            Ok(chunk) => self.feed(chunk.as_slice()),
            Err(m) => Err(CoreError::Fetch(m)),
        }
    }

    /// Finishes the stream and returns the compressed payload.
    pub fn finish(self) -> (r: Result<Vec<u8>, CoreError>)
        ensures
            r is Ok,
            r matches Ok(v) ==> v@ == gzip_of(self.fed()),
    {
        match gz_finish(self.encoder) {
            Ok(v) => Ok(v),
            Err(e) => Err(CoreError::Encode(io_error_text(&e))),
        }
    }
}

/// Compresses a body that arrives as a sequence of chunks, in order, into one
/// gzip member.
pub fn compress_chunks(chunks: &Vec<Vec<u8>>) -> (r: Result<Vec<u8>, CoreError>)
    ensures
        r is Ok,
        r matches Ok(v) ==> v@ == gzip_of(flatten(chunk_views(chunks@))),
{
    let mut c = StreamCompressor::new();
    let mut i: usize = 0;
    while i < chunks.len()
        invariant
            i <= chunks.len(),
            c.fed() == flatten(chunk_views(chunks@.take(i as int))),
        decreases chunks.len() - i,
    {
        c.feed(chunks[i].as_slice())?;
        proof {
            let next = chunks@.take(i + 1);
            assert(next.drop_last() =~= chunks@.take(i as int));
            assert(chunk_views(next).drop_last() =~= chunk_views(chunks@.take(i as int)));
        }
        i = i + 1;
    }
    assert(chunks@.take(chunks.len() as int) =~= chunks@);
    c.finish()
}

/// Compresses a whole body in one piece.
pub fn compress_bytes(data: &[u8]) -> (r: Result<Vec<u8>, CoreError>)
    ensures
        r is Ok,
        r matches Ok(v) ==> v@ == gzip_of(data@),
{
    let mut c = StreamCompressor::new();
    c.feed(data)?;
    assert(Seq::<u8>::empty() + data@ =~= data@);
    c.finish()
}

} // verus!

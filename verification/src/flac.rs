//! FLAC encoding with Vorbis-comment tags and an optional embedded cover image.
//!
//! The FLAC encoder produces the audio but no `VORBIS_COMMENT` or `PICTURE`
//! metadata blocks, so those are spliced into its stream here: both are simple,
//! well-specified blocks that sit right after `STREAMINFO`.

use vstd::prelude::*;
use vstd::string::*;
use vstd::utf8::encode_utf8;

use flacenc::component::BitRepr;
use flacenc::error::Verify;

use crate::bytes::{append_bytes, be32, le32, push_be32, push_le32};

verus! {

/// An error while encoding or writing a recording.
#[derive(Debug)]
pub enum Error {
    /// The FLAC encoder rejected its configuration.
    Config(String),
    /// Encoding the audio to FLAC failed.
    Encode(String),
    /// Writing the file to disk failed.
    Io(String),
}

/// An embedded cover image.
pub struct Picture {
    /// MIME type, e.g. `"image/jpeg"`.
    pub mime: String,
    /// Raw image bytes.
    pub data: Vec<u8>,
}

/// FLAC metadata block type of `VORBIS_COMMENT`.
pub const BLOCK_VORBIS_COMMENT: u8 = 4;
/// FLAC metadata block type of `PICTURE`.
pub const BLOCK_PICTURE: u8 = 6;

/// The three bytes of the low 24 bits of `n`, most significant first.
pub open spec fn u24_of(n: usize) -> Seq<u8> {
    seq![(n >> 16) as u8, (n >> 8) as u8, n as u8]
}

/// The low 24 bits of `n` as three big-endian bytes (a metadata block length).
pub fn u24_be(n: usize) -> (b: [u8; 3])
    ensures
        b@ == u24_of(n),
{
    let b = [(n >> 16) as u8, (n >> 8) as u8, n as u8];
    assert(b@ =~= u24_of(n));
    b
}

/// The vendor string written into every `VORBIS_COMMENT` block.
pub open spec fn vendor_bytes() -> Seq<u8> {
    seq![0x70u8, 0x6c, 0x61, 0x7a, 0x61, 0x2d, 0x74, 0x75, 0x69]
}

/// One comment, `KEY=value`, in UTF-8.
pub open spec fn comment_entry(key: Seq<char>, value: Seq<char>) -> Seq<u8> {
    encode_utf8(key) + seq![0x3Du8] + encode_utf8(value)
}

/// The comments, each preceded by its little-endian 32-bit length.
pub open spec fn comment_entries(comments: Seq<(Seq<char>, Seq<char>)>) -> Seq<u8>
    decreases comments.len(),
{
    if comments.len() == 0 {
        Seq::empty()
    } else {
        let last = comments.last();
        let entry = comment_entry(last.0, last.1);
        comment_entries(comments.drop_last()) + le32(entry.len() as u32) + entry
    }
}

/// The body of a `VORBIS_COMMENT` block: vendor string, comment count and
/// comments, all lengths little-endian, with no framing bit.
pub open spec fn vorbis_comment_bytes(comments: Seq<(Seq<char>, Seq<char>)>) -> Seq<u8> {
    le32(9) + vendor_bytes() + le32(comments.len() as u32) + comment_entries(comments)
}

/// The comments of a slice of `(key, value)` pairs.
pub open spec fn comments_view(comments: Seq<(&str, &str)>) -> Seq<(Seq<char>, Seq<char>)> {
    comments.map_values(|c: (&str, &str)| (c.0@, c.1@))
}

/// Build a `VORBIS_COMMENT` block body.
pub fn vorbis_comment_block(comments: &[(&str, &str)]) -> (d: Vec<u8>)
    ensures
        d@ == vorbis_comment_bytes(comments_view(comments@)),
{
    let vendor: [u8; 9] = [0x70, 0x6c, 0x61, 0x7a, 0x61, 0x2d, 0x74, 0x75, 0x69];
    let mut d: Vec<u8> = Vec::new();
    push_le32(&mut d, 9);
    append_bytes(&mut d, &vendor);
    push_le32(&mut d, comments.len() as u32);
    let ghost cv = comments_view(comments@);
    assert(vendor@ =~= vendor_bytes());
    assert(d@ =~= le32(9) + vendor_bytes() + le32(comments@.len() as u32) + comment_entries(
        cv.subrange(0, 0),
    ));
    let mut i: usize = 0;
    while i < comments.len()
        invariant
            i <= comments@.len(),
            cv == comments_view(comments@),
            d@ == le32(9) + vendor_bytes() + le32(comments@.len() as u32) + comment_entries(
                cv.subrange(0, i as int),
            ),
        decreases comments@.len() - i,
    {
        let (key, value) = comments[i];
        let mut entry: Vec<u8> = Vec::new();
        append_bytes(&mut entry, key.as_bytes());
        entry.push(0x3D);
        append_bytes(&mut entry, value.as_bytes());
        assert(entry@ =~= comment_entry(key@, value@));
        let ghost before = d@;
        push_le32(&mut d, entry.len() as u32);
        append_bytes(&mut d, entry.as_slice());
        proof {
            let sub = cv.subrange(0, i + 1);
            assert(sub.drop_last() =~= cv.subrange(0, i as int));
            assert(sub.last() == (key@, value@));
            assert(d@ =~= before + le32(entry@.len() as u32) + entry@);
        }
        i = i + 1;
    }
    assert(cv.subrange(0, i as int) =~= cv);
    d
}

/// The body of a `PICTURE` block: a front cover (type 3) with the given MIME type
/// and image bytes, an empty description and unspecified dimensions; lengths are
/// big-endian.
pub open spec fn picture_bytes(mime: Seq<char>, data: Seq<u8>) -> Seq<u8> {
    be32(3) + be32(encode_utf8(mime).len() as u32) + encode_utf8(mime) + be32(0)
        + Seq::new(16, |i: int| 0u8) + be32(data.len() as u32) + data
}

/// Build a `PICTURE` block body.
pub fn picture_block(pic: &Picture) -> (d: Vec<u8>)
    ensures
        d@ == picture_bytes(pic.mime@, pic.data@),
{
    let mime = pic.mime.as_str().as_bytes();
    let mut d: Vec<u8> = Vec::new();
    push_be32(&mut d, 3);
    push_be32(&mut d, mime.len() as u32);
    append_bytes(&mut d, mime);
    push_be32(&mut d, 0);
    let zeros: [u8; 16] = [0; 16];
    append_bytes(&mut d, &zeros);
    push_be32(&mut d, pic.data.len() as u32);
    append_bytes(&mut d, pic.data.as_slice());
    assert(zeros@ =~= Seq::new(16, |i: int| 0u8));
    assert(d@ =~= picture_bytes(pic.mime@, pic.data@));
    d
}

/// The 24-bit big-endian length of the metadata block whose header is at `pos`.
pub open spec fn block_len_at(flac: Seq<u8>, pos: int) -> int {
    flac[pos + 1] as int * 65536 + flac[pos + 2] as int * 256 + flac[pos + 3] as int
}

/// Walk the metadata blocks from the header at `pos`: the offset of the header of
/// the block flagged last, and where the audio frames begin; or why the walk
/// failed.
pub open spec fn metadata_layout(flac: Seq<u8>, pos: int) -> Result<(int, int), Seq<char>>
    decreases flac.len() - pos,
{
    if pos < 0 || pos + 4 > flac.len() {
        Err("truncated metadata block header"@)
    } else {
        let next = pos + 4 + block_len_at(flac, pos);
        if next > flac.len() {
            Err("truncated metadata block"@)
        } else if flac[pos] & 0x80 != 0 {
            Ok((pos, next))
        } else {
            metadata_layout(flac, next)
        }
    }
}

/// The stream begins with the `fLaC` marker and is long enough for a block header.
pub open spec fn has_flac_marker(flac: Seq<u8>) -> bool {
    &&& flac.len() >= 8
    &&& flac[0] == 0x66 && flac[1] == 0x4C && flac[2] == 0x61 && flac[3] == 0x43
}

/// The metadata up to the frames, with the former last block no longer flagged
/// last, and (when the first block is `STREAMINFO` and the metadata reaches its
/// block sizes) its minimum block size set to its maximum block size: the
/// encoder writes fixed-size frames but declares variable blocking, which strict
/// readers then misparse.
pub open spec fn fixed_head(flac: Seq<u8>, last_header: int, frames_start: int) -> Seq<u8> {
    let h = flac.subrange(0, frames_start).update(last_header, flac[last_header] & 0x7F);
    if flac[4] & 0x7F == 0 && frames_start >= 12 {
        h.update(8, h[10]).update(9, h[11])
    } else {
        h
    }
}

/// A metadata block: its header byte, its 24-bit length, its body.
pub open spec fn block_bytes(header: u8, body: Seq<u8>) -> Seq<u8> {
    seq![header] + u24_of(body.len() as usize) + body
}

/// The blocks spliced in: the comments, then the picture if there is one; the
/// final one is flagged last.
pub open spec fn new_blocks(comment_block: Seq<u8>, picture: Option<Seq<u8>>) -> Seq<u8> {
    match picture {
        None => block_bytes(0x84, comment_block),
        Some(p) => block_bytes(0x04, comment_block) + block_bytes(0x86, p),
    }
}

/// The tagged stream, or the error message.
pub open spec fn spliced(flac: Seq<u8>, comment_block: Seq<u8>, picture: Option<Seq<u8>>) -> Result<Seq<u8>, Seq<char>> {
    if !has_flac_marker(flac) {
        Err("encoder did not produce a FLAC stream"@)
    } else {
        match metadata_layout(flac, 4) {
            Err(m) => Err(m),
            Ok((last_header, frames_start)) => Ok(
                fixed_head(flac, last_header, frames_start) + new_blocks(comment_block, picture)
                    + flac.subrange(frames_start, flac.len() as int),
            ),
        }
    }
}

/// The picture block of an optional cover.
pub open spec fn cover_bytes(cover: Option<&Picture>) -> Option<Seq<u8>> {
    match cover {
        Some(p) => Some(picture_bytes(p.mime@, p.data@)),
        None => None,
    }
}

/// `r` is the splice outcome `expected`, a failure being an encode error.
pub open spec fn splice_outcome_is(r: Result<Vec<u8>, Error>, expected: Result<Seq<u8>, Seq<char>>) -> bool {
    match expected {
        Ok(b) => r matches Ok(v) && v@ == b,
        Err(m) => r matches Err(Error::Encode(s)) && s@ == m,
    }
}

proof fn lemma_layout_bounds(flac: Seq<u8>, pos: int)
    ensures
        metadata_layout(flac, pos) matches Ok((lh, fs)) ==> pos <= lh && lh + 4 <= fs <= flac.len(),
    decreases flac.len() - pos,
{
    if !(pos < 0 || pos + 4 > flac.len()) {
        let next = pos + 4 + block_len_at(flac, pos);
        if next <= flac.len() && flac[pos] & 0x80 == 0 {
            lemma_layout_bounds(flac, next);
        }
    }
}

fn metadata_walk(flac: &[u8]) -> (r: Result<(usize, usize), &'static str>)
    requires
        flac@.len() >= 4,
    ensures
        match r {
            Ok((lh, fs)) => metadata_layout(flac@, 4) == Ok::<(int, int), Seq<char>>((lh as int, fs as int)),
            Err(m) => metadata_layout(flac@, 4) == Err::<(int, int), Seq<char>>(m@),
        },
{
    let mut pos: usize = 4;
    loop
        invariant
            4 <= pos <= flac@.len(),
            metadata_layout(flac@, pos as int) == metadata_layout(flac@, 4),
        decreases flac@.len() - pos,
    {
        if flac.len() - pos < 4 {
            proof {
                reveal_strlit("truncated metadata block header");
            }
            return Err("truncated metadata block header");
        }
        let len: usize = (flac[pos + 1] as usize) * 65536 + (flac[pos + 2] as usize) * 256
            + flac[pos + 3] as usize;
        if len > flac.len() - pos - 4 {
            proof {
                reveal_strlit("truncated metadata block");
            }
            return Err("truncated metadata block");
        }
        let header = pos;
        pos = pos + 4 + len;
        if flac[header] & 0x80 != 0 {
            return Ok((header, pos));
        }
    }
}

/// Insert `VORBIS_COMMENT` (and an optional `PICTURE`) after the encoder's
/// metadata blocks, fixing up the "last metadata block" flags. Robust to whatever
/// blocks (STREAMINFO, padding, ...) the encoder already emitted.
pub fn splice_metadata(flac: Vec<u8>, comments: &[(&str, &str)], cover: Option<&Picture>) -> (r: Result<Vec<u8>, Error>)
    ensures
        splice_outcome_is(
            r,
            spliced(flac@, vorbis_comment_bytes(comments_view(comments@)), cover_bytes(cover)),
        ),
{
    if flac.len() < 8 || !(flac[0] == 0x66 && flac[1] == 0x4C && flac[2] == 0x61 && flac[3] == 0x43) {
        return Err(Error::Encode(String::from_str("encoder did not produce a FLAC stream")));
    }
    let (last_header, frames_start) = match metadata_walk(flac.as_slice()) {
        Ok(layout) => layout,
        Err(m) => return Err(Error::Encode(String::from_str(m))),
    };
    let ghost f = flac@;
    proof {
        lemma_layout_bounds(f, 4);
    }
    let comment = vorbis_comment_block(comments);
    let mut out: Vec<u8> = Vec::new();
    append_bytes(&mut out, &flac.as_slice()[0..frames_start]);
    assert(out@ =~= f.subrange(0, frames_start as int));
    let masked = out[last_header] & 0x7F;
    out.set(last_header, masked);
    if flac[4] & 0x7F == 0 && frames_start >= 12 {
        let hi = out[10];
        let lo = out[11];
        out.set(8, hi);
        out.set(9, lo);
    }
    assert(out@ =~= fixed_head(f, last_header as int, frames_start as int));
    let ghost head = out@;
    match cover {
        None => {
            out.push(0x84);
            append_bytes(&mut out, &u24_be(comment.len()));
            append_bytes(&mut out, comment.as_slice());
        },
        Some(pic) => {
            let p = picture_block(pic);
            out.push(0x04);
            append_bytes(&mut out, &u24_be(comment.len()));
            append_bytes(&mut out, comment.as_slice());
            out.push(0x86);
            append_bytes(&mut out, &u24_be(p.len()));
            append_bytes(&mut out, p.as_slice());
        },
    }
    assert(out@ =~= head + new_blocks(comment@, cover_bytes(cover)));
    let ghost with_blocks = out@;
    append_bytes(&mut out, &flac.as_slice()[frames_start..flac.len()]);
    assert(out@ =~= with_blocks + f.subrange(frames_start as int, f.len() as int));
    Ok(out)
}

/// Every sample fits in 16 bits.
pub open spec fn samples_fit_16_bits(pcm: Seq<i32>) -> bool {
    forall|i: int| 0 <= i < pcm.len() ==> -32768 <= #[trigger] pcm[i] <= 32767
}

/// The FLAC stream the single-threaded encoder produces for 16-bit interleaved
/// samples, when it produces one.
pub uninterp spec fn flac_encoding(pcm: Seq<i32>, channels: u16, sample_rate: u32) -> Option<Seq<u8>>;

/// Encodes 16-bit interleaved samples with flacenc's default configuration, run
/// on the calling thread (`multithread = false`, then `into_verified`,
/// `MemSource::from_samples`, `encode_with_fixed_block_size` with 4096-sample
/// blocks, written to a `ByteSink`). Trusted: run on one thread the encoder is
/// deterministic, so whether it succeeds and the stream it gives are taken to be
/// a function of the samples, channel count and rate, named [`flac_encoding`]
/// (`None` when it refuses them); a refusal is reported as a `Config` or
/// `Encode` error, whose text is flacenc's and is not stated.
#[verifier::external_body]
fn flacenc_encode(pcm: &[i32], channels: u16, sample_rate: u32) -> (r: Result<Vec<u8>, Error>)
    requires
        samples_fit_16_bits(pcm@),
    ensures
        match r {
            Ok(bytes) => flac_encoding(pcm@, channels, sample_rate) == Some(bytes@),
            Err(e) => flac_encoding(pcm@, channels, sample_rate) is None && (e is Config || e is Encode),
        },
{
    let mut encoder = flacenc::config::Encoder::default();
    encoder.multithread = false;
    let config = encoder.into_verified().map_err(|(_, e)| Error::Config(e.to_string()))?;
    let source = flacenc::source::MemSource::from_samples(pcm, channels as usize, 16, sample_rate as usize);
    let stream = flacenc::encode_with_fixed_block_size(&config, source, 4096)
        .map_err(|e| Error::Encode(e.to_string()))?;
    let mut sink = flacenc::bitsink::ByteSink::new();
    stream.write(&mut sink).map_err(|e| Error::Encode(e.to_string()))?;
    Ok(sink.into_inner())
}

/// What [`encode_flac`] returns: a `Config` or `Encode` error when the encoder
/// refuses the samples; otherwise exactly what splicing these blocks into the
/// encoder's stream gives (see [`spliced`]).
pub open spec fn encoded_outcome(
    r: Result<Vec<u8>, Error>,
    pcm: Seq<i32>,
    channels: u16,
    sample_rate: u32,
    comment_block: Seq<u8>,
    picture: Option<Seq<u8>>,
) -> bool {
    match flac_encoding(pcm, channels, sample_rate) {
        None => r matches Err(e) && (e is Config || e is Encode),
        Some(stream) => splice_outcome_is(r, spliced(stream, comment_block, picture)),
    }
}

/// Encode interleaved 16-bit PCM to a complete FLAC byte stream, tagged with
/// `comments` (e.g. `("ARTIST", "...")`) and an optional embedded `cover`.
/// The result is the encoder's stream with the blocks spliced in (see
/// [`encoded_outcome`]).
pub fn encode_flac(
    pcm: &[i32],
    channels: u16,
    sample_rate: u32,
    comments: &[(&str, &str)],
    cover: Option<&Picture>,
) -> (r: Result<Vec<u8>, Error>)
    requires
        samples_fit_16_bits(pcm@),
    ensures
        encoded_outcome(r, pcm@, channels, sample_rate, vorbis_comment_bytes(comments_view(comments@)), cover_bytes(cover)),
{
    let stream = flacenc_encode(pcm, channels, sample_rate)?;
    splice_metadata(stream, comments, cover)
}

proof fn lemma_u24_round_trip(n: usize)
    requires
        n < 0x1000000,
    ensures
        ((n >> 16) as u8) as int * 65536 + ((n >> 8) as u8) as int * 256 + (n as u8) as int == n,
{
    assert(((n >> 16) as u8) as int * 65536 + ((n >> 8) as u8) as int * 256 + (n as u8) as int == n)
        by (bit_vector)
        requires
            n < 0x1000000,
    ;
}

/// Walking the metadata of the spliced head from a header of the encoder's chain
/// leads, past the block that is no longer flagged last, to where the frames
/// used to begin.
proof fn lemma_walk_fixed_head(flac: Seq<u8>, out: Seq<u8>, last_header: int, frames_start: int, p: int)
    requires
        metadata_layout(flac, p) == Ok::<(int, int), Seq<char>>((last_header, frames_start)),
        flac.len() >= 8,
        frames_start >= 12,
        out.len() >= frames_start,
        out.subrange(0, frames_start) == fixed_head(flac, last_header, frames_start),
        p == 4 || p >= 8,
        flac[4] & 0x7F == 0 && p != 4 ==> p >= 10,
        flac[4] & 0x7F == 0 && p == 4 ==> block_len_at(flac, 4) >= 2,
    ensures
        metadata_layout(out, p) == metadata_layout(out, frames_start),
    decreases flac.len() - p,
{
    lemma_layout_bounds(flac, p);
    let h = fixed_head(flac, last_header, frames_start);
    let next = p + 4 + block_len_at(flac, p);
    let is_last = flac[p] & 0x80 != 0;
    if !is_last {
        lemma_layout_bounds(flac, next);
        assert(next <= last_header);
    } else {
        assert(last_header == p && frames_start == next);
    }
    assert(next <= frames_start);
    assert(out[p] == h[p] && out[p + 1] == h[p + 1] && out[p + 2] == h[p + 2] && out[p + 3] == h[p + 3]);
    assert(h[p + 1] == flac[p + 1] && h[p + 2] == flac[p + 2] && h[p + 3] == flac[p + 3]);
    assert(block_len_at(out, p) == block_len_at(flac, p));
    if is_last {
        let b = flac[p];
        assert(h[p] == b & 0x7F);
        assert((b & 0x7F) & 0x80 == 0) by (bit_vector);
    } else {
        assert(h[p] == flac[p]);
        lemma_walk_fixed_head(flac, out, last_header, frames_start, next);
    }
}

/// The walk over the spliced blocks: the comment block, then the picture if any,
/// the last of them flagged last.
proof fn lemma_walk_new_blocks(out: Seq<u8>, at: int, comment_block: Seq<u8>, picture: Option<Seq<u8>>)
    requires
        at >= 0,
        out.len() >= at + new_blocks(comment_block, picture).len(),
        out.subrange(at, at + new_blocks(comment_block, picture).len()) == new_blocks(comment_block, picture),
        comment_block.len() < 0x1000000,
        picture matches Some(p) ==> p.len() < 0x1000000,
    ensures
        metadata_layout(out, at) == Ok::<(int, int), Seq<char>>((
            match picture {
                Some(_) => at + 4 + comment_block.len(),
                None => at,
            },
            at + new_blocks(comment_block, picture).len(),
        )),
{
    let nb = new_blocks(comment_block, picture);
    let cl = comment_block.len() as usize;
    let first = block_bytes(if picture is Some { 0x04u8 } else { 0x84u8 }, comment_block);
    lemma_u24_round_trip(cl);
    assert(first.len() == 4 + comment_block.len());
    assert(nb.subrange(0, first.len() as int) =~= first);
    assert(first[1] == ((cl >> 16) as u8) && first[2] == ((cl >> 8) as u8) && first[3] == (cl as u8));
    assert(out[at] == nb[0] && out[at + 1] == nb[1] && out[at + 2] == nb[2] && out[at + 3] == nb[3]);
    assert(nb[0] == first[0] && nb[1] == first[1] && nb[2] == first[2] && nb[3] == first[3]);
    assert(block_len_at(out, at) == comment_block.len());
    let q = at + 4 + comment_block.len();
    match picture {
        None => {
            assert(first[0] == 0x84u8);
            assert(0x84u8 & 0x80 != 0) by (bit_vector);
            assert(nb.len() == first.len());
        },
        Some(pic) => {
            let pl = pic.len() as usize;
            lemma_u24_round_trip(pl);
            let second = block_bytes(0x86u8, pic);
            assert(nb =~= first + second);
            assert(first[0] == 0x04u8);
            assert(0x04u8 & 0x80 == 0) by (bit_vector);
            let k: int = first.len() as int;
            assert(out[q] == nb[k] && out[q + 1] == nb[k + 1] && out[q + 2] == nb[k + 2] && out[q + 3] == nb[k + 3]);
            assert(nb[k] == second[0] && nb[k + 1] == second[1] && nb[k + 2] == second[2] && nb[k + 3] == second[3]);
            assert(second[1] == ((pl >> 16) as u8) && second[2] == ((pl >> 8) as u8) && second[3] == (pl as u8));
            assert(second[0] == 0x86u8);
            assert(0x86u8 & 0x80 != 0) by (bit_vector);
            assert(block_len_at(out, q) == pic.len());
            assert(metadata_layout(out, q) == Ok::<(int, int), Seq<char>>((q, q + 4 + pic.len())));
        },
    }
}

/// The tagged stream is a FLAC stream again: it keeps the `fLaC` marker, its
/// metadata blocks can be walked from the marker to the last spliced block,
/// which is flagged last and ends exactly where the encoder's audio frames
/// follow, unchanged. (Block bodies must fit the 24-bit length field, and a
/// `STREAMINFO` first block whose block sizes are rewritten must hold them.)
pub proof fn lemma_spliced_stream_is_well_formed(flac: Seq<u8>, comment_block: Seq<u8>, picture: Option<Seq<u8>>)
    requires
        spliced(flac, comment_block, picture) is Ok,
        flac[4] & 0x7F == 0 && metadata_layout(flac, 4)->Ok_0.1 >= 12 ==> block_len_at(flac, 4) >= 2,
        comment_block.len() < 0x1000000,
        picture matches Some(p) ==> p.len() < 0x1000000,
    ensures
        ({
            let out = spliced(flac, comment_block, picture)->Ok_0;
            let (_, frames_start) = metadata_layout(flac, 4)->Ok_0;
            let audio_start = frames_start + new_blocks(comment_block, picture).len();
            &&& out.subrange(0, 4) == flac.subrange(0, 4)
            &&& metadata_layout(out, 4) matches Ok((_, end)) && end == audio_start
            &&& out.subrange(audio_start, out.len() as int) == flac.subrange(frames_start, flac.len() as int)
        }),
{
    let out = spliced(flac, comment_block, picture)->Ok_0;
    let (last_header, frames_start) = metadata_layout(flac, 4)->Ok_0;
    lemma_layout_bounds(flac, 4);
    let h = fixed_head(flac, last_header, frames_start);
    let nb = new_blocks(comment_block, picture);
    let audio_start = frames_start + nb.len();
    assert(out == h + nb + flac.subrange(frames_start, flac.len() as int));
    assert(h.len() == frames_start);
    assert(frames_start >= 8);
    if frames_start >= 12 {
        assert(out.subrange(0, frames_start) =~= h);
        lemma_walk_fixed_head(flac, out, last_header, frames_start, 4);
    } else {
        assert(out.subrange(0, frames_start) =~= h);
        lemma_walk_fixed_head_short(flac, out, last_header, frames_start, 4);
    }
    assert(out.subrange(frames_start, frames_start + nb.len()) =~= nb);
    lemma_walk_new_blocks(out, frames_start, comment_block, picture);
    assert(out.subrange(0, 4) =~= flac.subrange(0, 4)) by {
        assert forall|i: int| 0 <= i < 4 implies out[i] == flac[i] by {
            assert(out[i] == h[i]);
        }
    }
    assert(out.subrange(audio_start, out.len() as int) =~= flac.subrange(frames_start, flac.len() as int));
}

/// As [`lemma_walk_fixed_head`], when the `STREAMINFO` fix-up does not apply.
proof fn lemma_walk_fixed_head_short(flac: Seq<u8>, out: Seq<u8>, last_header: int, frames_start: int, p: int)
    requires
        metadata_layout(flac, p) == Ok::<(int, int), Seq<char>>((last_header, frames_start)),
        flac.len() >= 8,
        !(flac[4] & 0x7F == 0 && frames_start >= 12),
        p >= 4,
        out.len() >= frames_start,
        out.subrange(0, frames_start) == fixed_head(flac, last_header, frames_start),
    ensures
        metadata_layout(out, p) == metadata_layout(out, frames_start),
    decreases flac.len() - p,
{
    lemma_layout_bounds(flac, p);
    let h = fixed_head(flac, last_header, frames_start);
    let next = p + 4 + block_len_at(flac, p);
    let is_last = flac[p] & 0x80 != 0;
    if !is_last {
        lemma_layout_bounds(flac, next);
        assert(next <= last_header);
    } else {
        assert(last_header == p && frames_start == next);
    }
    assert(out[p] == h[p] && out[p + 1] == h[p + 1] && out[p + 2] == h[p + 2] && out[p + 3] == h[p + 3]);
    assert(h[p + 1] == flac[p + 1] && h[p + 2] == flac[p + 2] && h[p + 3] == flac[p + 3]);
    assert(block_len_at(out, p) == block_len_at(flac, p));
    if is_last {
        let b = flac[p];
        assert(h[p] == b & 0x7F);
        assert((b & 0x7F) & 0x80 == 0) by (bit_vector);
    } else {
        assert(h[p] == flac[p]);
        lemma_walk_fixed_head_short(flac, out, last_header, frames_start, next);
    }
}

} // verus!

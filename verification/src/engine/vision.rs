//! Vision guard for multimodal tool arguments: images embedded as base64
//! data URIs are checked against size budgets, classified by signature, and
//! stripped of metadata (JPEG APP1/EXIF segments; PNG eXIf, iTXt, tEXt and
//! zTXt chunks) before being re-encoded in place. Embedded text layers are
//! scanned for malicious instructions.
use vstd::prelude::*;
use vstd::string::StringExecFns;
use crate::clock::{clock_now, time_since, whole_millis};
use crate::codec::{b64_decode, b64_encode, base64_decoded, base64_encoded, is_b64_char};
use crate::config::ManagedRulesConfig;
use crate::text::{
    copy_str, str_eq,
    chars_of, contains, occurs_at, occurs_exact_at, push_char, str_contains, string_from_chars,
    to_lowercase, unicode_lowercase,
};

verus! {

/// Largest accepted base64 payload of one image, in bytes.
pub const MAX_B64_LEN: usize = 2097152;

/// Largest accepted decoded image, in bytes.
pub const MAX_DECODED_BYTES: usize = 1572864;

/// Largest number of images in one request.
pub const MAX_IMAGES: usize = 8;

/// Time budget for processing the images of one request, in milliseconds.
pub const PARSE_TIMEOUT_MS: u128 = 50;

/// Why an image-bearing request was refused.
#[derive(Debug, Clone, Copy, PartialEq, Eq, Structural)]
pub enum VisionError {
    /// A base64 payload is longer than [`MAX_B64_LEN`].
    Base64TooLong,
    /// A decoded image is larger than [`MAX_DECODED_BYTES`].
    DecodedTooLarge,
    /// More than [`MAX_IMAGES`] images.
    TooManyImages,
    /// A payload that is not base64, or an image that is neither JPEG nor PNG.
    UnsupportedFormat,
    /// Processing took longer than [`PARSE_TIMEOUT_MS`].
    ParseTimeout,
}

/// The message of each error.
pub open spec fn vision_error_text(e: VisionError) -> Seq<char> {
    match e {
        VisionError::Base64TooLong => "image base64 exceeds budget"@,
        VisionError::DecodedTooLarge => "decoded image exceeds budget"@,
        VisionError::TooManyImages => "too many images in request"@,
        VisionError::UnsupportedFormat => "unsupported image format"@,
        VisionError::ParseTimeout => "image parse timeout"@,
    }
}

/// The vision engine: sanitizing and scanning of multimodal arguments.
pub struct VisionEngine;

impl VisionError {
    /// The message of the error.
    pub fn as_str(self) -> (s: &'static str)
        ensures
            s@ == vision_error_text(self),
    {
        match self {
            VisionError::Base64TooLong => "image base64 exceeds budget",
            VisionError::DecodedTooLarge => "decoded image exceeds budget",
            VisionError::TooManyImages => "too many images in request",
            VisionError::UnsupportedFormat => "unsupported image format",
            VisionError::ParseTimeout => "image parse timeout",
        }
    }
}

// ---------------------------------------------------------------------------
// Image kinds
// ---------------------------------------------------------------------------

/// The image formats the guard knows.
#[derive(Debug, Clone, Copy, PartialEq, Eq, Structural)]
pub enum ImageKind {
    /// Starts with `FF D8 FF`.
    Jpeg,
    /// Starts with `89 50 4E 47`.
    Png,
    /// Anything else.
    Unknown,
}

/// The kind of an image, by its first bytes.
pub open spec fn image_kind(d: Seq<u8>) -> ImageKind {
    if d.len() >= 3 && d[0] == 0xFF && d[1] == 0xD8 && d[2] == 0xFF {
        ImageKind::Jpeg
    } else if d.len() >= 4 && d[0] == 0x89 && d[1] == 0x50 && d[2] == 0x4E && d[3] == 0x47 {
        ImageKind::Png
    } else {
        ImageKind::Unknown
    }
}

/// The name of each image kind.
pub open spec fn image_kind_name(k: ImageKind) -> Seq<char> {
    match k {
        ImageKind::Jpeg => "JPEG"@,
        ImageKind::Png => "PNG"@,
        ImageKind::Unknown => "UNKNOWN"@,
    }
}

/// The kind of an image, by its first bytes.
pub fn kind_of_image(bytes: &[u8]) -> (k: ImageKind)
    ensures
        k == image_kind(bytes@),
{
    let n = bytes.len();
    if n >= 3 && bytes[0] == 0xFF && bytes[1] == 0xD8 && bytes[2] == 0xFF {
        ImageKind::Jpeg
    } else if n >= 4 && bytes[0] == 0x89 && bytes[1] == 0x50 && bytes[2] == 0x4E && bytes[3]
        == 0x47 {
        ImageKind::Png
    } else {
        ImageKind::Unknown
    }
}

/// The name of the kind of an image: "JPEG", "PNG" or "UNKNOWN".
pub fn classify_image(bytes: &[u8]) -> (s: &'static str)
    ensures
        s@ == image_kind_name(image_kind(bytes@)),
{
    match kind_of_image(bytes) {
        ImageKind::Jpeg => "JPEG",
        ImageKind::Png => "PNG",
        ImageKind::Unknown => "UNKNOWN",
    }
}

/// Whether optical character recognition may run on an image: it is
/// within the decoded budget and a JPEG or a PNG (`img_type` as named by
/// [`classify_image`]); anything else fails closed.
pub fn ocr_input_ok(data: &[u8], img_type: &str) -> (r: bool)
    ensures
        r == (data@.len() <= MAX_DECODED_BYTES && (img_type@ == "JPEG"@ || img_type@ == "PNG"@)),
{
    data.len() <= MAX_DECODED_BYTES && (str_eq(img_type, "JPEG") || str_eq(img_type, "PNG"))
}

// ---------------------------------------------------------------------------
// Byte helpers
// ---------------------------------------------------------------------------

/// Appends `data[lo..hi]` to `out`.
fn append_range(out: &mut Vec<u8>, data: &[u8], lo: usize, hi: usize)
    requires
        lo <= hi <= data@.len(),
    ensures
        final(out)@ == old(out)@ + data@.subrange(lo as int, hi as int),
{
    let mut k = lo;
    while k < hi
        invariant
            lo <= k <= hi <= data@.len(),
            out@ == old(out)@ + data@.subrange(lo as int, k as int),
        decreases hi - k,
    {
        out.push(data[k]);
        k = k + 1;
        assert(out@ =~= old(out)@ + data@.subrange(lo as int, k as int));
    }
}

/// A copy of `data`.
pub fn copy_bytes(data: &[u8]) -> (out: Vec<u8>)
    ensures
        out@ == data@,
{
    let mut out: Vec<u8> = Vec::new();
    append_range(&mut out, data, 0, data.len());
    assert(out@ =~= data@);
    out
}

// ---------------------------------------------------------------------------
// JPEG: removal of APP1 (EXIF) segments
// ---------------------------------------------------------------------------

/// Big-endian value of two bytes.
pub open spec fn be16(hi: u8, lo: u8) -> int {
    hi * 256 + lo
}

/// JPEG markers that stand alone, without a length field: TEM, SOI, EOI.
pub open spec fn standalone_marker(m: u8) -> bool {
    m == 0x01 || m == 0xD8 || m == 0xD9
}

/// What the segment walk keeps of `d` from position `i` on. At `FF` and a
/// standalone marker it keeps the two bytes; at `FF`, a marker and a
/// big-endian length `L` it keeps the `2 + L` bytes of the segment unless
/// the marker is APP1 (`E1`); it keeps the rest verbatim at a byte other
/// than `FF` or where a length field or segment runs past the end; a last
/// lone byte is not kept.
pub open spec fn jpeg_kept(d: Seq<u8>, i: int) -> Seq<u8>
    decreases d.len() - i,
{
    if i + 1 >= d.len() {
        Seq::empty()
    } else if d[i] != 0xFF {
        d.subrange(i, d.len() as int)
    } else if standalone_marker(d[i + 1]) {
        seq![d[i], d[i + 1]] + jpeg_kept(d, i + 2)
    } else if i + 3 >= d.len() {
        d.subrange(i, d.len() as int)
    } else if i + 2 + be16(d[i + 2], d[i + 3]) > d.len() {
        d.subrange(i, d.len() as int)
    } else if d[i + 1] == 0xE1 {
        jpeg_kept(d, i + 2 + be16(d[i + 2], d[i + 3]))
    } else {
        d.subrange(i, i + 2 + be16(d[i + 2], d[i + 3])) + jpeg_kept(
            d,
            i + 2 + be16(d[i + 2], d[i + 3]),
        )
    }
}

/// Whether the segment walk of `d` from position `i` on meets an APP1
/// segment that fits in `d`.
pub open spec fn jpeg_drops(d: Seq<u8>, i: int) -> bool
    decreases d.len() - i,
{
    if i + 1 >= d.len() {
        false
    } else if d[i] != 0xFF {
        false
    } else if standalone_marker(d[i + 1]) {
        jpeg_drops(d, i + 2)
    } else if i + 3 >= d.len() {
        false
    } else if i + 2 + be16(d[i + 2], d[i + 3]) > d.len() {
        false
    } else if d[i + 1] == 0xE1 {
        true
    } else {
        jpeg_drops(d, i + 2 + be16(d[i + 2], d[i + 3]))
    }
}

/// Whether `d` starts like a JPEG the walk accepts: at least four bytes,
/// beginning with SOI (`FF D8`).
pub open spec fn jpeg_header(d: Seq<u8>) -> bool {
    d.len() >= 4 && d[0] == 0xFF && d[1] == 0xD8
}

/// `d` without its APP1 segments: SOI followed by what the walk keeps from
/// position 2, when the walk meets an APP1 segment; `d` itself otherwise.
pub open spec fn jpeg_stripped(d: Seq<u8>) -> Seq<u8> {
    if jpeg_header(d) && jpeg_drops(d, 2) {
        seq![0xFFu8, 0xD8u8] + jpeg_kept(d, 2)
    } else {
        d
    }
}

/// Removes the APP1 (EXIF) segments of a JPEG by walking its markers.
/// Data that does not start with SOI, and data without APP1 segments, come
/// back unchanged.
pub fn strip_jpeg_metadata(data: &[u8]) -> (out: Vec<u8>)
    ensures
        out@ == jpeg_stripped(data@),
{
    let n = data.len();
    if n < 4 || data[0] != 0xFF || data[1] != 0xD8 {
        return copy_bytes(data);
    }
    let mut out: Vec<u8> = Vec::new();
    out.push(0xFF);
    out.push(0xD8);
    let mut i: usize = 2;
    let mut changed = false;
    assert(out@ =~= seq![0xFFu8, 0xD8u8]);
    while n - i > 1
        invariant
            n == data@.len(),
            2 <= i <= n,
            out@ + jpeg_kept(data@, i as int) == seq![0xFFu8, 0xD8u8] + jpeg_kept(data@, 2),
            jpeg_drops(data@, 2) == (changed || jpeg_drops(data@, i as int)),
        decreases n - i,
    {
        let ghost d = data@;
        let ghost before = out@;
        if data[i] != 0xFF {
            append_range(&mut out, data, i, n);
            i = n;
        } else {
            let marker = data[i + 1];
            if marker == 0x01 || marker == 0xD8 || marker == 0xD9 {
                out.push(0xFF);
                out.push(marker);
                assert(out@ + jpeg_kept(d, i + 2) =~= before + jpeg_kept(d, i as int));
                i = i + 2;
            } else if n - i <= 3 {
                append_range(&mut out, data, i, n);
                i = n;
            } else {
                let seg_len = (data[i + 2] as usize) * 256 + (data[i + 3] as usize);
                let total = 2 + seg_len;
                assert(total == 2 + be16(d[i + 2], d[i + 3]));
                if total > n - i {
                    append_range(&mut out, data, i, n);
                    i = n;
                } else if marker == 0xE1 {
                    changed = true;
                    i = i + total;
                } else {
                    append_range(&mut out, data, i, i + total);
                    assert(out@ + jpeg_kept(d, (i + total) as int) =~= before + jpeg_kept(
                        d,
                        i as int,
                    ));
                    i = i + total;
                }
            }
        }
    }
    if changed {
        out
    } else {
        copy_bytes(data)
    }
}


/// What the JPEG walk keeps of `d` from `i` on is no longer than the rest of
/// `d`, and at least two bytes shorter when the walk meets an APP1 segment.
pub proof fn lemma_jpeg_kept_len(d: Seq<u8>, i: int)
    requires
        0 <= i <= d.len(),
    ensures
        jpeg_kept(d, i).len() + (if jpeg_drops(d, i) { 2int } else { 0int }) <= d.len() - i,
    decreases d.len() - i,
{
    if i + 1 >= d.len() {
    } else if d[i] != 0xFF {
    } else if standalone_marker(d[i + 1]) {
        lemma_jpeg_kept_len(d, i + 2);
    } else if i + 3 >= d.len() {
    } else if i + 2 + be16(d[i + 2], d[i + 3]) > d.len() {
    } else {
        lemma_jpeg_kept_len(d, i + 2 + be16(d[i + 2], d[i + 3]));
    }
}

/// Walking again what the JPEG walk kept, placed after any prefix `p`,
/// keeps all of it and meets no APP1 segment.
pub proof fn lemma_jpeg_rewalk(d: Seq<u8>, i: int, p: Seq<u8>)
    requires
        0 <= i <= d.len(),
    ensures
        jpeg_kept(p + jpeg_kept(d, i), p.len() as int) == jpeg_kept(d, i),
        !jpeg_drops(p + jpeg_kept(d, i), p.len() as int),
    decreases d.len() - i,
{
    let k = jpeg_kept(d, i);
    let s = p + k;
    let q = p.len() as int;
    if i + 1 >= d.len() {
        assert(s =~= p);
    } else if d[i] != 0xFF {
        assert(s.subrange(q, s.len() as int) =~= k);
    } else if standalone_marker(d[i + 1]) {
        let p2 = p + seq![d[i], d[i + 1]];
        let k2 = jpeg_kept(d, i + 2);
        lemma_jpeg_rewalk(d, i + 2, p2);
        assert(s =~= p2 + k2);
        assert(s[q] == d[i] && s[q + 1] == d[i + 1]);
        assert(jpeg_kept(s, q) =~= seq![d[i], d[i + 1]] + jpeg_kept(s, q + 2));
    } else if i + 3 >= d.len() {
        assert(s.subrange(q, s.len() as int) =~= k);
    } else if i + 2 + be16(d[i + 2], d[i + 3]) > d.len() {
        assert(s.subrange(q, s.len() as int) =~= k);
        assert(s[q + 2] == d[i + 2] && s[q + 3] == d[i + 3]);
    } else if d[i + 1] == 0xE1 {
        lemma_jpeg_rewalk(d, i + 2 + be16(d[i + 2], d[i + 3]), p);
    } else {
        let t = 2 + be16(d[i + 2], d[i + 3]);
        let seg = d.subrange(i, i + t);
        let p2 = p + seg;
        let k2 = jpeg_kept(d, i + t);
        lemma_jpeg_rewalk(d, i + t, p2);
        assert(s =~= p2 + k2);
        assert(s[q] == d[i] && s[q + 1] == d[i + 1]);
        if t >= 4 {
            assert(s[q + 2] == d[i + 2] && s[q + 3] == d[i + 3]);
            assert(s.subrange(q, q + t) =~= seg);
        } else if i + t + 1 >= d.len() {
            assert(k2 =~= Seq::<u8>::empty());
            assert(s.subrange(q, s.len() as int) =~= k);
        } else {
            assert(d[i + t] != 0xFF);
            assert(k2 =~= d.subrange(i + t, d.len() as int));
            assert(s[q + 2] == d[i + 2] && s[q + 3] == d[i + 3]);
            assert(s.subrange(q, q + t) =~= seg);
        }
    }
}

/// Law: APP1 removal leaves no APP1 segment behind, so stripping a stripped
/// JPEG changes nothing.
pub proof fn lemma_jpeg_strip_idempotent(d: Seq<u8>)
    ensures
        jpeg_stripped(jpeg_stripped(d)) == jpeg_stripped(d),
{
    if jpeg_header(d) && jpeg_drops(d, 2) {
        lemma_jpeg_rewalk(d, 2, seq![0xFFu8, 0xD8u8]);
    }
}

/// Law: APP1 removal never makes a JPEG longer, and when it changes the
/// data it makes it shorter.
pub proof fn lemma_jpeg_strip_shrinks(d: Seq<u8>)
    ensures
        jpeg_stripped(d).len() <= d.len(),
        jpeg_stripped(d) != d ==> jpeg_stripped(d).len() < d.len(),
{
    if jpeg_header(d) {
        lemma_jpeg_kept_len(d, 2);
    }
}

// ---------------------------------------------------------------------------
// PNG: removal of metadata and text chunks
// ---------------------------------------------------------------------------

/// Big-endian value of the four bytes of `d` at `i`.
pub open spec fn be32(d: Seq<u8>, i: int) -> int {
    d[i] * 16777216 + d[i + 1] * 65536 + d[i + 2] * 256 + d[i + 3]
}

/// Whether the chunk of `d` at `i` has the four-byte type `t`.
pub open spec fn chunk_type_is(d: Seq<u8>, i: int, t: Seq<u8>) -> bool {
    d[i + 4] == t[0] && d[i + 5] == t[1] && d[i + 6] == t[2] && d[i + 7] == t[3]
}

/// The chunk type `IEND`.
pub open spec fn iend_type() -> Seq<u8> {
    seq![0x49u8, 0x45u8, 0x4Eu8, 0x44u8]
}

/// Whether the chunk of `d` at `i` carries metadata or text: `eXIf`,
/// `iTXt`, `tEXt` or `zTXt`.
pub open spec fn metadata_chunk(d: Seq<u8>, i: int) -> bool {
    ||| chunk_type_is(d, i, seq![0x65u8, 0x58u8, 0x49u8, 0x66u8])
    ||| chunk_type_is(d, i, seq![0x69u8, 0x54u8, 0x58u8, 0x74u8])
    ||| chunk_type_is(d, i, seq![0x74u8, 0x45u8, 0x58u8, 0x74u8])
    ||| chunk_type_is(d, i, seq![0x7Au8, 0x54u8, 0x58u8, 0x74u8])
}

/// What the chunk walk keeps of `d` from position `i` on. A chunk is a
/// big-endian length `L`, a type, `L` data bytes and a checksum: `12 + L`
/// bytes. Metadata chunks are left out, other chunks kept; from a chunk
/// that runs past the end, or from `IEND`, the rest is kept verbatim; a
/// tail shorter than twelve bytes is not kept.
pub open spec fn png_kept(d: Seq<u8>, i: int) -> Seq<u8>
    decreases d.len() - i,
{
    if i + 12 > d.len() {
        Seq::empty()
    } else if i + 12 + be32(d, i) > d.len() {
        d.subrange(i, d.len() as int)
    } else if chunk_type_is(d, i, iend_type()) {
        d.subrange(i, d.len() as int)
    } else if metadata_chunk(d, i) {
        png_kept(d, i + 12 + be32(d, i))
    } else {
        d.subrange(i, i + 12 + be32(d, i)) + png_kept(d, i + 12 + be32(d, i))
    }
}

/// Whether the chunk walk of `d` from position `i` on meets a metadata
/// chunk that fits in `d`, before `IEND`.
pub open spec fn png_drops(d: Seq<u8>, i: int) -> bool
    decreases d.len() - i,
{
    if i + 12 > d.len() {
        false
    } else if i + 12 + be32(d, i) > d.len() {
        false
    } else if chunk_type_is(d, i, iend_type()) {
        false
    } else if metadata_chunk(d, i) {
        true
    } else {
        png_drops(d, i + 12 + be32(d, i))
    }
}

/// Whether `d` starts with the eight-byte PNG signature.
pub open spec fn png_header(d: Seq<u8>) -> bool {
    &&& d.len() >= 8
    &&& d[0] == 0x89 && d[1] == 0x50 && d[2] == 0x4E && d[3] == 0x47
    &&& d[4] == 0x0D && d[5] == 0x0A && d[6] == 0x1A && d[7] == 0x0A
}

/// `d` without its metadata chunks: the signature followed by what the walk
/// keeps from position 8, when the walk meets a metadata chunk; `d` itself
/// otherwise.
pub open spec fn png_stripped(d: Seq<u8>) -> Seq<u8> {
    if png_header(d) && png_drops(d, 8) {
        d.take(8) + png_kept(d, 8)
    } else {
        d
    }
}

/// Whether the chunk of `data` at `i` has the type `a b c e`.
fn type_at(data: &[u8], i: usize, a: u8, b: u8, c: u8, e: u8) -> (r: bool)
    requires
        i + 8 <= data.len(),
    ensures
        r == chunk_type_is(data@, i as int, seq![a, b, c, e]),
{
    data[i + 4] == a && data[i + 5] == b && data[i + 6] == c && data[i + 7] == e
}

/// Removes the eXIf, iTXt, tEXt and zTXt chunks of a PNG (metadata and
/// text layers). Data that does not start with the PNG signature, and data
/// without such chunks, come back unchanged.
pub fn strip_png_metadata(data: &[u8]) -> (out: Vec<u8>)
    ensures
        out@ == png_stripped(data@),
{
    let n = data.len();
    if n < 8 || data[0] != 0x89 || data[1] != 0x50 || data[2] != 0x4E || data[3] != 0x47
        || data[4] != 0x0D || data[5] != 0x0A || data[6] != 0x1A || data[7] != 0x0A {
        return copy_bytes(data);
    }
    let mut out: Vec<u8> = Vec::new();
    append_range(&mut out, data, 0, 8);
    let mut i: usize = 8;
    let mut changed = false;
    while i <= n && 12 <= n - i
        invariant
            n == data@.len(),
            8 <= i <= n,
            out@ + png_kept(data@, i as int) == data@.take(8) + png_kept(data@, 8),
            png_drops(data@, 8) == (changed || png_drops(data@, i as int)),
        decreases n - i,
    {
        let ghost d = data@;
        let ghost before = out@;
        let len: u64 = (data[i] as u64) * 16777216 + (data[i + 1] as u64) * 65536
            + (data[i + 2] as u64) * 256 + (data[i + 3] as u64);
        let total: u64 = 12 + len;
        assert(total == 12 + be32(d, i as int));
        if total > (n - i) as u64 {
            append_range(&mut out, data, i, n);
            i = n;
        } else if type_at(data, i, 0x49, 0x45, 0x4E, 0x44) {
            assert(chunk_type_is(d, i as int, iend_type()));
            append_range(&mut out, data, i, n);
            i = n;
        } else {
            let t = total as usize;
            proof {
                assert(!chunk_type_is(d, i as int, iend_type()));
            }
            if type_at(data, i, 0x65, 0x58, 0x49, 0x66) || type_at(data, i, 0x69, 0x54, 0x58, 0x74)
                || type_at(data, i, 0x74, 0x45, 0x58, 0x74) || type_at(
                data,
                i,
                0x7A,
                0x54,
                0x58,
                0x74,
            ) {
                changed = true;
                i = i + t;
            } else {
                append_range(&mut out, data, i, i + t);
                assert(out@ + png_kept(d, (i + t) as int) =~= before + png_kept(d, i as int));
                i = i + t;
            }
        }
    }
    if changed {
        out
    } else {
        copy_bytes(data)
    }
}

/// What the PNG walk keeps of `d` from `i` on is no longer than the rest of
/// `d`, and at least twelve bytes shorter when the walk meets a metadata
/// chunk.
pub proof fn lemma_png_kept_len(d: Seq<u8>, i: int)
    requires
        0 <= i <= d.len(),
    ensures
        png_kept(d, i).len() + (if png_drops(d, i) { 12int } else { 0int }) <= d.len() - i,
    decreases d.len() - i,
{
    if i + 12 > d.len() {
    } else if i + 12 + be32(d, i) > d.len() {
    } else if chunk_type_is(d, i, iend_type()) {
    } else {
        lemma_png_kept_len(d, i + 12 + be32(d, i));
    }
}

/// Walking again what the PNG walk kept, placed after any prefix `p`, keeps
/// all of it and meets no metadata chunk.
pub proof fn lemma_png_rewalk(d: Seq<u8>, i: int, p: Seq<u8>)
    requires
        0 <= i <= d.len(),
    ensures
        png_kept(p + png_kept(d, i), p.len() as int) == png_kept(d, i),
        !png_drops(p + png_kept(d, i), p.len() as int),
    decreases d.len() - i,
{
    let k = png_kept(d, i);
    let s = p + k;
    let q = p.len() as int;
    if i + 12 > d.len() {
        assert(s =~= p);
    } else if metadata_chunk(d, i) && i + 12 + be32(d, i) <= d.len() && !chunk_type_is(
        d,
        i,
        iend_type(),
    ) {
        lemma_png_rewalk(d, i + 12 + be32(d, i), p);
    } else {
        assert(k.len() >= 12 && k[0] == d[i] && k[1] == d[i + 1] && k[2] == d[i + 2] && k[3] == d[
            i + 3
        ]);
        assert(k[4] == d[i + 4] && k[5] == d[i + 5] && k[6] == d[i + 6] && k[7] == d[i + 7]);
        assert(s[q] == d[i] && s[q + 1] == d[i + 1] && s[q + 2] == d[i + 2] && s[q + 3] == d[i + 3]);
        assert(s[q + 4] == d[i + 4] && s[q + 5] == d[i + 5] && s[q + 6] == d[i + 6] && s[q + 7]
            == d[i + 7]);
        assert(be32(s, q) == be32(d, i));
        if i + 12 + be32(d, i) > d.len() {
            assert(s.subrange(q, s.len() as int) =~= k);
        } else if chunk_type_is(d, i, iend_type()) {
            assert(s.subrange(q, s.len() as int) =~= k);
        } else {
            let t = 12 + be32(d, i);
            let seg = d.subrange(i, i + t);
            let p2 = p + seg;
            let k2 = png_kept(d, i + t);
            lemma_png_rewalk(d, i + t, p2);
            assert(s =~= p2 + k2);
            assert(s.subrange(q, q + t) =~= seg);
        }
    }
}

/// Law: removal of metadata chunks leaves none behind, so stripping a
/// stripped PNG changes nothing.
pub proof fn lemma_png_strip_idempotent(d: Seq<u8>)
    ensures
        png_stripped(png_stripped(d)) == png_stripped(d),
{
    if png_header(d) && png_drops(d, 8) {
        lemma_png_rewalk(d, 8, d.take(8));
        let s = d.take(8) + png_kept(d, 8);
        assert(s.take(8) =~= d.take(8));
    }
}

/// Whether the chunk walk of `d` from position `i` on visits a complete
/// chunk at `q` before reaching `IEND`: chunks follow one another, each
/// `12 + L` bytes long for its big-endian length `L`.
pub open spec fn chunk_visited(d: Seq<u8>, i: int, q: int) -> bool
    decreases d.len() - i,
{
    if i < 0 || i + 12 > d.len() || i + 12 + be32(d, i) > d.len() || chunk_type_is(d, i, iend_type()) {
        false
    } else if q == i {
        true
    } else {
        chunk_visited(d, i + 12 + be32(d, i), q)
    }
}

/// A walk that meets no metadata chunk visits none.
proof fn lemma_undropped_walk_clean(d: Seq<u8>, i: int, q: int)
    requires
        !png_drops(d, i),
        chunk_visited(d, i, q),
    ensures
        !metadata_chunk(d, q),
    decreases d.len() - i,
{
    if q != i {
        lemma_undropped_walk_clean(d, i + 12 + be32(d, i), q);
    }
}

/// Law: a stripped PNG keeps no `eXIf`, `iTXt`, `tEXt` or `zTXt` chunk:
/// no complete chunk that its chunk walk visits before `IEND` has one of
/// these four types.
pub proof fn lemma_png_strip_removes_metadata_chunks(d: Seq<u8>, q: int)
    requires
        png_header(d),
        chunk_visited(png_stripped(d), 8, q),
    ensures
        !chunk_type_is(png_stripped(d), q, seq![0x65u8, 0x58u8, 0x49u8, 0x66u8]),
        !chunk_type_is(png_stripped(d), q, seq![0x69u8, 0x54u8, 0x58u8, 0x74u8]),
        !chunk_type_is(png_stripped(d), q, seq![0x74u8, 0x45u8, 0x58u8, 0x74u8]),
        !chunk_type_is(png_stripped(d), q, seq![0x7Au8, 0x54u8, 0x58u8, 0x74u8]),
{
    let s = png_stripped(d);
    if png_drops(d, 8) {
        lemma_png_rewalk(d, 8, d.take(8));
        assert(d.take(8).len() == 8);
    }
    lemma_undropped_walk_clean(s, 8, q);
}

/// Law: removal of metadata chunks never makes a PNG longer, and when it
/// changes the data it makes it shorter.
pub proof fn lemma_png_strip_shrinks(d: Seq<u8>)
    ensures
        png_stripped(d).len() <= d.len(),
        png_stripped(d) != d ==> png_stripped(d).len() < d.len(),
{
    if png_header(d) {
        lemma_png_kept_len(d, 8);
    }
}

// ---------------------------------------------------------------------------
// Text layers
// ---------------------------------------------------------------------------

/// The phrases that mark text found in an image as malicious, each with the
/// rule it falls under, in priority order. Phrases are lowercase.
pub open spec fn ocr_rules() -> Seq<(Seq<char>, Seq<char>)> {
    seq![
        ("ignore previous instructions"@, "prompt injection"@),
        ("ignore all instructions"@, "prompt injection"@),
        ("reveal your system prompt"@, "prompt injection"@),
        ("system prompt"@, "prompt injection"@),
        ("disregard"@, "prompt injection"@),
        ("rm -rf"@, "destructive command"@),
        ("--no-preserve-root"@, "destructive command"@),
        ("drop database"@, "sql injection"@),
        ("drop table"@, "sql injection"@),
        ("sk-proj-"@, "api key"@),
        ("api_key="@, "credential"@),
        ("aws_secret"@, "credential"@),
        ("exfil"@, "exfiltration"@),
        ("/etc/shadow"@, "credential access"@),
        ("| bash"@, "command execution"@),
        ("evil.sh"@, "malicious script"@),
    ]
}

/// The rules of [`ocr_rules`], as string slices.
fn ocr_rule_table() -> (v: Vec<(&'static str, &'static str)>)
    ensures
        v@.map_values(|r: (&str, &str)| (r.0@, r.1@)) == ocr_rules(),
{
    let v = vec![
        ("ignore previous instructions", "prompt injection"),
        ("ignore all instructions", "prompt injection"),
        ("reveal your system prompt", "prompt injection"),
        ("system prompt", "prompt injection"),
        ("disregard", "prompt injection"),
        ("rm -rf", "destructive command"),
        ("--no-preserve-root", "destructive command"),
        ("drop database", "sql injection"),
        ("drop table", "sql injection"),
        ("sk-proj-", "api key"),
        ("api_key=", "credential"),
        ("aws_secret", "credential"),
        ("exfil", "exfiltration"),
        ("/etc/shadow", "credential access"),
        ("| bash", "command execution"),
        ("evil.sh", "malicious script"),
    ];
    assert(v@.map_values(|r: (&str, &str)| (r.0@, r.1@)) =~= ocr_rules());
    v
}

/// The rule of the first phrase of `rules`, from index `k` on, that occurs
/// in `lower`.
pub open spec fn first_rule_hit(lower: Seq<char>, rules: Seq<(Seq<char>, Seq<char>)>, k: int) -> Option<
    Seq<char>,
>
    decreases rules.len() - k,
{
    if k < 0 || k >= rules.len() {
        None
    } else if contains(lower, rules[k].0) {
        Some(rules[k].1)
    } else {
        first_rule_hit(lower, rules, k + 1)
    }
}

/// The rule under which `text` is malicious: that of the first phrase of
/// [`ocr_rules`] that occurs in the lowercase of `text`.
pub open spec fn malicious_rule(text: Seq<char>) -> Option<Seq<char>> {
    first_rule_hit(unicode_lowercase(text), ocr_rules(), 0)
}

/// The rule under which `text` is malicious, if any: the first listed
/// phrase found in the lowercase text decides.
pub fn find_malicious_pattern(text: &str) -> (r: Option<&'static str>)
    ensures
        r is None <==> malicious_rule(text@) is None,
        r matches Some(rule) ==> malicious_rule(text@) == Some(rule@),
{
    let lower = to_lowercase(text);
    let rules = ocr_rule_table();
    let ghost rv = rules@.map_values(|r: (&str, &str)| (r.0@, r.1@));
    let mut k: usize = 0;
    while k < rules.len()
        invariant
            k <= rules@.len(),
            rv == ocr_rules(),
            rv.len() == rules@.len(),
            forall|j: int| 0 <= j < rules@.len() ==> #[trigger] rv[j] == (rules@[j].0@, rules@[j].1@),
            first_rule_hit(lower@, rv, 0) == first_rule_hit(lower@, rv, k as int),
            lower@ == unicode_lowercase(text@),
        decreases rules.len() - k,
    {
        let (phrase, rule) = rules[k];
        assert(rv[k as int] == (phrase@, rule@));
        if str_contains(lower.as_str(), phrase) {
            return Some(rule);
        }
        k = k + 1;
    }
    None
}

/// Whether a byte is printable ASCII (space to tilde).
pub open spec fn printable(b: u8) -> bool {
    0x20 <= b <= 0x7E
}

/// The runs of printable bytes of `d` from position `i` on, as text, the
/// current run having gathered `cur`: each maximal run of at least six
/// printable bytes, in order.
pub open spec fn runs_from(d: Seq<u8>, i: int, cur: Seq<char>) -> Seq<Seq<char>>
    decreases d.len() - i,
{
    if i >= d.len() {
        if cur.len() >= 6 {
            seq![cur]
        } else {
            Seq::empty()
        }
    } else if printable(d[i]) {
        runs_from(d, i + 1, cur.push(d[i] as char))
    } else {
        (if cur.len() >= 6 {
            seq![cur]
        } else {
            Seq::empty()
        }) + runs_from(d, i + 1, Seq::empty())
    }
}

/// The maximal runs of at least six printable bytes of `d`, as text.
pub open spec fn ascii_runs(d: Seq<u8>) -> Seq<Seq<char>> {
    runs_from(d, 0, Seq::empty())
}

/// The lines of `parts` joined by line feeds.
pub open spec fn joined_lines(parts: Seq<Seq<char>>) -> Seq<char>
    decreases parts.len(),
{
    if parts.len() == 0 {
        Seq::empty()
    } else if parts.len() == 1 {
        parts[0]
    } else {
        joined_lines(parts.drop_last()) + seq!['\n'] + parts.last()
    }
}

/// The maximal runs of at least six printable bytes of `data`, as strings.
pub fn printable_runs(data: &[u8]) -> (runs: Vec<String>)
    ensures
        runs@.map_values(|r: String| r@) == ascii_runs(data@),
{
    let mut runs: Vec<String> = Vec::new();
    let mut cur = String::new();
    let mut i: usize = 0;
    assert(runs@.map_values(|r: String| r@) =~= Seq::<Seq<char>>::empty());
    while i < data.len()
        invariant
            i <= data@.len(),
            runs@.map_values(|r: String| r@) + runs_from(data@, i as int, cur@) == ascii_runs(
                data@,
            ),
        decreases data.len() - i,
    {
        let ghost r0 = runs@.map_values(|r: String| r@);
        let ghost c0 = cur@;
        let b = data[i];
        if 0x20 <= b && b <= 0x7E {
            push_char(&mut cur, b as char);
        } else {
            if cur.as_str().unicode_len() >= 6 {
                runs.push(cur);
                assert(runs@.map_values(|r: String| r@) =~= r0.push(c0));
                assert(r0.push(c0) + runs_from(data@, i + 1, Seq::empty()) =~= r0 + (seq![c0]
                    + runs_from(data@, i + 1, Seq::empty())));
            } else {
                assert(r0 + runs_from(data@, i + 1, Seq::empty()) =~= r0 + (Seq::empty()
                    + runs_from(data@, i + 1, Seq::empty())));
            }
            cur = String::new();
        }
        i = i + 1;
    }
    let ghost r0 = runs@.map_values(|r: String| r@);
    if cur.as_str().unicode_len() >= 6 {
        let ghost c0 = cur@;
        runs.push(cur);
        assert(runs@.map_values(|r: String| r@) =~= r0 + seq![c0]);
    } else {
        assert(r0 + Seq::<Seq<char>>::empty() =~= r0);
    }
    runs
}

/// The strings of `parts` joined by line feeds.
pub fn join_lines(parts: &Vec<String>) -> (s: String)
    ensures
        s@ == joined_lines(parts@.map_values(|r: String| r@)),
{
    let ghost pv = parts@.map_values(|r: String| r@);
    let mut s = String::new();
    let mut k: usize = 0;
    while k < parts.len()
        invariant
            k <= parts@.len(),
            pv == parts@.map_values(|r: String| r@),
            s@ == joined_lines(pv.take(k as int)),
        decreases parts.len() - k,
    {
        if k > 0 {
            push_char(&mut s, '\n');
        }
        s.append(parts[k].as_str());
        k = k + 1;
        assert(pv.take(k as int).drop_last() =~= pv.take(k - 1));
    }
    assert(pv.take(k as int) =~= pv);
    s
}

/// The text layer found by scanning the raw bytes of an image: the runs of
/// at least six printable ASCII bytes joined by line feeds, if there is
/// one.
pub open spec fn ascii_text_layer(d: Seq<u8>) -> Option<Seq<char>> {
    if ascii_runs(d).len() == 0 {
        None
    } else {
        Some(joined_lines(ascii_runs(d)))
    }
}

/// The text embedded in an image: what optical character recognition read
/// (`ocr`, when it ran and read something), otherwise the printable byte
/// runs of the image.
pub open spec fn embedded_text(d: Seq<u8>, ocr: Option<Seq<char>>) -> Option<Seq<char>> {
    match ocr {
        Some(t) => Some(t),
        None => ascii_text_layer(d),
    }
}

/// The characters of an optional string.
pub open spec fn string_opt_view(o: Option<String>) -> Option<Seq<char>> {
    match o {
        Some(t) => Some(t@),
        None => None,
    }
}

/// The text embedded in an image. `ocr_text` is what optical character
/// recognition of the image read, if it ran and read something; without it
/// the printable ASCII runs of at least six bytes are extracted instead,
/// joined by line feeds.
pub fn extract_embedded_text(data: &[u8], ocr_text: Option<String>) -> (r: Option<String>)
    ensures
        r matches Some(t) ==> embedded_text(data@, string_opt_view(ocr_text)) == Some(t@),
        r is None <==> embedded_text(data@, string_opt_view(ocr_text)) is None,
{
    match ocr_text {
        Some(t) => Some(t),
        None => {
            let runs = printable_runs(data);
            if runs.len() == 0 {
                return None;
            }
            Some(join_lines(&runs))
        },
    }
}

// ---------------------------------------------------------------------------
// Base64 image data URIs in text
// ---------------------------------------------------------------------------

/// The start of an image data URI: `data:image/`.
pub open spec fn uri_prefix() -> Seq<char> {
    seq!['d', 'a', 't', 'a', ':', 'i', 'm', 'a', 'g', 'e', '/']
}

/// What separates the media type of an image data URI from its payload:
/// `;base64,`.
pub open spec fn b64_marker() -> Seq<char> {
    seq![';', 'b', 'a', 's', 'e', '6', '4', ',']
}

/// The position of the first `;` of `h` at or after `k`, or the length of
/// `h` when there is none.
pub open spec fn semi_from(h: Seq<char>, k: int) -> int
    decreases h.len() - k,
{
    if k >= h.len() {
        h.len() as int
    } else if h[k] == ';' {
        k
    } else {
        semi_from(h, k + 1)
    }
}

/// The end of the run of base64 characters of `h` that starts at `k`.
pub open spec fn b64_end(h: Seq<char>, k: int) -> int
    decreases h.len() - k,
{
    if k >= h.len() {
        h.len() as int
    } else if is_b64_char(h[k]) {
        b64_end(h, k + 1)
    } else {
        k
    }
}

/// The payload span (start, end) of the image data URI that starts at `s`
/// in `h`, if one does: `data:image/`, a media subtype of at least one
/// character other than `;`, `;base64,`, and the longest nonempty run of
/// base64 characters. This is what the pattern
/// `data:image/[^;]+;base64,([a-zA-Z0-9+/=]+)` matches at `s`, its group
/// being the payload.
pub open spec fn uri_payload_at(h: Seq<char>, s: int) -> Option<(int, int)> {
    if occurs_at(h, uri_prefix(), s) && semi_from(h, s + 11) > s + 11 && occurs_at(
        h,
        b64_marker(),
        semi_from(h, s + 11),
    ) && b64_end(h, semi_from(h, s + 11) + 8) > semi_from(h, s + 11) + 8 {
        Some((semi_from(h, s + 11) + 8, b64_end(h, semi_from(h, s + 11) + 8)))
    } else {
        None
    }
}

/// Bounds of [`b64_end`].
pub proof fn lemma_b64_end_bounds(h: Seq<char>, k: int)
    requires
        k <= h.len(),
    ensures
        k <= b64_end(h, k) <= h.len(),
    decreases h.len() - k,
{
    if k < h.len() && is_b64_char(h[k]) {
        lemma_b64_end_bounds(h, k + 1);
    }
}

/// A payload found at `s` lies after `s` and within `h`.
pub proof fn lemma_payload_bounds(h: Seq<char>, s: int)
    ensures
        uri_payload_at(h, s) matches Some((g, e)) ==> s < g < e <= h.len(),
{
    if uri_payload_at(h, s) is Some {
        lemma_b64_end_bounds(h, semi_from(h, s + 11) + 8);
    }
}

/// The image data URIs of `h` found by searching from `from` on, the last
/// one having ended at `p`: for each, the text between the end of the
/// previous one and its payload, and the payload. Searches go left to right
/// and do not overlap.
pub open spec fn uri_pieces(h: Seq<char>, p: int, from: int) -> Seq<(Seq<char>, Seq<char>)>
    decreases h.len() - from,
{
    if from >= h.len() {
        Seq::empty()
    } else {
        match uri_payload_at(h, from) {
            Some((g, e)) => {
                proof {
                    lemma_payload_bounds(h, from);
                }
                seq![(h.subrange(p, g), h.subrange(g, e))] + uri_pieces(h, e, e)
            },
            None => uri_pieces(h, p, from + 1),
        }
    }
}

/// The text of `h` after the last image data URI found by searching from
/// `from` on, the last one before having ended at `p`.
pub open spec fn uri_tail(h: Seq<char>, p: int, from: int) -> Seq<char>
    decreases h.len() - from,
{
    if from >= h.len() {
        h.subrange(p, h.len() as int)
    } else {
        match uri_payload_at(h, from) {
            Some((g, e)) => {
                proof {
                    lemma_payload_bounds(h, from);
                }
                uri_tail(h, e, e)
            },
            None => uri_tail(h, p, from + 1),
        }
    }
}

/// The image data URIs of `h`, as (text before the payload, payload).
pub open spec fn image_uris(h: Seq<char>) -> Seq<(Seq<char>, Seq<char>)> {
    uri_pieces(h, 0, 0)
}

/// The text of `h` after its last image data URI.
pub open spec fn image_uri_tail(h: Seq<char>) -> Seq<char> {
    uri_tail(h, 0, 0)
}

/// Where the search finds no image data URI, the text after the last one
/// is all the text from `p` on.
proof fn lemma_no_uris_tail(h: Seq<char>, p: int, from: int)
    requires
        0 <= p <= from,
        uri_pieces(h, p, from).len() == 0,
    ensures
        uri_tail(h, p, from) == h.subrange(p, h.len() as int),
    decreases h.len() - from,
{
    if from < h.len() {
        match uri_payload_at(h, from) {
            Some((g, e)) => {
                lemma_payload_bounds(h, from);
            },
            None => {
                lemma_no_uris_tail(h, p, from + 1);
            },
        }
    }
}

/// Text without image data URIs is all tail.
pub proof fn lemma_no_images_all_tail(h: Seq<char>)
    requires
        image_uris(h).len() == 0,
    ensures
        image_uri_tail(h) == h,
{
    lemma_no_uris_tail(h, 0, 0);
    assert(h.subrange(0, h.len() as int) =~= h);
}

/// The first `;` of `h` at or after `k`.
fn semi_pos(h: &Vec<char>, k: usize) -> (r: usize)
    requires
        k <= h.len(),
    ensures
        r == semi_from(h@, k as int),
        k <= r <= h.len(),
{
    let mut j = k;
    while j < h.len()
        invariant
            k <= j <= h@.len(),
            semi_from(h@, j as int) == semi_from(h@, k as int),
        decreases h.len() - j,
    {
        if h[j] == ';' {
            return j;
        }
        j = j + 1;
    }
    j
}

/// The end of the run of base64 characters of `h` that starts at `k`.
fn b64_end_pos(h: &Vec<char>, k: usize) -> (r: usize)
    requires
        k <= h.len(),
    ensures
        r == b64_end(h@, k as int),
        k <= r <= h.len(),
{
    let mut j = k;
    while j < h.len()
        invariant
            k <= j <= h@.len(),
            b64_end(h@, j as int) == b64_end(h@, k as int),
        decreases h.len() - j,
    {
        let c = h[j];
        if !(('a' <= c && c <= 'z') || ('A' <= c && c <= 'Z') || ('0' <= c && c <= '9') || c
            == '+' || c == '/' || c == '=') {
            return j;
        }
        j = j + 1;
    }
    j
}

/// The payload span of the image data URI that starts at `s`, if one does.
fn payload_at(h: &Vec<char>, s: usize, prefix: &Vec<char>, marker: &Vec<char>) -> (r: Option<
    (usize, usize),
>)
    requires
        prefix@ == uri_prefix(),
        marker@ == b64_marker(),
        s < h.len(),
    ensures
        r is None <==> uri_payload_at(h@, s as int) is None,
        r matches Some((g, e)) ==> uri_payload_at(h@, s as int) == Some((g as int, e as int))
            && e <= h.len(),
{
    if !occurs_exact_at(h, prefix, s) {
        return None;
    }
    let q = semi_pos(h, s + 11);
    if q > s + 11 && occurs_exact_at(h, marker, q) {
        let g = q + 8;
        let e = b64_end_pos(h, g);
        if e > g {
            return Some((g, e));
        }
    }
    None
}

/// The image data URIs of `arguments`, each as the text before its payload
/// and the payload, and the text after the last one.
pub fn image_payloads(arguments: &str) -> (r: (Vec<(String, String)>, String))
    ensures
        r.0@.map_values(|p: (String, String)| (p.0@, p.1@)) == image_uris(arguments@),
        r.1@ == image_uri_tail(arguments@),
{
    let h = chars_of(arguments);
    let prefix = vec!['d', 'a', 't', 'a', ':', 'i', 'm', 'a', 'g', 'e', '/'];
    let marker = vec![';', 'b', 'a', 's', 'e', '6', '4', ','];
    assert(prefix@ =~= uri_prefix());
    assert(marker@ =~= b64_marker());
    let mut pieces: Vec<(String, String)> = Vec::new();
    let mut p: usize = 0;
    let mut from: usize = 0;
    assert(pieces@.map_values(|p: (String, String)| (p.0@, p.1@)) =~= Seq::<
        (Seq<char>, Seq<char>),
    >::empty());
    while from < h.len()
        invariant
            h@ == arguments@,
            prefix@ == uri_prefix(),
            marker@ == b64_marker(),
            p <= from <= h.len(),
            pieces@.map_values(|p: (String, String)| (p.0@, p.1@)) + uri_pieces(
                h@,
                p as int,
                from as int,
            ) == image_uris(h@),
            uri_tail(h@, p as int, from as int) == image_uri_tail(h@),
        decreases h.len() - from,
    {
        let ghost before = pieces@.map_values(|p: (String, String)| (p.0@, p.1@));
        match payload_at(&h, from, &prefix, &marker) {
            Some((g, e)) => {
                let text = string_from_chars(&h, p, g);
                let payload = string_from_chars(&h, g, e);
                pieces.push((text, payload));
                assert(pieces@.map_values(|p: (String, String)| (p.0@, p.1@)) =~= before.push(
                    (h@.subrange(p as int, g as int), h@.subrange(g as int, e as int)),
                ));
                assert(before.push((h@.subrange(p as int, g as int), h@.subrange(g as int, e as int)))
                    + uri_pieces(h@, e as int, e as int) =~= before + uri_pieces(
                    h@,
                    p as int,
                    from as int,
                ));
                p = e;
                from = e;
            },
            None => {
                from = from + 1;
            },
        }
    }
    let tail = string_from_chars(&h, p, h.len());
    assert(pieces@.map_values(|p: (String, String)| (p.0@, p.1@)) + Seq::<
        (Seq<char>, Seq<char>),
    >::empty() =~= pieces@.map_values(|p: (String, String)| (p.0@, p.1@)));
    (pieces, tail)
}

// ---------------------------------------------------------------------------
// Sanitizing and scanning the images of a request
// ---------------------------------------------------------------------------

/// The budget error of the payloads of `uris` from index `k` on, checked in
/// order: a payload longer than [`MAX_B64_LEN`] (payloads are ASCII, so
/// characters and bytes agree), or one image more than [`MAX_IMAGES`].
pub open spec fn budget_error(uris: Seq<(Seq<char>, Seq<char>)>, k: int) -> Option<VisionError>
    decreases uris.len() - k,
{
    if k < 0 || k >= uris.len() {
        None
    } else if uris[k].1.len() > MAX_B64_LEN {
        Some(VisionError::Base64TooLong)
    } else if k + 1 > MAX_IMAGES {
        Some(VisionError::TooManyImages)
    } else {
        budget_error(uris, k + 1)
    }
}

/// The image of a payload, once decoded and checked: too large, not JPEG or
/// PNG, or not base64 is an error.
pub open spec fn decoded_image(payload: Seq<char>) -> Result<Seq<u8>, VisionError> {
    match base64_decoded(payload) {
        None => Err(VisionError::UnsupportedFormat),
        Some(bytes) => if bytes.len() > MAX_DECODED_BYTES {
            Err(VisionError::DecodedTooLarge)
        } else if image_kind(bytes) == ImageKind::Unknown {
            Err(VisionError::UnsupportedFormat)
        } else {
            Ok(bytes)
        },
    }
}

/// An image without its metadata, by its kind.
pub open spec fn stripped_image(bytes: Seq<u8>) -> Seq<u8> {
    if image_kind(bytes) == ImageKind::Jpeg {
        jpeg_stripped(bytes)
    } else {
        png_stripped(bytes)
    }
}

/// The payload that replaces `payload`: the base64 text of the image
/// without its metadata.
pub open spec fn cleaned_payload(payload: Seq<char>) -> Result<Seq<char>, VisionError> {
    match decoded_image(payload) {
        Ok(bytes) => Ok(base64_encoded(stripped_image(bytes))),
        Err(e) => Err(e),
    }
}

/// `r` with `o` put in front of its text.
pub open spec fn prepend_text(o: Seq<char>, r: Result<Seq<char>, VisionError>) -> Result<
    Seq<char>,
    VisionError,
> {
    match r {
        Ok(x) => Ok(o + x),
        Err(e) => Err(e),
    }
}

/// The text of `uris` from index `k` on with each payload cleaned; the
/// first payload that cannot be cleaned decides the error.
pub open spec fn cleaned_from(uris: Seq<(Seq<char>, Seq<char>)>, k: int) -> Result<
    Seq<char>,
    VisionError,
>
    decreases uris.len() - k,
{
    if k < 0 || k >= uris.len() {
        Ok(Seq::empty())
    } else {
        match cleaned_payload(uris[k].1) {
            Err(e) => Err(e),
            Ok(c) => prepend_text(uris[k].0 + c, cleaned_from(uris, k + 1)),
        }
    }
}

/// The arguments with every embedded image replaced by its cleaned
/// payload, or the error that refuses them.
pub open spec fn sanitized_arguments(h: Seq<char>) -> Result<Seq<char>, VisionError> {
    match budget_error(image_uris(h), 0) {
        Some(e) => Err(e),
        None => match cleaned_from(image_uris(h), 0) {
            Ok(body) => Ok(body + image_uri_tail(h)),
            Err(e) => Err(e),
        },
    }
}

/// Checks the payloads of `uris` against the budgets, in order.
fn check_budget(uris: &Vec<(String, String)>) -> (r: Option<VisionError>)
    ensures
        r == budget_error(uris@.map_values(|p: (String, String)| (p.0@, p.1@)), 0),
{
    let ghost uv = uris@.map_values(|p: (String, String)| (p.0@, p.1@));
    let mut k: usize = 0;
    while k < uris.len()
        invariant
            k <= uris@.len(),
            uv == uris@.map_values(|p: (String, String)| (p.0@, p.1@)),
            budget_error(uv, 0) == budget_error(uv, k as int),
        decreases uris.len() - k,
    {
        assert(uv[k as int] == (uris@[k as int].0@, uris@[k as int].1@));
        if uris[k].1.as_str().unicode_len() > MAX_B64_LEN {
            return Some(VisionError::Base64TooLong);
        }
        if k + 1 > MAX_IMAGES {
            return Some(VisionError::TooManyImages);
        }
        k = k + 1;
    }
    None
}

/// Decodes a payload and checks the image against the budget and the known
/// formats.
fn decode_image(payload: &str) -> (r: Result<Vec<u8>, VisionError>)
    ensures
        r matches Ok(v) ==> decoded_image(payload@) == Ok::<Seq<u8>, VisionError>(v@),
        r matches Err(e) ==> decoded_image(payload@) == Err::<Seq<u8>, VisionError>(e),
{
    match b64_decode(payload) {
        None => Err(VisionError::UnsupportedFormat),
        Some(bytes) => {
            if bytes.len() > MAX_DECODED_BYTES {
                Err(VisionError::DecodedTooLarge)
            } else if kind_of_image(bytes.as_slice()) == ImageKind::Unknown {
                Err(VisionError::UnsupportedFormat)
            } else {
                Ok(bytes)
            }
        },
    }
}

/// The cleaned payload that replaces `payload`.
fn clean_payload(payload: &str) -> (r: Result<String, VisionError>)
    ensures
        r matches Ok(c) ==> cleaned_payload(payload@) == Ok::<Seq<char>, VisionError>(c@),
        r matches Err(e) ==> cleaned_payload(payload@) == Err::<Seq<char>, VisionError>(e),
{
    match decode_image(payload) {
        Err(e) => Err(e),
        Ok(bytes) => {
            let stripped = match kind_of_image(bytes.as_slice()) {
                ImageKind::Jpeg => strip_jpeg_metadata(bytes.as_slice()),
                _ => strip_png_metadata(bytes.as_slice()),
            };
            Ok(b64_encode(stripped.as_slice()))
        },
    }
}


/// What optical character recognition read from image `k`, if it ran and
/// read something.
pub open spec fn ocr_read(ocr: Seq<Option<Seq<char>>>, k: int) -> Option<Seq<char>> {
    if 0 <= k < ocr.len() {
        ocr[k]
    } else {
        None
    }
}

/// The malicious text (with its rule) embedded in the image of `payload`,
/// given what recognition read from it; an image that cannot be decoded
/// and checked is an error.
pub open spec fn image_threat(payload: Seq<char>, ocr: Option<Seq<char>>) -> Result<
    Option<(Seq<char>, Seq<char>)>,
    VisionError,
> {
    match decoded_image(payload) {
        Err(e) => Err(e),
        Ok(bytes) => match embedded_text(bytes, ocr) {
            None => Ok(None),
            Some(t) => match malicious_rule(t) {
                Some(rule) => Ok(Some((t, rule))),
                None => Ok(None),
            },
        },
    }
}

/// The first threat among the images of `uris` from index `k` on; an image
/// that cannot be decoded and checked before one is found is an error.
pub open spec fn threat_from(
    uris: Seq<(Seq<char>, Seq<char>)>,
    ocr: Seq<Option<Seq<char>>>,
    k: int,
) -> Result<Option<(Seq<char>, Seq<char>)>, VisionError>
    decreases uris.len() - k,
{
    if k < 0 || k >= uris.len() {
        Ok(None)
    } else {
        match image_threat(uris[k].1, ocr_read(ocr, k)) {
            Err(e) => Err(e),
            Ok(Some(x)) => Ok(Some(x)),
            Ok(None) => threat_from(uris, ocr, k + 1),
        }
    }
}

/// The verdict on the images embedded in `h`: the budget error, or the
/// first threat, `ocr[k]` being what recognition read from image `k`.
pub open spec fn ocr_threat(h: Seq<char>, ocr: Seq<Option<Seq<char>>>) -> Result<
    Option<(Seq<char>, Seq<char>)>,
    VisionError,
> {
    match budget_error(image_uris(h), 0) {
        Some(e) => Err(e),
        None => threat_from(image_uris(h), ocr, 0),
    }
}

/// The characters of each optional string.
pub open spec fn string_opts_view(v: Seq<Option<String>>) -> Seq<Option<Seq<char>>> {
    v.map_values(|o: Option<String>| string_opt_view(o))
}

/// The views of an optional (text, rule) pair.
pub open spec fn threat_view(t: Option<(String, &str)>) -> Option<(Seq<char>, Seq<char>)> {
    match t {
        Some((text, rule)) => Some((text@, rule@)),
        None => None,
    }
}

/// The budget refuses only for a long payload or too many images.
proof fn lemma_budget_error_kind(uris: Seq<(Seq<char>, Seq<char>)>, k: int)
    ensures
        budget_error(uris, k) matches Some(e) ==> e != VisionError::ParseTimeout,
    decreases uris.len() - k,
{
    if 0 <= k < uris.len() {
        lemma_budget_error_kind(uris, k + 1);
    }
}

/// Every image of `uris` before index `k` could be cleaned.
pub open spec fn cleaned_before(uris: Seq<(Seq<char>, Seq<char>)>, k: int) -> bool {
    forall|j: int| 0 <= j < k ==> (#[trigger] cleaned_payload(uris[j].1)) is Ok
}

/// Every image of `uris` before index `k` was decoded and found clean,
/// `ocr[j]` being what recognition read from image `j`.
pub open spec fn clean_before(uris: Seq<(Seq<char>, Seq<char>)>, ocr: Seq<Option<Seq<char>>>, k: int) -> bool {
    forall|j: int| 0 <= j < k ==> #[trigger] image_threat(uris[j].1, ocr_read(ocr, j))
        == Ok::<Option<(Seq<char>, Seq<char>)>, VisionError>(None)
}

impl VisionEngine {
    /// Sanitizes the images embedded in tool arguments as base64 data URIs:
    /// each is decoded, stripped of its metadata (JPEG EXIF segments, PNG
    /// metadata and text chunks) and re-encoded in place. With visual
    /// redaction off, or without images, the arguments come back unchanged.
    /// A payload over budget, too many images, a payload that is not base64,
    /// an image too large or of an unknown format refuse the request. The
    /// time budget is checked between images, before each image after the
    /// first: running past it, which the clock decides, refuses the request
    /// once the images before have been cleaned.
    pub fn sanitize_multimodal(arguments: &str, config: &ManagedRulesConfig) -> (r: Result<
        String,
        VisionError,
    >)
        ensures
            !config.visual_pii_redaction ==> (r matches Ok(o) && o@ == arguments@),
            config.visual_pii_redaction ==> {
                &&& budget_error(image_uris(arguments@), 0) matches Some(e) ==> r == Err::<
                    String,
                    VisionError,
                >(e)
                &&& r matches Ok(o) ==> sanitized_arguments(arguments@) == Ok::<
                    Seq<char>,
                    VisionError,
                >(o@)
                &&& r matches Err(e) ==> e == VisionError::ParseTimeout || sanitized_arguments(
                    arguments@,
                ) == Err::<Seq<char>, VisionError>(e)
                &&& image_uris(arguments@).len() == 0 ==> (r matches Ok(o) && o@ == arguments@)
                &&& r matches Err(VisionError::ParseTimeout) ==> exists|k: int|
                    0 < k < image_uris(arguments@).len() && #[trigger] cleaned_before(
                        image_uris(arguments@),
                        k,
                    )
            },
    {
        if !config.visual_pii_redaction {
            return Ok(copy_str(arguments));
        }
        proof {
            if image_uris(arguments@).len() == 0 {
                lemma_no_images_all_tail(arguments@);
            }
        }
        let (uris, tail) = image_payloads(arguments);
        let ghost uv = uris@.map_values(|p: (String, String)| (p.0@, p.1@));
        proof {
            lemma_budget_error_kind(uv, 0);
        }
        if let Some(e) = check_budget(&uris) {
            return Err(e);
        }
        let started = clock_now();
        let mut out = String::new();
        let mut k: usize = 0;
        assert(out@ + Seq::empty() =~= Seq::<char>::empty());
        while k < uris.len()
            invariant
                config.visual_pii_redaction,
                k <= uris@.len(),
                uv == uris@.map_values(|p: (String, String)| (p.0@, p.1@)),
                uv == image_uris(arguments@),
                tail@ == image_uri_tail(arguments@),
                budget_error(uv, 0) is None,
                prepend_text(out@, cleaned_from(uv, k as int)) == cleaned_from(uv, 0),
                forall|j: int| 0 <= j < k ==> (#[trigger] cleaned_payload(uv[j].1)) is Ok,
                uv.len() == 0 ==> out@.len() == 0,
            decreases uris.len() - k,
        {
            if k > 0 {
                let elapsed = time_since(&started);
                if whole_millis(&elapsed) > PARSE_TIMEOUT_MS {
                    assert(cleaned_before(uv, k as int));
                    return Err(VisionError::ParseTimeout);
                }
            }
            assert(uv[k as int] == (uris@[k as int].0@, uris@[k as int].1@));
            match clean_payload(uris[k].1.as_str()) {
                Err(e) => {
                    return Err(e);
                },
                Ok(c) => {
                    let ghost before = out@;
                    out.append(uris[k].0.as_str());
                    out.append(c.as_str());
                    assert(out@ =~= before + (uv[k as int].0 + c@));
                    assert(forall|x: Seq<char>| #![auto] before + ((uv[k as int].0 + c@) + x) =~= out@ + x);
                },
            }
            k = k + 1;
        }
        out.append(tail.as_str());
        Ok(out)
    }

    /// Scans the images embedded in tool arguments for malicious text
    /// layers. `ocr_texts[k]` is what optical character recognition read
    /// from the `k`-th image, where it ran and read something; without it
    /// the printable byte runs of the image are scanned. Returns the
    /// malicious text with its rule for the first image that has one,
    /// `None` when all are clean (and always with visual redaction off or
    /// without images); budget and format errors as for sanitizing. The time
    /// budget is checked before each image after the first, as for
    /// sanitizing.
    pub fn detect_malicious_ocr(
        arguments: &str,
        config: &ManagedRulesConfig,
        ocr_texts: &Vec<Option<String>>,
    ) -> (r: Result<Option<(String, &'static str)>, VisionError>)
        ensures
            !config.visual_pii_redaction ==> (r matches Ok(None)),
            config.visual_pii_redaction ==> {
                &&& budget_error(image_uris(arguments@), 0) matches Some(e) ==> r == Err::<
                    Option<(String, &'static str)>,
                    VisionError,
                >(e)
                &&& r matches Ok(t) ==> ocr_threat(arguments@, string_opts_view(ocr_texts@))
                    == Ok::<Option<(Seq<char>, Seq<char>)>, VisionError>(threat_view(t))
                &&& r matches Err(e) ==> e == VisionError::ParseTimeout || ocr_threat(
                    arguments@,
                    string_opts_view(ocr_texts@),
                ) == Err::<Option<(Seq<char>, Seq<char>)>, VisionError>(e)
                &&& image_uris(arguments@).len() == 0 ==> (r matches Ok(None))
                &&& r matches Err(VisionError::ParseTimeout) ==> exists|k: int|
                    0 < k < image_uris(arguments@).len() && #[trigger] clean_before(
                        image_uris(arguments@),
                        string_opts_view(ocr_texts@),
                        k,
                    )
            },
    {
        if !config.visual_pii_redaction {
            return Ok(None);
        }
        let (uris, _tail) = image_payloads(arguments);
        let ghost uv = uris@.map_values(|p: (String, String)| (p.0@, p.1@));
        let ghost ov = string_opts_view(ocr_texts@);
        proof {
            lemma_budget_error_kind(uv, 0);
        }
        if let Some(e) = check_budget(&uris) {
            return Err(e);
        }
        let started = clock_now();
        let mut k: usize = 0;
        while k < uris.len()
            invariant
                config.visual_pii_redaction,
                k <= uris@.len(),
                uv == uris@.map_values(|p: (String, String)| (p.0@, p.1@)),
                uv == image_uris(arguments@),
                ov == string_opts_view(ocr_texts@),
                budget_error(uv, 0) is None,
                threat_from(uv, ov, 0) == threat_from(uv, ov, k as int),
                forall|j: int| 0 <= j < k ==> #[trigger] image_threat(uv[j].1, ocr_read(ov, j))
                    == Ok::<Option<(Seq<char>, Seq<char>)>, VisionError>(None),
            decreases uris.len() - k,
        {
            if k > 0 {
                let elapsed = time_since(&started);
                if whole_millis(&elapsed) > PARSE_TIMEOUT_MS {
                    assert(clean_before(uv, ov, k as int));
                    return Err(VisionError::ParseTimeout);
                }
            }
            assert(uv[k as int] == (uris@[k as int].0@, uris@[k as int].1@));
            let bytes = match decode_image(uris[k].1.as_str()) {
                Err(e) => {
                    return Err(e);
                },
                Ok(b) => b,
            };
            let read: Option<String> = if k < ocr_texts.len() {
                match &ocr_texts[k] {
                    Some(t) => Some(copy_str(t.as_str())),
                    None => None,
                }
            } else {
                None
            };
            assert(string_opt_view(read) == ocr_read(ov, k as int));
            if let Some(text) = extract_embedded_text(bytes.as_slice(), read) {
                if let Some(rule) = find_malicious_pattern(text.as_str()) {
                    return Ok(Some((text, rule)));
                }
            }
            k = k + 1;
        }
        Ok(None)
    }
}


} // verus!


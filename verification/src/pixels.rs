//! The pixel stream of a result: eight bytes per pixel, `zn` then `count`,
//! each a big-endian binary32.

use crate::bytes::{
    lemma_u32_be_bytes_round_trip, spec_u32_at, spec_u32_to_be, u32_from_be, u32_to_be,
};
use crate::types::PixelIntensity;
use vstd::prelude::*;

verus! {

/// Bytes that one pixel takes on the wire.
pub const PIXEL_BYTES: usize = 8;

/// The pixel whose record starts at byte `8 * i` of `s`.
pub open spec fn spec_pixel_at(s: Seq<u8>, i: int) -> PixelIntensity
    recommends
        0 <= i,
        8 * i + 8 <= s.len(),
{
    PixelIntensity { zn: spec_u32_at(s, 8 * i) as u32, count: spec_u32_at(s, 8 * i + 4) as u32 }
}

/// The pixels of a stream: one per complete record; a last incomplete
/// record is not a pixel.
pub open spec fn spec_decode_pixels(s: Seq<u8>) -> Seq<PixelIntensity> {
    Seq::new((s.len() / 8) as nat, |i: int| spec_pixel_at(s, i))
}

/// The eight bytes of one pixel.
pub open spec fn spec_pixel_bytes(p: PixelIntensity) -> Seq<u8> {
    spec_u32_to_be(p.zn) + spec_u32_to_be(p.count)
}

/// The stream of a sequence of pixels.
pub open spec fn spec_encode_pixels(pixels: Seq<PixelIntensity>) -> Seq<u8> {
    Seq::new(8 * pixels.len(), |j: int| spec_pixel_bytes(pixels[j / 8])[j % 8])
}

/// Whether a stream is a whole number of pixel records.
pub open spec fn spec_is_pixel_stream(s: Seq<u8>) -> bool {
    s.len() % 8 == 0
}

/// Decodes a pixel stream. Trailing bytes that do not fill a record are
/// ignored.
pub fn format_data_to_pixel_intensity_vector(datas: &Vec<u8>) -> (pixels: Vec<PixelIntensity>)
    ensures
        pixels@ == spec_decode_pixels(datas@),
{
    let n: usize = datas.len() / PIXEL_BYTES;
    let mut pixel_intensities: Vec<PixelIntensity> = Vec::new();
    let mut i: usize = 0;
    while i < n
        invariant
            n == datas.len() / 8,
            i <= n,
            pixel_intensities.len() == i,
            forall|k: int| 0 <= k < i ==> pixel_intensities[k] == spec_pixel_at(datas@, k),
        decreases n - i,
    {
        let at: usize = i * PIXEL_BYTES;
        let zn = u32_from_be(datas[at], datas[at + 1], datas[at + 2], datas[at + 3]);
        let count = u32_from_be(datas[at + 4], datas[at + 5], datas[at + 6], datas[at + 7]);
        pixel_intensities.push(PixelIntensity::new(zn, count));
        i += 1;
    }
    assert(pixel_intensities@ =~= spec_decode_pixels(datas@));
    pixel_intensities
}

/// Appends the stream of `pixels` to `datas`: the payload of a result is
/// the task identifier followed by the pixels.
pub fn append_pixel_intensities(datas: Vec<u8>, pixels: &Vec<PixelIntensity>) -> (payload: Vec<u8>)
    ensures
        payload@ == datas@ + spec_encode_pixels(pixels@),
{
    let mut payload = datas;
    let ghost head = payload@;
    let mut i: usize = 0;
    while i < pixels.len()
        invariant
            i <= pixels.len(),
            payload@ == head + spec_encode_pixels(pixels@.take(i as int)),
        decreases pixels.len() - i,
    {
        let ghost before = payload@;
        let zn = u32_to_be(pixels[i].zn);
        let count = u32_to_be(pixels[i].count);
        payload.push(zn[0]);
        payload.push(zn[1]);
        payload.push(zn[2]);
        payload.push(zn[3]);
        payload.push(count[0]);
        payload.push(count[1]);
        payload.push(count[2]);
        payload.push(count[3]);
        i += 1;
        proof {
            let prev = pixels@.take(i - 1);
            let next = pixels@.take(i as int);
            assert(payload@ =~= before + spec_pixel_bytes(pixels@[i - 1]));
            assert(spec_encode_pixels(next) =~= spec_encode_pixels(prev) + spec_pixel_bytes(
                pixels@[i - 1],
            )) by {
                assert forall|j: int| 0 <= j < 8 * next.len() implies spec_encode_pixels(next)[j]
                    == (spec_encode_pixels(prev) + spec_pixel_bytes(pixels@[i - 1]))[j] by {
                    if j < 8 * prev.len() {
                        assert(next[j / 8] == prev[j / 8]);
                    } else {
                        assert(j / 8 == i - 1);
                        assert(j % 8 == j - 8 * prev.len());
                    }
                }
            }
        }
    }
    assert(pixels@.take(pixels.len() as int) =~= pixels@);
    payload
}

/// Decoding the stream of a sequence of pixels gives the sequence back.
pub proof fn lemma_pixels_round_trip(pixels: Seq<PixelIntensity>)
    ensures
        spec_is_pixel_stream(spec_encode_pixels(pixels)),
        spec_decode_pixels(spec_encode_pixels(pixels)) == pixels,
{
    let s = spec_encode_pixels(pixels);
    assert forall|i: int| 0 <= i < pixels.len() implies spec_pixel_at(s, i) == pixels[i] by {
        let p = pixels[i];
        assert forall|c: int| 0 <= c < 8 implies s[8 * i + c] == spec_pixel_bytes(p)[c] by {
            assert((8 * i + c) / 8 == i);
            assert((8 * i + c) % 8 == c);
        }
        assert(s[8 * i] == spec_pixel_bytes(p)[0]);
        assert(s[8 * i + 1] == spec_pixel_bytes(p)[1]);
        assert(s[8 * i + 2] == spec_pixel_bytes(p)[2]);
        assert(s[8 * i + 3] == spec_pixel_bytes(p)[3]);
        assert(s[8 * i + 4] == spec_pixel_bytes(p)[4]);
        assert(s[8 * i + 5] == spec_pixel_bytes(p)[5]);
        assert(s[8 * i + 6] == spec_pixel_bytes(p)[6]);
        assert(s[8 * i + 7] == spec_pixel_bytes(p)[7]);
        crate::bytes::lemma_u32_be_round_trip(p.zn);
        crate::bytes::lemma_u32_be_round_trip(p.count);
    }
    assert(spec_decode_pixels(s) =~= pixels);
}

/// Encoding the pixels of a whole stream gives the stream back.
pub proof fn lemma_stream_round_trip(s: Seq<u8>)
    requires
        spec_is_pixel_stream(s),
    ensures
        spec_encode_pixels(spec_decode_pixels(s)) == s,
{
    let pixels = spec_decode_pixels(s);
    assert forall|j: int| 0 <= j < s.len() implies spec_encode_pixels(pixels)[j] == s[j] by {
        let i = j / 8;
        let c = j % 8;
        let p = pixels[i];
        lemma_u32_be_bytes_round_trip(s[8 * i], s[8 * i + 1], s[8 * i + 2], s[8 * i + 3]);
        lemma_u32_be_bytes_round_trip(s[8 * i + 4], s[8 * i + 5], s[8 * i + 6], s[8 * i + 7]);
        assert(spec_pixel_bytes(p) =~= seq![
            s[8 * i],
            s[8 * i + 1],
            s[8 * i + 2],
            s[8 * i + 3],
            s[8 * i + 4],
            s[8 * i + 5],
            s[8 * i + 6],
            s[8 * i + 7],
        ]);
    }
    assert(spec_encode_pixels(pixels) =~= s);
}

} // verus!

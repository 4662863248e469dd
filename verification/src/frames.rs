//! The native client's panel frames: the engine's binary frame format and
//! JPEG decoding into RGB pixels.
//!
//! Wire format of a binary frame (little-endian):
//! `[u8 panelId len N][N bytes panelId][u32 frameNumber][u16 w][u16 h]`
//! `[u64 engineTimestampMs][JPEG bytes...]`
use vstd::prelude::*;
use zune_jpeg::zune_core::colorspace::ColorSpace;
use zune_jpeg::zune_core::options::DecoderOptions;
use zune_jpeg::JpegDecoder;

verus! {

/// A decoded panel frame, ready to upload to a texture (RGB24).
#[derive(Debug)]
pub struct DecodedFrame {
    pub width: u32,
    pub height: u32,
    /// The decoded pixels: `width * height * 3` bytes in RGB order for a
    /// colour image (one byte per pixel for a grayscale one).
    pub rgb: Vec<u8>,
}

/// A tap, in the source panel's pixel coordinates, to forward to the
/// engine as a `panel.input` message.
#[derive(Debug, Clone, Copy)]
pub struct InputEvent {
    pub x: u32,
    pub y: u32,
}

/// A little-endian 16-bit value.
pub open spec fn le16(lo: u8, hi: u8) -> u16 {
    (lo as int + hi as int * 256) as u16
}

/// The header fields a frame carries and the JPEG bytes that follow them:
/// `(width, height, jpeg)`, or `None` when the buffer is shorter than its
/// header.
pub open spec fn spec_parse_frame(buf: Seq<u8>) -> Option<(u16, u16, Seq<u8>)> {
    if buf.len() == 0 {
        None
    } else {
        let n = buf[0] as int;
        if buf.len() < 1 + n + 16 {
            None
        } else {
            let off = 1 + n + 4;
            Some(
                (
                    le16(buf[off], buf[off + 1]),
                    le16(buf[off + 2], buf[off + 3]),
                    buf.subrange(off + 12, buf.len() as int),
                ),
            )
        }
    }
}

/// Parses a binary frame into (width, height, JPEG bytes); the panel id,
/// frame number and timestamp are skipped.
pub fn parse_frame(buf: &[u8]) -> (r: Option<(u16, u16, &[u8])>)
    ensures
        match r {
            Some((w, h, jpeg)) => spec_parse_frame(buf@) == Some((w, h, jpeg@)),
            None => spec_parse_frame(buf@) is None,
        },
{
    if buf.len() == 0 {
        return None;
    }
    let n = buf[0] as usize;
    let mut off: usize = 1;
    if buf.len() < off + n + 16 {
        return None;
    }
    off = off + n;
    off = off + 4;
    let width: u16 = buf[off] as u16 + (buf[off + 1] as u16) * 256;
    off = off + 2;
    let height: u16 = buf[off] as u16 + (buf[off + 1] as u16) * 256;
    off = off + 2;
    off = off + 8;
    Some((width, height, &buf[off..buf.len()]))
}

/// What decoding a JPEG into RGB pixels gives: `(pixels, width, height)`,
/// or `None` when the data does not decode.
pub uninterp spec fn jpeg_rgb(data: Seq<u8>) -> Option<(Seq<u8>, usize, usize)>;

/// `zune_jpeg::JpegDecoder` with RGB output: `decode` and then `dimensions`.
/// The pixels are named `jpeg_rgb`. From the crate's source: the image size
/// is read from 16-bit header fields. The buffer's length is left unsaid: it
/// is `width * height * 3` for colour images, but a grayscale image decodes
/// to one byte per pixel.
#[verifier::external_body]
fn jpeg_decode_rgb(jpeg: &[u8]) -> (r: Option<(Vec<u8>, usize, usize)>)
    ensures
        match r {
            Some((px, w, h)) => {
                &&& jpeg_rgb(jpeg@) == Some((px@, w, h))
                &&& w <= u16::MAX && h <= u16::MAX
            },
            None => jpeg_rgb(jpeg@) is None,
        },
{
    let opts = DecoderOptions::default().jpeg_set_out_colorspace(ColorSpace::RGB);
    let mut dec = JpegDecoder::new_with_options(jpeg, opts);
    let rgb = dec.decode().ok()?;
    let (w, h) = dec.dimensions()?;
    Some((rgb, w, h))
}

impl DecodedFrame {
    /// A frame from decoded pixels and the image size.
    pub fn from_decoded(rgb: Vec<u8>, width: usize, height: usize) -> (r: Self)
        ensures
            r.width == width as u32,
            r.height == height as u32,
            r.rgb@ == rgb@,
    {
        DecodedFrame { width: width as u32, height: height as u32, rgb }
    }
}

/// Decodes a JPEG frame into RGB pixels.
pub fn decode_jpeg(jpeg: &[u8]) -> (r: Option<DecodedFrame>)
    ensures
        match jpeg_rgb(jpeg@) {
            Some((px, w, h)) => r is Some && r->0.width == w && r->0.height == h && r->0.rgb@ == px,
            None => r is None,
        },
{
    match jpeg_decode_rgb(jpeg) {
        Some((rgb, w, h)) => Some(DecodedFrame::from_decoded(rgb, w, h)),
        None => None,
    }
}

} // verus!

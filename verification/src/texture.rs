//! Decoding the PNG image of a texture with `minipng`. An image whose
//! header cannot be read is an error; an image whose pixels cannot be
//! decoded is replaced by the placeholder image, one pixel wide and high.
use vstd::prelude::*;

use crate::error::NUError;

verus! {

/// What `minipng::decode_png_header` gives for the bytes `data`: the
/// number of bytes that decoding needs (`ImageHeader::required_bytes`), or
/// the message of its error.
pub uninterp spec fn png_header_of(data: Seq<u8>) -> Result<usize, Seq<char>>;

/// What `minipng::decode_png` gives for the bytes `data` and the buffer
/// `buf`: the width and height of the image, or the message of its error,
/// and the contents of the buffer afterwards.
pub uninterp spec fn png_decode_of(data: Seq<u8>, buf: Seq<u8>) -> (
    Result<(u32, u32), Seq<char>>,
    Seq<u8>,
);

/// The view of a result whose error is a message.
pub open spec fn message_result<T>(r: Result<T, String>) -> Result<T, Seq<char>> {
    match r {
        Ok(v) => Ok(v),
        Err(m) => Err(m@),
    }
}

/// Reads the header of the PNG image `data` with
/// `minipng::decode_png_header`, and gives the number of bytes decoding
/// needs or the error's message. The result is only named.
#[verifier::external_body]
fn png_header(data: &Vec<u8>) -> (res: Result<usize, String>)
    ensures
        message_result(res) == png_header_of(data@),
{
    match minipng::decode_png_header(data.as_slice()) {
        Ok(header) => Ok(header.required_bytes()),
        Err(e) => Err(e.to_string()),
    }
}

/// Decodes the PNG image `data` into `buf` with `minipng::decode_png`, and
/// gives its width and height or the error's message. The result and the
/// buffer's new contents are only named; the buffer keeps its length.
#[verifier::external_body]
fn png_decode(data: &Vec<u8>, buf: &mut Vec<u8>) -> (res: Result<(u32, u32), String>)
    ensures
        message_result(res) == png_decode_of(data@, old(buf)@).0,
        final(buf)@ == png_decode_of(data@, old(buf)@).1,
{
    match minipng::decode_png(data.as_slice(), buf.as_mut_slice()) {
        Ok(image) => Ok((image.width(), image.height())),
        Err(e) => Err(e.to_string()),
    }
}

/// A decoded texture: its width and height in pixels, and its bytes.
pub struct DecodedTexture {
    pub width: u32,
    pub height: u32,
    pub pixels: Vec<u8>,
}

/// What decoding gives once the header is read and `required` zero bytes
/// are handed to the decoder: the image, or the placeholder where the
/// pixels cannot be decoded.
pub open spec fn texture_from_decode(
    data: Seq<u8>,
    required: usize,
    placeholder: Seq<u8>,
) -> (u32, u32, Seq<u8>) {
    let zeros = Seq::new(required as nat, |i: int| 0u8);
    let (r, pixels) = png_decode_of(data, zeros);
    match r {
        Ok((w, h)) => (w, h, pixels),
        Err(_) => (1, 1, placeholder),
    }
}

/// Decodes a texture once its header is read: `required` is the number of
/// bytes the decoder needs.
pub fn decode_pixels(data: &Vec<u8>, required: usize, placeholder: &Vec<u8>) -> (res:
    DecodedTexture)
    ensures
        (res.width, res.height, res.pixels@) == texture_from_decode(
            data@,
            required,
            placeholder@,
        ),
{
    let mut buffer: Vec<u8> = Vec::new();
    let mut i: usize = 0;
    while i < required
        invariant
            i <= required,
            buffer@ =~= Seq::new(i as nat, |j: int| 0u8),
        decreases required - i,
    {
        buffer.push(0);
        i = i + 1;
    }
    match png_decode(data, &mut buffer) {
        Ok((width, height)) => DecodedTexture { width, height, pixels: buffer },
        Err(_) => DecodedTexture { width: 1, height: 1, pixels: placeholder.clone() },
    }
}

/// Decodes the PNG texture `data`: an error with the header's problem where
/// its header cannot be read; else the decoded image, or `placeholder` as a
/// one-pixel image where its pixels cannot be decoded.
pub fn decode_texture(data: &Vec<u8>, placeholder: &Vec<u8>) -> (res: Result<
    DecodedTexture,
    NUError,
>)
    ensures
        match png_header_of(data@) {
            Err(msg) => res matches Err(NUError::MiniPNGError(m)) && m@ == msg,
            Ok(required) => res matches Ok(t) && (t.width, t.height, t.pixels@)
                == texture_from_decode(data@, required, placeholder@),
        },
{
    match png_header(data) {
        Err(msg) => Err(NUError::MiniPNGError(msg)),
        Ok(required) => Ok(decode_pixels(data, required, placeholder)),
    }
}

} // verus!

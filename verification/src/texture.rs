//! Texture resources as the verified core sees them: decoded RGBA pixels
//! with their dimensions, and a depth buffer sized to the surface.
//!
//! Decoding an encoded image is the one piece of outside work the core calls
//! directly.  The decoder's result is named, the call is wrapped, and
//! everything after the decode is verified against that name; bytes that do
//! not decode are reported to the caller, never replaced by a placeholder.

use vstd::prelude::*;

verus! {

use crate::state::SurfaceConfig;

/// Why building a texture failed.
#[derive(Clone, Copy, PartialEq, Eq, Structural, Debug)]
pub enum TextureError {
    /// The encoded bytes are not a supported image.
    Decode,
}

/// What a texture holds: decoded color pixels to upload, or a depth
/// attachment that has dimensions only.
#[derive(Clone, Copy, PartialEq, Eq, Structural, Debug)]
pub enum TextureKind {
    /// A sampled color texture with RGBA8 pixels.
    Color,
    /// The depth attachment; its dimensions follow the surface.
    Depth,
}

/// What decoding yields for given encoded bytes: the RGBA8 width, height and
/// pixel bytes when the bytes decode, nothing when they do not.  Decoding is
/// a function of the encoded bytes alone.
pub uninterp spec fn decoded_rgba(bytes: Seq<u8>) -> Option<(u32, u32, Seq<u8>)>;

#[verifier::external_type_specification]
#[verifier::external_body]
pub struct ExImageError(image::ImageError);

/// Relies on `image::load_from_memory`, whose result is a function of the
/// encoded bytes alone, and on `image::DynamicImage::to_rgba8` with
/// `image::ImageBuffer::into_raw`, which lay the decoded image out as four
/// RGBA bytes per pixel.
#[verifier::external_body]
fn decode_rgba(bytes: &Vec<u8>) -> (r: Result<(u32, u32, Vec<u8>), image::ImageError>)
    ensures
        r is Ok <==> decoded_rgba(bytes@) is Some,
        r matches Ok(t) ==> decoded_rgba(bytes@) == Some((t.0, t.1, t.2@)) && t.2@.len() == 4
            * t.0 * t.1,
{
    match image::load_from_memory(bytes.as_slice()) {
        Ok(img) => {
            let rgba = img.to_rgba8();
            let width = rgba.width();
            let height = rgba.height();
            Ok((width, height, rgba.into_raw()))
        }
        Err(e) => Err(e),
    }
}

/// A texture resource as the core tracks it: dimensions, kind, and for color
/// textures the raw RGBA8 pixels, four bytes per pixel, which the host
/// uploads row by row (`4 * width` bytes per row).
pub struct Texture {
    /// Width in pixels.
    pub width: u32,
    /// Height in pixels.
    pub height: u32,
    /// Color or depth.
    pub kind: TextureKind,
    /// RGBA8 pixels of a color texture; empty for a depth texture.
    pub rgba: Vec<u8>,
}

impl Texture {
    /// A texture is well formed when a color texture holds exactly four
    /// bytes per pixel and a depth texture holds none and has area.
    pub open spec fn wf(self) -> bool {
        &&& self.kind is Color ==> self.rgba@.len() == 4 * self.width * self.height
        &&& self.kind is Depth ==> self.rgba@.len() == 0 && self.width >= 1 && self.height >= 1
    }

    /// Builds a color texture from already-decoded RGBA8 pixels with the
    /// given dimensions.
    pub fn from_image(width: u32, height: u32, rgba: Vec<u8>) -> (t: Texture)
        requires
            rgba@.len() == 4 * width * height,
        ensures
            t == (Texture { width, height, kind: TextureKind::Color, rgba }),
            t.wf(),
    {
        Texture { width, height, kind: TextureKind::Color, rgba }
    }

    /// Builds a color texture by decoding encoded image bytes.  Succeeds
    /// exactly when the bytes decode; undecodable bytes are reported as a
    /// decode error.
    pub fn from_bytes(bytes: &Vec<u8>) -> (r: Result<Texture, TextureError>)
        ensures
            r is Ok <==> decoded_rgba(bytes@) is Some,
            r matches Ok(t) ==> {
                &&& decoded_rgba(bytes@) == Some((t.width, t.height, t.rgba@))
                &&& t.kind is Color
                &&& t.wf()
            },
            r matches Err(e) ==> e is Decode,
    {
        match decode_rgba(bytes) {
            Ok((width, height, rgba)) => Ok(Texture::from_image(width, height, rgba)),
            Err(_) => Err(TextureError::Decode),
        }
    }

    /// Builds the depth texture for the current surface configuration: its
    /// dimensions follow the surface, floored at one pixel so the allocation
    /// never has zero area.
    pub fn create_depth_texture(config: &SurfaceConfig) -> (t: Texture)
        ensures
            t.width == (if config.width >= 1 {
                config.width
            } else {
                1u32
            }),
            t.height == (if config.height >= 1 {
                config.height
            } else {
                1u32
            }),
            t.kind is Depth,
            t.rgba@.len() == 0,
            t.wf(),
    {
        let width = if config.width >= 1 {
            config.width
        } else {
            1
        };
        let height = if config.height >= 1 {
            config.height
        } else {
            1
        };
        Texture { width, height, kind: TextureKind::Depth, rgba: Vec::new() }
    }
}

} // verus!

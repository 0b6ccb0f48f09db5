//! Decoded texture data, brought in from encoded image bytes.

use vstd::prelude::*;

verus! {

/// Whether the image decoder accepts these encoded bytes.
pub uninterp spec fn image_decodes(bytes: Seq<u8>) -> bool;

/// The pixel width the decoder reads from these encoded bytes.
pub uninterp spec fn image_width_of(bytes: Seq<u8>) -> u32;

/// The pixel height the decoder reads from these encoded bytes.
pub uninterp spec fn image_height_of(bytes: Seq<u8>) -> u32;

/// The packed RGBA pixels the decoder produces from these encoded bytes.
pub uninterp spec fn image_rgba_of(bytes: Seq<u8>) -> Seq<u8>;

/// Relies on `image::load_from_memory` and on `DynamicImage::width`,
/// `DynamicImage::height` and `DynamicImage::to_rgba8`: decoding is a pure
/// function of the encoded bytes; it succeeds exactly when the format is
/// recognized and well-formed; and the RGBA buffer holds four bytes per
/// pixel, `4 * width * height` in all (an `ImageBuffer`'s container length
/// is always width times height times the channel count).
#[verifier::external_body]
fn decode_rgba(bytes: &Vec<u8>) -> (r: Option<(u32, u32, Vec<u8>)>)
    ensures
        r is Some <==> image_decodes(bytes@),
        r matches Some(t) ==> {
            &&& t.0 == image_width_of(bytes@)
            &&& t.1 == image_height_of(bytes@)
            &&& t.2@ == image_rgba_of(bytes@)
            &&& t.2@.len() == 4 * (t.0 as int) * (t.1 as int)
        },
{
    match image::load_from_memory(bytes) {
        Ok(img) => {
            let w = img.width();
            let h = img.height();
            Some((w, h, img.to_rgba8().into_raw()))
        },
        Err(_) => None,
    }
}

/// Why texture loading failed.
#[derive(Clone, Copy, PartialEq, Eq, Structural, Debug)]
pub enum TextureError {
    /// The bytes are not a readable image.
    Undecodable,
}

/// A decoded texture: its extent and its packed RGBA pixels.
#[derive(Clone, Debug)]
pub struct TextureData {
    pub width: u32,
    pub height: u32,
    pub rgba: Vec<u8>,
}

/// The pixel buffer holds exactly four bytes per pixel.
pub open spec fn texture_wf(t: TextureData) -> bool {
    t.rgba@.len() == 4 * (t.width as int) * (t.height as int)
}

/// Decodes encoded image bytes into a texture.  Succeeds exactly when the
/// decoder accepts the bytes, and then returns their decoded extent and
/// pixels; reports the failure otherwise rather than handing back an empty
/// texture.
pub fn load_texture(bytes: &Vec<u8>) -> (r: Result<TextureData, TextureError>)
    ensures
        r is Ok <==> image_decodes(bytes@),
        r is Ok ==> {
            &&& texture_wf(r->Ok_0)
            &&& r->Ok_0.width == image_width_of(bytes@)
            &&& r->Ok_0.height == image_height_of(bytes@)
            &&& r->Ok_0.rgba@ == image_rgba_of(bytes@)
        },
        r is Err ==> r == Err::<TextureData, TextureError>(TextureError::Undecodable),
{
    match decode_rgba(bytes) {
        Some((width, height, rgba)) => Ok(TextureData { width, height, rgba }),
        None => Err(TextureError::Undecodable),
    }
}

} // verus!

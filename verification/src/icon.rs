//! Images decoded from PNG bytes: the window icon, and the spectrogram pictures that
//! the user opens.
use vstd::prelude::*;

verus! {

/// An image as 8-bit RGBA pixels, row by row.
pub struct RgbaPixels {
    pub width: u32,
    pub height: u32,
    pub pixels: Vec<u8>,
}

/// What the `image` crate decodes from `bytes`: width, height and RGBA pixels, or
/// the text of its error.
pub uninterp spec fn decoded_image(bytes: Seq<u8>) -> Result<(u32, u32, Seq<u8>), Seq<char>>;

/// `image::load_from_memory`, which guesses the format from the bytes and decodes
/// them, followed by the conversion to 8-bit RGBA (`to_rgba8`); a failure comes
/// back as the text of the `ImageError`. Its outcome is named `decoded_image` of the
/// bytes, and nothing more is claimed of it.
#[verifier::external_body]
pub(crate) fn decode_image(bytes: &[u8]) -> (res: Result<RgbaPixels, String>)
    ensures
        match decoded_image(bytes@) {
            Ok((w, h, p)) => res matches Ok(r) && r.width == w && r.height == h && r.pixels@ == p,
            Err(m) => res matches Err(e) && e@ == m,
        },
{
    match image::load_from_memory(bytes) {
        Ok(img) => {
            let rgba = img.to_rgba8();
            let (width, height) = rgba.dimensions();
            Ok(RgbaPixels { width, height, pixels: rgba.into_raw() })
        },
        Err(e) => Err(e.to_string()),
    }
}

/// The icon of the window from the embedded PNG; `None` where it does not decode.
pub fn load_icon(png: &[u8]) -> (res: Option<RgbaPixels>)
    ensures
        match decoded_image(png@) {
            Ok((w, h, p)) => res matches Some(r) && r.width == w && r.height == h && r.pixels@ == p,
            Err(_) => res is None,
        },
{
    match decode_image(png) {
        Ok(r) => Some(r),
        Err(_) => None,
    }
}

/// A spectrogram picture from the bytes of its file; where they do not decode, the
/// decoder's message behind "Ошибка загрузки PNG: ".
pub fn load_spectrogram(bytes: &[u8]) -> (res: Result<RgbaPixels, String>)
    ensures
        match decoded_image(bytes@) {
            Ok((w, h, p)) => res matches Ok(r) && r.width == w && r.height == h && r.pixels@ == p,
            Err(m) => res matches Err(e) && e@ == load_error(m),
        },
{
    match decode_image(bytes) {
        Ok(r) => Ok(r),
        Err(m) => Err(load_error_text(m.as_str())),
    }
}

/// The message of a picture that cannot be loaded.
pub open spec fn load_error(reason: Seq<char>) -> Seq<char> {
    "Ошибка загрузки PNG: "@ + reason
}

/// The message of a picture that cannot be loaded: reading its file or decoding it
/// failed for `reason`.
pub fn load_error_text(reason: &str) -> (res: String)
    ensures
        res@ == load_error(reason@),
{
    let mut t = String::from_str("Ошибка загрузки PNG: ");
    t.append(reason);
    t
}

} // verus!

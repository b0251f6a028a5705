//! Rendering a secret's payload as a textual QR code, through the
//! qrcode crate.

use vstd::prelude::*;

verus! {

/// Whether the byte payload fits in a QR code at the medium
/// error-correction level that the encoder selects on its own.
pub uninterp spec fn qr_fits(data: Seq<u8>) -> bool;

/// The textual image that qrcode's dense unicode renderer produces for
/// the payload, with dark and light colours swapped relative to the
/// renderer's default: a function of the bytes alone.
pub uninterp spec fn qr_image_of(data: Seq<u8>) -> Seq<char>;

#[verifier::external_type_specification]
#[verifier::external_body]
pub struct ExQrError(qrcode::types::QrError);

/// Relies on qrcode::QrCode::new and the builder of
/// qrcode::render::unicode::Dense1x2 images: `new` deterministically
/// encodes the bytes at medium error correction and fails exactly when
/// no QR version can hold them, and the renderer builds the
/// block-character image from the resulting code alone. The two colour
/// calls swap dark and light relative to the renderer's default.
#[verifier::external_body]
fn render_inverted(data: &Vec<u8>) -> (r: Result<String, qrcode::types::QrError>)
    ensures
        r is Ok <==> qr_fits(data@),
        r matches Ok(image) ==> image@ == qr_image_of(data@),
{
    let code = qrcode::QrCode::new(data.as_slice())?;
    let image = code
        .render::<qrcode::render::unicode::Dense1x2>()
        .dark_color(qrcode::render::unicode::Dense1x2::Light)
        .light_color(qrcode::render::unicode::Dense1x2::Dark)
        .build();
    Ok(image)
}

/// The rendered code for a payload, or `None` where the payload cannot
/// be encoded.
pub fn qr_image(data: &Vec<u8>) -> (r: Option<String>)
    ensures
        r is Some <==> qr_fits(data@),
        r matches Some(image) ==> image@ == qr_image_of(data@),
{
    match render_inverted(data) {
        Ok(image) => Some(image),
        Err(_) => None,
    }
}

} // verus!

use vstd::prelude::*;
use image::DynamicImage;

verus! {

/// `image::DynamicImage`, an in-memory decoded raster, carried opaquely
/// through the pipeline.
#[verifier::external_type_specification]
#[verifier::external_body]
pub struct ExDynamicImage(DynamicImage);

/// Whether the image library can decode this byte sequence into a raster.
/// Decoding is a pure function of the bytes alone.
pub uninterp spec fn decodes(bytes: Seq<u8>) -> bool;

/// What PNG encoding yields on the raster obtained by decoding `src` and
/// resampling it to `width` by `height`: the encoded bytes, or nothing where
/// the encoder rejects that raster. Decoding, resampling and in-memory
/// encoding are all functions of their inputs alone, so this is a function
/// of the three arguments.
pub uninterp spec fn png_encoding(src: Seq<u8>, width: u32, height: u32) -> Option<Seq<u8>>;

/// What JPEG encoding at the given quality yields on the raster obtained by
/// decoding `src` and resampling it to `width` by `height`: the encoded
/// bytes, or nothing where the encoder rejects that raster.
pub uninterp spec fn jpeg_encoding(src: Seq<u8>, width: u32, height: u32, quality: u8) -> Option<
    Seq<u8>,
>;

/// A decoded raster. The image value is opaque; in the logic the raster is
/// the bytes it was decoded from, which its view gives. Only the codec
/// builds these values, so the view really does name the raster.
pub struct Decoded {
    img: DynamicImage,
    src: Ghost<Seq<u8>>,
}

impl View for Decoded {
    type V = Seq<u8>;

    closed spec fn view(&self) -> Seq<u8> {
        self.src@
    }
}

/// The mathematical value of a resized raster: the bytes its source was
/// decoded from and the dimensions it was resampled to.
pub ghost struct RasterView {
    pub src: Seq<u8>,
    pub width: u32,
    pub height: u32,
}

/// A resized raster. The image value is opaque; its view gives the decoded
/// source bytes and the requested dimensions. Only the codec builds these
/// values, so every one is the resampling of its decoded source, and the
/// encoding names above speak of exactly that raster.
pub struct Raster {
    img: DynamicImage,
    width: u32,
    height: u32,
    src: Ghost<Seq<u8>>,
}

impl View for Raster {
    type V = RasterView;

    closed spec fn view(&self) -> RasterView {
        RasterView { src: self.src@, width: self.width, height: self.height }
    }
}

/// Relies on `image::load_from_memory`: guesses the container format from the
/// bytes and fully decodes them, succeeding exactly when the bytes parse as a
/// supported raster image. The decode is a function of the bytes alone.
#[verifier::external_body]
fn decode_image(bytes: &Vec<u8>) -> (r: Result<DynamicImage, String>)
    ensures
        r is Ok <==> decodes(bytes@),
{
    match image::load_from_memory(bytes.as_slice()) {
        Ok(img) => Ok(img),
        Err(e) => Err(e.to_string()),
    }
}

/// Relies on `image::DynamicImage::resize_exact`: the result is a new raster
/// with exactly the requested dimensions (aspect ratio is not preserved),
/// resampled with the three-lobed Lanczos filter — a function of the source
/// raster and the dimensions alone.
#[verifier::external_body]
fn resize_image(img: &DynamicImage, width: u32, height: u32) -> (r: DynamicImage)
    requires
        width > 0,
        height > 0,
{
    img.resize_exact(width, height, image::imageops::FilterType::Lanczos3)
}

/// Decode a source image, recording in the result's view which bytes the
/// raster came from.
pub(crate) fn decode_raster(bytes: &Vec<u8>) -> (r: Result<Decoded, String>)
    ensures
        r is Ok <==> decodes(bytes@),
        r matches Ok(d) ==> d@ == bytes@,
{
    match decode_image(bytes) {
        Ok(img) => Ok(Decoded { img, src: Ghost(bytes@) }),
        Err(e) => Err(e),
    }
}

/// Resample a decoded raster to exactly the requested dimensions, carrying
/// the decoded source bytes along in the result's view.
pub(crate) fn resize_raster(d: &Decoded, width: u32, height: u32) -> (r: Raster)
    requires
        width > 0,
        height > 0,
    ensures
        r@ == (RasterView { src: d@, width, height }),
{
    let img = resize_image(&d.img, width, height);
    Raster { img, width, height, src: Ghost(d.src@) }
}

/// Relies on `image::DynamicImage::write_to` with the lossless PNG format,
/// writing to an in-memory buffer that cannot fail: the call succeeds, with
/// these bytes, exactly as `png_encoding` says of the raster; the encoder's
/// rejections (an unsupported color layout, oversize dimensions) come back
/// as errors and depend on the raster alone.
#[verifier::external_body]
pub(crate) fn encode_png(r: &Raster) -> (out: Result<Vec<u8>, String>)
    ensures
        match out {
            Ok(data) => png_encoding(r@.src, r@.width, r@.height) == Some(data@),
            Err(_) => png_encoding(r@.src, r@.width, r@.height) is None,
        },
{
    let mut buf: Vec<u8> = Vec::new();
    let mut cur = std::io::Cursor::new(&mut buf);
    match r.img.write_to(&mut cur, image::ImageOutputFormat::Png) {
        Ok(()) => Ok(buf),
        Err(e) => Err(e.to_string()),
    }
}

/// Relies on `image::DynamicImage::write_to` with the JPEG format at the
/// given quality, writing to an in-memory buffer that cannot fail: the call
/// succeeds, with these bytes, exactly as `jpeg_encoding` says of the raster
/// and quality. Any alpha channel is dropped during encoding (a lossy
/// conversion); the encoder's rejections come back as errors and depend on
/// the raster alone.
#[verifier::external_body]
pub(crate) fn encode_jpeg(r: &Raster, quality: u8) -> (out: Result<Vec<u8>, String>)
    ensures
        match out {
            Ok(data) => jpeg_encoding(r@.src, r@.width, r@.height, quality) == Some(data@),
            Err(_) => jpeg_encoding(r@.src, r@.width, r@.height, quality) is None,
        },
{
    let mut buf: Vec<u8> = Vec::new();
    let mut cur = std::io::Cursor::new(&mut buf);
    match r.img.write_to(&mut cur, image::ImageOutputFormat::Jpeg(quality)) {
        Ok(()) => Ok(buf),
        Err(e) => Err(e.to_string()),
    }
}

} // verus!

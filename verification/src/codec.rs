//! Hands a finished pixel buffer to the PNG container codec, and reads one
//! back. The container's compression is the codec's own business: the
//! library only relies on it writing and reading the raw channel bytes.

use vstd::prelude::*;

verus! {

use crate::errors::{CodecError, EncodingError};
use crate::options::ImageColor;
use crate::packer::{pack, spec_capacity, spec_padded, unpack};
use crate::planner::{img_dimensions, max_side_squared, spec_num_components};

/// The PNG container that the codec writes for a pixel buffer of the given
/// dimensions and channel layout. The codec is deterministic, so the bytes
/// are a function of these arguments alone.
pub uninterp spec fn png_container(
    pixels: Seq<u8>,
    width: nat,
    height: nat,
    components: nat,
) -> Seq<u8>;

/// Whether the codec accepts a byte stream as a container at all.
/// Acceptance is deterministic, so it is a function of the stream alone.
pub uninterp spec fn png_decodable(container: Seq<u8>) -> bool;

/// The channel bytes that the codec reads back out of a container byte
/// stream that it accepts. Decoding is deterministic, so they are a
/// function of the stream alone. (For a 16-bit container — which this
/// library never writes, but the reader admits — the bytes come back in the
/// machine's own byte order, so the claim holds per build, which is all the
/// proofs rest on.)
pub uninterp spec fn container_pixels(container: Seq<u8>) -> Seq<u8>;

/// Relies on image::write_buffer_with_format with ImageFormat::Png: it
/// encodes the raw channel bytes, at the stated dimensions and an 8-bit
/// color type of the matching channel count, into a PNG byte stream. Its
/// PNG encoder asserts that the buffer length equals
/// width * height * channels, so the requires leaves any other length out.
/// Given that length, the PNG writer refuses only a zero width or height,
/// and the in-memory cursor it writes to cannot fail, so success is owed
/// for every non-degenerate canvas.
#[verifier::external_body]
fn write_png(pixels: &Vec<u8>, width: u32, height: u32, color: ImageColor) -> (r: Result<
    Vec<u8>,
    EncodingError,
>)
    requires
        pixels@.len() == width * height * spec_num_components(color),
    ensures
        width >= 1 && height >= 1 ==> r is Ok,
        r is Ok ==> r->Ok_0@ == png_container(
            pixels@,
            width as nat,
            height as nat,
            spec_num_components(color),
        ),
{
    let ct = match color {
        ImageColor::Gray => image::ExtendedColorType::L8,
        ImageColor::GrayA => image::ExtendedColorType::La8,
        ImageColor::Rgb => image::ExtendedColorType::Rgb8,
        ImageColor::RgbA => image::ExtendedColorType::Rgba8,
    };
    let mut cursor = std::io::Cursor::new(Vec::new());
    let fmt = image::ImageFormat::Png;
    match image::write_buffer_with_format(&mut cursor, pixels, width, height, ct, fmt) {
        Ok(()) => Ok(cursor.into_inner()),
        Err(_) => Err(EncodingError),
    }
}

/// Relies on image::load_from_memory to decode a container byte stream, and
/// on DynamicImage::into_bytes for the raw channel bytes of the decoded
/// image. Whether decoding succeeds depends on the bytes alone, and
/// into_bytes cannot fail, so success is exactly acceptance.
#[verifier::external_body]
fn read_png(container: &Vec<u8>) -> (r: Result<Vec<u8>, CodecError>)
    ensures
        r is Ok <==> png_decodable(container@),
        r is Ok ==> r->Ok_0@ == container_pixels(container@),
{
    match image::load_from_memory(container) {
        Ok(img) => Ok(img.into_bytes()),
        Err(_) => Err(CodecError),
    }
}

/// A container byte stream ready to be written out, together with the
/// canvas dimensions it records.
pub struct EncodedImage {
    pub width: u32,
    pub height: u32,
    pub container: Vec<u8>,
}

/// The whole ENCODE direction short of file handling: plans the smallest
/// square canvas for the payload, packs the payload with zero padding to
/// fill it exactly, and writes the PNG container. Succeeds exactly when the
/// planned canvas's capacity is addressable; it always is for the payloads
/// a machine can hold, so in practice encoding cannot fail.
pub fn encode_image(payload: Vec<u8>, color: ImageColor) -> (r: Result<
    EncodedImage,
    EncodingError,
>)
    requires
        payload@.len() <= spec_num_components(color) * max_side_squared(),
    ensures
        ({
            let side = crate::planner::spec_planned_side(payload@.len(), color);
            r is Ok <==> spec_capacity(side, side, color) <= usize::MAX
        }),
        r is Ok ==> ({
            let img = r->Ok_0;
            let cap = spec_capacity(img.width as nat, img.height as nat, color);
            &&& img.width == crate::planner::spec_planned_side(payload@.len(), color)
            &&& img.width == img.height
            &&& img.width >= 1
            &&& cap >= payload@.len()
            &&& (img.width > 1 ==> (img.width - 1) * (img.width - 1) * spec_num_components(
                color,
            ) < payload@.len())
            &&& (payload@.len() == 0 ==> img.width == 1)
            &&& img.container@ == png_container(
                spec_padded(payload@, cap),
                img.width as nat,
                img.height as nat,
                spec_num_components(color),
            )
        }),
{
    let (width, height) = img_dimensions(payload.len(), color);
    let c = crate::planner::num_components(color);
    proof {
        assert((width as int) * (height as int) * (c as int) < u128::MAX) by (nonlinear_arith)
            requires
                width <= u32::MAX,
                height <= u32::MAX,
                c <= 4,
        ;
        assert((width as int) * (height as int) <= (width as int) * (height as int) * (c as int))
            by (nonlinear_arith)
            requires
                width >= 0,
                height >= 0,
                c >= 1,
        ;
    }
    let cap_wide: u128 = width as u128 * height as u128 * c as u128;
    if cap_wide > usize::MAX as u128 {
        return Err(EncodingError);
    }
    let packed = pack(payload, width, height, color);
    proof {
        // the planned canvas always has enough capacity, so pack cannot
        // refuse
        assert(packed is Ok);
    }
    let pixels = match packed {
        Ok(pixels) => pixels,
        Err(_) => {
            return Err(EncodingError);
        },
    };
    let container = write_png(&pixels, width, height, color)?;
    Ok(EncodedImage { width, height, container })
}

/// The whole DECODE direction short of file handling: reads the container's
/// pixel buffer back and returns its channel bytes verbatim. Succeeds
/// exactly when the codec accepts the byte stream as a container. Trailing
/// zero padding is not stripped: no length metadata is stored in the
/// container, so it cannot be told apart from payload bytes.
pub fn decode_image(container: Vec<u8>) -> (r: Result<Vec<u8>, CodecError>)
    ensures
        r is Ok <==> png_decodable(container@),
        r is Ok ==> r->Ok_0@ == container_pixels(container@),
{
    let pixels = read_png(&container)?;
    Ok(unpack(pixels))
}

} // verus!

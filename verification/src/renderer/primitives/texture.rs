use vstd::prelude::*;
use vstd::string::StringExecFns;

verus! {

#[verifier::external_type_specification]
#[verifier::external_body]
pub struct ExDynamicImage(image::DynamicImage);

#[verifier::external_type_specification]
#[verifier::external_body]
pub struct ExImageError(image::ImageError);

/// Why an image could not be loaded for a texture.
#[derive(Clone, Debug)]
pub enum ImageLoadError {
    InvalidSource,
    ImageParseError(String),
    UnknownError,
}

/// Whether `image::load_from_memory` decodes these bytes.
pub uninterp spec fn image_decodes(bytes: Seq<u8>) -> bool;

/// The image that `image::load_from_memory` decodes from these bytes.
pub uninterp spec fn decoded_image(bytes: Seq<u8>) -> image::DynamicImage;

/// The error that `image::load_from_memory` reports for these bytes when it refuses them.
pub uninterp spec fn image_decode_error(bytes: Seq<u8>) -> image::ImageError;

/// Calls `image::load_from_memory`, which guesses the format from the bytes' magic
/// number and decodes them; the crate is built with its PNG and JPEG decoders only,
/// the formats glTF stores textures in. The contract claims that whether it succeeds, the image it
/// gives and the error it reports are functions of the bytes alone; the pixels and
/// the error's content are left unsaid.
#[verifier::external_body]
fn image_load_from_memory(bytes: &[u8]) -> (decoded: Result<image::DynamicImage, image::ImageError>)
    ensures
        decoded is Ok <==> image_decodes(bytes@),
        decoded matches Ok(image) ==> image == decoded_image(bytes@),
        decoded matches Err(error) ==> error == image_decode_error(bytes@),
{
    image::load_from_memory(bytes)
}

/// The text that the derived `Debug` of `image::ImageError` writes for an error.
pub uninterp spec fn image_error_debug_text(error: image::ImageError) -> Seq<char>;

/// Formats an image error with its derived `Debug` impl (`{:?}`). The contract claims
/// that the text is a function of the error alone; its content is left unsaid.
#[verifier::external_body]
fn image_error_text(error: &image::ImageError) -> (text: String)
    ensures
        text@ == image_error_debug_text(*error),
{
    format!("{:?}", error)
}

/// The text every image parse error starts with.
pub open spec fn parse_error_prefix() -> Seq<char> {
    "error while parsing image: Inner error: "@
}

/// Decodes an encoded image (PNG, JPEG, ...) held in memory.
pub fn image_from_bytes(bytes: &[u8]) -> (decoded: Result<image::DynamicImage, image::ImageError>)
    ensures
        decoded is Ok <==> image_decodes(bytes@),
        decoded matches Ok(image) ==> image == decoded_image(bytes@),
{
    image_load_from_memory(bytes)
}

/// Decodes the image stored in `length` bytes from `offset` of a buffer; a failure is
/// an `ImageParseError` whose message is the parse error prefix followed by the
/// `Debug` text of the decoder's error.
pub fn image_from_buffer_view(buffer: &[u8], offset: usize, length: usize) -> (decoded: Result<
    image::DynamicImage,
    ImageLoadError,
>)
    requires
        offset + length <= buffer@.len(),
    ensures
        decoded is Ok <==> image_decodes(buffer@.subrange(offset as int, offset + length)),
        decoded matches Ok(image) ==> image == decoded_image(
            buffer@.subrange(offset as int, offset + length),
        ),
        decoded matches Err(e) ==> (e matches ImageLoadError::ImageParseError(message)
            && message@ == parse_error_prefix() + image_error_debug_text(
            image_decode_error(buffer@.subrange(offset as int, offset + length)),
        )),
{
    let buffer_length: usize = buffer.len();
    assert(offset + length <= buffer_length);
    let end: usize = offset + length;
    let encoded = vstd::slice::slice_subrange(buffer, offset, end);
    match image_load_from_memory(encoded) {
        Ok(image) => Ok(image),
        Err(error) => {
            let prefix = String::from_str("error while parsing image: Inner error: ");
            proof {
                reveal_strlit("error while parsing image: Inner error: ");
            }
            let message = prefix.concat(image_error_text(&error).as_str());
            Err(ImageLoadError::ImageParseError(message))
        },
    }
}

/// Where a glTF image keeps its encoded bytes: a range of a buffer, or a URI.
#[derive(Debug, Clone, Copy, PartialEq, Eq, Structural)]
pub enum GltfImageSource {
    View { offset: usize, length: usize },
    Uri,
}

/// A source whose buffer range lies within the buffer it names.
pub open spec fn source_in_buffer(source: GltfImageSource, buffer: Seq<u8>) -> bool {
    source matches GltfImageSource::View { offset, length } ==> offset + length <= buffer.len()
}

/// What decoding a glTF texture's image gives: images stored in a buffer are decoded,
/// images behind a URI are refused.
pub open spec fn texture_image_decodes(source: GltfImageSource, buffer: Seq<u8>) -> bool {
    match source {
        GltfImageSource::View { offset, length } => image_decodes(
            buffer.subrange(offset as int, offset + length),
        ),
        GltfImageSource::Uri => false,
    }
}

/// The error that decoding a glTF texture's image reports: the parse error of an image
/// stored in a buffer, or `InvalidSource` for an image behind a URI.
pub open spec fn texture_error(error: ImageLoadError, source: GltfImageSource, buffer: Seq<u8>) -> bool {
    match source {
        GltfImageSource::View { offset, length } => error matches ImageLoadError::ImageParseError(
            message,
        ) && message@ == parse_error_prefix() + image_error_debug_text(
            image_decode_error(buffer.subrange(offset as int, offset + length)),
        ),
        GltfImageSource::Uri => error is InvalidSource,
    }
}

/// Decodes the image of a glTF texture from the buffer its source names.
pub fn create_image_from_gltf_texture(source: &GltfImageSource, buffer: &[u8]) -> (decoded: Result<
    image::DynamicImage,
    ImageLoadError,
>)
    requires
        source_in_buffer(*source, buffer@),
    ensures
        decoded is Ok <==> texture_image_decodes(*source, buffer@),
        decoded matches Ok(image) ==> (*source matches GltfImageSource::View { offset, length }
            && image == decoded_image(buffer@.subrange(offset as int, offset + length))),
        decoded matches Err(error) ==> texture_error(error, *source, buffer@),
{
    match source {
        GltfImageSource::View { offset, length } => image_from_buffer_view(buffer, *offset, *length),
        GltfImageSource::Uri => Err(ImageLoadError::InvalidSource),
    }
}

/// The little-endian `u32` stored at `at` in these bytes.
pub open spec fn u32_le(bytes: Seq<u8>, at: int) -> int {
    bytes[at] as int + bytes[at + 1] as int * 256 + bytes[at + 2] as int * 65536 + bytes[at
        + 3] as int * 16777216
}

/// Whether bit `bit` of the `u32` stored at `at` is set.
pub open spec fn flag_set(bytes: Seq<u8>, at: int, bit: int) -> bool {
    (u32_le(bytes, at) / (vstd::arithmetic::power2::pow2(bit as nat) as int)) % 2 == 1
}

/// Where the texture data of a DDS file starts: after the magic number and the
/// 124-byte header, and after the 20-byte DX10 header where the pixel format names one
/// (its FOURCC flag is set and its code is `DX10`).
pub open spec fn dds_data_offset(bytes: Seq<u8>) -> int {
    if flag_set(bytes, 80, 2) && u32_le(bytes, 84) == 0x30315844 {
        148
    } else {
        128
    }
}

/// The number of mipmap levels a DDS header declares: its mipmap count where the
/// header's flags mark it as present, else one.
pub open spec fn dds_mipmap_levels(bytes: Seq<u8>) -> int {
    if flag_set(bytes, 8, 17) {
        u32_le(bytes, 28)
    } else {
        1
    }
}

/// Whether `ddsfile::Dds::read` accepts these bytes as a DDS file.
pub uninterp spec fn dds_reads(bytes: Seq<u8>) -> bool;

/// Calls `ddsfile::Dds::read` on the bytes and, where it accepts them, reads the
/// width, height and mipmap count of the file and takes its texture data. The
/// contract states what the crate's source shows: the width and height are the
/// header's fields at bytes 16 and 12, the mipmap count is the field at byte 28 where
/// the header flags it (else one), and the data is everything after the headers.
/// Which bytes it accepts (magic number, header sizes, DX10 enumerations) is named,
/// not stated.
#[verifier::external_body]
fn dds_read(bytes: &[u8]) -> (read: Option<(u32, u32, u32, Vec<u8>)>)
    ensures
        read is Some <==> dds_reads(bytes@),
        read matches Some(r) ==> {
            &&& r.0 == u32_le(bytes@, 16)
            &&& r.1 == u32_le(bytes@, 12)
            &&& r.2 == dds_mipmap_levels(bytes@)
            &&& dds_data_offset(bytes@) <= bytes@.len()
            &&& r.3@ == bytes@.skip(dds_data_offset(bytes@))
        },
{
    let dds = ddsfile::Dds::read(bytes).ok()?;
    Some((dds.get_width(), dds.get_height(), dds.get_num_mipmap_levels(), dds.data))
}

/// What the skybox's cube texture is created with: the size of each face, six array
/// layers (one per face), the mipmap count and the texture data of the DDS file.
#[derive(Debug, Clone)]
pub struct SkyboxTexture {
    pub width: u32,
    pub height: u32,
    pub depth_or_array_layers: u32,
    pub mip_level_count: u32,
    pub data: Vec<u8>,
}

/// Reads the skybox's cube texture from a DDS file; `None` where the file cannot be read.
pub fn load_skybox_texture(buffer: &[u8]) -> (texture: Option<SkyboxTexture>)
    ensures
        texture is Some <==> dds_reads(buffer@),
        texture matches Some(t) ==> {
            &&& t.width == u32_le(buffer@, 16)
            &&& t.height == u32_le(buffer@, 12)
            &&& t.depth_or_array_layers == 6
            &&& t.mip_level_count == dds_mipmap_levels(buffer@)
            &&& t.data@ == buffer@.skip(dds_data_offset(buffer@))
        },
{
    match dds_read(buffer) {
        Some((width, height, mip_level_count, data)) => Some(
            SkyboxTexture { width, height, depth_or_array_layers: 6, mip_level_count, data },
        ),
        None => None,
    }
}

} // verus!

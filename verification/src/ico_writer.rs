//! Icon container encoding: serializes the icon directory, one directory
//! entry, and the raw PNG stream into the bytes of a single-image icon file.

use crate::png_parser::Axis;
use crate::png_parser::ConvertError;
use crate::png_parser::PngMetadata;
use crate::png_parser::spec_parse_header;
use vstd::prelude::*;

verus! {

/// The value the image-data offset field always holds: a single-entry icon
/// keeps this fixed adjustment of the 22-byte fixed header, per the layout
/// this format follows.
pub const ICON_DATA_OFFSET: u32 = 26;

/// How a dimension is stored in the one-byte entry field: 256 becomes 0,
/// since a byte cannot hold 256 and 0 is reserved to mean exactly that.
pub open spec fn dim_byte(d: u32) -> u8
    recommends
        d <= 256,
{
    if d == 256 {
        0u8
    } else {
        d as u8
    }
}

/// The four little-endian bytes of a 32-bit value.
pub open spec fn le32(n: u32) -> Seq<u8> {
    seq![
        (n as int % 256) as u8,
        ((n as int / 256) % 256) as u8,
        ((n as int / 0x1_0000) % 256) as u8,
        ((n as int / 0x100_0000) % 256) as u8,
    ]
}

/// The value four little-endian bytes stand for.
pub open spec fn le32_val(s: Seq<u8>) -> int
    recommends
        s.len() == 4,
{
    s[0] + s[1] * 256 + s[2] * 0x1_0000 + s[3] * 0x100_0000
}

/// The six bytes of the icon directory: reserved, image type 1 (icon),
/// image count 1, each a little-endian 16-bit field.
pub open spec fn icon_dir_bytes() -> Seq<u8> {
    seq![0u8, 0u8, 1u8, 0u8, 1u8, 0u8]
}

/// Serialize the icon directory for a single-image icon file.
pub fn write_icon_dir(buf: &mut Vec<u8>)
    ensures
        final(buf)@ == old(buf)@ + icon_dir_bytes(),
{
    buf.push(0);  // reserved
    buf.push(0);
    buf.push(1);  // image type: icon
    buf.push(0);
    buf.push(1);  // image count
    buf.push(0);
    proof {
        assert(buf@ =~= old(buf)@ + icon_dir_bytes());
    }
}

/// The sixteen bytes of the directory entry describing the one embedded
/// image, followed by nothing: dimensions (256 stored as 0), color count,
/// reserved, color planes 1, bits per pixel (the PNG bit depth widened to
/// 16 bits, kept as-is for compatibility even though it is not a true RGBA
/// bit count), the byte length of the PNG stream, and the fixed data
/// offset.
pub open spec fn icon_entry_bytes(info: PngMetadata, data: Seq<u8>) -> Seq<u8> {
    seq![
        dim_byte(info.width),
        dim_byte(info.height),
        0u8,
        0u8,
        1u8,
        0u8,
        info.bit_depth,
        0u8,
    ] + le32(data.len() as u32) + le32(ICON_DATA_OFFSET)
}

/// The whole output file: directory, one entry, then the PNG stream
/// verbatim.
pub open spec fn ico_bytes(info: PngMetadata, data: Seq<u8>) -> Seq<u8> {
    icon_dir_bytes() + icon_entry_bytes(info, data) + data
}

/// Serialize the directory entry for the one embedded image and append the
/// raw PNG stream after it.
pub fn write_icon_dir_entry(buf: &mut Vec<u8>, info: &PngMetadata, png_file: &Vec<u8>)
    requires
        info.width <= 256,
        info.height <= 256,
        png_file@.len() <= u32::MAX,
    ensures
        final(buf)@ == old(buf)@ + icon_entry_bytes(*info, png_file@) + png_file@,
{
    if info.width == 256 {
        buf.push(0);  // image width: 0 stands for 256
    } else {
        buf.push(info.width as u8);  // image width
    }
    if info.height == 256 {
        buf.push(0);  // image height: 0 stands for 256
    } else {
        buf.push(info.height as u8);  // image height
    }
    buf.push(0);  // color count
    buf.push(0);  // reserved
    buf.push(1);  // color planes
    buf.push(0);
    buf.push(info.bit_depth);  // bits per pixel
    buf.push(0);
    let size: u32 = png_file.len() as u32;
    buf.push((size % 256) as u8);  // image data size
    buf.push(((size / 256) % 256) as u8);
    buf.push(((size / 0x1_0000) % 256) as u8);
    buf.push(((size / 0x100_0000) % 256) as u8);
    buf.push(26);  // image data offset from file start
    buf.push(0);
    buf.push(0);
    buf.push(0);
    proof {
        assert(buf@ =~= old(buf)@ + icon_entry_bytes(*info, png_file@));
    }
    let ghost pre = buf@;
    let mut i: usize = 0;
    while i < png_file.len()
        invariant
            i <= png_file@.len(),
            buf@ == pre + png_file@.subrange(0, i as int),
        decreases png_file@.len() - i,
    {
        buf.push(png_file[i]);
        proof {
            assert(buf@ =~= pre + png_file@.subrange(0, i + 1));
        }
        i = i + 1;
    }
    proof {
        assert(png_file@.subrange(0, png_file@.len() as int) =~= png_file@);
    }
}

/// Assemble the bytes of a single-image icon file embedding the given PNG
/// stream, after checking the icon format's dimension limit.
pub fn write_ico(info: &PngMetadata, png_file: &Vec<u8>) -> (r: Result<Vec<u8>, ConvertError>)
    requires
        png_file@.len() <= u32::MAX,
    ensures
        info.width > 256 ==> r == Err::<Vec<u8>, ConvertError>(
            ConvertError::DimensionTooLarge(Axis::Width),
        ),
        info.width <= 256 && info.height > 256 ==> r == Err::<Vec<u8>, ConvertError>(
            ConvertError::DimensionTooLarge(Axis::Height),
        ),
        info.width <= 256 && info.height <= 256 ==> (r matches Ok(buf) && buf@ == ico_bytes(
            *info,
            png_file@,
        )),
{
    if info.width > 256 {
        return Err(ConvertError::DimensionTooLarge(Axis::Width));
    }
    if info.height > 256 {
        return Err(ConvertError::DimensionTooLarge(Axis::Height));
    }
    let mut buf: Vec<u8> = Vec::new();
    write_icon_dir(&mut buf);
    write_icon_dir_entry(&mut buf, info, png_file);
    proof {
        assert(buf@ =~= ico_bytes(*info, png_file@));
    }
    Ok(buf)
}

/// Law: decoding the four little-endian bytes of a 32-bit value gives the
/// value back.
pub proof fn lemma_le32_val(n: u32)
    ensures
        le32_val(le32(n)) == n,
{
    assert(n % 256 + 256 * ((n / 256) % 256) + 0x1_0000 * ((n / 0x1_0000) % 256) + 0x100_0000 * (n
        / 0x100_0000) == n) by (bit_vector);
}

/// Law: the image-data offset field, bytes 18 through 21 of the output,
/// holds the fixed value 26 for every metadata record and every PNG stream.
pub proof fn lemma_offset_field_fixed(info: PngMetadata, data: Seq<u8>)
    ensures
        ico_bytes(info, data).subrange(18, 22) == le32(ICON_DATA_OFFSET),
        le32_val(ico_bytes(info, data).subrange(18, 22)) == 26,
{
    assert(ico_bytes(info, data).subrange(18, 22) =~= le32(ICON_DATA_OFFSET));
    lemma_le32_val(ICON_DATA_OFFSET);
}

/// Law: the image-data size field, bytes 14 through 17 of the output,
/// holds exactly the byte length of the embedded PNG stream.
pub proof fn lemma_size_field(info: PngMetadata, data: Seq<u8>)
    requires
        data.len() <= u32::MAX,
    ensures
        ico_bytes(info, data).subrange(14, 18) == le32(data.len() as u32),
        le32_val(ico_bytes(info, data).subrange(14, 18)) == data.len(),
{
    assert(ico_bytes(info, data).subrange(14, 18) =~= le32(data.len() as u32));
    lemma_le32_val(data.len() as u32);
}

/// Law: everything after the 22 fixed header bytes of the output is the
/// source PNG stream, byte for byte.
pub proof fn lemma_round_trip(info: PngMetadata, data: Seq<u8>)
    ensures
        ico_bytes(info, data).len() == 22 + data.len(),
        ico_bytes(info, data).subrange(22, ico_bytes(info, data).len() as int) == data,
{
    assert(ico_bytes(info, data).subrange(22, ico_bytes(info, data).len() as int) =~= data);
}

/// Law: for bytes whose header parses to a record within the icon limit,
/// the output of the encoder holds the record's dimensions at offsets 6 and
/// 7, with a dimension of exactly 256 stored as the byte 0.
pub proof fn lemma_dimension_bytes(data: Seq<u8>, info: PngMetadata)
    requires
        spec_parse_header(data) == Ok::<PngMetadata, ConvertError>(info),
        info.width <= 256,
        info.height <= 256,
    ensures
        ico_bytes(info, data)[6] == (if info.width == 256 {
            0u8
        } else {
            info.width as u8
        }),
        ico_bytes(info, data)[7] == (if info.height == 256 {
            0u8
        } else {
            info.height as u8
        }),
{
}

} // verus!

//! Minimal PNG reading: signature verification and decoding of the header
//! chunk into a metadata record. Pixel data is never decompressed.

use vstd::prelude::*;

verus! {

/// Which axis of the image broke the icon size limit.
#[derive(Clone, Copy, Debug, PartialEq, Eq, Structural)]
pub enum Axis {
    Width,
    Height,
}

/// Every failure the conversion can report.
#[derive(Clone, Copy, Debug, PartialEq, Eq, Structural)]
pub enum ConvertError {
    /// A file could not be read or written.
    Io,
    /// The first eight bytes are not the PNG signature.
    Signature,
    /// A chunk tag is none of the four recognized tags.
    UnknownChunk,
    /// The first chunk is recognized but is not the header chunk.
    NotHeader,
    /// Fewer bytes are present than a fixed field requires.
    TruncatedData,
    /// The chunk kind has no body decoder here.
    UnsupportedChunk,
    /// No end-of-data marker was found inside a data chunk.
    MissingDataEnd,
    /// A dimension exceeds 256 pixels, the icon format's hard limit.
    DimensionTooLarge(Axis),
}

/// The kind of a PNG chunk, classified from its four-byte tag.
#[derive(Clone, Copy, Debug, PartialEq, Eq, Structural)]
pub enum ChunkType {
    Header,
    Palette,
    Data,
    DataEnd,
}

/// The thirteen fixed fields of the PNG header chunk, as read from disk.
#[derive(Clone, Copy, Debug, PartialEq, Eq, Structural)]
pub struct PngMetadata {
    pub width: u32,
    pub height: u32,
    pub bit_depth: u8,
    pub color_type: u8,
    pub compression_method: u8,
    pub filter_method: u8,
    pub interlace_method: u8,
}

/// The decoded body of a chunk, according to its tag.
#[derive(Debug)]
pub enum ChunkData {
    Header(PngMetadata),
    Data(Vec<u8>),
}

/// A header record paired with the raw PNG stream it came from.
#[derive(Debug)]
pub struct EncodedPng {
    pub info: PngMetadata,
    pub png_data: Vec<u8>,
}

/// True of the eight-byte PNG magic signature.
pub open spec fn is_png_signature(s: Seq<u8>) -> bool {
    &&& s.len() == 8
    &&& s[0] == 0x89u8
    &&& s[1] == 0x50u8
    &&& s[2] == 0x4eu8
    &&& s[3] == 0x47u8
    &&& s[4] == 0x0du8
    &&& s[5] == 0x0au8
    &&& s[6] == 0x1au8
    &&& s[7] == 0x0au8
}

/// True of the tag of the header chunk, the ASCII bytes `IHDR`.
pub open spec fn is_header_tag(name: Seq<u8>) -> bool {
    name.len() == 4 && name[0] == 0x49u8 && name[1] == 0x48u8 && name[2] == 0x44u8 && name[3]
        == 0x52u8
}

/// True of the tag of the palette chunk, the ASCII bytes `PLTE`.
pub open spec fn is_palette_tag(name: Seq<u8>) -> bool {
    name.len() == 4 && name[0] == 0x50u8 && name[1] == 0x4cu8 && name[2] == 0x54u8 && name[3]
        == 0x45u8
}

/// True of the tag of an image data chunk, the ASCII bytes `IDAT`.
pub open spec fn is_data_tag(name: Seq<u8>) -> bool {
    name.len() == 4 && name[0] == 0x49u8 && name[1] == 0x44u8 && name[2] == 0x41u8 && name[3]
        == 0x54u8
}

/// True of the tag of the end chunk, the ASCII bytes `IEND`.
pub open spec fn is_end_tag(name: Seq<u8>) -> bool {
    name.len() == 4 && name[0] == 0x49u8 && name[1] == 0x45u8 && name[2] == 0x4eu8 && name[3]
        == 0x44u8
}

/// The classification a four-byte tag decodes to: one of the four known
/// chunk kinds, or an error for anything else.
pub open spec fn spec_chunk_type(name: Seq<u8>) -> Result<ChunkType, ConvertError> {
    if is_header_tag(name) {
        Ok(ChunkType::Header)
    } else if is_palette_tag(name) {
        Ok(ChunkType::Palette)
    } else if is_data_tag(name) {
        Ok(ChunkType::Data)
    } else if is_end_tag(name) {
        Ok(ChunkType::DataEnd)
    } else {
        Err(ConvertError::UnknownChunk)
    }
}

impl ChunkType {
    /// Classify a four-byte chunk tag; anything unrecognized is an error.
    pub fn parse(name: &[u8]) -> (r: Result<ChunkType, ConvertError>)
        ensures
            r == spec_chunk_type(name@),
    {
        if name.len() == 4 {
            let b0 = name[0];
            let b1 = name[1];
            let b2 = name[2];
            let b3 = name[3];
            if b0 == 0x49 && b1 == 0x48 && b2 == 0x44 && b3 == 0x52 {
                return Ok(ChunkType::Header);
            }
            if b0 == 0x50 && b1 == 0x4c && b2 == 0x54 && b3 == 0x45 {
                return Ok(ChunkType::Palette);
            }
            if b0 == 0x49 && b1 == 0x44 && b2 == 0x41 && b3 == 0x54 {
                return Ok(ChunkType::Data);
            }
            if b0 == 0x49 && b1 == 0x45 && b2 == 0x4e && b3 == 0x44 {
                return Ok(ChunkType::DataEnd);
            }
        }
        Err(ConvertError::UnknownChunk)
    }
}

/// The big-endian 32-bit value held by the four bytes of `d` starting at `i`.
pub open spec fn be_u32_at(d: Seq<u8>, i: int) -> int
    recommends
        0 <= i,
        i + 4 <= d.len(),
{
    d[i] * 0x100_0000 + d[i + 1] * 0x1_0000 + d[i + 2] * 0x100 + d[i + 3]
}

/// The metadata record held by thirteen header-chunk body bytes: width and
/// height as big-endian 32-bit fields, then five single-byte fields.
pub open spec fn header_fields(d: Seq<u8>) -> PngMetadata
    recommends
        d.len() >= 13,
{
    PngMetadata {
        width: be_u32_at(d, 0) as u32,
        height: be_u32_at(d, 4) as u32,
        bit_depth: d[8],
        color_type: d[9],
        compression_method: d[10],
        filter_method: d[11],
        interlace_method: d[12],
    }
}

/// What decoding a header-chunk body yields: the thirteen fields when enough
/// bytes are present, an error otherwise.
pub open spec fn is_parsed_header(d: Seq<u8>, r: Result<ChunkData, ConvertError>) -> bool {
    if d.len() >= 13 {
        r matches Ok(c) && c matches ChunkData::Header(m) && m == header_fields(d)
    } else {
        r == Err::<ChunkData, ConvertError>(ConvertError::TruncatedData)
    }
}

/// Read four bytes of `d` starting at `i` as one big-endian 32-bit value.
fn read_be_u32(d: &[u8], i: usize) -> (r: u32)
    requires
        i + 4 <= d@.len(),
    ensures
        r == be_u32_at(d@, i as int),
{
    let b0 = d[i];
    let b1 = d[i + 1];
    let b2 = d[i + 2];
    let b3 = d[i + 3];
    (b0 as u32) * 0x100_0000 + (b1 as u32) * 0x1_0000 + (b2 as u32) * 0x100 + (b3 as u32)
}

/// True when the four bytes of `chunk` starting at `i` are the ASCII marker
/// `IEND`.
pub open spec fn is_iend_at(chunk: Seq<u8>, i: int) -> bool {
    &&& 0 <= i
    &&& i + 4 <= chunk.len()
    &&& chunk[i] == 0x49u8
    &&& chunk[i + 1] == 0x45u8
    &&& chunk[i + 2] == 0x4eu8
    &&& chunk[i + 3] == 0x44u8
}

/// True when the `IEND` marker occurs somewhere in `chunk`.
pub open spec fn has_iend(chunk: Seq<u8>) -> bool {
    exists|i: int| is_iend_at(chunk, i)
}

/// What scanning a data-chunk body yields: the bytes up to (not including)
/// the final byte of the last `IEND` marker, or an error when no marker
/// occurs.
pub open spec fn is_parsed_data(chunk: Seq<u8>, r: Result<ChunkData, ConvertError>) -> bool {
    if has_iend(chunk) {
        &&& r matches Ok(c)
        &&& c matches ChunkData::Data(d)
        &&& exists|i: int|
            {
                &&& #[trigger] is_iend_at(chunk, i)
                &&& forall|j: int| i < j ==> !is_iend_at(chunk, j)
                &&& d@ == chunk.subrange(0, i + 3)
            }
    } else {
        r == Err::<ChunkData, ConvertError>(ConvertError::MissingDataEnd)
    }
}

/// What reading a whole PNG file's bytes yields: the header record exactly
/// when the signature is right, the first chunk's tag is the header tag, and
/// the thirteen header bytes are present; otherwise the error that names
/// what went wrong first.
pub open spec fn spec_parse_header(data: Seq<u8>) -> Result<PngMetadata, ConvertError> {
    if data.len() < 8 || !is_png_signature(data.subrange(0, 8)) {
        Err(ConvertError::Signature)
    } else if data.len() < 16 {
        Err(ConvertError::TruncatedData)
    } else {
        match spec_chunk_type(data.subrange(12, 16)) {
            Ok(ChunkType::Header) => if data.len() < 29 {
                Err(ConvertError::TruncatedData)
            } else {
                Ok(header_fields(data.subrange(16, 29)))
            },
            Ok(_) => Err(ConvertError::NotHeader),
            Err(_) => Err(ConvertError::UnknownChunk),
        }
    }
}

/// Stateless reader for the PNG signature and header chunk.
pub struct PngParser {}

impl PngParser {
    pub fn new() -> Self {
        PngParser {  }
    }

    /// Decide whether eight bytes are the PNG magic signature.
    pub fn verify_signature(signature: &[u8]) -> (r: bool)
        ensures
            r == is_png_signature(signature@),
    {
        signature.len() == 8 && signature[0] == 0x89 && signature[1] == 0x50 && signature[2]
            == 0x4e && signature[3] == 0x47 && signature[4] == 0x0d && signature[5] == 0x0a
            && signature[6] == 0x1a && signature[7] == 0x0a
    }

    /// Decode the body of a header chunk into its thirteen fields.
    pub fn parse_header_chunk(header_data: &[u8]) -> (r: Result<ChunkData, ConvertError>)
        ensures
            is_parsed_header(header_data@, r),
    {
        if header_data.len() < 13 {
            return Err(ConvertError::TruncatedData);
        }
        let width = read_be_u32(header_data, 0);
        let height = read_be_u32(header_data, 4);
        let bit_depth = header_data[8];
        let color_type = header_data[9];
        let compression_method = header_data[10];
        let filter_method = header_data[11];
        let interlace_method = header_data[12];
        Ok(
            ChunkData::Header(
                PngMetadata {
                    width,
                    height,
                    bit_depth,
                    color_type,
                    compression_method,
                    filter_method,
                    interlace_method,
                },
            ),
        )
    }

    /// Scan a data-chunk body for the last `IEND` marker and return the
    /// bytes before its final byte.
    pub fn parse_data_chunk(chunk_data: &[u8]) -> (r: Result<ChunkData, ConvertError>)
        ensures
            is_parsed_data(chunk_data@, r),
    {
        let mut end_index: usize = 0;
        let mut idx: usize = 0;
        while idx < chunk_data.len()
            invariant
                idx <= chunk_data@.len(),
                end_index == 0 ==> forall|j: int| j < idx ==> !is_iend_at(chunk_data@, j),
                end_index != 0 ==> {
                    &&& 3 <= end_index <= chunk_data@.len()
                    &&& is_iend_at(chunk_data@, end_index - 3)
                    &&& forall|j: int|
                        end_index - 3 < j < idx ==> !is_iend_at(chunk_data@, j)
                },
            decreases chunk_data@.len() - idx,
        {
            if chunk_data[idx] == 0x49 && chunk_data.len() - idx > 3 && chunk_data[idx + 1]
                == 0x45 && chunk_data[idx + 2] == 0x4e && chunk_data[idx + 3] == 0x44 {
                end_index = idx + 3;
            }
            idx = idx + 1;
        }
        if end_index == 0 {
            return Err(ConvertError::MissingDataEnd);
        }
        let prefix = vstd::slice::slice_subrange(chunk_data, 0, end_index);
        let out = vstd::slice::slice_to_vec(prefix);
        proof {
            let i = end_index as int - 3;
            assert(is_iend_at(chunk_data@, i));
            assert(forall|j: int| i < j ==> !is_iend_at(chunk_data@, j));
            assert(out@ == chunk_data@.subrange(0, i + 3));
        }
        Ok(ChunkData::Data(out))
    }

    /// Decode a chunk body according to its tag; only header and data
    /// chunks have a decoder here.
    pub fn parse_chunk(chunk_data: &[u8], chunk_type: ChunkType) -> (r: Result<
        ChunkData,
        ConvertError,
    >)
        ensures
            chunk_type is Header ==> is_parsed_header(chunk_data@, r),
            chunk_type is Data ==> is_parsed_data(chunk_data@, r),
            chunk_type is Palette || chunk_type is DataEnd ==> r == Err::<
                ChunkData,
                ConvertError,
            >(ConvertError::UnsupportedChunk),
    {
        match chunk_type {
            ChunkType::Header => Self::parse_header_chunk(chunk_data),
            ChunkType::Data => Self::parse_data_chunk(chunk_data),
            _ => Err(ConvertError::UnsupportedChunk),
        }
    }

    /// Read a PNG file's bytes: verify the signature, require the first
    /// chunk to be the header chunk, and decode its thirteen fields.
    pub fn parse_header(&self, data: &[u8]) -> (r: Result<PngMetadata, ConvertError>)
        ensures
            r == spec_parse_header(data@),
    {
        if data.len() < 8 {
            return Err(ConvertError::Signature);
        }
        let signature = vstd::slice::slice_subrange(data, 0, 8);
        if !Self::verify_signature(signature) {
            return Err(ConvertError::Signature);
        }
        if data.len() < 16 {
            return Err(ConvertError::TruncatedData);
        }
        // Bytes 8..12 are the first chunk's length field; 12..16 its tag.
        let tag = vstd::slice::slice_subrange(data, 12, 16);
        match ChunkType::parse(tag) {
            Ok(ChunkType::Header) => {
                if data.len() < 29 {
                    return Err(ConvertError::TruncatedData);
                }
                let body = vstd::slice::slice_subrange(data, 16, 29);
                match Self::parse_chunk(body, ChunkType::Header) {
                    Ok(ChunkData::Header(info)) => Ok(info),
                    _ => {
                        proof {
                            assert(false);
                        }
                        Err(ConvertError::TruncatedData)
                    },
                }
            },
            Ok(_) => Err(ConvertError::NotHeader),
            Err(_) => Err(ConvertError::UnknownChunk),
        }
    }
}

} // verus!

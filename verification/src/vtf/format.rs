//! The texture container's versioned headers, resource records, and the
//! enumerations they carry.
//!
//! Every field is read little-endian from a byte buffer at the fixed
//! offsets of the on-disk layout; the version dispatch is purely additive
//! (a 7.3 header is a 7.0 header, then the 7.2 extension, then the 7.3
//! extension).

use vstd::prelude::*;

use crate::vtf::error::{VTFError, VTFLoadError};

verus! {

/// The two bytes at `off` read as a little-endian 16-bit value.
pub open spec fn le16(b: Seq<u8>, off: int) -> u16 {
    (b[off] + b[off + 1] * 0x100) as u16
}

/// The three bytes at `off` read as a little-endian 24-bit value.
pub open spec fn le24(b: Seq<u8>, off: int) -> u32 {
    (b[off] + b[off + 1] * 0x100 + b[off + 2] * 0x10000) as u32
}

/// The four bytes at `off` read as a little-endian 32-bit value.
pub open spec fn le32(b: Seq<u8>, off: int) -> u32 {
    (b[off] + b[off + 1] * 0x100 + b[off + 2] * 0x10000 + b[off + 3] * 0x1000000) as u32
}

/// The four bytes at `off` read as a little-endian 32-bit signed value.
pub open spec fn le32_signed(b: Seq<u8>, off: int) -> int {
    if le32(b, off) >= 0x8000_0000 {
        le32(b, off) - 0x1_0000_0000
    } else {
        le32(b, off) as int
    }
}

/// Reads a little-endian 16-bit field.
pub fn read_u16_le(b: &[u8], off: usize) -> (r: u16)
    requires
        off + 2 <= b@.len(),
    ensures
        r == le16(b@, off as int),
{
    b[off] as u16 + (b[off + 1] as u16) * 0x100
}

/// Reads a little-endian 24-bit field.
pub fn read_u24_le(b: &[u8], off: usize) -> (r: u32)
    requires
        off + 3 <= b@.len(),
    ensures
        r == le24(b@, off as int),
{
    b[off] as u32 + (b[off + 1] as u32) * 0x100 + (b[off + 2] as u32) * 0x10000
}

/// Reads a little-endian 32-bit field.
pub fn read_u32_le(b: &[u8], off: usize) -> (r: u32)
    requires
        off + 4 <= b@.len(),
    ensures
        r == le32(b@, off as int),
{
    b[off] as u32 + (b[off + 1] as u32) * 0x100 + (b[off + 2] as u32) * 0x10000 + (b[off + 3]
        as u32) * 0x1000000
}

/// True when `x` is a power of two. A 16-bit value leaves sixteen cases.
pub open spec fn spec_is_pow2_u16(x: u16) -> bool {
    ||| x == 1
    ||| x == 2
    ||| x == 4
    ||| x == 8
    ||| x == 16
    ||| x == 32
    ||| x == 64
    ||| x == 128
    ||| x == 256
    ||| x == 512
    ||| x == 1024
    ||| x == 2048
    ||| x == 4096
    ||| x == 8192
    ||| x == 16384
    ||| x == 32768
}

/// Decides whether a 16-bit dimension is a power of two.
pub fn is_pow2_u16(x: u16) -> (b: bool)
    ensures
        b == spec_is_pow2_u16(x),
{
    x == 1 || x == 2 || x == 4 || x == 8 || x == 16 || x == 32 || x == 64 || x == 128 || x == 256
        || x == 512 || x == 1024 || x == 2048 || x == 4096 || x == 8192 || x == 16384 || x
        == 32768
}

/// True when the 8-bit value `x` is a power of two.
pub open spec fn spec_is_pow2_u8(x: u8) -> bool {
    ||| x == 1
    ||| x == 2
    ||| x == 4
    ||| x == 8
    ||| x == 16
    ||| x == 32
    ||| x == 64
    ||| x == 128
}

/// Decides whether an 8-bit dimension is a power of two.
pub fn is_pow2_u8(x: u8) -> (b: bool)
    ensures
        b == spec_is_pow2_u8(x),
{
    x == 1 || x == 2 || x == 4 || x == 8 || x == 16 || x == 32 || x == 64 || x == 128
}

/// The tagged records of the resource table (version 7.3 and later).
#[derive(Debug, Clone, Copy, PartialEq, Eq, Structural)]
pub enum VTFResourceType {
    /// The low-resolution (thumbnail) image.
    LegacyLowResImage,
    /// The full-resolution image together with its mips.
    LegacyImage,
    /// A sprite-sheet description.
    Sheet,
    /// A checksum record; its payload is inline, not an offset.
    Crc,
    /// Level-of-detail clamp settings; inline payload.
    TextureLODSettings,
    /// Extended texture settings; inline payload.
    TextureSettingsEx,
    /// A key/value text blob.
    KeyValueData,
    /// The table's maximum entry count, kept as a tag of its own.
    MaxDictionaryEntries,
}

impl VTFResourceType {
    /// The resource tag each recognized code denotes.
    pub open spec fn spec_from_i64(n: int) -> Option<VTFResourceType> {
        if n == 0x01 {
            Some(VTFResourceType::LegacyLowResImage)
        } else if n == 0x30 {
            Some(VTFResourceType::LegacyImage)
        } else if n == 0x10 {
            Some(VTFResourceType::Sheet)
        } else if n == 0x435243 {
            Some(VTFResourceType::Crc)
        } else if n == 0x444f4c {
            Some(VTFResourceType::TextureLODSettings)
        } else if n == 0x4f5354 {
            Some(VTFResourceType::TextureSettingsEx)
        } else if n == 0x44564b {
            Some(VTFResourceType::KeyValueData)
        } else if n == 32 {
            Some(VTFResourceType::MaxDictionaryEntries)
        } else {
            None
        }
    }

    /// Looks a signed resource code up in the known enumeration.
    pub fn from_i64(n: i64) -> (r: Option<VTFResourceType>)
        ensures
            r == VTFResourceType::spec_from_i64(n as int),
    {
        match n {
            0x01 => Some(VTFResourceType::LegacyLowResImage),
            0x30 => Some(VTFResourceType::LegacyImage),
            0x10 => Some(VTFResourceType::Sheet),
            0x435243 => Some(VTFResourceType::Crc),
            0x444f4c => Some(VTFResourceType::TextureLODSettings),
            0x4f5354 => Some(VTFResourceType::TextureSettingsEx),
            0x44564b => Some(VTFResourceType::KeyValueData),
            32 => Some(VTFResourceType::MaxDictionaryEntries),
            _ => None,
        }
    }

    /// Looks an unsigned resource code up in the known enumeration.
    pub fn from_u64(n: u64) -> (r: Option<VTFResourceType>)
        ensures
            r == VTFResourceType::spec_from_i64(n as int),
    {
        if n <= 0x7fff_ffff_ffff_ffff {
            VTFResourceType::from_i64(n as i64)
        } else {
            None
        }
    }
}

/// The pixel encodings the container can declare. Only a subset has full
/// decode logic; the rest are recognized so that headers naming them can
/// still be validated.
#[allow(non_camel_case_types)]
#[derive(Debug, Clone, Copy, PartialEq, Eq, Structural)]
pub enum VTFImageFormat {
    IMAGE_FORMAT_RGBA8888,
    IMAGE_FORMAT_ABGR8888,
    IMAGE_FORMAT_RGB888,
    IMAGE_FORMAT_BGR888,
    IMAGE_FORMAT_RGB565,
    IMAGE_FORMAT_I8,
    IMAGE_FORMAT_IA88,
    IMAGE_FORMAT_P8,
    IMAGE_FORMAT_A8,
    IMAGE_FORMAT_RGB888_BLUESCREEN,
    IMAGE_FORMAT_BGR888_BLUESCREEN,
    IMAGE_FORMAT_ARGB8888,
    IMAGE_FORMAT_BGRA8888,
    IMAGE_FORMAT_DXT1,
    IMAGE_FORMAT_DXT3,
    IMAGE_FORMAT_DXT5,
    IMAGE_FORMAT_BGRX8888,
    IMAGE_FORMAT_BGR565,
    IMAGE_FORMAT_BGRX5551,
    IMAGE_FORMAT_BGRA4444,
    IMAGE_FORMAT_DXT1_ONEBITALPHA,
    IMAGE_FORMAT_BGRA5551,
    IMAGE_FORMAT_UV88,
    IMAGE_FORMAT_UVWQ8888,
    IMAGE_FORMAT_RGBA16161616F,
    IMAGE_FORMAT_RGBA16161616,
    IMAGE_FORMAT_UVLX8888,
    IMAGE_FORMAT_R32F,
    IMAGE_FORMAT_RGB323232F,
    IMAGE_FORMAT_RGBA32323232F,
    IMAGE_FORMAT_NV_DST16,
    IMAGE_FORMAT_NV_DST24,
    IMAGE_FORMAT_NV_INTZ,
    IMAGE_FORMAT_NV_RAWZ,
    IMAGE_FORMAT_ATI_DST16,
    IMAGE_FORMAT_ATI_DST24,
    IMAGE_FORMAT_NV_NULL,
    IMAGE_FORMAT_ATI2N,
    IMAGE_FORMAT_ATI1N,
    IMAGE_FORMAT_COUNT,
    IMAGE_FORMAT_NONE,
}

impl VTFImageFormat {
    /// The pixel format each recognized code denotes: the codes 0 through
    /// 39 in declaration order, and -1 for the explicit "none".
    pub open spec fn spec_from_i64(n: int) -> Option<VTFImageFormat> {
        if n == 0 {
            Some(VTFImageFormat::IMAGE_FORMAT_RGBA8888)
        } else if n == 1 {
            Some(VTFImageFormat::IMAGE_FORMAT_ABGR8888)
        } else if n == 2 {
            Some(VTFImageFormat::IMAGE_FORMAT_RGB888)
        } else if n == 3 {
            Some(VTFImageFormat::IMAGE_FORMAT_BGR888)
        } else if n == 4 {
            Some(VTFImageFormat::IMAGE_FORMAT_RGB565)
        } else if n == 5 {
            Some(VTFImageFormat::IMAGE_FORMAT_I8)
        } else if n == 6 {
            Some(VTFImageFormat::IMAGE_FORMAT_IA88)
        } else if n == 7 {
            Some(VTFImageFormat::IMAGE_FORMAT_P8)
        } else if n == 8 {
            Some(VTFImageFormat::IMAGE_FORMAT_A8)
        } else if n == 9 {
            Some(VTFImageFormat::IMAGE_FORMAT_RGB888_BLUESCREEN)
        } else if n == 10 {
            Some(VTFImageFormat::IMAGE_FORMAT_BGR888_BLUESCREEN)
        } else if n == 11 {
            Some(VTFImageFormat::IMAGE_FORMAT_ARGB8888)
        } else if n == 12 {
            Some(VTFImageFormat::IMAGE_FORMAT_BGRA8888)
        } else if n == 13 {
            Some(VTFImageFormat::IMAGE_FORMAT_DXT1)
        } else if n == 14 {
            Some(VTFImageFormat::IMAGE_FORMAT_DXT3)
        } else if n == 15 {
            Some(VTFImageFormat::IMAGE_FORMAT_DXT5)
        } else if n == 16 {
            Some(VTFImageFormat::IMAGE_FORMAT_BGRX8888)
        } else if n == 17 {
            Some(VTFImageFormat::IMAGE_FORMAT_BGR565)
        } else if n == 18 {
            Some(VTFImageFormat::IMAGE_FORMAT_BGRX5551)
        } else if n == 19 {
            Some(VTFImageFormat::IMAGE_FORMAT_BGRA4444)
        } else if n == 20 {
            Some(VTFImageFormat::IMAGE_FORMAT_DXT1_ONEBITALPHA)
        } else if n == 21 {
            Some(VTFImageFormat::IMAGE_FORMAT_BGRA5551)
        } else if n == 22 {
            Some(VTFImageFormat::IMAGE_FORMAT_UV88)
        } else if n == 23 {
            Some(VTFImageFormat::IMAGE_FORMAT_UVWQ8888)
        } else if n == 24 {
            Some(VTFImageFormat::IMAGE_FORMAT_RGBA16161616F)
        } else if n == 25 {
            Some(VTFImageFormat::IMAGE_FORMAT_RGBA16161616)
        } else if n == 26 {
            Some(VTFImageFormat::IMAGE_FORMAT_UVLX8888)
        } else if n == 27 {
            Some(VTFImageFormat::IMAGE_FORMAT_R32F)
        } else if n == 28 {
            Some(VTFImageFormat::IMAGE_FORMAT_RGB323232F)
        } else if n == 29 {
            Some(VTFImageFormat::IMAGE_FORMAT_RGBA32323232F)
        } else if n == 30 {
            Some(VTFImageFormat::IMAGE_FORMAT_NV_DST16)
        } else if n == 31 {
            Some(VTFImageFormat::IMAGE_FORMAT_NV_DST24)
        } else if n == 32 {
            Some(VTFImageFormat::IMAGE_FORMAT_NV_INTZ)
        } else if n == 33 {
            Some(VTFImageFormat::IMAGE_FORMAT_NV_RAWZ)
        } else if n == 34 {
            Some(VTFImageFormat::IMAGE_FORMAT_ATI_DST16)
        } else if n == 35 {
            Some(VTFImageFormat::IMAGE_FORMAT_ATI_DST24)
        } else if n == 36 {
            Some(VTFImageFormat::IMAGE_FORMAT_NV_NULL)
        } else if n == 37 {
            Some(VTFImageFormat::IMAGE_FORMAT_ATI2N)
        } else if n == 38 {
            Some(VTFImageFormat::IMAGE_FORMAT_ATI1N)
        } else if n == 39 {
            Some(VTFImageFormat::IMAGE_FORMAT_COUNT)
        } else if n == -1 {
            Some(VTFImageFormat::IMAGE_FORMAT_NONE)
        } else {
            None
        }
    }

    /// Looks a signed pixel-format code up in the known enumeration.
    pub fn from_i64(n: i64) -> (r: Option<VTFImageFormat>)
        ensures
            r == VTFImageFormat::spec_from_i64(n as int),
    {
        match n {
            0 => Some(VTFImageFormat::IMAGE_FORMAT_RGBA8888),
            1 => Some(VTFImageFormat::IMAGE_FORMAT_ABGR8888),
            2 => Some(VTFImageFormat::IMAGE_FORMAT_RGB888),
            3 => Some(VTFImageFormat::IMAGE_FORMAT_BGR888),
            4 => Some(VTFImageFormat::IMAGE_FORMAT_RGB565),
            5 => Some(VTFImageFormat::IMAGE_FORMAT_I8),
            6 => Some(VTFImageFormat::IMAGE_FORMAT_IA88),
            7 => Some(VTFImageFormat::IMAGE_FORMAT_P8),
            8 => Some(VTFImageFormat::IMAGE_FORMAT_A8),
            9 => Some(VTFImageFormat::IMAGE_FORMAT_RGB888_BLUESCREEN),
            10 => Some(VTFImageFormat::IMAGE_FORMAT_BGR888_BLUESCREEN),
            11 => Some(VTFImageFormat::IMAGE_FORMAT_ARGB8888),
            12 => Some(VTFImageFormat::IMAGE_FORMAT_BGRA8888),
            13 => Some(VTFImageFormat::IMAGE_FORMAT_DXT1),
            14 => Some(VTFImageFormat::IMAGE_FORMAT_DXT3),
            15 => Some(VTFImageFormat::IMAGE_FORMAT_DXT5),
            16 => Some(VTFImageFormat::IMAGE_FORMAT_BGRX8888),
            17 => Some(VTFImageFormat::IMAGE_FORMAT_BGR565),
            18 => Some(VTFImageFormat::IMAGE_FORMAT_BGRX5551),
            19 => Some(VTFImageFormat::IMAGE_FORMAT_BGRA4444),
            20 => Some(VTFImageFormat::IMAGE_FORMAT_DXT1_ONEBITALPHA),
            21 => Some(VTFImageFormat::IMAGE_FORMAT_BGRA5551),
            22 => Some(VTFImageFormat::IMAGE_FORMAT_UV88),
            23 => Some(VTFImageFormat::IMAGE_FORMAT_UVWQ8888),
            24 => Some(VTFImageFormat::IMAGE_FORMAT_RGBA16161616F),
            25 => Some(VTFImageFormat::IMAGE_FORMAT_RGBA16161616),
            26 => Some(VTFImageFormat::IMAGE_FORMAT_UVLX8888),
            27 => Some(VTFImageFormat::IMAGE_FORMAT_R32F),
            28 => Some(VTFImageFormat::IMAGE_FORMAT_RGB323232F),
            29 => Some(VTFImageFormat::IMAGE_FORMAT_RGBA32323232F),
            30 => Some(VTFImageFormat::IMAGE_FORMAT_NV_DST16),
            31 => Some(VTFImageFormat::IMAGE_FORMAT_NV_DST24),
            32 => Some(VTFImageFormat::IMAGE_FORMAT_NV_INTZ),
            33 => Some(VTFImageFormat::IMAGE_FORMAT_NV_RAWZ),
            34 => Some(VTFImageFormat::IMAGE_FORMAT_ATI_DST16),
            35 => Some(VTFImageFormat::IMAGE_FORMAT_ATI_DST24),
            36 => Some(VTFImageFormat::IMAGE_FORMAT_NV_NULL),
            37 => Some(VTFImageFormat::IMAGE_FORMAT_ATI2N),
            38 => Some(VTFImageFormat::IMAGE_FORMAT_ATI1N),
            39 => Some(VTFImageFormat::IMAGE_FORMAT_COUNT),
            -1 => Some(VTFImageFormat::IMAGE_FORMAT_NONE),
            _ => None,
        }
    }

    /// Looks an unsigned pixel-format code up in the known enumeration.
    pub fn from_u64(n: u64) -> (r: Option<VTFImageFormat>)
        ensures
            r == VTFImageFormat::spec_from_i64(n as int),
    {
        if n <= 40 {
            VTFImageFormat::from_i64(n as i64)
        } else {
            None
        }
    }
}

/// The header's bit flags, each a single bit of the 32-bit flag field.
#[allow(non_camel_case_types)]
#[derive(Debug, Clone, Copy, PartialEq, Eq, Structural)]
pub enum VTFFlags {
    TEXTUREFLAGS_POINTSAMPLE,
    TEXTUREFLAGS_TRILINEAR,
    TEXTUREFLAGS_CLAMPS,
    TEXTUREFLAGS_CLAMPT,
    TEXTUREFLAGS_ANISOTROPIC,
    TEXTUREFLAGS_HINT_DXT5,
    TEXTUREFLAGS_PWL_CORRECTED,
    TEXTUREFLAGS_NORMAL,
    TEXTUREFLAGS_NOMIP,
    TEXTUREFLAGS_NOLOD,
    TEXTUREFLAGS_ALL_MIPS,
    TEXTUREFLAGS_PROCEDURAL,
    TEXTUREFLAGS_ONEBITALPHA,
    TEXTUREFLAGS_EIGHTBITALPHA,
    TEXTUREFLAGS_ENVMAP,
    TEXTUREFLAGS_RENDERTARGET,
    TEXTUREFLAGS_DEPTHRENDERTARGET,
    TEXTUREFLAGS_NODEBUGOVERRIDE,
    TEXTUREFLAGS_SINGLECOPY,
    TEXTUREFLAGS_PRE_SRGB,
    TEXTUREFLAGS_UNUSED0,
    TEXTUREFLAGS_UNUSED1,
    TEXTUREFLAGS_UNUSED2,
    TEXTUREFLAGS_NODEPTHBUFFER,
    TEXTUREFLAGS_UNUSED3,
    TEXTUREFLAGS_CLAMPU,
    TEXTUREFLAGS_VERTEXTEXTURE,
    TEXTUREFLAGS_SSBUMP,
    TEXTUREFLAGS_UNUSED4,
    TEXTUREFLAGS_BORDER,
    TEXTUREFLAGS_UNUSED_40000000,
    TEXTUREFLAGS_UNUSED_80000000,
}

impl VTFFlags {
    /// The single bit each flag occupies in the header's flag field.
    pub open spec fn spec_mask(self) -> u32 {
        match self {
            VTFFlags::TEXTUREFLAGS_POINTSAMPLE => 0x00000001u32,
            VTFFlags::TEXTUREFLAGS_TRILINEAR => 0x00000002u32,
            VTFFlags::TEXTUREFLAGS_CLAMPS => 0x00000004u32,
            VTFFlags::TEXTUREFLAGS_CLAMPT => 0x00000008u32,
            VTFFlags::TEXTUREFLAGS_ANISOTROPIC => 0x00000010u32,
            VTFFlags::TEXTUREFLAGS_HINT_DXT5 => 0x00000020u32,
            VTFFlags::TEXTUREFLAGS_PWL_CORRECTED => 0x00000040u32,
            VTFFlags::TEXTUREFLAGS_NORMAL => 0x00000080u32,
            VTFFlags::TEXTUREFLAGS_NOMIP => 0x00000100u32,
            VTFFlags::TEXTUREFLAGS_NOLOD => 0x00000200u32,
            VTFFlags::TEXTUREFLAGS_ALL_MIPS => 0x00000400u32,
            VTFFlags::TEXTUREFLAGS_PROCEDURAL => 0x00000800u32,
            VTFFlags::TEXTUREFLAGS_ONEBITALPHA => 0x00001000u32,
            VTFFlags::TEXTUREFLAGS_EIGHTBITALPHA => 0x00002000u32,
            VTFFlags::TEXTUREFLAGS_ENVMAP => 0x00004000u32,
            VTFFlags::TEXTUREFLAGS_RENDERTARGET => 0x00008000u32,
            VTFFlags::TEXTUREFLAGS_DEPTHRENDERTARGET => 0x00010000u32,
            VTFFlags::TEXTUREFLAGS_NODEBUGOVERRIDE => 0x00020000u32,
            VTFFlags::TEXTUREFLAGS_SINGLECOPY => 0x00040000u32,
            VTFFlags::TEXTUREFLAGS_PRE_SRGB => 0x00080000u32,
            VTFFlags::TEXTUREFLAGS_UNUSED0 => 0x00100000u32,
            VTFFlags::TEXTUREFLAGS_UNUSED1 => 0x00200000u32,
            VTFFlags::TEXTUREFLAGS_UNUSED2 => 0x00400000u32,
            VTFFlags::TEXTUREFLAGS_NODEPTHBUFFER => 0x00800000u32,
            VTFFlags::TEXTUREFLAGS_UNUSED3 => 0x01000000u32,
            VTFFlags::TEXTUREFLAGS_CLAMPU => 0x02000000u32,
            VTFFlags::TEXTUREFLAGS_VERTEXTEXTURE => 0x04000000u32,
            VTFFlags::TEXTUREFLAGS_SSBUMP => 0x08000000u32,
            VTFFlags::TEXTUREFLAGS_UNUSED4 => 0x10000000u32,
            VTFFlags::TEXTUREFLAGS_BORDER => 0x20000000u32,
            VTFFlags::TEXTUREFLAGS_UNUSED_40000000 => 0x40000000u32,
            VTFFlags::TEXTUREFLAGS_UNUSED_80000000 => 0x80000000u32,
        }
    }

    /// The flag's bit mask.
    pub fn mask(&self) -> (r: u32)
        ensures
            r == self.spec_mask(),
    {
        match self {
            VTFFlags::TEXTUREFLAGS_POINTSAMPLE => 0x00000001,
            VTFFlags::TEXTUREFLAGS_TRILINEAR => 0x00000002,
            VTFFlags::TEXTUREFLAGS_CLAMPS => 0x00000004,
            VTFFlags::TEXTUREFLAGS_CLAMPT => 0x00000008,
            VTFFlags::TEXTUREFLAGS_ANISOTROPIC => 0x00000010,
            VTFFlags::TEXTUREFLAGS_HINT_DXT5 => 0x00000020,
            VTFFlags::TEXTUREFLAGS_PWL_CORRECTED => 0x00000040,
            VTFFlags::TEXTUREFLAGS_NORMAL => 0x00000080,
            VTFFlags::TEXTUREFLAGS_NOMIP => 0x00000100,
            VTFFlags::TEXTUREFLAGS_NOLOD => 0x00000200,
            VTFFlags::TEXTUREFLAGS_ALL_MIPS => 0x00000400,
            VTFFlags::TEXTUREFLAGS_PROCEDURAL => 0x00000800,
            VTFFlags::TEXTUREFLAGS_ONEBITALPHA => 0x00001000,
            VTFFlags::TEXTUREFLAGS_EIGHTBITALPHA => 0x00002000,
            VTFFlags::TEXTUREFLAGS_ENVMAP => 0x00004000,
            VTFFlags::TEXTUREFLAGS_RENDERTARGET => 0x00008000,
            VTFFlags::TEXTUREFLAGS_DEPTHRENDERTARGET => 0x00010000,
            VTFFlags::TEXTUREFLAGS_NODEBUGOVERRIDE => 0x00020000,
            VTFFlags::TEXTUREFLAGS_SINGLECOPY => 0x00040000,
            VTFFlags::TEXTUREFLAGS_PRE_SRGB => 0x00080000,
            VTFFlags::TEXTUREFLAGS_UNUSED0 => 0x00100000,
            VTFFlags::TEXTUREFLAGS_UNUSED1 => 0x00200000,
            VTFFlags::TEXTUREFLAGS_UNUSED2 => 0x00400000,
            VTFFlags::TEXTUREFLAGS_NODEPTHBUFFER => 0x00800000,
            VTFFlags::TEXTUREFLAGS_UNUSED3 => 0x01000000,
            VTFFlags::TEXTUREFLAGS_CLAMPU => 0x02000000,
            VTFFlags::TEXTUREFLAGS_VERTEXTEXTURE => 0x04000000,
            VTFFlags::TEXTUREFLAGS_SSBUMP => 0x08000000,
            VTFFlags::TEXTUREFLAGS_UNUSED4 => 0x10000000,
            VTFFlags::TEXTUREFLAGS_BORDER => 0x20000000,
            VTFFlags::TEXTUREFLAGS_UNUSED_40000000 => 0x40000000,
            VTFFlags::TEXTUREFLAGS_UNUSED_80000000 => 0x80000000,
        }
    }
}

/// Lengths of the fixed header layouts: the root header, and the whole
/// prefix through each version's extensions.
pub const ROOT_HEADER_LEN: usize = 16;

pub const HEADER70_LEN: usize = 63;

pub const HEADER72_LEN: usize = 65;

pub const HEADER73_LEN: usize = 72;

/// True when the buffer opens with the container's four signature bytes
/// (the letters `V`, `T`, `F` and a terminating zero).
pub open spec fn magic_ok(b: Seq<u8>) -> bool {
    b[0] == 86u8 && b[1] == 84u8 && b[2] == 70u8 && b[3] == 0u8
}

/// True when the version pair is supported: major 7, minor 0 through 5.
pub open spec fn version_ok(b: Seq<u8>) -> bool {
    le32(b, 4) == 7 && le32(b, 8) <= 5
}

/// The fault a root-header read of `b` reports, if any. A buffer shorter
/// than the minimum fixed header — the 63-byte version-7.0 layout — is
/// rejected before anything is read of it, whatever its first bytes hold;
/// only then are the signature and the version validated.
pub open spec fn spec_root_err(b: Seq<u8>) -> Option<VTFError> {
    if b.len() < 63 {
        Some(VTFError::FileSize)
    } else if !magic_ok(b) {
        Some(VTFError::HeaderSignature)
    } else if !version_ok(b) {
        Some(VTFError::HeaderVersion)
    } else {
        None
    }
}

/// The root header: signature, version pair, and the declared total
/// header length in bytes.
#[derive(Debug, Clone, Copy, PartialEq, Eq)]
pub struct RootHeader {
    pub type_string: [u8; 4],
    pub version: [u32; 2],
    pub header_size: u32,
}

impl RootHeader {
    /// Checks the signature and the version pair, exactly as the load
    /// does.
    pub fn verify(&self) -> (r: Result<(), VTFError>)
        ensures
            match r {
                Ok(()) => self.type_string@ == seq![86u8, 84u8, 70u8, 0u8] && self.version@[0]
                    == 7 && self.version@[1] <= 5,
                Err(VTFError::HeaderSignature) => self.type_string@ != seq![
                    86u8,
                    84u8,
                    70u8,
                    0u8,
                ],
                Err(VTFError::HeaderVersion) => self.type_string@ == seq![86u8, 84u8, 70u8, 0u8]
                    && !(self.version@[0] == 7 && self.version@[1] <= 5),
                _ => false,
            },
    {
        let sig_ok = self.type_string[0] == 86 && self.type_string[1] == 84
            && self.type_string[2] == 70 && self.type_string[3] == 0;
        proof {
            assert(sig_ok ==> self.type_string@ =~= seq![86u8, 84u8, 70u8, 0u8]);
        }
        if !sig_ok {
            Err(VTFError::HeaderSignature)
        } else if self.version[0] != 7 || self.version[1] > 5 {
            Err(VTFError::HeaderVersion)
        } else {
            Ok(())
        }
    }

    /// Reads and validates the root header from the start of the buffer.
    /// A buffer shorter than the container's minimum fixed header (the
    /// whole version-7.0 layout) is rejected before any field is read.
    pub fn load(src: &[u8]) -> (r: Result<RootHeader, VTFLoadError>)
        ensures
            match r {
                Ok(h) => spec_root_err(src@) is None && h.type_string@ == src@.subrange(0, 4)
                    && h.version@[0] == le32(src@, 4) && h.version@[1] == le32(src@, 8)
                    && h.header_size == le32(src@, 12),
                Err(e) => spec_root_err(src@) matches Some(v) && e == VTFLoadError::VTF(v),
            },
    {
        if src.len() < HEADER70_LEN {
            return Err(VTFLoadError::VTF(VTFError::FileSize));
        }
        let h = RootHeader {
            type_string: [src[0], src[1], src[2], src[3]],
            version: [read_u32_le(src, 4), read_u32_le(src, 8)],
            header_size: read_u32_le(src, 12),
        };
        proof {
            assert(h.type_string@ =~= src@.subrange(0, 4));
        }
        match h.verify() {
            Ok(()) => Ok(h),
            Err(e) => Err(VTFLoadError::VTF(e)),
        }
    }
}

/// The fault a version-7.0 header read of `b` reports, if any: the root's
/// faults (which already cover a buffer below the minimum header size),
/// then an unknown pixel-format code, then a dimension that is not a
/// power of two.
pub open spec fn spec_h70_err(b: Seq<u8>) -> Option<VTFError> {
    if spec_root_err(b) is Some {
        spec_root_err(b)
    } else if VTFImageFormat::spec_from_i64(le32_signed(b, 52)) is None
        || VTFImageFormat::spec_from_i64(le32_signed(b, 57)) is None {
        Some(VTFError::HeaderImageFormat)
    } else if !(spec_is_pow2_u16(le16(b, 16)) && spec_is_pow2_u16(le16(b, 18))) {
        Some(VTFError::ImageSize)
    } else {
        None
    }
}

/// The version-7.0 fields: dimensions, flags, frame counts, the stored
/// reflectivity and bump-scale words, the pixel formats, and the
/// thumbnail's format and dimensions. The reflectivity and bump-scale
/// fields hold the stored 32-bit words unread; the decoding core does not
/// interpret them.
#[derive(Debug, Clone, Copy, PartialEq, Eq)]
pub struct HeaderPart70 {
    pub width: u16,
    pub height: u16,
    pub flags: u32,
    pub frames: u16,
    pub start_frame: u16,
    pub reflectivity: [u32; 3],
    pub bump_scale: u32,
    pub image_format: VTFImageFormat,
    pub mip_count: u8,
    pub thumbnail_format: VTFImageFormat,
    pub thumbnail_width: u8,
    pub thumbnail_height: u8,
}

impl HeaderPart70 {
    /// Checks that both dimensions are powers of two.
    pub fn verify(&self) -> (r: Result<(), VTFError>)
        ensures
            r is Ok <==> spec_is_pow2_u16(self.width) && spec_is_pow2_u16(self.height),
            r is Err ==> r == Err::<(), VTFError>(VTFError::ImageSize),
    {
        if is_pow2_u16(self.width) && is_pow2_u16(self.height) {
            Ok(())
        } else {
            Err(VTFError::ImageSize)
        }
    }
}

/// What the version-7.0 fields hold when the read succeeds.
pub open spec fn h70_fields_ok(h: HeaderPart70, b: Seq<u8>) -> bool {
    &&& h.width == le16(b, 16)
    &&& h.height == le16(b, 18)
    &&& h.flags == le32(b, 20)
    &&& h.frames == le16(b, 24)
    &&& h.start_frame == le16(b, 26)
    &&& h.reflectivity@[0] == le32(b, 32)
    &&& h.reflectivity@[1] == le32(b, 36)
    &&& h.reflectivity@[2] == le32(b, 40)
    &&& h.bump_scale == le32(b, 48)
    &&& Some(h.image_format) == VTFImageFormat::spec_from_i64(le32_signed(b, 52))
    &&& h.mip_count == b[56]
    &&& Some(h.thumbnail_format) == VTFImageFormat::spec_from_i64(le32_signed(b, 57))
    &&& h.thumbnail_width == b[61]
    &&& h.thumbnail_height == b[62]
}

/// Reads the version-7.0 fields from their fixed offsets; `src` is the
/// whole buffer, with the root header before these fields.
fn load_part70(src: &[u8]) -> (r: Result<HeaderPart70, VTFError>)
    requires
        src@.len() >= 63,
    ensures
        match r {
            Ok(h) => h70_fields_ok(h, src@) && spec_is_pow2_u16(h.width) && spec_is_pow2_u16(
                h.height,
            ),
            Err(e) => {
                let fmt_bad = VTFImageFormat::spec_from_i64(le32_signed(src@, 52)) is None
                    || VTFImageFormat::spec_from_i64(le32_signed(src@, 57)) is None;
                if fmt_bad {
                    e == VTFError::HeaderImageFormat
                } else {
                    e == VTFError::ImageSize && !(spec_is_pow2_u16(le16(src@, 16))
                        && spec_is_pow2_u16(le16(src@, 18)))
                }
            },
        },
{
    let image_format_raw = read_u32_le(src, 52);
    let image_format_code: i64 = if image_format_raw >= 0x8000_0000 {
        image_format_raw as i64 - 0x1_0000_0000
    } else {
        image_format_raw as i64
    };
    let thumbnail_format_raw = read_u32_le(src, 57);
    let thumbnail_format_code: i64 = if thumbnail_format_raw >= 0x8000_0000 {
        thumbnail_format_raw as i64 - 0x1_0000_0000
    } else {
        thumbnail_format_raw as i64
    };
    let image_format = match VTFImageFormat::from_i64(image_format_code) {
        Some(f) => f,
        None => {
            return Err(VTFError::HeaderImageFormat);
        },
    };
    let thumbnail_format = match VTFImageFormat::from_i64(thumbnail_format_code) {
        Some(f) => f,
        None => {
            return Err(VTFError::HeaderImageFormat);
        },
    };
    let h = HeaderPart70 {
        width: read_u16_le(src, 16),
        height: read_u16_le(src, 18),
        flags: read_u32_le(src, 20),
        frames: read_u16_le(src, 24),
        start_frame: read_u16_le(src, 26),
        reflectivity: [read_u32_le(src, 32), read_u32_le(src, 36), read_u32_le(src, 40)],
        bump_scale: read_u32_le(src, 48),
        image_format,
        mip_count: src[56],
        thumbnail_format,
        thumbnail_width: src[61],
        thumbnail_height: src[62],
    };
    match h.verify() {
        Ok(()) => Ok(h),
        Err(e) => Err(e),
    }
}

/// The version-7.2 extension: the volume depth.
#[derive(Debug, Clone, Copy, PartialEq, Eq, Structural)]
pub struct HeaderPart72 {
    pub depth: u16,
}

/// The version-7.3 extension: how many resource records the table holds.
#[derive(Debug, Clone, Copy, PartialEq, Eq, Structural)]
pub struct HeaderPart73 {
    pub resource_count: u32,
}

/// A version-7.0 (or 7.1) header: the root plus the 7.0 fields.
#[derive(Debug, Clone, Copy, PartialEq, Eq)]
pub struct Header70 {
    pub root: RootHeader,
    pub h70: HeaderPart70,
}

/// A version-7.2 header: a 7.0 header plus the depth extension.
#[derive(Debug, Clone, Copy, PartialEq, Eq)]
pub struct Header72 {
    pub root: RootHeader,
    pub h70: HeaderPart70,
    pub h72: HeaderPart72,
}

/// A version-7.3 (through 7.5) header: a 7.2 header plus the resource
/// count.
#[derive(Debug, Clone, Copy, PartialEq, Eq)]
pub struct Header73 {
    pub root: RootHeader,
    pub h70: HeaderPart70,
    pub h72: HeaderPart72,
    pub h73: HeaderPart73,
}

/// What the root fields hold when a read succeeds.
pub open spec fn root_fields_ok(h: RootHeader, b: Seq<u8>) -> bool {
    &&& h.type_string@ == b.subrange(0, 4)
    &&& h.version@[0] == le32(b, 4)
    &&& h.version@[1] == le32(b, 8)
    &&& h.header_size == le32(b, 12)
}

impl Header70 {
    /// Reads and validates a version-7.0 header from the buffer's start.
    pub fn load(src: &[u8]) -> (r: Result<Header70, VTFLoadError>)
        ensures
            match r {
                Ok(h) => spec_h70_err(src@) is None && root_fields_ok(h.root, src@)
                    && h70_fields_ok(h.h70, src@),
                Err(e) => spec_h70_err(src@) matches Some(v) && e == VTFLoadError::VTF(v),
            },
    {
        let root = match RootHeader::load(src) {
            Ok(h) => h,
            Err(e) => {
                return Err(e);
            },
        };
        match load_part70(src) {
            Ok(h70) => Ok(Header70 { root, h70 }),
            Err(e) => Err(VTFLoadError::VTF(e)),
        }
    }
}

/// The fault a version-7.2 header read of `b` reports, if any.
pub open spec fn spec_h72_err(b: Seq<u8>) -> Option<VTFError> {
    if spec_h70_err(b) is Some {
        spec_h70_err(b)
    } else if b.len() < 65 {
        Some(VTFError::FileSize)
    } else {
        None
    }
}

impl Header72 {
    /// Reads and validates a version-7.2 header from the buffer's start.
    pub fn load(src: &[u8]) -> (r: Result<Header72, VTFLoadError>)
        ensures
            match r {
                Ok(h) => spec_h72_err(src@) is None && root_fields_ok(h.root, src@)
                    && h70_fields_ok(h.h70, src@) && h.h72.depth == le16(src@, 63),
                Err(e) => spec_h72_err(src@) matches Some(v) && e == VTFLoadError::VTF(v),
            },
    {
        let h70 = match Header70::load(src) {
            Ok(h) => h,
            Err(e) => {
                return Err(e);
            },
        };
        if src.len() < HEADER72_LEN {
            return Err(VTFLoadError::VTF(VTFError::FileSize));
        }
        Ok(Header72 { root: h70.root, h70: h70.h70, h72: HeaderPart72 { depth: read_u16_le(src, 63) } })
    }
}

/// The fault a version-7.3 header read of `b` reports, if any.
pub open spec fn spec_h73_err(b: Seq<u8>) -> Option<VTFError> {
    if spec_h72_err(b) is Some {
        spec_h72_err(b)
    } else if b.len() < 72 {
        Some(VTFError::FileSize)
    } else {
        None
    }
}

impl Header73 {
    /// Reads and validates a version-7.3 header from the buffer's start.
    pub fn load(src: &[u8]) -> (r: Result<Header73, VTFLoadError>)
        ensures
            match r {
                Ok(h) => spec_h73_err(src@) is None && root_fields_ok(h.root, src@)
                    && h70_fields_ok(h.h70, src@) && h.h72.depth == le16(src@, 63)
                    && h.h73.resource_count == le32(src@, 68),
                Err(e) => spec_h73_err(src@) matches Some(v) && e == VTFLoadError::VTF(v),
            },
    {
        let h72 = match Header72::load(src) {
            Ok(h) => h,
            Err(e) => {
                return Err(e);
            },
        };
        if src.len() < HEADER73_LEN {
            return Err(VTFLoadError::VTF(VTFError::FileSize));
        }
        Ok(
            Header73 {
                root: h72.root,
                h70: h72.h70,
                h72: h72.h72,
                h73: HeaderPart73 { resource_count: read_u32_le(src, 68) },
            },
        )
    }
}

/// A versioned header reader: each version's header is read in one pass
/// from the buffer's start.
pub trait Header where Self: Sized {
    /// Reads this version's header from the buffer's start.
    fn load(src: &[u8]) -> Result<Self, VTFLoadError>;
}

impl Header for Header70 {
    fn load(src: &[u8]) -> Result<Header70, VTFLoadError> {
        Header70::load(src)
    }
}

impl Header for Header72 {
    fn load(src: &[u8]) -> Result<Header72, VTFLoadError> {
        Header72::load(src)
    }
}

impl Header for Header73 {
    fn load(src: &[u8]) -> Result<Header73, VTFLoadError> {
        Header73::load(src)
    }
}

/// One record of the resource table: a three-byte type tag, the tag's
/// flag byte (a set bit marks an inline payload with no data chunk), and
/// the payload — inline data or a byte offset into the file.
#[derive(Debug, Clone, Copy, PartialEq, Eq, Structural)]
pub struct Resource {
    pub rtype: u32,
    pub flags: u8,
    pub data: u32,
}

/// What a resource record holds when read from `b` at `pos`.
pub open spec fn resource_fields_ok(r: Resource, b: Seq<u8>, pos: int) -> bool {
    &&& r.rtype == le24(b, pos)
    &&& r.flags == b[pos + 3]
    &&& r.data == le32(b, pos + 4)
}

impl Resource {
    /// Reads one eight-byte resource record at `pos`.
    pub fn load(src: &[u8], pos: usize) -> (r: Result<Resource, VTFLoadError>)
        ensures
            match r {
                Ok(res) => pos + 8 <= src@.len() && resource_fields_ok(res, src@, pos as int),
                Err(e) => pos + 8 > src@.len() && e == VTFLoadError::VTF(VTFError::FileSize),
            },
    {
        let n = src.len();
        if pos >= n || n - pos < 8 {
            return Err(VTFLoadError::VTF(VTFError::FileSize));
        }
        Ok(
            Resource {
                rtype: read_u24_le(src, pos),
                flags: src[pos + 3],
                data: read_u32_le(src, pos + 4),
            },
        )
    }

    /// The record's tag in the known enumeration, if recognized.
    pub fn id(&self) -> (r: Option<VTFResourceType>)
        ensures
            r == VTFResourceType::spec_from_i64(self.rtype as int),
    {
        VTFResourceType::from_u64(self.rtype as u64)
    }
}

} // verus!

//! The texture-container pipeline: versioned headers, the resource table,
//! and the per-format image decoders, driven from one byte buffer.

use vstd::prelude::*;

pub mod error;
pub mod format;
pub mod image;

use crate::vtf::error::{VTFError, VTFLoadError};
use crate::vtf::format::{
    h70_fields_ok, le16, le24, le32, le32_signed, root_fields_ok, spec_h70_err, spec_h72_err,
    spec_h73_err, spec_is_pow2_u16, spec_is_pow2_u8, is_pow2_u8, Header70, Header72, Header73,
    HeaderPart70, HeaderPart73, Resource, RootHeader, VTFImageFormat,
};
use crate::vtf::image::{
    spec_format_byte_len, spec_format_supported, wrapper_loaded_from, VTFImage, VTFImageWrapper,
};

verus! {

/// The header of whichever version the file declares: later versions wrap
/// the earlier ones.
#[derive(Debug, Clone, Copy, PartialEq, Eq)]
pub enum HeaderVersion {
    H70(Header70),
    H72(Header72),
    H73(Header73),
}

impl HeaderVersion {
    /// The root header common to all versions.
    pub open spec fn spec_root(self) -> RootHeader {
        match self {
            HeaderVersion::H70(h) => h.root,
            HeaderVersion::H72(h) => h.root,
            HeaderVersion::H73(h) => h.root,
        }
    }

    /// The version-7.0 fields common to all versions.
    pub open spec fn spec_h70(self) -> HeaderPart70 {
        match self {
            HeaderVersion::H70(h) => h.h70,
            HeaderVersion::H72(h) => h.h70,
            HeaderVersion::H73(h) => h.h70,
        }
    }

    /// The root header.
    pub fn get_root(&self) -> (r: &RootHeader)
        ensures
            *r == self.spec_root(),
    {
        match self {
            HeaderVersion::H70(h) => &h.root,
            HeaderVersion::H72(h) => &h.root,
            HeaderVersion::H73(h) => &h.root,
        }
    }

    /// The version-7.0 fields.
    pub fn get_h70(&self) -> (r: &HeaderPart70)
        ensures
            *r == self.spec_h70(),
    {
        match self {
            HeaderVersion::H70(h) => &h.h70,
            HeaderVersion::H72(h) => &h.h70,
            HeaderVersion::H73(h) => &h.h70,
        }
    }

    /// The version-7.3 extension, when the header has one.
    pub fn get_h73(&self) -> (r: Option<&HeaderPart73>)
        ensures
            match self {
                HeaderVersion::H73(h) => r matches Some(p) && *p == h.h73,
                _ => r is None,
            },
    {
        match self {
            HeaderVersion::H73(h) => Some(&h.h73),
            _ => None,
        }
    }
}

/// Two raised to each level a 16-bit dimension can be halved by.
pub open spec fn mip_divisor(level: u8) -> u16 {
    if level == 0 {
        1u16
    } else if level == 1 {
        2u16
    } else if level == 2 {
        4u16
    } else if level == 3 {
        8u16
    } else if level == 4 {
        16u16
    } else if level == 5 {
        32u16
    } else if level == 6 {
        64u16
    } else if level == 7 {
        128u16
    } else if level == 8 {
        256u16
    } else if level == 9 {
        512u16
    } else if level == 10 {
        1024u16
    } else if level == 11 {
        2048u16
    } else if level == 12 {
        4096u16
    } else if level == 13 {
        8192u16
    } else if level == 14 {
        16384u16
    } else {
        32768u16
    }
}

/// A dimension at the given mip level: halved once per level, and never
/// below one texel.
pub open spec fn spec_mip_dim(d: u16, level: u8) -> u16 {
    if level >= 16 {
        1u16
    } else {
        let s = d / mip_divisor(level);
        if s == 0 {
            1u16
        } else {
            s
        }
    }
}

/// A power-of-two dimension stays a power of two at every mip level.
pub proof fn lemma_mip_dim_pow2(d: u16, level: u8)
    requires
        spec_is_pow2_u16(d),
    ensures
        spec_is_pow2_u16(spec_mip_dim(d, level)),
{
    // One case per level pins the divisor, so each division is by a
    // constant and the sixteen possible dimensions settle it.
    if level >= 16 {
    } else if level == 0 {
    } else if level == 1 {
    } else if level == 2 {
    } else if level == 3 {
    } else if level == 4 {
    } else if level == 5 {
    } else if level == 6 {
    } else if level == 7 {
    } else if level == 8 {
    } else if level == 9 {
    } else if level == 10 {
    } else if level == 11 {
    } else if level == 12 {
    } else if level == 13 {
    } else if level == 14 {
    } else {
    }
}

/// A power of two is a whole number of 4-texel blocks, or smaller than
/// one block.
pub proof fn lemma_pow2_dims(x: u16)
    requires
        spec_is_pow2_u16(x),
    ensures
        x % 4 == 0 || x < 4,
{
}

/// How many bytes a stored image occupies is never negative.
pub proof fn lemma_byte_len_nonneg(f: VTFImageFormat, w: u16, h: u16)
    ensures
        spec_format_byte_len(f, w, h) >= 0,
{
    vstd::arithmetic::mul::lemma_mul_nonnegative(
        crate::vtf::image::clamp4(w) as int,
        crate::vtf::image::clamp4(h) as int,
    );
    vstd::arithmetic::mul::lemma_mul_nonnegative(w as int, h as int);
    vstd::arithmetic::div_mod::lemma_div_pos_is_pos(
        crate::vtf::image::clamp4(w) as int * crate::vtf::image::clamp4(h) as int,
        16,
    );
}

/// Where the `k`-th stored mip begins: the mips run from the smallest
/// level (`mip_count - 1`) up, each directly after the one before.
pub open spec fn spec_mip_offset(
    base: int,
    w: u16,
    h: u16,
    mip_count: u8,
    f: VTFImageFormat,
    k: int,
) -> int
    decreases k,
{
    if k <= 0 {
        base
    } else {
        spec_mip_offset(base, w, h, mip_count, f, k - 1) + spec_format_byte_len(
            f,
            spec_mip_dim(w, (mip_count - k) as u8),
            spec_mip_dim(h, (mip_count - k) as u8),
        )
    }
}

/// Mip offsets only grow.
pub proof fn lemma_mip_offset_mono(
    base: int,
    w: u16,
    h: u16,
    mip_count: u8,
    f: VTFImageFormat,
    k1: int,
    k2: int,
)
    requires
        0 <= k1 <= k2,
    ensures
        spec_mip_offset(base, w, h, mip_count, f, k1) <= spec_mip_offset(
            base,
            w,
            h,
            mip_count,
            f,
            k2,
        ),
    decreases k2 - k1,
{
    if k2 > k1 {
        lemma_mip_offset_mono(base, w, h, mip_count, f, k1, k2 - 1);
        lemma_byte_len_nonneg(
            f,
            spec_mip_dim(w, (mip_count - k2) as u8),
            spec_mip_dim(h, (mip_count - k2) as u8),
        );
    }
}

/// Where the mips end (and the full image begins).
pub open spec fn spec_mips_end(base: int, w: u16, h: u16, mip_count: u8, f: VTFImageFormat) -> int {
    spec_mip_offset(
        base,
        w,
        h,
        mip_count,
        f,
        if mip_count as int >= 1 {
            mip_count as int - 1
        } else {
            0int
        },
    )
}

/// One resource record as stored at `off`.
pub open spec fn spec_resource_at(b: Seq<u8>, off: int) -> Resource {
    Resource { rtype: le24(b, off), flags: b[off + 3], data: le32(b, off + 4) }
}

/// The resource table: `count` eight-byte records from `start`.
pub open spec fn spec_resources(b: Seq<u8>, start: int, count: int) -> Seq<Resource> {
    Seq::new(count as nat, |i: int| spec_resource_at(b, start + 8 * i))
}

/// The index of the last record bearing the given type tag, as a scan
/// that keeps overwriting its match would leave it.
pub open spec fn find_last_tag(rs: Seq<Resource>, tag: u32) -> Option<int>
    decreases rs.len(),
{
    if rs.len() == 0 {
        None
    } else if rs.last().rtype == tag {
        Some(rs.len() - 1)
    } else {
        find_last_tag(rs.drop_last(), tag)
    }
}

/// The type tags of the two resources the loader must locate: the
/// low-resolution (thumbnail) image and the full image.
pub const RSRC_LOW_RES_IMAGE: u32 = 0x01;

pub const RSRC_IMAGE: u32 = 0x30;

/// The file's minor version.
pub open spec fn spec_minor(b: Seq<u8>) -> u32 {
    le32(b, 8)
}

/// The image pixel format a validated header names.
pub open spec fn spec_img_fmt(b: Seq<u8>) -> VTFImageFormat {
    VTFImageFormat::spec_from_i64(le32_signed(b, 52)).unwrap()
}

/// The thumbnail pixel format a validated header names.
pub open spec fn spec_thumb_fmt(b: Seq<u8>) -> VTFImageFormat {
    VTFImageFormat::spec_from_i64(le32_signed(b, 57)).unwrap()
}

/// Where the resource table begins: the records sit directly before the
/// header's nominal end.
pub open spec fn spec_table_start(b: Seq<u8>) -> int {
    le32(b, 12) - 8 * le32(b, 68)
}

/// The whole resource table of a version-7.3 file.
pub open spec fn spec_table(b: Seq<u8>) -> Seq<Resource> {
    spec_resources(b, spec_table_start(b), le32(b, 68) as int)
}

/// Where the thumbnail's pixels begin: behind the thumbnail resource for
/// version 7.3 and later, directly after the header before that.
pub open spec fn spec_thumb_off(b: Seq<u8>) -> int {
    if spec_minor(b) >= 3 {
        spec_table(b)[find_last_tag(spec_table(b), RSRC_LOW_RES_IMAGE).unwrap()].data as int
    } else {
        le32(b, 12) as int
    }
}

/// Where the mip chain begins: behind the image resource for version 7.3
/// and later, directly after the thumbnail before that.
pub open spec fn spec_image_base(b: Seq<u8>) -> int {
    if spec_minor(b) >= 3 {
        spec_table(b)[find_last_tag(spec_table(b), RSRC_IMAGE).unwrap()].data as int
    } else {
        spec_thumb_off(b) + spec_format_byte_len(spec_thumb_fmt(b), b[61] as u16, b[62] as u16)
    }
}

/// The fault the image section reports, if any: the thumbnail, every mip,
/// and the full image must each lie inside the buffer.
pub open spec fn spec_images_err(b: Seq<u8>, thumb_off: int, img_base: int) -> Option<VTFError> {
    let w = le16(b, 16);
    let h = le16(b, 18);
    let mc = b[56];
    let tlen = spec_format_byte_len(spec_thumb_fmt(b), b[61] as u16, b[62] as u16);
    let img_off = spec_mips_end(img_base, w, h, mc, spec_img_fmt(b));
    if thumb_off + tlen > b.len() {
        Some(VTFError::FileSize)
    } else if img_off > b.len() {
        Some(VTFError::FileSize)
    } else if img_off + spec_format_byte_len(spec_img_fmt(b), w, h) > b.len() {
        Some(VTFError::FileSize)
    } else {
        None
    }
}

/// The fault a whole load of `b` reports, if any, in the order the loader
/// looks: the versioned headers, then the pixel formats against the
/// supported subset, then the thumbnail dimensions, then (for version 7.3
/// and later) the resource table and its two required records, then the
/// images themselves.
pub open spec fn spec_open_err(b: Seq<u8>) -> Option<VTFError> {
    let minor = spec_minor(b);
    let hdr_err = if minor >= 3 {
        spec_h73_err(b)
    } else if minor == 2 {
        spec_h72_err(b)
    } else {
        spec_h70_err(b)
    };
    if hdr_err is Some {
        hdr_err
    } else if !spec_format_supported(spec_img_fmt(b)) || !spec_format_supported(
        spec_thumb_fmt(b),
    ) {
        Some(VTFError::HeaderImageFormat)
    } else if !(spec_is_pow2_u8(b[61]) && spec_is_pow2_u8(b[62])) {
        Some(VTFError::ImageSize)
    } else if minor >= 3 {
        let hs = le32(b, 12);
        let rc = le32(b, 68);
        if 8 * (rc as int) > hs as int || hs as int > b.len() {
            Some(VTFError::FileSize)
        } else if find_last_tag(spec_table(b), RSRC_LOW_RES_IMAGE) is None || find_last_tag(
            spec_table(b),
            RSRC_IMAGE,
        ) is None {
            Some(VTFError::ResourceID)
        } else {
            spec_images_err(b, spec_thumb_off(b), spec_image_base(b))
        }
    } else {
        spec_images_err(b, spec_thumb_off(b), spec_image_base(b))
    }
}

/// What the header of a successful load holds: the variant matches the
/// declared minor version and every field was read from its offset.
pub open spec fn header_version_ok(hv: HeaderVersion, b: Seq<u8>) -> bool {
    match hv {
        HeaderVersion::H70(h) => spec_minor(b) <= 1 && root_fields_ok(h.root, b)
            && h70_fields_ok(h.h70, b),
        HeaderVersion::H72(h) => spec_minor(b) == 2 && root_fields_ok(h.root, b)
            && h70_fields_ok(h.h70, b) && h.h72.depth == le16(b, 63),
        HeaderVersion::H73(h) => spec_minor(b) >= 3 && root_fields_ok(h.root, b)
            && h70_fields_ok(h.h70, b) && h.h72.depth == le16(b, 63) && h.h73.resource_count
            == le32(b, 68),
    }
}

/// A loaded texture container: the versioned header, the resource table
/// when the version stores one, and the decoded thumbnail, mip chain
/// (smallest first) and full image.
#[derive(Debug, Clone, PartialEq, Eq)]
pub struct VTFFile {
    pub header: HeaderVersion,
    pub resources: Option<Vec<Resource>>,
    pub thumb: VTFImageWrapper,
    pub mips: Vec<VTFImageWrapper>,
    pub image: VTFImageWrapper,
}

/// Reads the mip chain: one image per level from `mip_count - 1` (the
/// smallest) down to level 1, each directly after the one before.
fn load_mips(
    src: &[u8],
    pos: usize,
    width: u16,
    height: u16,
    mip_count: u8,
    image_format: VTFImageFormat,
) -> (r: Result<(Vec<VTFImageWrapper>, usize), VTFError>)
    requires
        spec_format_supported(image_format),
        spec_is_pow2_u16(width),
        spec_is_pow2_u16(height),
    ensures
        ({
            let count = if mip_count as int >= 1 {
                mip_count as int - 1
            } else {
                0int
            };
            match r {
                Ok((mips, next)) => mips@.len() == count && next == spec_mip_offset(
                    pos as int,
                    width,
                    height,
                    mip_count,
                    image_format,
                    count,
                ) && forall|k: int|
                    0 <= k < count ==> wrapper_loaded_from(
                        #[trigger] mips@[k],
                        src@,
                        spec_mip_offset(pos as int, width, height, mip_count, image_format, k),
                        spec_mip_dim(width, (mip_count - 1 - k) as u8),
                        spec_mip_dim(height, (mip_count - 1 - k) as u8),
                        image_format,
                    ) && mips@[k].wf(),
                Err(e) => e == VTFError::FileSize && spec_mip_offset(
                    pos as int,
                    width,
                    height,
                    mip_count,
                    image_format,
                    count,
                ) > src@.len(),
            }
        }),
{
    let count: usize = if mip_count >= 1 {
        (mip_count - 1) as usize
    } else {
        0
    };
    let mut mips: Vec<VTFImageWrapper> = Vec::new();
    let mut cursor: usize = pos;
    let mut k: usize = 0;
    while k < count
        invariant
            k <= count,
            count == (if mip_count as int >= 1 {
                mip_count as int - 1
            } else {
                0int
            }),
            spec_format_supported(image_format),
            spec_is_pow2_u16(width),
            spec_is_pow2_u16(height),
            cursor as int == spec_mip_offset(
                pos as int,
                width,
                height,
                mip_count,
                image_format,
                k as int,
            ),
            k > 0 ==> cursor <= src@.len(),
            mips@.len() == k,
            forall|j: int|
                0 <= j < k ==> wrapper_loaded_from(
                    #[trigger] mips@[j],
                    src@,
                    spec_mip_offset(pos as int, width, height, mip_count, image_format, j),
                    spec_mip_dim(width, (mip_count - 1 - j) as u8),
                    spec_mip_dim(height, (mip_count - 1 - j) as u8),
                    image_format,
                ) && mips@[j].wf(),
        decreases count - k,
    {
        let level: u8 = mip_count - 1 - (k as u8);
        let dims = VTFFile::compute_mip_dimensions(width, height, level);
        proof {
            lemma_mip_dim_pow2(width, level);
            lemma_mip_dim_pow2(height, level);
            lemma_pow2_dims(spec_mip_dim(width, level));
            lemma_pow2_dims(spec_mip_dim(height, level));
        }
        match VTFImageWrapper::load(src, cursor, dims.0, dims.1, image_format) {
            Ok(img_next) => {
                let (img, next) = img_next;
                mips.push(img);
                cursor = next;
            },
            Err(_) => {
                proof {
                    lemma_mip_offset_mono(
                        pos as int,
                        width,
                        height,
                        mip_count,
                        image_format,
                        k as int + 1,
                        count as int,
                    );
                }
                return Err(VTFError::FileSize);
            },
        }
        k = k + 1;
    }
    Ok((mips, cursor))
}

impl VTFFile {
    /// The dimensions of a mip level: each axis halved once per level and
    /// clamped to at least one texel.
    pub fn compute_mip_dimensions(width: u16, height: u16, mip_level: u8) -> (r: (u16, u16))
        ensures
            r.0 == spec_mip_dim(width, mip_level),
            r.1 == spec_mip_dim(height, mip_level),
    {
        if mip_level >= 16 {
            return (1, 1);
        }
        let d: u16 = if mip_level == 0 {
            1
        } else if mip_level == 1 {
            2
        } else if mip_level == 2 {
            4
        } else if mip_level == 3 {
            8
        } else if mip_level == 4 {
            16
        } else if mip_level == 5 {
            32
        } else if mip_level == 6 {
            64
        } else if mip_level == 7 {
            128
        } else if mip_level == 8 {
            256
        } else if mip_level == 9 {
            512
        } else if mip_level == 10 {
            1024
        } else if mip_level == 11 {
            2048
        } else if mip_level == 12 {
            4096
        } else if mip_level == 13 {
            8192
        } else if mip_level == 14 {
            16384
        } else {
            32768
        };
        let mut mip_width = width / d;
        let mut mip_height = height / d;
        if mip_width < 1 {
            mip_width = 1;
        }
        if mip_height < 1 {
            mip_height = 1;
        }
        (mip_width, mip_height)
    }

    /// Reads a whole texture container out of its bytes: the versioned
    /// headers are validated, the resource table (version 7.3 and later)
    /// locates the thumbnail and the image, and the thumbnail, the mip
    /// chain and the full image are decoded. Every fault surfaces as the
    /// typed error `spec_open_err` names for these bytes, and no pixel is
    /// produced after a fault.
    #[verifier::rlimit(60)]
    pub fn open(src: &[u8]) -> (r: Result<VTFFile, VTFLoadError>)
        ensures
            match r {
                Ok(f) => {
                    let b = src@;
                    &&& spec_open_err(b) is None
                    &&& header_version_ok(f.header, b)
                    &&& (spec_minor(b) >= 3 ==> (f.resources matches Some(rv) && rv@
                        == spec_table(b)))
                    &&& (spec_minor(b) < 3 ==> f.resources is None)
                    &&& f.thumb.wf()
                    &&& wrapper_loaded_from(
                        f.thumb,
                        b,
                        spec_thumb_off(b),
                        b[61] as u16,
                        b[62] as u16,
                        spec_thumb_fmt(b),
                    )
                    &&& f.mips@.len() == (if b[56] as int >= 1 {
                        b[56] as int - 1
                    } else {
                        0int
                    })
                    &&& (forall|k: int|
                        0 <= k < f.mips@.len() ==> wrapper_loaded_from(
                            #[trigger] f.mips@[k],
                            b,
                            spec_mip_offset(
                                spec_image_base(b),
                                le16(b, 16),
                                le16(b, 18),
                                b[56],
                                spec_img_fmt(b),
                                k,
                            ),
                            spec_mip_dim(le16(b, 16), (b[56] - 1 - k) as u8),
                            spec_mip_dim(le16(b, 18), (b[56] - 1 - k) as u8),
                            spec_img_fmt(b),
                        ) && f.mips@[k].wf())
                    &&& f.image.wf()
                    &&& wrapper_loaded_from(
                        f.image,
                        b,
                        spec_mips_end(
                            spec_image_base(b),
                            le16(b, 16),
                            le16(b, 18),
                            b[56],
                            spec_img_fmt(b),
                        ),
                        le16(b, 16),
                        le16(b, 18),
                        spec_img_fmt(b),
                    )
                },
                Err(e) => spec_open_err(src@) matches Some(v) && e == VTFLoadError::VTF(v),
            },
    {
        let len = src.len();
        let root = match RootHeader::load(src) {
            Ok(h) => h,
            Err(e) => {
                return Err(e);
            },
        };
        let minor = root.version[1];
        let header: HeaderVersion = if minor >= 3 {
            match Header73::load(src) {
                Ok(h) => HeaderVersion::H73(h),
                Err(e) => {
                    return Err(e);
                },
            }
        } else if minor == 2 {
            match Header72::load(src) {
                Ok(h) => HeaderVersion::H72(h),
                Err(e) => {
                    return Err(e);
                },
            }
        } else {
            match Header70::load(src) {
                Ok(h) => HeaderVersion::H70(h),
                Err(e) => {
                    return Err(e);
                },
            }
        };
        let h70 = *header.get_h70();
        if !crate::vtf::image::format_supported(h70.image_format)
            || !crate::vtf::image::format_supported(h70.thumbnail_format) {
            return Err(VTFLoadError::VTF(VTFError::HeaderImageFormat));
        }
        if !(is_pow2_u8(h70.thumbnail_width) && is_pow2_u8(h70.thumbnail_height)) {
            return Err(VTFLoadError::VTF(VTFError::ImageSize));
        }
        proof {
            lemma_pow2_dims(h70.width);
            lemma_pow2_dims(h70.height);
        }
        let tw = h70.thumbnail_width as u16;
        let th = h70.thumbnail_height as u16;
        if minor >= 3 {
            let hs = header.get_root().header_size;
            let rc = match header.get_h73() {
                Some(p) => p.resource_count,
                None => {
                    proof {
                        assert(false);
                    }
                    0
                },
            };
            if (rc as u64) * 8 > hs as u64 || (hs as u64) > len as u64 {
                return Err(VTFLoadError::VTF(VTFError::FileSize));
            }
            let start: usize = (hs - rc * 8) as usize;
            let mut resources: Vec<Resource> = Vec::new();
            let mut thumb_ri: Option<usize> = None;
            let mut image_ri: Option<usize> = None;
            let mut ri: usize = 0;
            proof {
                assert(resources@ =~= spec_resources(src@, start as int, 0));
            }
            while ri < (rc as usize)
                invariant
                    ri <= rc as usize,
                    src@.len() == len,
                    start as int == le32(src@, 12) - 8 * le32(src@, 68),
                    rc == le32(src@, 68),
                    start + 8 * (rc as int) <= len,
                    resources@ == spec_resources(src@, start as int, ri as int),
                    thumb_ri is Some <==> find_last_tag(resources@, RSRC_LOW_RES_IMAGE) is Some,
                    thumb_ri matches Some(i) ==> find_last_tag(resources@, RSRC_LOW_RES_IMAGE)
                        == Some(i as int) && i < ri,
                    image_ri is Some <==> find_last_tag(resources@, RSRC_IMAGE) is Some,
                    image_ri matches Some(i) ==> find_last_tag(resources@, RSRC_IMAGE) == Some(
                        i as int,
                    ) && i < ri,
                decreases rc as int - ri,
            {
                let ghost old_rs = resources@;
                let rsrc = match Resource::load(src, start + 8 * ri) {
                    Ok(x) => x,
                    Err(e) => {
                        proof {
                            assert(false);
                        }
                        return Err(e);
                    },
                };
                resources.push(rsrc);
                proof {
                    assert(resources@ =~= spec_resources(src@, start as int, ri as int + 1));
                    assert(resources@.drop_last() =~= old_rs);
                }
                if rsrc.rtype == RSRC_LOW_RES_IMAGE {
                    thumb_ri = Some(ri);
                }
                if rsrc.rtype == RSRC_IMAGE {
                    image_ri = Some(ri);
                }
                ri = ri + 1;
            }
            proof {
                assert(resources@ == spec_table(src@));
            }
            let t_i = match thumb_ri {
                Some(i) => i,
                None => {
                    return Err(VTFLoadError::VTF(VTFError::ResourceID));
                },
            };
            let i_i = match image_ri {
                Some(i) => i,
                None => {
                    return Err(VTFLoadError::VTF(VTFError::ResourceID));
                },
            };
            let thumb_off = resources[t_i].data as usize;
            let image_base = resources[i_i].data as usize;
            let thumb = match VTFImageWrapper::load(src, thumb_off, tw, th, h70.thumbnail_format) {
                Ok(x) => x.0,
                Err(_) => {
                    return Err(VTFLoadError::VTF(VTFError::FileSize));
                },
            };
            let mips_pair = match load_mips(
                src,
                image_base,
                h70.width,
                h70.height,
                h70.mip_count,
                h70.image_format,
            ) {
                Ok(x) => x,
                Err(_) => {
                    return Err(VTFLoadError::VTF(VTFError::FileSize));
                },
            };
            let (mips, image_off) = mips_pair;
            let image = match VTFImageWrapper::load(
                src,
                image_off,
                h70.width,
                h70.height,
                h70.image_format,
            ) {
                Ok(x) => x.0,
                Err(_) => {
                    return Err(VTFLoadError::VTF(VTFError::FileSize));
                },
            };
            Ok(VTFFile { header, resources: Some(resources), thumb, mips, image })
        } else {
            let hs = header.get_root().header_size;
            let thumb_off = hs as usize;
            let thumb_pair = match VTFImageWrapper::load(
                src,
                thumb_off,
                tw,
                th,
                h70.thumbnail_format,
            ) {
                Ok(x) => x,
                Err(_) => {
                    return Err(VTFLoadError::VTF(VTFError::FileSize));
                },
            };
            let (thumb, image_base) = thumb_pair;
            let mips_pair = match load_mips(
                src,
                image_base,
                h70.width,
                h70.height,
                h70.mip_count,
                h70.image_format,
            ) {
                Ok(x) => x,
                Err(_) => {
                    return Err(VTFLoadError::VTF(VTFError::FileSize));
                },
            };
            let (mips, image_off) = mips_pair;
            let image = match VTFImageWrapper::load(
                src,
                image_off,
                h70.width,
                h70.height,
                h70.image_format,
            ) {
                Ok(x) => x.0,
                Err(_) => {
                    return Err(VTFLoadError::VTF(VTFError::FileSize));
                },
            };
            Ok(VTFFile { header, resources: None, thumb, mips, image })
        }
    }
}

} // verus!

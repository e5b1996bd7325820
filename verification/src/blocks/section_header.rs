use vstd::prelude::*;

use crate::block::{RawBlock, SpecRawBlock};
use crate::options::{
    opt_options_view, options_terminated, parse_opt_options, spec_opt_options, Options, SpecOpt,
};
use crate::util::{
    le_u16_at, le_u32_at, le_u64_at, result_matches, skip_bytes, spec_le_u16, spec_le_u32,
    spec_le_u64, word16, word32, word64_at, ParseError,
};
use crate::options::spec_parse_options;

verus! {

pub const TY: u32 = 0x0A0D0D0A;

/// The byte-order magic of a section written in the byte order this
/// library reads.
pub const MAGIC: u32 = 0x1A2B3C4D;

//    0                   1                   2                   3
//    0 1 2 3 4 5 6 7 8 9 0 1 2 3 4 5 6 7 8 9 0 1 2 3 4 5 6 7 8 9 0 1
//    +---------------------------------------------------------------+
//  0 |                   Block Type = 0x0A0D0D0A                     |
//    +---------------------------------------------------------------+
//  4 |                      Block Total Length                       |
//    +-+-+-+-+-+-+-+-+-+-+-+-+-+-+-+-+-+-+-+-+-+-+-+-+-+-+-+-+-+-+-+-+
//  8 |                      Byte-Order Magic                         |
//    +-+-+-+-+-+-+-+-+-+-+-+-+-+-+-+-+-+-+-+-+-+-+-+-+-+-+-+-+-+-+-+-+
// 12 |          Major Version        |         Minor Version         |
//    +-+-+-+-+-+-+-+-+-+-+-+-+-+-+-+-+-+-+-+-+-+-+-+-+-+-+-+-+-+-+-+-+
// 16 |                                                               |
//    |                          Section Length                       |
//    |                                                               |
//    +-+-+-+-+-+-+-+-+-+-+-+-+-+-+-+-+-+-+-+-+-+-+-+-+-+-+-+-+-+-+-+-+
// 24 /                                                               /
//    /                      Options (variable)                       /
//    /                                                               /
//    +-+-+-+-+-+-+-+-+-+-+-+-+-+-+-+-+-+-+-+-+-+-+-+-+-+-+-+-+-+-+-+-+
//    |                      Block Total Length                       |
//    +---------------------------------------------------------------+

/// The length of a section in bytes, where the writer gave one.
#[derive(PartialEq, Eq, Structural, Debug, Clone, Copy)]
pub enum SectionLength {
    Bytes(u64),
    Unspecified,
}

/// The section length that the 64-bit field stands for: all ones means
/// that none was given.
pub open spec fn spec_section_length(raw: u64) -> SectionLength {
    if raw == 0xFFFF_FFFF_FFFF_FFFF {
        SectionLength::Unspecified
    } else {
        SectionLength::Bytes(raw)
    }
}

#[derive(Debug)]
pub struct SectionHeader<'a> {
    pub ty: u32,
    pub block_length: u32,
    pub magic: u32,
    pub major_version: u16,
    pub minor_version: u16,
    pub section_length: SectionLength,
    pub options: Option<Options<'a>>,
    pub check_length: u32,
}

/// A section header block's fields as plain values.
pub struct SpecSectionHeader {
    pub ty: u32,
    pub block_length: u32,
    pub magic: u32,
    pub major_version: u16,
    pub minor_version: u16,
    pub section_length: SectionLength,
    pub options: Option<Seq<SpecOpt>>,
    pub check_length: u32,
}

impl<'a> View for SectionHeader<'a> {
    type V = SpecSectionHeader;

    open spec fn view(&self) -> SpecSectionHeader {
        SpecSectionHeader {
            ty: self.ty,
            block_length: self.block_length,
            magic: self.magic,
            major_version: self.major_version,
            minor_version: self.minor_version,
            section_length: self.section_length,
            options: opt_options_view(self.options),
            check_length: self.check_length,
        }
    }
}

/// The body of a section header block: byte-order magic, major and minor
/// version, section length, then the options where there are any. The two
/// length fields come from the enclosing block.
pub open spec fn spec_parse(blk: SpecRawBlock) -> Result<(int, SpecSectionHeader), ParseError> {
    let s = blk.body;
    if s.len() < 4 {
        Err(ParseError::Incomplete(4))
    } else if s.len() < 8 {
        Err(ParseError::Incomplete(2))
    } else if s.len() < 16 {
        Err(ParseError::Incomplete(8))
    } else {
        let (n, options) = spec_opt_options(s.skip(16));
        Ok(
            (
                16 + n,
                SpecSectionHeader {
                    ty: TY,
                    block_length: blk.block_length,
                    magic: spec_le_u32(s, 0),
                    major_version: spec_le_u16(s, 4),
                    minor_version: spec_le_u16(s, 6),
                    section_length: spec_section_length(spec_le_u64(s, 8)),
                    options,
                    check_length: blk.check_length,
                },
            ),
        )
    }
}

/// If the fixed fields of the body are all there, the magic is the one this
/// library reads and the options end with the end-of-options marker.
pub open spec fn body_ok(body: Seq<u8>) -> bool {
    body.len() >= 16 ==> {
        &&& spec_le_u32(body, 0) == MAGIC
        &&& options_terminated(body.skip(16))
    }
}

/// Parses the body of a section header block.
pub fn parse<'a>(blk: RawBlock<'a>) -> (r: Result<(&'a [u8], SectionHeader<'a>), ParseError>)
    requires
        body_ok(blk.body@),
    ensures
        result_matches(blk.body@, r, spec_parse(blk@)),
        r matches Ok((_, h)) ==> {
            let s = blk.body@;
            &&& h.magic == MAGIC
            &&& h.magic == word32(s[0], s[1], s[2], s[3])
            &&& h.major_version == word16(s[4], s[5])
            &&& h.minor_version == word16(s[6], s[7])
            &&& (h.section_length == SectionLength::Unspecified) == (word64_at(s, 8)
                == 0xFFFF_FFFF_FFFF_FFFF)
            &&& (h.section_length matches SectionLength::Bytes(l) ==> l == word64_at(s, 8))
        },
{
    let s = blk.body;
    let len = s.len();
    if len < 4 {
        return Err(ParseError::Incomplete(4));
    }
    if len < 8 {
        return Err(ParseError::Incomplete(2));
    }
    if len < 16 {
        return Err(ParseError::Incomplete(8));
    }
    let magic = le_u32_at(s, 0);
    let major_version = le_u16_at(s, 4);
    let minor_version = le_u16_at(s, 6);
    let raw_length = le_u64_at(s, 8);
    let section_length = if raw_length == 0xFFFF_FFFF_FFFF_FFFF {
        SectionLength::Unspecified
    } else {
        SectionLength::Bytes(raw_length)
    };
    let (left, options) = parse_opt_options(skip_bytes(s, 16));
    proof {
        crate::util::lemma_skip_skip(s@, 16, spec_opt_options(s@.skip(16)).0);
    }
    Ok(
        (
            left,
            SectionHeader {
                ty: TY,
                block_length: blk.block_length,
                magic,
                major_version,
                minor_version,
                section_length,
                options,
                check_length: blk.check_length,
            },
        ),
    )
}

/// How a section header body is read. A body that ends inside the magic is
/// incomplete by 4 bytes, inside the versions by 2, inside the section
/// length by 8. Otherwise the magic is the little-endian 32-bit word at
/// body offset 0, the major and minor versions the 16-bit words at 4 and 6,
/// and the section length the 64-bit word at 8, unspecified exactly when
/// all its bits are set; the type is 0x0A0D0D0A and the two lengths are the
/// block's; the options are those that `parse_options` reads from offset
/// 16, or none. Such a body may be read only with the magic 0x1A2B3C4D and
/// options that end with the end-of-options marker.
pub proof fn law_section_header_fields(blk: SpecRawBlock)
    ensures
        blk.body.len() < 4 ==> spec_parse(blk) == Err::<(int, SpecSectionHeader), ParseError>(
            ParseError::Incomplete(4),
        ),
        4 <= blk.body.len() < 8 ==> spec_parse(blk) == Err::<(int, SpecSectionHeader), ParseError>(
            ParseError::Incomplete(2),
        ),
        8 <= blk.body.len() < 16 ==> spec_parse(blk) == Err::<(int, SpecSectionHeader), ParseError>(
            ParseError::Incomplete(8),
        ),
        blk.body.len() >= 16 ==> (spec_parse(blk) matches Ok((n, h)) && {
            let s = blk.body;
            &&& h.ty == 0x0A0D0D0A
            &&& h.block_length == blk.block_length
            &&& h.check_length == blk.check_length
            &&& h.magic == word32(s[0], s[1], s[2], s[3])
            &&& h.major_version == word16(s[4], s[5])
            &&& h.minor_version == word16(s[6], s[7])
            &&& (h.section_length == SectionLength::Unspecified) == (word64_at(s, 8)
                == 0xFFFF_FFFF_FFFF_FFFF)
            &&& (h.section_length matches SectionLength::Bytes(l) ==> l == word64_at(s, 8))
            &&& match spec_parse_options(s.skip(16)) {
                Ok((m, os)) => n == 16 + m && h.options == Some(os),
                Err(_) => n == 16 && h.options is None,
            }
        }),
        body_ok(blk.body) == (blk.body.len() >= 16 ==> {
            &&& word32(blk.body[0], blk.body[1], blk.body[2], blk.body[3]) == 0x1A2B3C4D
            &&& options_terminated(blk.body.skip(16))
        }),
{
}

} // verus!

use vstd::prelude::*;

use crate::block::{RawBlock, SpecRawBlock};
use crate::options::{
    opt_options_view, options_terminated, parse_opt_options, spec_opt_options, Options, SpecOpt,
};
use crate::options::spec_parse_options;
use crate::util::{
    le_u16_at, le_u32_at, result_matches, skip_bytes, spec_le_u16, spec_le_u32, word16, word32,
    ParseError,
};

verus! {

pub const TY: u32 = 0x00000001;

//     0                   1                   2                   3
//     0 1 2 3 4 5 6 7 8 9 0 1 2 3 4 5 6 7 8 9 0 1 2 3 4 5 6 7 8 9 0 1
//    +---------------------------------------------------------------+
//  0 |                    Block Type = 0x00000001                    |
//    +---------------------------------------------------------------+
//  4 |                      Block Total Length                       |
//    +-+-+-+-+-+-+-+-+-+-+-+-+-+-+-+-+-+-+-+-+-+-+-+-+-+-+-+-+-+-+-+-+
//  8 |           LinkType            |           Reserved            |
//    +-+-+-+-+-+-+-+-+-+-+-+-+-+-+-+-+-+-+-+-+-+-+-+-+-+-+-+-+-+-+-+-+
// 12 |                            SnapLen                            |
//    +-+-+-+-+-+-+-+-+-+-+-+-+-+-+-+-+-+-+-+-+-+-+-+-+-+-+-+-+-+-+-+-+
// 16 /                                                               /
//    /                      Options (variable)                       /
//    /                                                               /
//    +-+-+-+-+-+-+-+-+-+-+-+-+-+-+-+-+-+-+-+-+-+-+-+-+-+-+-+-+-+-+-+-+
//    |                      Block Total Length                       |
//    +---------------------------------------------------------------+

#[derive(Debug)]
pub struct InterfaceDescription<'a> {
    pub ty: u32,
    pub block_length: u32,
    pub link_type: u16,
    pub reserved: u16,
    pub snap_len: u32,
    // sduquette: Make options a Vec<Opt> instead?
    pub options: Option<Options<'a>>,
    pub check_length: u32,
}

/// An interface description block's fields as plain values.
pub struct SpecInterfaceDescription {
    pub ty: u32,
    pub block_length: u32,
    pub link_type: u16,
    pub reserved: u16,
    pub snap_len: u32,
    pub options: Option<Seq<SpecOpt>>,
    pub check_length: u32,
}

impl<'a> View for InterfaceDescription<'a> {
    type V = SpecInterfaceDescription;

    open spec fn view(&self) -> SpecInterfaceDescription {
        SpecInterfaceDescription {
            ty: self.ty,
            block_length: self.block_length,
            link_type: self.link_type,
            reserved: self.reserved,
            snap_len: self.snap_len,
            options: opt_options_view(self.options),
            check_length: self.check_length,
        }
    }
}

/// The body of an interface description block: link type, reserved field,
/// snapshot length, then the options where there are any. The two length
/// fields come from the enclosing block.
pub open spec fn spec_parse(blk: SpecRawBlock) -> Result<(int, SpecInterfaceDescription), ParseError> {
    let s = blk.body;
    if s.len() < 4 {
        Err(ParseError::Incomplete(2))
    } else if s.len() < 8 {
        Err(ParseError::Incomplete(4))
    } else {
        let (n, options) = spec_opt_options(s.skip(8));
        Ok(
            (
                8 + n,
                SpecInterfaceDescription {
                    ty: TY,
                    block_length: blk.block_length,
                    link_type: spec_le_u16(s, 0),
                    reserved: spec_le_u16(s, 2),
                    snap_len: spec_le_u32(s, 4),
                    options,
                    check_length: blk.check_length,
                },
            ),
        )
    }
}

/// The options of the body, if its fixed fields are all there, end with the
/// end-of-options marker.
pub open spec fn body_ok(body: Seq<u8>) -> bool {
    body.len() >= 8 ==> options_terminated(body.skip(8))
}

/// Parses the body of an interface description block.
pub fn parse<'a>(blk: RawBlock<'a>) -> (r: Result<(&'a [u8], InterfaceDescription<'a>), ParseError>)
    requires
        body_ok(blk.body@),
    ensures
        result_matches(blk.body@, r, spec_parse(blk@)),
        r matches Ok((_, d)) ==> {
            let s = blk.body@;
            &&& d.link_type == word16(s[0], s[1])
            &&& d.reserved == word16(s[2], s[3])
            &&& d.snap_len == word32(s[4], s[5], s[6], s[7])
        },
{
    let s = blk.body;
    let len = s.len();
    if len < 4 {
        return Err(ParseError::Incomplete(2));
    }
    if len < 8 {
        return Err(ParseError::Incomplete(4));
    }
    let link_type = le_u16_at(s, 0);
    let reserved = le_u16_at(s, 2);
    let snap_len = le_u32_at(s, 4);
    let (left, options) = parse_opt_options(skip_bytes(s, 8));
    proof {
        crate::util::lemma_skip_skip(s@, 8, spec_opt_options(s@.skip(8)).0);
    }
    Ok(
        (
            left,
            InterfaceDescription {
                ty: TY,
                block_length: blk.block_length,
                link_type,
                reserved,
                snap_len,
                options,
                check_length: blk.check_length,
            },
        ),
    )
}

/// How an interface description body is read. A body without its link type
/// and reserved field is incomplete by 2 bytes, one without its snapshot
/// length by 4. Otherwise the link type and the reserved field are the
/// little-endian 16-bit words at body offsets 0 and 2, the snapshot length
/// the little-endian 32-bit word at offset 4; the type is 1 and the two
/// lengths are the block's; and the options are those that `parse_options`
/// reads from offset 8, or none where it reads none.
pub proof fn law_interface_description_fields(blk: SpecRawBlock)
    ensures
        blk.body.len() < 4 ==> spec_parse(blk) == Err::<(int, SpecInterfaceDescription), ParseError>(
            ParseError::Incomplete(2),
        ),
        4 <= blk.body.len() < 8 ==> spec_parse(blk) == Err::<
            (int, SpecInterfaceDescription),
            ParseError,
        >(ParseError::Incomplete(4)),
        blk.body.len() >= 8 ==> (spec_parse(blk) matches Ok((n, d)) && {
            let s = blk.body;
            &&& d.ty == 1
            &&& d.block_length == blk.block_length
            &&& d.check_length == blk.check_length
            &&& d.link_type == word16(s[0], s[1])
            &&& d.reserved == word16(s[2], s[3])
            &&& d.snap_len == word32(s[4], s[5], s[6], s[7])
            &&& match spec_parse_options(s.skip(8)) {
                Ok((m, os)) => n == 8 + m && d.options == Some(os),
                Err(_) => n == 8 && d.options is None,
            }
        }),
{
}

} // verus!

use vstd::prelude::*;

use crate::block::{RawBlock, SpecRawBlock};
use crate::options::{
    opt_options_view, options_terminated, parse_opt_options, spec_opt_options, Options, SpecOpt,
};
use crate::options::spec_parse_options;
use crate::util::{le_u32_at, result_matches, skip_bytes, spec_le_u32, word32, ParseError};

verus! {

pub const TY: u32 = 0x00000005;

//     0                   1                   2                   3
//     0 1 2 3 4 5 6 7 8 9 0 1 2 3 4 5 6 7 8 9 0 1 2 3 4 5 6 7 8 9 0 1
//    +---------------------------------------------------------------+
//  0 |                   Block Type = 0x00000005                     |
//    +---------------------------------------------------------------+
//  4 |                      Block Total Length                       |
//    +-+-+-+-+-+-+-+-+-+-+-+-+-+-+-+-+-+-+-+-+-+-+-+-+-+-+-+-+-+-+-+-+
//  8 |                         Interface ID                          |
//    +-+-+-+-+-+-+-+-+-+-+-+-+-+-+-+-+-+-+-+-+-+-+-+-+-+-+-+-+-+-+-+-+
// 12 |                        Timestamp (High)                       |
//    +-+-+-+-+-+-+-+-+-+-+-+-+-+-+-+-+-+-+-+-+-+-+-+-+-+-+-+-+-+-+-+-+
// 16 |                        Timestamp (Low)                        |
//    +-+-+-+-+-+-+-+-+-+-+-+-+-+-+-+-+-+-+-+-+-+-+-+-+-+-+-+-+-+-+-+-+
// 20 /                                                               /
//    /                      Options (variable)                       /
//    /                                                               /
//    +-+-+-+-+-+-+-+-+-+-+-+-+-+-+-+-+-+-+-+-+-+-+-+-+-+-+-+-+-+-+-+-+
//    |                      Block Total Length                       |
//    +---------------------------------------------------------------+

#[derive(Debug)]
pub struct InterfaceStatistics<'a> {
    pub ty: u32,
    pub block_length: u32,
    pub interface_id: u32,
    pub timestamp_high: u32,
    pub timestamp_low: u32,
    pub options: Option<Options<'a>>,
    pub check_length: u32,
}

/// An interface statistics block's fields as plain values.
pub struct SpecInterfaceStatistics {
    pub ty: u32,
    pub block_length: u32,
    pub interface_id: u32,
    pub timestamp_high: u32,
    pub timestamp_low: u32,
    pub options: Option<Seq<SpecOpt>>,
    pub check_length: u32,
}

impl<'a> View for InterfaceStatistics<'a> {
    type V = SpecInterfaceStatistics;

    open spec fn view(&self) -> SpecInterfaceStatistics {
        SpecInterfaceStatistics {
            ty: self.ty,
            block_length: self.block_length,
            interface_id: self.interface_id,
            timestamp_high: self.timestamp_high,
            timestamp_low: self.timestamp_low,
            options: opt_options_view(self.options),
            check_length: self.check_length,
        }
    }
}

/// The body of an interface statistics block: interface id, the two halves
/// of the timestamp, then the options where there are any. The two length
/// fields come from the enclosing block.
pub open spec fn spec_parse(blk: SpecRawBlock) -> Result<(int, SpecInterfaceStatistics), ParseError> {
    let s = blk.body;
    if s.len() < 12 {
        Err(ParseError::Incomplete(4))
    } else {
        let (n, options) = spec_opt_options(s.skip(12));
        Ok(
            (
                12 + n,
                SpecInterfaceStatistics {
                    ty: TY,
                    block_length: blk.block_length,
                    interface_id: spec_le_u32(s, 0),
                    timestamp_high: spec_le_u32(s, 4),
                    timestamp_low: spec_le_u32(s, 8),
                    options,
                    check_length: blk.check_length,
                },
            ),
        )
    }
}

/// The options of the body, if its fixed fields are all there, end with the
/// end-of-options marker.
pub open spec fn body_ok(body: Seq<u8>) -> bool {
    body.len() >= 12 ==> options_terminated(body.skip(12))
}

/// Parses the body of an interface statistics block.
pub fn parse<'a>(blk: RawBlock<'a>) -> (r: Result<(&'a [u8], InterfaceStatistics<'a>), ParseError>)
    requires
        body_ok(blk.body@),
    ensures
        result_matches(blk.body@, r, spec_parse(blk@)),
        r matches Ok((_, st)) ==> {
            let s = blk.body@;
            &&& st.interface_id == word32(s[0], s[1], s[2], s[3])
            &&& st.timestamp_high == word32(s[4], s[5], s[6], s[7])
            &&& st.timestamp_low == word32(s[8], s[9], s[10], s[11])
        },
{
    let s = blk.body;
    if s.len() < 12 {
        return Err(ParseError::Incomplete(4));
    }
    let interface_id = le_u32_at(s, 0);
    let timestamp_high = le_u32_at(s, 4);
    let timestamp_low = le_u32_at(s, 8);
    let (left, options) = parse_opt_options(skip_bytes(s, 12));
    proof {
        crate::util::lemma_skip_skip(s@, 12, spec_opt_options(s@.skip(12)).0);
    }
    Ok(
        (
            left,
            InterfaceStatistics {
                ty: TY,
                block_length: blk.block_length,
                interface_id,
                timestamp_high,
                timestamp_low,
                options,
                check_length: blk.check_length,
            },
        ),
    )
}

/// How an interface statistics body is read. A body shorter than its three
/// 32-bit fields is incomplete. Otherwise the interface id, the high and the
/// low half of the timestamp are the little-endian words at body offsets 0,
/// 4 and 8; the type is 5 and the two lengths are the block's; and the
/// options are those that `parse_options` reads from offset 12, or none
/// where it reads none, the rest of the body being left over.
pub proof fn law_interface_stats_fields(blk: SpecRawBlock)
    ensures
        blk.body.len() < 12 ==> spec_parse(blk) == Err::<(int, SpecInterfaceStatistics), ParseError>(
            ParseError::Incomplete(4),
        ),
        blk.body.len() >= 12 ==> (spec_parse(blk) matches Ok((n, st)) && {
            let s = blk.body;
            &&& st.ty == 5
            &&& st.block_length == blk.block_length
            &&& st.check_length == blk.check_length
            &&& st.interface_id == word32(s[0], s[1], s[2], s[3])
            &&& st.timestamp_high == word32(s[4], s[5], s[6], s[7])
            &&& st.timestamp_low == word32(s[8], s[9], s[10], s[11])
            &&& match spec_parse_options(s.skip(12)) {
                Ok((m, os)) => n == 12 + m && st.options == Some(os),
                Err(_) => n == 12 && st.options is None,
            }
        }),
{
}

} // verus!

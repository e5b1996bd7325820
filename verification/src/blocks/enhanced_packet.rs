use vstd::prelude::*;

use crate::block::{RawBlock, SpecRawBlock};
use crate::options::{
    opt_options_view, options_terminated, parse_opt_options, spec_opt_options, Options, SpecOpt,
};
use crate::options::spec_parse_options;
use crate::util::{
    word32, le_u32_at, pad_to_32bits, result_matches, skip_bytes, spec_le_u32, spec_pad_to_32bits,
    ParseError,
};

verus! {

pub const TY: u32 = 0x00000006;

//    0                   1                   2                   3
//    0 1 2 3 4 5 6 7 8 9 0 1 2 3 4 5 6 7 8 9 0 1 2 3 4 5 6 7 8 9 0 1
//    +---------------------------------------------------------------+
//  0 |                    Block Type = 0x00000006                    |
//    +---------------------------------------------------------------+
//  4 |                      Block Total Length                       |
//    +-+-+-+-+-+-+-+-+-+-+-+-+-+-+-+-+-+-+-+-+-+-+-+-+-+-+-+-+-+-+-+-+
//  8 |                         Interface ID                          |
//    +-+-+-+-+-+-+-+-+-+-+-+-+-+-+-+-+-+-+-+-+-+-+-+-+-+-+-+-+-+-+-+-+
// 12 |                        Timestamp (High)                       |
//    +-+-+-+-+-+-+-+-+-+-+-+-+-+-+-+-+-+-+-+-+-+-+-+-+-+-+-+-+-+-+-+-+
// 16 |                        Timestamp (Low)                        |
//    +-+-+-+-+-+-+-+-+-+-+-+-+-+-+-+-+-+-+-+-+-+-+-+-+-+-+-+-+-+-+-+-+
// 20 |                         Captured Len                          |
//    +-+-+-+-+-+-+-+-+-+-+-+-+-+-+-+-+-+-+-+-+-+-+-+-+-+-+-+-+-+-+-+-+
// 24 |                          Packet Len                           |
//    +-+-+-+-+-+-+-+-+-+-+-+-+-+-+-+-+-+-+-+-+-+-+-+-+-+-+-+-+-+-+-+-+
// 28 /                                                               /
//    /                          Packet Data                          /
//    /          /* variable length, aligned to 32 bits */            /
//    /                                                               /
//    +-+-+-+-+-+-+-+-+-+-+-+-+-+-+-+-+-+-+-+-+-+-+-+-+-+-+-+-+-+-+-+-+
//    /                                                               /
//    /                      Options (variable)                       /
//    /                                                               /
//    +-+-+-+-+-+-+-+-+-+-+-+-+-+-+-+-+-+-+-+-+-+-+-+-+-+-+-+-+-+-+-+-+
//    |                      Block Total Length                       |
//    +---------------------------------------------------------------+

#[derive(Debug)]
pub struct EnhancedPacket<'a> {
    pub ty: u32,
    pub block_length: u32,
    pub interface_id: u32,
    pub timestamp_hi: u32,
    pub timestamp_lo: u32,
    pub captured_len: u32,
    pub packet_len: u32,
    pub data: &'a [u8],
    pub options: Option<Options<'a>>,
    pub check_length: u32,
}

/// An enhanced packet block's fields as plain values.
pub struct SpecEnhancedPacket {
    pub ty: u32,
    pub block_length: u32,
    pub interface_id: u32,
    pub timestamp_hi: u32,
    pub timestamp_lo: u32,
    pub captured_len: u32,
    pub packet_len: u32,
    pub data: Seq<u8>,
    pub options: Option<Seq<SpecOpt>>,
    pub check_length: u32,
}

impl<'a> View for EnhancedPacket<'a> {
    type V = SpecEnhancedPacket;

    open spec fn view(&self) -> SpecEnhancedPacket {
        SpecEnhancedPacket {
            ty: self.ty,
            block_length: self.block_length,
            interface_id: self.interface_id,
            timestamp_hi: self.timestamp_hi,
            timestamp_lo: self.timestamp_lo,
            captured_len: self.captured_len,
            packet_len: self.packet_len,
            data: self.data@,
            options: opt_options_view(self.options),
            check_length: self.check_length,
        }
    }
}

/// Where the options start in a body whose fixed fields are all there:
/// after the five 32-bit fields, the captured data and its padding.
pub open spec fn options_start(s: Seq<u8>) -> int {
    let captured_len = spec_le_u32(s, 12);
    20 + captured_len + spec_pad_to_32bits(captured_len)
}

/// The body of an enhanced packet block: interface id, the two halves of
/// the timestamp, captured and original packet length, the captured bytes
/// (padded to 32 bits), then the options where there are any. The two
/// length fields come from the enclosing block.
pub open spec fn spec_parse(blk: SpecRawBlock) -> Result<(int, SpecEnhancedPacket), ParseError> {
    let s = blk.body;
    if s.len() < 20 {
        Err(ParseError::Incomplete(4))
    } else {
        let captured_len = spec_le_u32(s, 12);
        let pad = spec_pad_to_32bits(captured_len);
        if s.len() < 20 + captured_len {
            Err(ParseError::Incomplete(captured_len as usize))
        } else if s.len() < 20 + captured_len + pad {
            Err(ParseError::Incomplete(pad))
        } else {
            let start = 20 + captured_len + pad;
            let (n, options) = spec_opt_options(s.skip(start));
            Ok(
                (
                    start + n,
                    SpecEnhancedPacket {
                        ty: TY,
                        block_length: blk.block_length,
                        interface_id: spec_le_u32(s, 0),
                        timestamp_hi: spec_le_u32(s, 4),
                        timestamp_lo: spec_le_u32(s, 8),
                        captured_len,
                        packet_len: spec_le_u32(s, 16),
                        data: s.subrange(20, 20 + captured_len),
                        options,
                        check_length: blk.check_length,
                    },
                ),
            )
        }
    }
}

/// The options of the body, if its fixed fields and captured data are all
/// there, end with the end-of-options marker.
pub open spec fn body_ok(body: Seq<u8>) -> bool {
    (body.len() >= 20 && options_start(body) <= body.len()) ==> options_terminated(
        body.skip(options_start(body)),
    )
}

/// Parses the body of an enhanced packet block.
pub fn parse<'a>(blk: RawBlock<'a>) -> (r: Result<(&'a [u8], EnhancedPacket<'a>), ParseError>)
    requires
        body_ok(blk.body@),
    ensures
        result_matches(blk.body@, r, spec_parse(blk@)),
        r matches Ok((_, p)) ==> {
            let s = blk.body@;
            &&& p.data@.len() == p.captured_len
            &&& p.data@ == s.subrange(20, 20 + p.captured_len)
            &&& p.interface_id == word32(s[0], s[1], s[2], s[3])
            &&& p.timestamp_hi == word32(s[4], s[5], s[6], s[7])
            &&& p.timestamp_lo == word32(s[8], s[9], s[10], s[11])
            &&& p.captured_len == word32(s[12], s[13], s[14], s[15])
            &&& p.packet_len == word32(s[16], s[17], s[18], s[19])
        },
{
    let s = blk.body;
    let len = s.len();
    if len < 20 {
        return Err(ParseError::Incomplete(4));
    }
    let interface_id = le_u32_at(s, 0);
    let timestamp_hi = le_u32_at(s, 4);
    let timestamp_lo = le_u32_at(s, 8);
    let captured_len = le_u32_at(s, 12);
    let packet_len = le_u32_at(s, 16);
    let data_len = captured_len as usize;
    if len - 20 < data_len {
        return Err(ParseError::Incomplete(data_len));
    }
    let data = vstd::slice::slice_subrange(s, 20, 20 + data_len);
    let pad = pad_to_32bits(captured_len);
    if len - 20 - data_len < pad {
        return Err(ParseError::Incomplete(pad));
    }
    let start = 20 + data_len + pad;
    let (left, options) = parse_opt_options(skip_bytes(s, start));
    proof {
        crate::util::lemma_skip_skip(s@, start as int, spec_opt_options(s@.skip(start as int)).0);
    }
    Ok(
        (
            left,
            EnhancedPacket {
                ty: TY,
                block_length: blk.block_length,
                interface_id,
                timestamp_hi,
                timestamp_lo,
                captured_len,
                packet_len,
                data,
                options,
                check_length: blk.check_length,
            },
        ),
    )
}

/// An enhanced packet body shorter than its five 32-bit fields is
/// incomplete by 4 bytes.
pub proof fn law_enhanced_packet_short(blk: SpecRawBlock)
    requires
        blk.body.len() < 20,
    ensures
        spec_parse(blk) == Err::<(int, SpecEnhancedPacket), ParseError>(ParseError::Incomplete(4)),
{
}

/// How an enhanced packet body is read, where `p` is the padding that
/// brings the captured length to a multiple of 4 (the least such number).
/// The interface id, the high and low timestamp halves, the captured length
/// and the packet length are the little-endian 32-bit words at body offsets
/// 0, 4, 8, 12 and 16; the captured bytes follow at offset 20; the options
/// start right after them and their padding, at `20 + captured length + p`.
/// A body that ends inside the captured bytes is incomplete by the
/// captured length, one that ends inside the padding by `p`. The type is 6
/// and the two lengths are the block's.
pub proof fn law_enhanced_packet_fields(blk: SpecRawBlock, p: int)
    requires
        blk.body.len() >= 20,
        0 <= p < 4,
        (word32(blk.body[12], blk.body[13], blk.body[14], blk.body[15]) + p) % 4 == 0,
    ensures
        ({
            let s = blk.body;
            let cl = word32(s[12], s[13], s[14], s[15]);
            &&& s.len() < 20 + cl ==> spec_parse(blk) == Err::<
                (int, SpecEnhancedPacket),
                ParseError,
            >(ParseError::Incomplete(cl as usize))
            &&& 20 + cl <= s.len() < 20 + cl + p ==> spec_parse(blk) == Err::<
                (int, SpecEnhancedPacket),
                ParseError,
            >(ParseError::Incomplete(p as usize))
            &&& s.len() >= 20 + cl + p ==> (spec_parse(blk) matches Ok((n, e)) && {
                &&& e.ty == 6
                &&& e.block_length == blk.block_length
                &&& e.check_length == blk.check_length
                &&& e.interface_id == word32(s[0], s[1], s[2], s[3])
                &&& e.timestamp_hi == word32(s[4], s[5], s[6], s[7])
                &&& e.timestamp_lo == word32(s[8], s[9], s[10], s[11])
                &&& e.captured_len == cl
                &&& e.packet_len == word32(s[16], s[17], s[18], s[19])
                &&& e.data == s.subrange(20, 20 + cl)
                &&& match spec_parse_options(s.skip(20 + cl + p)) {
                    Ok((m, os)) => n == 20 + cl + p + m && e.options == Some(os),
                    Err(_) => n == 20 + cl + p && e.options is None,
                }
            })
            &&& body_ok(s) == (s.len() >= 20 + cl + p ==> options_terminated(s.skip(20 + cl + p)))
        }),
{
    let s = blk.body;
    let cl = spec_le_u32(s, 12);
    assert(cl == word32(s[12], s[13], s[14], s[15]));
    assert(spec_pad_to_32bits(cl) == p);
}

} // verus!

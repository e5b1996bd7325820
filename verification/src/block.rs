use vstd::prelude::*;

use crate::blocks::{enhanced_packet, interface_description, interface_stats, section_header};
use crate::blocks::constants::BlockType;
use crate::blocks::enhanced_packet::{EnhancedPacket, SpecEnhancedPacket};
use crate::blocks::interface_description::{InterfaceDescription, SpecInterfaceDescription};
use crate::blocks::interface_stats::{InterfaceStatistics, SpecInterfaceStatistics};
use crate::blocks::section_header::{SectionHeader, SpecSectionHeader};
use crate::options::options_are_terminated;
use crate::util::{
    le_u32_at, lemma_skip_skip, pad_to_32bits, result_matches, skip_bytes, spec_le_u32,
    spec_pad_to_32bits, word32, ParseError,
};

verus! {

/// A block read according to its type.
#[derive(Debug)]
pub enum Block<'a> {
    SectionHeader(SectionHeader<'a>),
    EnhancedPacket(EnhancedPacket<'a>),
    InterfaceDescription(InterfaceDescription<'a>),
    InterfaceStatistics(InterfaceStatistics<'a>),
    UnknownBlock(RawBlock<'a>),
}

/// A block read according to its type, as plain values.
pub enum SpecBlock {
    SectionHeader(SpecSectionHeader),
    EnhancedPacket(SpecEnhancedPacket),
    InterfaceDescription(SpecInterfaceDescription),
    InterfaceStatistics(SpecInterfaceStatistics),
    UnknownBlock(SpecRawBlock),
}

impl<'a> View for Block<'a> {
    type V = SpecBlock;

    open spec fn view(&self) -> SpecBlock {
        match self {
            Block::SectionHeader(b) => SpecBlock::SectionHeader(b@),
            Block::EnhancedPacket(b) => SpecBlock::EnhancedPacket(b@),
            Block::InterfaceDescription(b) => SpecBlock::InterfaceDescription(b@),
            Block::InterfaceStatistics(b) => SpecBlock::InterfaceStatistics(b@),
            Block::UnknownBlock(b) => SpecBlock::UnknownBlock(b@),
        }
    }
}

impl SpecBlock {
    /// The block's type code.
    pub open spec fn ty(self) -> u32 {
        match self {
            SpecBlock::SectionHeader(b) => b.ty,
            SpecBlock::EnhancedPacket(b) => b.ty,
            SpecBlock::InterfaceDescription(b) => b.ty,
            SpecBlock::InterfaceStatistics(b) => b.ty,
            SpecBlock::UnknownBlock(b) => b.ty,
        }
    }

    /// The block's total length as written before its body.
    pub open spec fn block_length(self) -> u32 {
        match self {
            SpecBlock::SectionHeader(b) => b.block_length,
            SpecBlock::EnhancedPacket(b) => b.block_length,
            SpecBlock::InterfaceDescription(b) => b.block_length,
            SpecBlock::InterfaceStatistics(b) => b.block_length,
            SpecBlock::UnknownBlock(b) => b.block_length,
        }
    }

    /// The block's total length as written after its body.
    pub open spec fn check_length(self) -> u32 {
        match self {
            SpecBlock::SectionHeader(b) => b.check_length,
            SpecBlock::EnhancedPacket(b) => b.check_length,
            SpecBlock::InterfaceDescription(b) => b.check_length,
            SpecBlock::InterfaceStatistics(b) => b.check_length,
            SpecBlock::UnknownBlock(b) => b.check_length,
        }
    }
}

/// A raw block read according to its type: the body of a section header,
/// enhanced packet, interface statistics or interface description block is
/// read as such; a block of another type is given back as it is, with
/// nothing left over.
pub open spec fn spec_parse_raw_block(b: SpecRawBlock) -> Result<(int, SpecBlock), ParseError> {
    if b.ty == section_header::TY {
        match section_header::spec_parse(b) {
            Ok((n, h)) => Ok((n, SpecBlock::SectionHeader(h))),
            Err(e) => Err(e),
        }
    } else if b.ty == enhanced_packet::TY {
        match enhanced_packet::spec_parse(b) {
            Ok((n, p)) => Ok((n, SpecBlock::EnhancedPacket(p))),
            Err(e) => Err(e),
        }
    } else if b.ty == interface_stats::TY {
        match interface_stats::spec_parse(b) {
            Ok((n, st)) => Ok((n, SpecBlock::InterfaceStatistics(st))),
            Err(e) => Err(e),
        }
    } else if b.ty == interface_description::TY {
        match interface_description::spec_parse(b) {
            Ok((n, d)) => Ok((n, SpecBlock::InterfaceDescription(d))),
            Err(e) => Err(e),
        }
    } else {
        Ok((b.body.len() as int, SpecBlock::UnknownBlock(b)))
    }
}

/// The body of a block of a known type may be read without breaking the
/// format's rules that the reader insists on (see each block's `body_ok`).
pub open spec fn raw_block_parse_ok(b: SpecRawBlock) -> bool {
    if b.ty == section_header::TY {
        section_header::body_ok(b.body)
    } else if b.ty == enhanced_packet::TY {
        enhanced_packet::body_ok(b.body)
    } else if b.ty == interface_stats::TY {
        interface_stats::body_ok(b.body)
    } else if b.ty == interface_description::TY {
        interface_description::body_ok(b.body)
    } else {
        true
    }
}

/// Public representation of a parsed block
#[derive(Debug)]
pub struct RawBlock<'a> {
    //  0                   1                   2                   3
    //  0 1 2 3 4 5 6 7 8 9 0 1 2 3 4 5 6 7 8 9 0 1 2 3 4 5 6 7 8 9 0 1
    //  +-+-+-+-+-+-+-+-+-+-+-+-+-+-+-+-+-+-+-+-+-+-+-+-+-+-+-+-+-+-+-+-+
    //  |                          Block Type                           |
    //  +-+-+-+-+-+-+-+-+-+-+-+-+-+-+-+-+-+-+-+-+-+-+-+-+-+-+-+-+-+-+-+-+
    //  |                      Block Total Length                       |
    //  +-+-+-+-+-+-+-+-+-+-+-+-+-+-+-+-+-+-+-+-+-+-+-+-+-+-+-+-+-+-+-+-+
    //  /                          Block Body                           /
    //  /          /* variable length, aligned to 32 bits */            /
    //  +-+-+-+-+-+-+-+-+-+-+-+-+-+-+-+-+-+-+-+-+-+-+-+-+-+-+-+-+-+-+-+-+
    //  |                      Block Total Length                       |
    //  +-+-+-+-+-+-+-+-+-+-+-+-+-+-+-+-+-+-+-+-+-+-+-+-+-+-+-+-+-+-+-+-+
    pub ty: u32,
    pub block_length: u32,
    pub body: &'a [u8],
    pub check_length: u32,
}

/// A block's fields as plain values.
pub struct SpecRawBlock {
    pub ty: u32,
    pub block_length: u32,
    pub body: Seq<u8>,
    pub check_length: u32,
}

impl<'a> View for RawBlock<'a> {
    type V = SpecRawBlock;

    open spec fn view(&self) -> SpecRawBlock {
        SpecRawBlock {
            ty: self.ty,
            block_length: self.block_length,
            body: self.body@,
            check_length: self.check_length,
        }
    }
}

impl<'a> RawBlock<'a> {
    /// Reads the block's body according to its type.
    pub fn parse(self) -> (r: Result<(&'a [u8], Block<'a>), ParseError>)
        requires
            raw_block_parse_ok(self@),
        ensures
            result_matches(self.body@, r, spec_parse_raw_block(self@)),
            r matches Ok((_, blk)) ==> {
                &&& blk@.ty() == self.ty
                &&& blk@.block_length() == self.block_length
                &&& blk@.check_length() == self.check_length
                &&& self.ty == 0x0A0D0D0A <==> blk is SectionHeader
                &&& self.ty == 6 <==> blk is EnhancedPacket
                &&& self.ty == 5 <==> blk is InterfaceStatistics
                &&& self.ty == 1 <==> blk is InterfaceDescription
                &&& blk matches Block::UnknownBlock(u) ==> u@ == self@
            },
            self.ty == 0x0A0D0D0A ==> (r is Ok <==> section_header::spec_parse(self@) is Ok),
            self.ty == 6 ==> (r is Ok <==> enhanced_packet::spec_parse(self@) is Ok),
            self.ty == 5 ==> (r is Ok <==> interface_stats::spec_parse(self@) is Ok),
            self.ty == 1 ==> (r is Ok <==> interface_description::spec_parse(self@) is Ok),
            (self.ty != 0x0A0D0D0A && self.ty != 6 && self.ty != 5 && self.ty != 1) ==> r is Ok,
    {
        if self.ty == section_header::TY {
            match section_header::parse(self) {
                Ok((left, blk)) => Ok((left, Block::SectionHeader(blk))),
                Err(e) => Err(e),
            }
        } else if self.ty == enhanced_packet::TY {
            match enhanced_packet::parse(self) {
                Ok((left, blk)) => Ok((left, Block::EnhancedPacket(blk))),
                Err(e) => Err(e),
            }
        } else if self.ty == interface_stats::TY {
            match interface_stats::parse(self) {
                Ok((left, blk)) => Ok((left, Block::InterfaceStatistics(blk))),
                Err(e) => Err(e),
            }
        } else if self.ty == interface_description::TY {
            match interface_description::parse(self) {
                Ok((left, blk)) => Ok((left, Block::InterfaceDescription(blk))),
                Err(e) => Err(e),
            }
        } else {
            let left = skip_bytes(self.body, self.body.len());
            Ok((left, Block::UnknownBlock(self)))
        }
    }

    /// Whether `parse` may be called on this block (see
    /// `raw_block_parse_ok`).
    pub fn is_parseable(&self) -> (ok: bool)
        ensures
            ok == raw_block_parse_ok(self@),
    {
        let s = self.body;
        let len = s.len();
        if self.ty == section_header::TY {
            if len < 16 {
                true
            } else {
                le_u32_at(s, 0) == section_header::MAGIC && options_are_terminated(
                    skip_bytes(s, 16),
                )
            }
        } else if self.ty == enhanced_packet::TY {
            if len < 20 {
                true
            } else {
                let captured_len = le_u32_at(s, 12);
                let data_len = captured_len as usize;
                let pad = pad_to_32bits(captured_len);
                if len - 20 < data_len || len - 20 - data_len < pad {
                    true
                } else {
                    options_are_terminated(skip_bytes(s, 20 + data_len + pad))
                }
            }
        } else if self.ty == interface_stats::TY {
            len < 12 || options_are_terminated(skip_bytes(s, 12))
        } else if self.ty == interface_description::TY {
            len < 8 || options_are_terminated(skip_bytes(s, 8))
        } else {
            true
        }
    }
}

/// The views of a sequence of blocks.
pub open spec fn raw_blocks_view<'a>(v: Seq<RawBlock<'a>>) -> Seq<SpecRawBlock> {
    v.map_values(|b: RawBlock<'a>| b@)
}

/// The length of a block's body: its total length less the three 32-bit
/// fields around it.
pub open spec fn spec_body_len(block_length: u32) -> u32 {
    (block_length - 12) as u32
}

/// The block at the start of `s`: on success the number of bytes it takes
/// (type, total length, body, padding to 32 bits, and the trailing copy of
/// the total length) and its fields.
pub open spec fn spec_parse_block(s: Seq<u8>) -> Result<(int, SpecRawBlock), ParseError> {
    if s.len() < 8 {
        Err(ParseError::Incomplete(4))
    } else {
        let block_length = spec_le_u32(s, 4);
        let body_len = spec_body_len(block_length);
        let pad = spec_pad_to_32bits(body_len);
        if s.len() < 8 + body_len {
            Err(ParseError::Incomplete(body_len as usize))
        } else if s.len() < 8 + body_len + pad {
            Err(ParseError::Incomplete(pad))
        } else if s.len() < 8 + body_len + pad + 4 {
            Err(ParseError::Incomplete(4))
        } else {
            Ok(
                (
                    8 + body_len + pad + 4,
                    SpecRawBlock {
                        ty: spec_le_u32(s, 0),
                        block_length,
                        body: s.subrange(8, 8 + body_len),
                        check_length: spec_le_u32(s, 8 + body_len + pad),
                    },
                ),
            )
        }
    }
}

/// The block at the start of `s`, if its header is there, gives a total
/// length that covers at least the three 32-bit fields of every block.
pub open spec fn block_length_ok(s: Seq<u8>) -> bool {
    s.len() >= 8 ==> spec_le_u32(s, 4) >= 12
}

/// As many blocks as can be read one after the other from the start of `s`,
/// and the number of bytes they take.
pub open spec fn spec_blocks_many(s: Seq<u8>) -> (Seq<SpecRawBlock>, int)
    decreases s.len(),
{
    match spec_parse_block(s) {
        Ok((n, b)) => if 0 < n <= s.len() {
            let (bs, m) = spec_blocks_many(s.skip(n));
            (seq![b] + bs, n + m)
        } else {
            (seq![], 0)
        },
        Err(_) => (seq![], 0),
    }
}

/// Every block that `spec_blocks_many` reads from `s`, and the one it stops
/// at, has a total length of at least 12.
pub open spec fn blocks_lengths_ok(s: Seq<u8>) -> bool
    decreases s.len(),
{
    &&& block_length_ok(s)
    &&& match spec_parse_block(s) {
        Ok((n, b)) => 0 < n <= s.len() ==> blocks_lengths_ok(s.skip(n)),
        Err(_) => true,
    }
}

/// One or more blocks from the start of `s`.
pub open spec fn spec_parse_blocks(s: Seq<u8>) -> Result<(int, Seq<SpecRawBlock>), ParseError> {
    let (bs, m) = spec_blocks_many(s);
    if bs.len() == 0 {
        Err(ParseError::Many1)
    } else {
        Ok((m, bs))
    }
}

/// Parses the block at the start of `input`.
pub fn parse_block<'a>(input: &'a [u8]) -> (r: Result<(&'a [u8], RawBlock<'a>), ParseError>)
    requires
        block_length_ok(input@),
    ensures
        result_matches(input@, r, spec_parse_block(input@)),
        r matches Ok((left, b)) ==> {
            &&& b.body@.len() + 12 == b.block_length
            &&& (input@.len() - left@.len()) % 4 == 0
        },
{
    let len = input.len();
    if len < 8 {
        return Err(ParseError::Incomplete(4));
    }
    let ty = le_u32_at(input, 0);
    let block_length = le_u32_at(input, 4);
    let body_len = block_length - 12;
    let body_size = body_len as usize;
    if len - 8 < body_size {
        return Err(ParseError::Incomplete(body_size));
    }
    let body = vstd::slice::slice_subrange(input, 8, 8 + body_size);
    let pad = pad_to_32bits(body_len);
    if len - 8 - body_size < pad {
        return Err(ParseError::Incomplete(pad));
    }
    let at = 8 + body_size + pad;
    if len - at < 4 {
        return Err(ParseError::Incomplete(4));
    }
    let check_length = le_u32_at(input, at);
    let left = skip_bytes(input, at + 4);
    Ok((left, RawBlock { ty, block_length, body, check_length }))
}

/// Whether `parse_blocks` may be called on `input`: every block it reads,
/// and the one it stops at, gives a total length of at least 12.
pub fn check_block_lengths(input: &[u8]) -> (ok: bool)
    ensures
        ok == blocks_lengths_ok(input@),
{
    let mut rest = input;
    loop
        invariant
            blocks_lengths_ok(input@) == blocks_lengths_ok(rest@),
        decreases rest@.len(),
    {
        let len = rest.len();
        if len >= 8 && le_u32_at(rest, 4) < 12 {
            return false;
        }
        match parse_block(rest) {
            Ok((left, _)) => {
                rest = left;
            },
            Err(_) => {
                return true;
            },
        }
    }
}

/// Parses one or more blocks, one after the other, from the start of
/// `input`, and stops at the first that cannot be read whole.
pub fn parse_blocks<'a>(input: &'a [u8]) -> (r: Result<(&'a [u8], Vec<RawBlock<'a>>), ParseError>)
    requires
        blocks_lengths_ok(input@),
    ensures
        match spec_parse_blocks(input@) {
            Ok((n, bs)) => r matches Ok((left, v)) && left@ == input@.skip(n) && raw_blocks_view(
                v@,
            ) == bs,
            Err(e) => r matches Err(re) && re == e,
        },
{
    let mut blocks: Vec<RawBlock<'a>> = Vec::new();
    let mut rest = input;
    loop
        invariant
            blocks_lengths_ok(rest@),
            rest@.len() <= input@.len(),
            rest@ == input@.skip(input@.len() - rest@.len()),
            spec_blocks_many(input@).0 == raw_blocks_view(blocks@) + spec_blocks_many(rest@).0,
            spec_blocks_many(input@).1 == (input@.len() - rest@.len()) + spec_blocks_many(
                rest@,
            ).1,
        ensures
            spec_blocks_many(rest@) == (Seq::<SpecRawBlock>::empty(), 0int),
        decreases rest@.len(),
    {
        match parse_block(rest) {
            Ok((left, b)) => {
                let ghost n = rest@.len() - left@.len();
                proof {
                    lemma_skip_skip(input@, input@.len() - rest@.len(), n);
                    assert(raw_blocks_view(blocks@.push(b)) =~= raw_blocks_view(blocks@).push(
                        b@,
                    ));
                }
                blocks.push(b);
                rest = left;
            },
            Err(_) => {
                break ;
            },
        }
    }
    assert(spec_blocks_many(input@).0 =~= raw_blocks_view(blocks@));
    if blocks.len() == 0 {
        Err(ParseError::Many1)
    } else {
        Ok((rest, blocks))
    }
}

/// `parse_blocks` reads its first block as `parse_block` does, then the
/// blocks that `parse_blocks` reads from what follows, if any; where no
/// block can be read at the start it fails.
pub proof fn lemma_parse_blocks_unfold(s: Seq<u8>)
    ensures
        match spec_parse_block(s) {
            Ok((n, b)) => match spec_parse_blocks(s.skip(n)) {
                Ok((m, bs)) => spec_parse_blocks(s) == Ok::<(int, Seq<SpecRawBlock>), ParseError>(
                    (n + m, seq![b] + bs),
                ),
                Err(_) => spec_parse_blocks(s) == Ok::<(int, Seq<SpecRawBlock>), ParseError>(
                    (n, seq![b]),
                ),
            },
            Err(_) => spec_parse_blocks(s) == Err::<(int, Seq<SpecRawBlock>), ParseError>(
                ParseError::Many1,
            ),
        },
{
    if let Ok((n, b)) = spec_parse_block(s) {
        let (bs, m) = spec_blocks_many(s.skip(n));
        if bs.len() == 0 {
            assert(seq![b] + bs =~= seq![b]);
        }
    }
}

/// A block that can be read whole is read the same whatever follows it:
/// more input never changes a block already read.
pub proof fn lemma_parse_block_extend(s: Seq<u8>, t: Seq<u8>)
    requires
        spec_parse_block(s) is Ok,
    ensures
        spec_parse_block(s + t) == spec_parse_block(s),
{
    let st = s + t;
    let block_length = spec_le_u32(s, 4);
    let body_len = spec_body_len(block_length);
    let pad = spec_pad_to_32bits(body_len);
    assert(spec_le_u32(st, 0) == spec_le_u32(s, 0));
    assert(spec_le_u32(st, 4) == block_length);
    assert(st.subrange(8, 8 + body_len) =~= s.subrange(8, 8 + body_len));
    assert(spec_le_u32(st, 8 + body_len + pad) == spec_le_u32(s, 8 + body_len + pad));
}

/// Blocks read from input that they take up whole, followed by more input:
/// the blocks of the first part come first, then those of the second part.
pub proof fn lemma_blocks_many_append(a: Seq<u8>, c: Seq<u8>)
    requires
        spec_blocks_many(a).1 == a.len(),
    ensures
        spec_blocks_many(a + c).0 == spec_blocks_many(a).0 + spec_blocks_many(c).0,
        spec_blocks_many(a + c).1 == a.len() + spec_blocks_many(c).1,
    decreases a.len(),
{
    if a.len() == 0 {
        assert(a + c =~= c);
        assert(spec_blocks_many(a).0 =~= Seq::<SpecRawBlock>::empty());
        assert(spec_blocks_many(a).0 + spec_blocks_many(c).0 =~= spec_blocks_many(c).0);
    } else {
        let (n, b) = spec_parse_block(a).unwrap();
        lemma_parse_block_extend(a, c);
        let rest = a.skip(n);
        assert((a + c).skip(n) =~= rest + c);
        lemma_blocks_many_append(rest, c);
        assert(spec_blocks_many(a + c).0 =~= seq![b] + (spec_blocks_many(rest).0 + spec_blocks_many(
            c,
        ).0));
        assert(spec_blocks_many(a).0 + spec_blocks_many(c).0 =~= seq![b] + (spec_blocks_many(
            rest,
        ).0 + spec_blocks_many(c).0));
    }
}

/// Two inputs read one after the other, where `parse_blocks` takes up the
/// first whole: the blocks of the first come first, then those of the
/// second, and reading stops where it stops in the second.
pub proof fn lemma_parse_blocks_append(a: Seq<u8>, c: Seq<u8>)
    requires
        spec_parse_blocks(a) matches Ok((n, _)) && n == a.len(),
    ensures
        spec_parse_blocks(a + c) matches Ok((n, bs)) && {
            &&& bs == spec_parse_blocks(a).unwrap().1 + spec_blocks_many(c).0
            &&& n == a.len() + spec_blocks_many(c).1
        },
{
    lemma_blocks_many_append(a, c);
}

/// The type codes that `RawBlock::parse` reads by are those of `BlockType`.
pub proof fn lemma_block_type_codes()
    ensures
        section_header::TY == BlockType::SectionHeader.spec_code(),
        enhanced_packet::TY == BlockType::EnhancedPacket.spec_code(),
        interface_stats::TY == BlockType::InterfaceStatistics.spec_code(),
        interface_description::TY == BlockType::InterfaceDescription.spec_code(),
{
}

/// How a block is read, where its total length is at least 12 and `p` is
/// the padding that brings its body length (total length less 12) to a
/// multiple of 4 (the least such number). Input that ends inside the type or
/// total length is incomplete by 4 bytes. Otherwise the type and the total
/// length are the little-endian 32-bit words at offsets 0 and 4, the body
/// follows at offset 8, the trailing length is the word after the body and
/// its padding, and the block takes `total length + p` bytes; input that
/// ends inside the body is incomplete by the body length, inside the
/// padding by `p`, inside the trailing length by 4.
pub proof fn law_parse_block_fields(s: Seq<u8>, p: int)
    requires
        0 <= p < 4,
        s.len() >= 8 ==> word32(s[4], s[5], s[6], s[7]) >= 12,
        s.len() >= 8 ==> (word32(s[4], s[5], s[6], s[7]) - 12 + p) % 4 == 0,
    ensures
        block_length_ok(s),
        s.len() < 8 ==> spec_parse_block(s) == Err::<(int, SpecRawBlock), ParseError>(
            ParseError::Incomplete(4),
        ),
        s.len() >= 8 ==> ({
            let total = word32(s[4], s[5], s[6], s[7]);
            let body_len = total - 12;
            &&& s.len() < 8 + body_len ==> spec_parse_block(s) == Err::<
                (int, SpecRawBlock),
                ParseError,
            >(ParseError::Incomplete(body_len as usize))
            &&& 8 + body_len <= s.len() < 8 + body_len + p ==> spec_parse_block(s) == Err::<
                (int, SpecRawBlock),
                ParseError,
            >(ParseError::Incomplete(p as usize))
            &&& 8 + body_len + p <= s.len() < total + p ==> spec_parse_block(s) == Err::<
                (int, SpecRawBlock),
                ParseError,
            >(ParseError::Incomplete(4))
            &&& s.len() >= total + p ==> spec_parse_block(s) == Ok::<(int, SpecRawBlock), ParseError>(
                (
                    total + p,
                    SpecRawBlock {
                        ty: word32(s[0], s[1], s[2], s[3]) as u32,
                        block_length: total as u32,
                        body: s.subrange(8, 8 + body_len),
                        check_length: word32(
                            s[8 + body_len + p],
                            s[9 + body_len + p],
                            s[10 + body_len + p],
                            s[11 + body_len + p],
                        ) as u32,
                    },
                ),
            )
        }),
{
    if s.len() >= 8 {
        let total = spec_le_u32(s, 4);
        assert(total == word32(s[4], s[5], s[6], s[7]));
        assert(spec_pad_to_32bits(spec_body_len(total)) == p);
    }
}

/// `parse_block` may be called exactly where the input, if it holds a
/// block's type and total length, gives a total length of at least 12.
pub proof fn law_block_length_ok(s: Seq<u8>)
    ensures
        block_length_ok(s) == (s.len() >= 8 ==> word32(s[4], s[5], s[6], s[7]) >= 12),
{
}

/// `RawBlock::parse` reads a block of type 0x0A0D0D0A as a section header,
/// of type 6 as an enhanced packet, of type 5 as interface statistics and of
/// type 1 as an interface description, giving what the parser of that kind
/// gives, success or error; and it may be called on such a block exactly
/// when that parser may. A block of any other type is given back as it is,
/// with its whole body taken.
pub proof fn law_raw_block_dispatch(b: SpecRawBlock)
    ensures
        b.ty == 0x0A0D0D0A ==> {
            &&& raw_block_parse_ok(b) == section_header::body_ok(b.body)
            &&& match section_header::spec_parse(b) {
                Ok((n, h)) => spec_parse_raw_block(b) == Ok::<(int, SpecBlock), ParseError>(
                    (n, SpecBlock::SectionHeader(h)),
                ),
                Err(e) => spec_parse_raw_block(b) == Err::<(int, SpecBlock), ParseError>(e),
            }
        },
        b.ty == 6 ==> {
            &&& raw_block_parse_ok(b) == enhanced_packet::body_ok(b.body)
            &&& match enhanced_packet::spec_parse(b) {
                Ok((n, e)) => spec_parse_raw_block(b) == Ok::<(int, SpecBlock), ParseError>(
                    (n, SpecBlock::EnhancedPacket(e)),
                ),
                Err(e) => spec_parse_raw_block(b) == Err::<(int, SpecBlock), ParseError>(e),
            }
        },
        b.ty == 5 ==> {
            &&& raw_block_parse_ok(b) == interface_stats::body_ok(b.body)
            &&& match interface_stats::spec_parse(b) {
                Ok((n, st)) => spec_parse_raw_block(b) == Ok::<(int, SpecBlock), ParseError>(
                    (n, SpecBlock::InterfaceStatistics(st)),
                ),
                Err(e) => spec_parse_raw_block(b) == Err::<(int, SpecBlock), ParseError>(e),
            }
        },
        b.ty == 1 ==> {
            &&& raw_block_parse_ok(b) == interface_description::body_ok(b.body)
            &&& match interface_description::spec_parse(b) {
                Ok((n, d)) => spec_parse_raw_block(b) == Ok::<(int, SpecBlock), ParseError>(
                    (n, SpecBlock::InterfaceDescription(d)),
                ),
                Err(e) => spec_parse_raw_block(b) == Err::<(int, SpecBlock), ParseError>(e),
            }
        },
        (b.ty != 0x0A0D0D0A && b.ty != 6 && b.ty != 5 && b.ty != 1) ==> {
            &&& raw_block_parse_ok(b)
            &&& spec_parse_raw_block(b) == Ok::<(int, SpecBlock), ParseError>(
                (b.body.len() as int, SpecBlock::UnknownBlock(b)),
            )
        },
{
}

} // verus!

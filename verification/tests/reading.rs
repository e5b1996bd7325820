use pcapng::block::{check_block_lengths, parse_block, parse_blocks, Block, RawBlock};
use pcapng::blocks::constants::{
    BlockType, EnhancedPacketOptions, InterfaceStatisticsOptions, LinkType, LinkTypeOptions,
};
use pcapng::blocks::enhanced_packet;
use pcapng::blocks::interface_stats;
use pcapng::blocks::section_header::{self, SectionLength};
use pcapng::options::{options_are_terminated, parse_options};
use pcapng::util::{le_u16_at, le_u32_at, le_u64_at, pad_to_32bits, ParseError};

const SHB: &[u8] = b"\n\r\r\n\x1c\x00\x00\x00M<+\x1a\x01\x00\x00\x00\xff\xff\xff\xff\xff\xff\xff\xff\x1c\x00\x00\x00";

fn block_bytes(ty: u32, body: &[u8]) -> Vec<u8> {
    let pad = pad_to_32bits(body.len() as u32);
    let total = (12 + body.len()) as u32;
    let mut v = Vec::new();
    v.extend_from_slice(&ty.to_le_bytes());
    v.extend_from_slice(&total.to_le_bytes());
    v.extend_from_slice(body);
    v.extend(std::iter::repeat(0u8).take(pad));
    v.extend_from_slice(&total.to_le_bytes());
    v
}

#[test]
fn pad_to_32bits_values() {
    assert_eq!(pad_to_32bits(0), 0);
    assert_eq!(pad_to_32bits(1), 3);
    assert_eq!(pad_to_32bits(2), 2);
    assert_eq!(pad_to_32bits(3), 1);
    assert_eq!(pad_to_32bits(4), 0);
    assert_eq!(pad_to_32bits(15), 1);
    assert_eq!(pad_to_32bits(u32::MAX), 1);
}

#[test]
fn little_endian_readers() {
    let b = [0x01u8, 0x02, 0x03, 0x04, 0x05, 0x06, 0x07, 0x08, 0x09];
    assert_eq!(le_u16_at(&b, 1), 0x0302);
    assert_eq!(le_u32_at(&b, 0), 0x04030201);
    assert_eq!(le_u64_at(&b, 1), 0x0908070605040302);
}

#[test]
fn parse_block_incomplete() {
    assert_eq!(parse_block(b"").unwrap_err(), ParseError::Incomplete(4));
    assert_eq!(parse_block(&SHB[..6]).unwrap_err(), ParseError::Incomplete(4));
    // the body of 16 bytes is cut short
    assert_eq!(parse_block(&SHB[..10]).unwrap_err(), ParseError::Incomplete(16));
    // the trailing length is cut short
    assert_eq!(parse_block(&SHB[..26]).unwrap_err(), ParseError::Incomplete(4));
    // a body of 15 bytes needs one byte of padding
    let weird = b"\n\r\r\n\x1b\x00\x00\x00<+\x1a\x01\x00\x00\x00\xff\xff\xff\xff\xff\xff\xff\xff";
    assert_eq!(parse_block(weird).unwrap_err(), ParseError::Incomplete(1));
}

#[test]
fn parse_block_leaves_what_follows() {
    let mut input = SHB.to_vec();
    input.extend_from_slice(b"\x01\x02\x03");
    let (left, b) = parse_block(&input).unwrap();
    assert_eq!(left, b"\x01\x02\x03");
    let (_, alone) = parse_block(SHB).unwrap();
    assert_eq!(b.ty, alone.ty);
    assert_eq!(b.body, alone.body);
    assert_eq!(b.check_length, alone.check_length);
}

#[test]
fn parse_blocks_needs_one_block() {
    assert_eq!(parse_blocks(b"").unwrap_err(), ParseError::Many1);
    assert_eq!(parse_blocks(&SHB[..20]).unwrap_err(), ParseError::Many1);
}

#[test]
fn parse_blocks_stops_at_partial_block() {
    let mut input = SHB.to_vec();
    input.extend_from_slice(&block_bytes(6, b"abcd"));
    input.extend_from_slice(&SHB[..10]);
    let (left, blocks) = parse_blocks(&input).unwrap();
    assert_eq!(blocks.len(), 2);
    assert_eq!(blocks[1].ty, 6);
    assert_eq!(blocks[1].body, b"abcd");
    assert_eq!(left, &SHB[..10]);
}

#[test]
fn parse_blocks_of_two_parts() {
    let a = SHB.to_vec();
    let c = block_bytes(0x77, b"xyz");
    let mut both = a.clone();
    both.extend_from_slice(&c);
    let (_, first) = parse_blocks(&a).unwrap();
    let (_, second) = parse_blocks(&c).unwrap();
    let (left, all) = parse_blocks(&both).unwrap();
    assert_eq!(left, b"");
    assert_eq!(all.len(), first.len() + second.len());
    assert_eq!(all[0].body, first[0].body);
    assert_eq!(all[1].ty, second[0].ty);
    assert_eq!(all[1].body, second[0].body);
}

#[test]
fn block_lengths_checked() {
    assert!(check_block_lengths(SHB));
    assert!(check_block_lengths(b""));
    let short = b"\x01\x00\x00\x00\x08\x00\x00\x00\x00\x00\x00\x00";
    assert!(!check_block_lengths(short));
    let mut later = SHB.to_vec();
    later.extend_from_slice(short);
    assert!(!check_block_lengths(&later));
}

#[test]
fn unknown_block_given_back() {
    let bytes = block_bytes(0x1234, b"hello");
    let (_, raw) = parse_block(&bytes).unwrap();
    assert!(raw.is_parseable());
    match raw.parse() {
        Ok((left, Block::UnknownBlock(RawBlock { ty, block_length, body, check_length }))) => {
            assert_eq!(left, b"");
            assert_eq!(ty, 0x1234);
            assert_eq!(block_length, 17);
            assert_eq!(body, b"hello");
            assert_eq!(check_length, 17);
        }
        other => panic!("unexpected: {:?}", other),
    }
}

#[test]
fn enhanced_packet_block() {
    let mut body = Vec::new();
    for v in [7u32, 2, 3, 5, 60] {
        body.extend_from_slice(&v.to_le_bytes());
    }
    body.extend_from_slice(b"data!\x00\x00\x00");
    body.extend_from_slice(b"\x01\x00\x02\x00hi\x00\x00\x00\x00\x00\x00");
    let bytes = block_bytes(enhanced_packet::TY, &body);
    let (_, raw) = parse_block(&bytes).unwrap();
    assert!(raw.is_parseable());
    match raw.parse() {
        Ok((left, Block::EnhancedPacket(p))) => {
            assert_eq!(left, b"");
            assert_eq!(p.ty, 6);
            assert_eq!(p.block_length, 52);
            assert_eq!(p.interface_id, 7);
            assert_eq!(p.timestamp_hi, 2);
            assert_eq!(p.timestamp_lo, 3);
            assert_eq!(p.captured_len, 5);
            assert_eq!(p.packet_len, 60);
            assert_eq!(p.data, b"data!");
            assert_eq!(p.check_length, 52);
            let opts = p.options.unwrap();
            assert_eq!(opts.options.len(), 2);
            assert_eq!(opts.options[0].code, EnhancedPacketOptions::Comment.code());
            assert_eq!(opts.options[0].value, b"hi");
        }
        other => panic!("unexpected: {:?}", other),
    }
}

#[test]
fn enhanced_packet_without_options() {
    let mut body = Vec::new();
    for v in [0u32, 0, 0, 2, 2] {
        body.extend_from_slice(&v.to_le_bytes());
    }
    body.extend_from_slice(b"ab\x00\x00");
    let bytes = block_bytes(enhanced_packet::TY, &body);
    let (_, raw) = parse_block(&bytes).unwrap();
    let (left, p) = enhanced_packet::parse(raw).unwrap();
    assert_eq!(left, b"");
    assert_eq!(p.data, b"ab");
    assert!(p.options.is_none());
}

#[test]
fn enhanced_packet_data_cut_short() {
    let mut body = Vec::new();
    for v in [0u32, 0, 0, 9, 9] {
        body.extend_from_slice(&v.to_le_bytes());
    }
    body.extend_from_slice(b"abc\x00");
    let bytes = block_bytes(enhanced_packet::TY, &body);
    let (_, raw) = parse_block(&bytes).unwrap();
    assert_eq!(enhanced_packet::parse(raw).unwrap_err(), ParseError::Incomplete(9));
}

#[test]
fn interface_stats_body_too_short() {
    let bytes = block_bytes(interface_stats::TY, b"\x01\x00\x00\x00\x02\x00\x00\x00");
    let (_, raw) = parse_block(&bytes).unwrap();
    assert_eq!(interface_stats::parse(raw).unwrap_err(), ParseError::Incomplete(4));
}

#[test]
fn section_header_with_length() {
    let mut body = Vec::new();
    body.extend_from_slice(&0x1A2B3C4Du32.to_le_bytes());
    body.extend_from_slice(b"\x01\x00\x02\x00");
    body.extend_from_slice(&1000u64.to_le_bytes());
    let bytes = block_bytes(section_header::TY, &body);
    let (_, raw) = parse_block(&bytes).unwrap();
    let (_, h) = section_header::parse(raw).unwrap();
    assert_eq!(h.major_version, 1);
    assert_eq!(h.minor_version, 2);
    assert_eq!(h.section_length, SectionLength::Bytes(1000));
    assert!(h.options.is_none());
}

#[test]
fn section_header_body_cut_short() {
    let bytes = block_bytes(section_header::TY, b"\x4d\x3c\x2b\x1a\x01\x00\x00\x00\x01");
    let (_, raw) = parse_block(&bytes).unwrap();
    assert_eq!(section_header::parse(raw).unwrap_err(), ParseError::Incomplete(8));
}

#[test]
fn section_header_with_other_magic_refused() {
    let mut body = b"\x1a\x2b\x3c\x4d\x01\x00\x00\x00".to_vec();
    body.extend_from_slice(&[0xff; 8]);
    let bytes = block_bytes(section_header::TY, &body);
    let (_, raw) = parse_block(&bytes).unwrap();
    assert!(!raw.is_parseable());
}

#[test]
fn options_must_end_with_end_marker() {
    assert!(options_are_terminated(b"\x01\x00\x00\x00\x00\x00\x00\x00"));
    assert!(!options_are_terminated(b"\x01\x00\x01\x00x\x00\x00\x00"));
    assert!(options_are_terminated(b""));
    let mut body = Vec::new();
    for v in [0u32, 0, 0] {
        body.extend_from_slice(&v.to_le_bytes());
    }
    body.extend_from_slice(b"\x01\x00\x00\x00");
    let bytes = block_bytes(interface_stats::TY, &body);
    let (_, raw) = parse_block(&bytes).unwrap();
    assert!(!raw.is_parseable());
}

#[test]
fn parse_options_needs_one_option() {
    assert_eq!(parse_options(b"").unwrap_err(), ParseError::Many1);
    assert_eq!(parse_options(b"\x00\x00").unwrap_err(), ParseError::Many1);
    // a second option cut short stays unread
    let (left, opts) = parse_options(b"\x00\x00\x00\x00\x05\x00\x09\x00ab").unwrap();
    assert_eq!(opts.options.len(), 1);
    assert_eq!(left, b"\x05\x00\x09\x00ab");
}

#[test]
fn constant_codes() {
    assert_eq!(BlockType::SectionHeader.code(), 0x0A0D0D0A);
    assert_eq!(BlockType::Arinc429_AFDX.code(), 8);
    assert_eq!(BlockType::InterfaceStatistics.code(), interface_stats::TY);
    assert_eq!(BlockType::EnhancedPacket.code(), enhanced_packet::TY);
    assert_eq!(LinkType::NULL.code(), 0);
    assert_eq!(LinkType::PPP_HDLC.code(), 50);
    assert_eq!(LinkType::IBM_SN.code(), 146);
    assert_eq!(LinkTypeOptions::TsOffset.code(), 14);
    assert_eq!(EnhancedPacketOptions::DropCount.code(), 4);
    assert_eq!(InterfaceStatisticsOptions::UsrDeliv.code(), 8);
}

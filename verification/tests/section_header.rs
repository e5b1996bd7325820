use pcapng::block::parse_block;
use pcapng::blocks::section_header::{parse, SectionLength};

#[test]
fn test_parse_section_header() {
    let input = b"\n\r\r\n\x1c\x00\x00\x00M<+\x1a\x01\x00\x00\x00\xff\xff\xff\xff\xff\xff\xff\xff\x1c\x00\x00\x00";
    match parse_block(input) {
        Ok((left, block)) => {
            let (_, section_header) = parse(block).unwrap();

            // Ignored because we do not currently parse the whole block
            assert_eq!(left, b"");
            assert_eq!(section_header.ty, 0x0A0D0D0A);
            assert_eq!(section_header.block_length, 28);
            assert_eq!(section_header.magic, 0x1A2B3C4D);
            assert_eq!(section_header.section_length, SectionLength::Unspecified);
            assert_eq!(section_header.check_length, 28);
        }
        _ => {
            assert_eq!(1, 2);
        }
    }
}

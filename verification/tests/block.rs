use pcapng::block::{parse_block, parse_blocks, Block, RawBlock};

#[test]
fn test_parse_block() {
    let input = b"\n\r\r\n\x1c\x00\x00\x00M<+\x1a\x01\x00\x00\x00\xff\xff\xff\xff\xff\xff\xff\xff\x1c\x00\x00\x00";
    match parse_block(input) {
        Ok((left, RawBlock { ty, block_length, body, check_length })) => {
            // Ignored because we do not currently parse the whole block
            assert_eq!(left, b"");
            assert_eq!(ty, 0x0A0D0D0A);
            assert_eq!(block_length, 28);
            assert_eq!(body, b"M<+\x1a\x01\x00\x00\x00\xff\xff\xff\xff\xff\xff\xff\xff");
            assert_eq!(check_length, 28);
        }
        _ => {
            assert_eq!(1, 2);
        }
    }
}

#[test]
fn test_parse_blocks() {
    let input = b"\n\r\r\n\x1c\x00\x00\x00M<+\x1a\x01\x00\x00\x00\xff\xff\xff\xff\xff\xff\xff\xff\x1c\x00\x00\x00\
    \n\r\r\n\x1c\x00\x00\x00M<+\x1a\x01\x00\x00\x00\xff\xff\xff\xff\xff\xff\xff\xff\x1c\x00\x00\x00";
    match parse_blocks(input) {
        Ok((left, blocks)) => {
            assert_eq!(blocks.len(), 2);
            for i in blocks {
                let RawBlock { ty, block_length, body, check_length } = i;
                // Ignored because we do not currently parse the whole block
                assert_eq!(left, b"");
                assert_eq!(ty, 0x0A0D0D0A);
                assert_eq!(block_length, 28);
                assert_eq!(body, b"M<+\x1a\x01\x00\x00\x00\xff\xff\xff\xff\xff\xff\xff\xff");
                assert_eq!(check_length, 28);
            }
        }
        err => {
            println!("error: {:?}", err);
            assert_eq!(1, 2);
        }
    }
}

#[test]
fn test_parse_weird_length_block() {
    let input = b"\n\r\r\n\x1b\x00\x00\x00<+\x1a\x01\x00\x00\x00\xff\xff\xff\xff\xff\xff\xff\xff\x00\x1b\x00\x00\x00";
    match parse_block(input) {
        Ok((left, RawBlock { ty, block_length, body, check_length })) => {
            // Ignored because we do not currently parse the whole block
            assert_eq!(left, b"");
            assert_eq!(ty, 0x0A0D0D0A);
            assert_eq!(27, block_length);
            assert_eq!(body.len() + 12, block_length as usize);
            assert_eq!(body, b"<+\x1a\x01\x00\x00\x00\xff\xff\xff\xff\xff\xff\xff\xff");
            assert_eq!(body.len() + 12, check_length as usize);
        }
        _ => {
            unreachable!("Couldn't parse the block");
        }
    }
}

#[test]
fn block_test_multiple_options() {
    let input = b"\x0a\x0d\x0d\x0a\x40\x00\x00\x00\x4d\x3c\x2b\x1a\x01\x00\x00\x00\
                \xff\xff\xff\xff\xff\xff\xff\xff\x03\x00\x0b\x00\x57\x69\x6e\x64\
                \x6f\x77\x73\x20\x58\x50\x00\x00\x04\x00\x0c\x00\x54\x65\x73\x74\
                \x30\x30\x34\x2e\x65\x78\x65\x00\x00\x00\x00\x00\x40\x00\x00\x00";
    match parse_block(input) {
        Ok((left, block)) => {
            assert_eq!(left, b"");
            match block.parse() {
                Ok((_, Block::SectionHeader(blk))) => {
                    if let Some(opts) = blk.options {
                        assert_eq!(opts.options.len(), 3);

                        let o = &opts.options[0];
                        assert_eq!(o.code, 0x03);
                        assert_eq!(o.length, 0x0b);
                        assert_eq!(&o.value[..], b"Windows XP\x00");

                        let o = &opts.options[1];
                        assert_eq!(o.code, 0x04);
                        assert_eq!(o.length, 0x0c);
                        assert_eq!(&o.value[..], b"Test004.exe\x00");

                        let o = &opts.options[2];
                        assert_eq!(o.code, 0x00);
                        assert_eq!(o.length, 0x00);
                        assert_eq!(&o.value[..], b"");
                    } else {
                        unreachable!();
                    }
                }
                err => {
                    panic!("error: {:?}", err);
                }
            }
        }
        _ => {
            panic!("Hit a codepath we shouldn't have");
        }
    }
}

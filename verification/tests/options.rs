use pcapng::options::parse_options;

#[test]
fn test_parse_options() {
    let input = b"\x12\x42\x08\x00asdfasdf\x00\x00\x00\x00";
    match parse_options(input) {
        Ok((left, opts)) => {
            assert_eq!(left, b"");
            assert_eq!(opts.options.len(), 2);
            let o = &opts.options[0];
            assert_eq!(o.code, 0x4212);
            assert_eq!(o.length, 0x08);
            assert_eq!(o.value, b"asdfasdf");
        }
        err => {
            panic!("Hit a codepath we shouldn't have: {:?}", err);
        }
    }
}

#[test]
fn options_test_multiple_options() {
    let input = b"\x03\x00\x0b\x00\x57\x69\x6e\x64\
                \x6f\x77\x73\x20\x58\x50\x00\x00\x04\x00\x0c\x00\x54\x65\x73\x74\
                \x30\x30\x34\x2e\x65\x78\x65\x00\x00\x00\x00\x00";
    match parse_options(input) {
        Ok((left, opts)) => {
            assert_eq!(left, []);
            assert_eq!(opts.options.len(), 3);

            let o = &opts.options[0];
            assert_eq!(o.code, 0x03);
            assert_eq!(o.length, 0x0b);
            assert_eq!(&o.value[..], b"Windows XP\x00");

            let o = &opts.options[1];
            assert_eq!(o.code, 0x04);
            assert_eq!(o.length, 0x0c);
            assert_eq!(&o.value[..], b"Test004.exe\x00");

            let o = &opts.options[2];
            assert_eq!(o.code, 0x00);
            assert_eq!(o.length, 0x00);
            assert_eq!(&o.value[..], b"");
        }
        err => {
            panic!("Hit a codepath we shouldn't have: {:?}", err);
        }
    }
}

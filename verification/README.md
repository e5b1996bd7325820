# pcapng

A reader for pcapng capture files, verified with Verus.

- `src/util.rs`: padding to 32 bits, little-endian field readers, the
  parse error type and the shape of a parse result.
- `src/block.rs`: raw blocks (`parse_block`, `parse_blocks`), reading a raw
  block by its type (`RawBlock::parse`), and the laws that tie them together.
- `src/options.rs`: the option lists that end most block bodies.
- `src/blocks/`: the section header, enhanced packet, interface description
  and interface statistics blocks, and the format's numeric codes.
- `app/`: reading a capture from a file and printing its blocks.

Each parser is stated against a spec function over byte sequences; the
executable code is proved to give exactly what the spec gives.

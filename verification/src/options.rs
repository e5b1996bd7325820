use vstd::prelude::*;

use crate::util::{
    le_u16_at, lemma_skip_skip, pad_to_32bits, result_matches, skip_bytes, spec_le_u16,
    spec_pad_to_32bits, word16, ParseError,
};

verus! {

//  0                   1                   2                   3
//  0 1 2 3 4 5 6 7 8 9 0 1 2 3 4 5 6 7 8 9 0 1 2 3 4 5 6 7 8 9 0 1
// +-+-+-+-+-+-+-+-+-+-+-+-+-+-+-+-+-+-+-+-+-+-+-+-+-+-+-+-+-+-+-+-+
// |      Option Code              |         Option Length         |
// +-+-+-+-+-+-+-+-+-+-+-+-+-+-+-+-+-+-+-+-+-+-+-+-+-+-+-+-+-+-+-+-+
// /                       Option Value                            /
// /          /* variable length, aligned to 32 bits */            /
// +-+-+-+-+-+-+-+-+-+-+-+-+-+-+-+-+-+-+-+-+-+-+-+-+-+-+-+-+-+-+-+-+
// /                                                               /
// /                 . . . other options . . .                     /
// /                                                               /
// +-+-+-+-+-+-+-+-+-+-+-+-+-+-+-+-+-+-+-+-+-+-+-+-+-+-+-+-+-+-+-+-+
// |   Option Code == opt_endofopt  |  Option Length == 0          |
// +-+-+-+-+-+-+-+-+-+-+-+-+-+-+-+-+-+-+-+-+-+-+-+-+-+-+-+-+-+-+-+-+

/// The options of a block, in the order they were read; the last one is the
/// end-of-options marker.
#[derive(Debug)]
pub struct Options<'a> {
    pub options: Vec<Opt<'a>>,
}

/// One option: its code, its length, and its value (without the padding).
#[derive(Debug)]
pub struct Opt<'a> {
    pub code: u16,
    pub length: u16,
    pub value: &'a [u8],
}

/// An option's fields as plain values.
pub struct SpecOpt {
    pub code: u16,
    pub length: u16,
    pub value: Seq<u8>,
}

impl<'a> View for Opt<'a> {
    type V = SpecOpt;

    open spec fn view(&self) -> SpecOpt {
        SpecOpt { code: self.code, length: self.length, value: self.value@ }
    }
}

impl<'a> View for Options<'a> {
    type V = Seq<SpecOpt>;

    open spec fn view(&self) -> Seq<SpecOpt> {
        self.options@.map_values(|o: Opt<'a>| o@)
    }
}

/// The view of a block's optional options.
pub open spec fn opt_options_view<'a>(o: Option<Options<'a>>) -> Option<Seq<SpecOpt>> {
    match o {
        Some(opts) => Some(opts@),
        None => None,
    }
}

/// The option at the start of `s`: on success the number of bytes it takes
/// (code, length, value and padding to 32 bits) and its fields.
pub open spec fn spec_parse_option(s: Seq<u8>) -> Result<(int, SpecOpt), ParseError> {
    if s.len() < 4 {
        Err(ParseError::Incomplete(2))
    } else {
        let length = spec_le_u16(s, 2);
        let pad = spec_pad_to_32bits(length as u32);
        if s.len() < 4 + length {
            Err(ParseError::Incomplete(length as usize))
        } else if s.len() < 4 + length + pad {
            Err(ParseError::Incomplete(pad))
        } else {
            Ok(
                (
                    4 + length + pad,
                    SpecOpt { code: spec_le_u16(s, 0), length, value: s.subrange(4, 4 + length) },
                ),
            )
        }
    }
}

/// As many options as can be read one after the other from the start of
/// `s`, and the number of bytes they take.
pub open spec fn spec_options_many(s: Seq<u8>) -> (Seq<SpecOpt>, int)
    decreases s.len(),
{
    match spec_parse_option(s) {
        Ok((n, o)) => if 0 < n <= s.len() {
            let (os, m) = spec_options_many(s.skip(n));
            (seq![o] + os, n + m)
        } else {
            (seq![], 0)
        },
        Err(_) => (seq![], 0),
    }
}

/// One or more options from the start of `s`.
pub open spec fn spec_parse_options(s: Seq<u8>) -> Result<(int, Seq<SpecOpt>), ParseError> {
    let (os, m) = spec_options_many(s);
    if os.len() == 0 {
        Err(ParseError::Many1)
    } else {
        Ok((m, os))
    }
}

/// The options read from the start of `s`, if there are any, end with the
/// end-of-options marker: code 0 and length 0.
pub open spec fn options_terminated(s: Seq<u8>) -> bool {
    match spec_parse_options(s) {
        Ok((_, os)) => os.last().code == 0 && os.last().length == 0,
        Err(_) => true,
    }
}

/// What `opt!(complete!(parse_options))` gives at the start of `s`: the
/// options and the bytes they take, or no options and no bytes.
pub open spec fn spec_opt_options(s: Seq<u8>) -> (int, Option<Seq<SpecOpt>>) {
    match spec_parse_options(s) {
        Ok((n, os)) => (n, Some(os)),
        Err(_) => (0, None),
    }
}

/// Every option read holds as many value bytes as its length field says,
/// and the options take a whole number of 32-bit words.
pub proof fn lemma_options_many_shape(s: Seq<u8>)
    ensures
        forall|i: int|
            0 <= i < spec_options_many(s).0.len() ==> (#[trigger] spec_options_many(s).0[i]).value.len()
                == spec_options_many(s).0[i].length,
        spec_options_many(s).1 % 4 == 0,
        0 <= spec_options_many(s).1 <= s.len(),
    decreases s.len(),
{
    if let Ok((n, o)) = spec_parse_option(s) {
        lemma_options_many_shape(s.skip(n));
    }
}

/// How one option is read, where `p` is the padding that brings its value
/// length to a multiple of 4 (the least such number). Input that ends
/// inside the code or length field is incomplete by 2 bytes. Otherwise the
/// code and the value length are the little-endian 16-bit words at offsets
/// 0 and 2, the value follows at offset 4, and the option takes
/// `4 + length + p` bytes; input that ends inside the value is incomplete by
/// the length, inside the padding by `p`.
pub proof fn law_option_fields(s: Seq<u8>, p: int)
    requires
        0 <= p < 4,
        s.len() >= 4 ==> (word16(s[2], s[3]) + p) % 4 == 0,
    ensures
        s.len() < 4 ==> spec_parse_option(s) == Err::<(int, SpecOpt), ParseError>(
            ParseError::Incomplete(2),
        ),
        s.len() >= 4 ==> ({
            let len = word16(s[2], s[3]);
            &&& s.len() < 4 + len ==> spec_parse_option(s) == Err::<(int, SpecOpt), ParseError>(
                ParseError::Incomplete(len as usize),
            )
            &&& 4 + len <= s.len() < 4 + len + p ==> spec_parse_option(s) == Err::<
                (int, SpecOpt),
                ParseError,
            >(ParseError::Incomplete(p as usize))
            &&& s.len() >= 4 + len + p ==> spec_parse_option(s) == Ok::<(int, SpecOpt), ParseError>(
                (
                    4 + len + p,
                    SpecOpt {
                        code: word16(s[0], s[1]) as u16,
                        length: len as u16,
                        value: s.subrange(4, 4 + len),
                    },
                ),
            )
        }),
{
    if s.len() >= 4 {
        assert(spec_le_u16(s, 2) == word16(s[2], s[3]));
        assert(spec_pad_to_32bits(spec_le_u16(s, 2) as u32) == p);
    }
}

/// `parse_options` reads its first option as one option is read, then the
/// options that it reads from what follows, if any; where no option can be
/// read at the start it fails.
pub proof fn law_parse_options_unfold(s: Seq<u8>)
    ensures
        match spec_parse_option(s) {
            Ok((n, o)) => match spec_parse_options(s.skip(n)) {
                Ok((m, os)) => spec_parse_options(s) == Ok::<(int, Seq<SpecOpt>), ParseError>(
                    (n + m, seq![o] + os),
                ),
                Err(_) => spec_parse_options(s) == Ok::<(int, Seq<SpecOpt>), ParseError>(
                    (n, seq![o]),
                ),
            },
            Err(_) => spec_parse_options(s) == Err::<(int, Seq<SpecOpt>), ParseError>(
                ParseError::Many1,
            ),
        },
{
    if let Ok((n, o)) = spec_parse_option(s) {
        let (os, m) = spec_options_many(s.skip(n));
        if os.len() == 0 {
            assert(seq![o] + os =~= seq![o]);
        }
    }
}

/// Parses the option at the start of `input`.
fn parse_option<'a>(input: &'a [u8]) -> (r: Result<(&'a [u8], Opt<'a>), ParseError>)
    ensures
        result_matches(input@, r, spec_parse_option(input@)),
{
    let len = input.len();
    if len < 4 {
        return Err(ParseError::Incomplete(2));
    }
    let code = le_u16_at(input, 0);
    let length = le_u16_at(input, 2);
    let value_len = length as usize;
    if len - 4 < value_len {
        return Err(ParseError::Incomplete(value_len));
    }
    let value = vstd::slice::slice_subrange(input, 4, 4 + value_len);
    let pad = pad_to_32bits(length as u32);
    if len - 4 - value_len < pad {
        return Err(ParseError::Incomplete(pad));
    }
    let left = skip_bytes(input, 4 + value_len + pad);
    Ok((left, Opt { code, length, value }))
}

/// Reads options one after the other from the start of `input` until one
/// cannot be read whole; one or more are needed.
fn options_many1<'a>(input: &'a [u8]) -> (r: Result<(&'a [u8], Options<'a>), ParseError>)
    ensures
        result_matches(input@, r, spec_parse_options(input@)),
{
    let mut opts: Vec<Opt<'a>> = Vec::new();
    let mut rest = input;
    loop
        invariant
            rest@.len() <= input@.len(),
            rest@ == input@.skip(input@.len() - rest@.len()),
            spec_options_many(input@).0 == opts@.map_values(|o: Opt<'a>| o@) + spec_options_many(
                rest@,
            ).0,
            spec_options_many(input@).1 == (input@.len() - rest@.len()) + spec_options_many(
                rest@,
            ).1,
        ensures
            spec_options_many(rest@) == (Seq::<SpecOpt>::empty(), 0int),
        decreases rest@.len(),
    {
        match parse_option(rest) {
            Ok((left, o)) => {
                let ghost n = rest@.len() - left@.len();
                proof {
                    lemma_skip_skip(input@, input@.len() - rest@.len(), n);
                    assert(opts@.push(o).map_values(|o: Opt<'a>| o@) =~= opts@.map_values(
                        |o: Opt<'a>| o@,
                    ).push(o@));
                }
                opts.push(o);
                rest = left;
            },
            Err(_) => {
                break ;
            },
        }
    }
    let options = Options { options: opts };
    assert(spec_options_many(input@).0 =~= options@);
    if options.options.len() == 0 {
        Err(ParseError::Many1)
    } else {
        Ok((rest, options))
    }
}

/// Parses one or more options from the start of `input`, up to the first
/// that cannot be read whole. The last option read must be the
/// end-of-options marker.
pub fn parse_options<'a>(input: &'a [u8]) -> (r: Result<(&'a [u8], Options<'a>), ParseError>)
    requires
        options_terminated(input@),
    ensures
        result_matches(input@, r, spec_parse_options(input@)),
        r matches Ok((left, opts)) ==> {
            &&& opts@.len() > 0
            &&& opts@.last().code == 0
            &&& opts@.last().length == 0
            &&& forall|i: int| 0 <= i < opts@.len() ==> (#[trigger] opts@[i]).value.len() == opts@[i].length
            &&& (input@.len() - left@.len()) % 4 == 0
        },
{
    proof {
        lemma_options_many_shape(input@);
    }
    options_many1(input)
}

/// Whether `parse_options` may be called on `input`: the options read from
/// its start, if any, end with the end-of-options marker.
pub fn options_are_terminated(input: &[u8]) -> (b: bool)
    ensures
        b == options_terminated(input@),
{
    match options_many1(input) {
        Ok((_, opts)) => {
            let n = opts.options.len();
            let last = &opts.options[n - 1];
            last.code == 0 && last.length == 0
        },
        Err(_) => true,
    }
}

/// Parses the options at the start of `input` where there are any, as a
/// block body does after its fixed fields: no options read is no error.
pub(crate) fn parse_opt_options<'a>(input: &'a [u8]) -> (r: (&'a [u8], Option<Options<'a>>))
    requires
        options_terminated(input@),
    ensures
        0 <= spec_opt_options(input@).0 <= input@.len(),
        r.0@ == input@.skip(spec_opt_options(input@).0),
        opt_options_view(r.1) == spec_opt_options(input@).1,
{
    match parse_options(input) {
        Ok((left, opts)) => (left, Some(opts)),
        Err(_) => {
            assert(input@.skip(0) =~= input@);
            (input, None)
        },
    }
}

} // verus!

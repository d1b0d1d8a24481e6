//! Command-line framing and the payload parsers of the transfer and
//! directory operations: TYPE codes, directory listings, and SIZE
//! replies.

use vstd::prelude::*;
use crate::text::{
    dec_val, is_digits, join_str, join_with, split_on, split_str, trim, trim_end, trim_end_sp,
    trim_sp,
};
use crate::reply::{Error, ErrorV};

verus! {

/// The single line written to issue one command: the command name, a
/// space, the arguments joined with spaces, and a line feed.
pub open spec fn command_line_sp(cmd: Seq<char>, args: Seq<Seq<char>>) -> Seq<char> {
    cmd + seq![' '] + join_with(args, seq![' ']) + seq!['\n']
}

/// Formats the line written to issue one command.
pub fn command_line(command: &str, arguments: &Vec<String>) -> (r: String)
    ensures
        r@ == command_line_sp(command@, arguments.deep_view()),
{
    let mut r = command.to_owned();
    r.append(" ");
    let joined = join_str(arguments, " ");
    r.append(joined.as_str());
    r.append("\n");
    proof {
        reveal_strlit(" ");
        reveal_strlit("\n");
        assert(" "@ =~= seq![' ']);
        assert("\n"@ =~= seq!['\n']);
        assert(r@ =~= command_line_sp(command@, arguments.deep_view()));
    }
    r
}

/// The transfer representation types selectable with the TYPE command.
/// The Unicode code is experimental and not every server supports it.
#[derive(Clone, Copy, PartialEq, Eq, Structural)]
pub enum TransferMode {
    ASCII,
    Binary,
    EBCDIC,
    Unicode,
}

/// The TYPE code letter of each transfer mode.
pub open spec fn mode_code_sp(m: TransferMode) -> Seq<char> {
    match m {
        TransferMode::ASCII => seq!['A'],
        TransferMode::Binary => seq!['I'],
        TransferMode::EBCDIC => seq!['E'],
        TransferMode::Unicode => seq!['U'],
    }
}

/// The TYPE code letter of a transfer mode.
pub fn mode_code(mode: TransferMode) -> (r: &'static str)
    ensures
        r@ == mode_code_sp(mode),
{
    proof {
        reveal_strlit("A");
        reveal_strlit("I");
        reveal_strlit("E");
        reveal_strlit("U");
    }
    let r = match mode {
        TransferMode::ASCII => "A",
        TransferMode::Binary => "I",
        TransferMode::EBCDIC => "E",
        TransferMode::Unicode => "U",
    };
    proof {
        assert(r@ =~= mode_code_sp(mode));
    }
    r
}

/// The cleaned entries of a sequence of listing lines: each line trimmed
/// of trailing padding, empty lines dropped.
pub open spec fn clean_lines(ls: Seq<Seq<char>>) -> Seq<Seq<char>>
    decreases ls.len(),
{
    if ls.len() == 0 {
        Seq::empty()
    } else {
        let h = trim_end_sp(ls[0]);
        let rest = clean_lines(ls.drop_first());
        if h.len() > 0 {
            seq![h] + rest
        } else {
            rest
        }
    }
}

/// Model of a directory listing: the data-socket text split on line
/// feeds, each entry trimmed of trailing line-ending characters, empty
/// entries dropped.
pub open spec fn listing_sp(t: Seq<char>) -> Seq<Seq<char>> {
    clean_lines(split_on(t, '\n'))
}

/// An empty data stream lists no entries: the model of a freshly created
/// directory's listing is the empty sequence.
pub proof fn lemma_empty_listing()
    ensures
        listing_sp(Seq::<char>::empty()) == Seq::<Seq<char>>::empty(),
{
    let e = Seq::<char>::empty();
    assert(split_on(e, '\n') == seq![e]);
    assert(trim_end_sp(e).len() == 0);
    assert(seq![e].drop_first() =~= Seq::<Seq<char>>::empty());
    assert(clean_lines(Seq::<Seq<char>>::empty()) == Seq::<Seq<char>>::empty());
    assert(clean_lines(seq![e]) == Seq::<Seq<char>>::empty());
}

/// Turns the text drained from the data socket into the listing entries.
pub fn parse_listing(text: &str) -> (r: Vec<String>)
    ensures
        r.deep_view() == listing_sp(text@),
{
    let pieces = split_str(text, '\n');
    let mut r: Vec<String> = Vec::new();
    let mut i: usize = 0;
    proof {
        assert(r.deep_view() =~~= Seq::<Seq<char>>::empty());
        assert(pieces.deep_view().skip(0) =~= pieces.deep_view());
        assert(r.deep_view() + clean_lines(pieces.deep_view().skip(0)) =~~= listing_sp(text@));
    }
    while i < pieces.len()
        invariant
            i <= pieces@.len(),
            pieces.deep_view() == split_on(text@, '\n'),
            listing_sp(text@) == r.deep_view() + clean_lines(pieces.deep_view().skip(i as int)),
        decreases pieces@.len() - i,
    {
        let ghost prefix = r.deep_view();
        let entry = trim_end(pieces[i].as_str());
        let keep = entry.unicode_len() > 0;
        if keep {
            r.push(entry.to_owned());
        }
        proof {
            let dv = pieces.deep_view();
            assert(dv.skip(i as int).drop_first() =~= dv.skip(i + 1));
            assert(dv.skip(i as int)[0] == dv[i as int]);
            assert(entry@ == trim_end_sp(dv[i as int]));
            if keep {
                assert(r.deep_view() =~~= prefix.push(trim_end_sp(dv[i as int])));
                assert(r.deep_view() + clean_lines(dv.skip(i + 1)) =~~= prefix + clean_lines(
                    dv.skip(i as int),
                ));
            } else {
                assert(r.deep_view() + clean_lines(dv.skip(i + 1)) =~~= prefix + clean_lines(
                    dv.skip(i as int),
                ));
            }
        }
        i = i + 1;
    }
    proof {
        assert(pieces.deep_view().skip(pieces@.len() as int)
            =~= Seq::<Seq<char>>::empty());
        assert(r.deep_view() =~~= listing_sp(text@));
    }
    r
}

/// Model of reading a SIZE reply's text: trimmed of padding at both
/// ends it must be a decimal number that fits 64 bits, and anything else
/// is malformed data.
pub open spec fn size_sp(text: Seq<char>) -> Result<u64, ErrorV> {
    let t = trim_sp(text);
    if is_digits(t) && dec_val(t) <= u64::MAX {
        Ok(dec_val(t) as u64)
    } else {
        Err(ErrorV::InvalidData)
    }
}

/// The model of a parsed size.
pub open spec fn size_view(r: Result<u64, Error>) -> Result<u64, ErrorV> {
    match r {
        Ok(n) => Ok(n),
        Err(e) => Err(e@),
    }
}

/// Parses the text of a SIZE reply as an unsigned byte count.
pub fn parse_size(text: &str) -> (r: Result<u64, Error>)
    ensures
        size_view(r) == size_sp(text@),
{
    match crate::text::parse_decimal(trim(text)) {
        Some(v) => Ok(v),
        None => Err(Error::InvalidData),
    }
}

} // verus!

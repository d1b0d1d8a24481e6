//! Passive-mode address resolution: reading the parenthesized sextet out
//! of a PASV reply's text and turning it into a connectable address and
//! port.

use vstd::prelude::*;
use crate::text::{
    dec_val, find_char, find_char_from, is_digits, lemma_find_char, parse_decimal, split_on,
    split_str, trim_end, trim_end_sp,
};
use crate::reply::{Error, ErrorV};

verus! {

/// The sextet payload of a PASV reply's text: everything after the first
/// '(' with trailing padding removed, which must then end in the ")."
/// suffix; `None` when either piece of punctuation is absent.
pub open spec fn passive_payload(text: Seq<char>) -> Option<Seq<char>> {
    match find_char(text, '(') {
        None => None,
        Some(i) => {
            let t = trim_end_sp(text.skip(i + 1));
            if t.len() >= 2 && t[t.len() - 2] == ')' && t[t.len() - 1] == '.' {
                Some(t.take(t.len() - 2))
            } else {
                None
            }
        },
    }
}

/// The value of one numeric field under the lenient fallback policy: a
/// field that is a string of digits valued at most 255 counts as that
/// value, and any other field degrades to 0 rather than aborting the
/// resolution.
pub open spec fn octet_or_zero(f: Seq<char>) -> u16 {
    if is_digits(f) && dec_val(f) <= 255 {
        dec_val(f) as u16
    } else {
        0
    }
}

/// The address text of a sextet: its four host fields joined with '.'.
pub open spec fn sextet_addr(fs: Seq<Seq<char>>) -> Seq<char>
    recommends
        fs.len() == 6,
{
    fs[0] + seq!['.'] + fs[1] + seq!['.'] + fs[2] + seq!['.'] + fs[3]
}

/// The port of a sextet: the high port field times 256 plus the low one.
pub open spec fn sextet_port(fs: Seq<Seq<char>>) -> u16
    recommends
        fs.len() == 6,
{
    (octet_or_zero(fs[4]) * 256 + octet_or_zero(fs[5])) as u16
}

/// Model of resolving a PASV reply's text into a connection target: the
/// parenthesized payload must split on ',' into exactly six fields, and
/// anything else is malformed data.
pub open spec fn passive_target_sp(text: Seq<char>) -> Result<(Seq<char>, u16), ErrorV> {
    match passive_payload(text) {
        None => Err(ErrorV::InvalidData),
        Some(p) => {
            let fs = split_on(p, ',');
            if fs.len() == 6 {
                Ok((sextet_addr(fs), sextet_port(fs)))
            } else {
                Err(ErrorV::InvalidData)
            }
        },
    }
}

/// The model of a resolved connection target.
pub open spec fn target_view(r: Result<(String, u16), Error>) -> Result<
    (Seq<char>, u16),
    ErrorV,
> {
    match r {
        Ok(t) => Ok((t.0@, t.1)),
        Err(e) => Err(e@),
    }
}

/// Malformed-data law for passive resolution: when no '(' occurs in the
/// text, and likewise when the trimmed payload after the first '(' does
/// not end in the ")." suffix, resolution is malformed data.
pub proof fn lemma_passive_malformed(text: Seq<char>)
    ensures
        (forall|k: int| 0 <= k < text.len() ==> text[k] != '(') ==> passive_target_sp(text)
            == Err::<(Seq<char>, u16), ErrorV>(ErrorV::InvalidData),
        (match find_char(text, '(') {
            None => true,
            Some(i) => {
                let t = trim_end_sp(text.skip(i + 1));
                !(t.len() >= 2 && t[t.len() - 2] == ')' && t[t.len() - 1] == '.')
            },
        }) ==> passive_target_sp(text) == Err::<(Seq<char>, u16), ErrorV>(ErrorV::InvalidData),
{
    lemma_find_char(text, '(');
}

/// A code announcing entry into passive mode: it starts with 227.
pub open spec fn is_passive_code(code: Seq<char>) -> bool {
    code.len() >= 3 && code[0] == '2' && code[1] == '2' && code[2] == '7'
}

/// Whether a reply code announces entry into passive mode.
pub fn starts_passive(code: &str) -> (r: bool)
    ensures
        r == is_passive_code(code@),
{
    let len = code.unicode_len();
    len >= 3 && code.get_char(0) == '2' && code.get_char(1) == '2' && code.get_char(2) == '7'
}

/// One numeric field under the lenient policy: its decimal value when it
/// is a digit string valued at most 255, and 0 otherwise.
pub fn octet_field(f: &str) -> (r: u16)
    ensures
        r == octet_or_zero(f@),
        r <= 255,
{
    match parse_decimal(f) {
        Some(v) => {
            if v <= 255 {
                v as u16
            } else {
                0
            }
        },
        None => 0,
    }
}

/// Resolves the text of a 227 reply into the address and port the data
/// connection is to be opened to.
pub fn resolve_passive(text: &str) -> (r: Result<(String, u16), Error>)
    ensures
        target_view(r) == passive_target_sp(text@),
        r matches Ok(t) ==> t.1 <= 0xffff,
{
    let len = text.unicode_len();
    let found = find_char_from(text, 0, '(');
    proof {
        lemma_find_char(text@, '(');
    }
    let i = match found {
        None => {
            return Err(Error::InvalidData);
        },
        Some(i) => i,
    };
    assert(find_char(text@, '(') == Some(i as int));
    let tail = text.substring_char(i + 1, len);
    proof {
        assert(tail@ =~= text@.skip(i + 1));
    }
    let t = trim_end(tail);
    let tlen = t.unicode_len();
    if tlen < 2 || t.get_char(tlen - 2) != ')' || t.get_char(tlen - 1) != '.' {
        return Err(Error::InvalidData);
    }
    let inner = t.substring_char(0, tlen - 2);
    proof {
        assert(inner@ =~= t@.take(tlen - 2));
        assert(passive_payload(text@) == Some(inner@));
    }
    let fields = split_str(inner, ',');
    if fields.len() != 6 {
        return Err(Error::InvalidData);
    }
    let mut addr = fields[0].clone();
    addr.append(".");
    addr.append(fields[1].as_str());
    addr.append(".");
    addr.append(fields[2].as_str());
    addr.append(".");
    addr.append(fields[3].as_str());
    let p1 = octet_field(fields[4].as_str());
    let p2 = octet_field(fields[5].as_str());
    let port: u16 = p1 * 256 + p2;
    proof {
        let fs = fields.deep_view();
        reveal_strlit(".");
        assert("."@ =~= seq!['.']);
        assert(fields@[0]@ == fs[0] && fields@[1]@ == fs[1] && fields@[2]@ == fs[2] && fields@[3]@
            == fs[3] && fields@[4]@ == fs[4] && fields@[5]@ == fs[5]);
        assert(addr@ =~= sextet_addr(fs));
        assert(port == sextet_port(fs));
    }
    Ok((addr, port))
}

} // verus!

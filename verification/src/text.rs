//! Character-sequence helpers that the protocol engine is specified with:
//! trimming of separator and line-ending characters, first-occurrence
//! search, splitting on a separator, joining with a separator, and decimal
//! parsing.

use vstd::prelude::*;

verus! {

/// A character that counts as padding at the edge of a protocol field:
/// the separator space, line endings, and the tab character.
pub open spec fn trimmable(c: char) -> bool {
    c == ' ' || c == '\r' || c == '\n' || c == '\t'
}

/// `s` with every trailing trimmable character removed.
pub open spec fn trim_end_sp(s: Seq<char>) -> Seq<char>
    decreases s.len(),
{
    if s.len() > 0 && trimmable(s[s.len() - 1]) {
        trim_end_sp(s.drop_last())
    } else {
        s
    }
}

/// `s` with every leading trimmable character removed.
pub open spec fn trim_start_sp(s: Seq<char>) -> Seq<char>
    decreases s.len(),
{
    if s.len() > 0 && trimmable(s[0]) {
        trim_start_sp(s.drop_first())
    } else {
        s
    }
}

/// `s` with trimmable characters removed from both ends.
pub open spec fn trim_sp(s: Seq<char>) -> Seq<char> {
    trim_start_sp(trim_end_sp(s))
}

/// Index of the first occurrence of `c` in `s`, if there is one.
pub open spec fn find_char(s: Seq<char>, c: char) -> Option<int>
    decreases s.len(),
{
    if s.len() == 0 {
        None
    } else if s[0] == c {
        Some(0)
    } else {
        match find_char(s.drop_first(), c) {
            None => None,
            Some(i) => Some(i + 1),
        }
    }
}

/// `find_char` returns the least index holding `c`, and `None` exactly
/// when `c` does not occur.
pub proof fn lemma_find_char(s: Seq<char>, c: char)
    ensures
        match find_char(s, c) {
            None => forall|k: int| 0 <= k < s.len() ==> s[k] != c,
            Some(i) => 0 <= i < s.len() && s[i] == c && (forall|k: int|
                0 <= k < i ==> s[k] != c),
        },
    decreases s.len(),
{
    if s.len() > 0 && s[0] != c {
        lemma_find_char(s.drop_first(), c);
        match find_char(s.drop_first(), c) {
            None => {
                assert forall|k: int| 0 <= k < s.len() implies s[k] != c by {
                    if k > 0 {
                        assert(s.drop_first()[k - 1] == s[k]);
                    }
                }
            },
            Some(i) => {
                assert(s.drop_first()[i] == s[i + 1]);
                assert forall|k: int| 0 <= k < i + 1 implies s[k] != c by {
                    if k > 0 {
                        assert(s.drop_first()[k - 1] == s[k]);
                    }
                }
            },
        }
    }
}

/// The pieces of `s` lying between occurrences of the separator `c`,
/// in order; there is always one piece more than there are separators.
pub open spec fn split_on(s: Seq<char>, c: char) -> Seq<Seq<char>>
    decreases s.len(),
    via split_on_decreases
{
    match find_char(s, c) {
        None => seq![s],
        Some(i) => seq![s.take(i)] + split_on(s.skip(i + 1), c),
    }
}

#[via_fn]
proof fn split_on_decreases(s: Seq<char>, c: char) {
    lemma_find_char(s, c);
}

/// The pieces joined in order with `sep` between neighbours.
pub open spec fn join_with(parts: Seq<Seq<char>>, sep: Seq<char>) -> Seq<char>
    decreases parts.len(),
{
    if parts.len() == 0 {
        Seq::empty()
    } else if parts.len() == 1 {
        parts[0]
    } else {
        join_with(parts.drop_last(), sep) + sep + parts.last()
    }
}

/// A decimal digit.
pub open spec fn is_digit(c: char) -> bool {
    '0' as u32 <= c as u32 && c as u32 <= '9' as u32
}

/// The value of a decimal digit.
pub open spec fn digit_val(c: char) -> nat
    recommends
        is_digit(c),
{
    (c as u32 - '0' as u32) as nat
}

/// A non-empty sequence consisting of decimal digits only.
pub open spec fn is_digits(s: Seq<char>) -> bool {
    s.len() > 0 && forall|k: int| 0 <= k < s.len() ==> is_digit(#[trigger] s[k])
}

/// The number written in decimal by a digit sequence.
pub open spec fn dec_val(s: Seq<char>) -> nat
    recommends
        is_digits(s),
    decreases s.len(),
{
    if s.len() == 0 {
        0
    } else {
        dec_val(s.drop_last()) * 10 + digit_val(s[s.len() - 1])
    }
}

/// Extending a digit sequence to the right never decreases its value.
pub proof fn lemma_dec_val_prefix(s: Seq<char>, i: int)
    requires
        0 <= i <= s.len(),
    ensures
        dec_val(s.take(i)) <= dec_val(s),
    decreases s.len() - i,
{
    if i < s.len() {
        assert(s.take(i + 1).drop_last() =~= s.take(i));
        assert(s.take(i + 1)[i] == s[i]);
        assert(dec_val(s.take(i)) <= dec_val(s.take(i)) * 10 + digit_val(s[i]));
        lemma_dec_val_prefix(s, i + 1);
    } else {
        assert(s.take(i) =~= s);
    }
}

/// Exec mirror of `trimmable`.
pub fn is_trimmable(c: char) -> (r: bool)
    ensures
        r == trimmable(c),
{
    c == ' ' || c == '\r' || c == '\n' || c == '\t'
}

/// Removes trailing separator and line-ending characters.
pub fn trim_end(s: &str) -> (r: &str)
    ensures
        r@ == trim_end_sp(s@),
{
    let len = s.unicode_len();
    let mut j = len;
    proof {
        assert(s@.take(len as int) =~= s@);
    }
    while j > 0 && is_trimmable(s.get_char(j - 1))
        invariant
            j <= len,
            len as nat == s@.len(),
            trim_end_sp(s@) == trim_end_sp(s@.take(j as int)),
        decreases j,
    {
        proof {
            assert(s@.take(j as int).drop_last() =~= s@.take(j - 1));
            assert(s@.take(j as int)[j - 1] == s@[j - 1]);
        }
        j = j - 1;
    }
    proof {
        assert(s@.take(len as int) =~= s@);
        if j > 0 {
            assert(s@.take(j as int)[j - 1] == s@[j - 1]);
        }
        assert(trim_end_sp(s@.take(j as int)) == s@.take(j as int));
        assert(s@.subrange(0, j as int) =~= s@.take(j as int));
    }
    s.substring_char(0, j)
}

/// Removes leading separator and line-ending characters.
pub fn trim_start(s: &str) -> (r: &str)
    ensures
        r@ == trim_start_sp(s@),
{
    let len = s.unicode_len();
    let mut i: usize = 0;
    proof {
        assert(s@.skip(0) =~= s@);
    }
    while i < len && is_trimmable(s.get_char(i))
        invariant
            i <= len,
            len as nat == s@.len(),
            trim_start_sp(s@) == trim_start_sp(s@.skip(i as int)),
        decreases len - i,
    {
        proof {
            assert(s@.skip(i as int).drop_first() =~= s@.skip(i + 1));
            assert(s@.skip(i as int)[0] == s@[i as int]);
        }
        i = i + 1;
    }
    proof {
        assert(s@.skip(0) =~= s@);
        if i < len {
            assert(s@.skip(i as int)[0] == s@[i as int]);
        }
        assert(trim_start_sp(s@.skip(i as int)) == s@.skip(i as int));
        assert(s@.skip(i as int) =~= s@.subrange(i as int, len as int));
    }
    s.substring_char(i, len)
}

/// Removes separator and line-ending characters from both ends.
pub fn trim(s: &str) -> (r: &str)
    ensures
        r@ == trim_sp(s@),
{
    trim_start(trim_end(s))
}

/// Index of the first occurrence of `c` in `s` at or after `start`.
pub fn find_char_from(s: &str, start: usize, c: char) -> (r: Option<usize>)
    requires
        start <= s@.len(),
    ensures
        match r {
            Some(j) => start <= j < s@.len() && s@[j as int] == c && (forall|k: int|
                start <= k < j ==> s@[k] != c),
            None => forall|k: int| start <= k < s@.len() ==> s@[k] != c,
        },
{
    let len = s.unicode_len();
    let mut i = start;
    while i < len
        invariant
            start <= i <= len,
            len as nat == s@.len(),
            forall|k: int| start <= k < i ==> s@[k] != c,
        decreases len - i,
    {
        if s.get_char(i) == c {
            return Some(i);
        }
        i = i + 1;
    }
    None
}

/// Splits `s` on the separator `c`; neighbouring separators and
/// separators at either end yield empty pieces.
pub fn split_str(s: &str, c: char) -> (r: Vec<String>)
    ensures
        r.deep_view() == split_on(s@, c),
{
    let len = s.unicode_len();
    let mut r: Vec<String> = Vec::new();
    let mut pos: usize = 0;
    proof {
        assert(r.deep_view() =~~= Seq::<Seq<char>>::empty());
        assert(s@.skip(0) =~= s@);
        assert(r.deep_view() + split_on(s@.skip(0), c) =~~= split_on(s@, c));
    }
    loop
        invariant
            pos <= len,
            len as nat == s@.len(),
            split_on(s@, c) == r.deep_view() + split_on(s@.skip(pos as int), c),
        ensures
            r.deep_view() == split_on(s@, c),
        decreases len - pos,
    {
        let ghost prefix = r.deep_view();
        proof {
            lemma_find_char(s@.skip(pos as int), c);
        }
        match find_char_from(s, pos, c) {
            Some(j) => {
                let piece = s.substring_char(pos, j).to_owned();
                r.push(piece);
                proof {
                    assert(forall|k: int|
                        0 <= k < j - pos ==> s@.skip(pos as int)[k] == s@[k + pos]);
                    assert(s@.skip(pos as int)[j - pos] == s@[j as int]);
                    assert(find_char(s@.skip(pos as int), c) == Some(j - pos));
                    assert(s@.skip(pos as int).take(j - pos) =~= s@.subrange(
                        pos as int,
                        j as int,
                    ));
                    assert(s@.skip(pos as int).skip(j - pos + 1) =~= s@.skip(j + 1));
                    assert(r.deep_view() =~~= prefix.push(s@.subrange(pos as int, j as int)));
                    assert(split_on(s@.skip(pos as int), c) == seq![
                        s@.subrange(pos as int, j as int),
                    ] + split_on(s@.skip(j + 1), c));
                    assert(r.deep_view() + split_on(s@.skip(j + 1), c) =~~= prefix + split_on(
                        s@.skip(pos as int),
                        c,
                    ));
                }
                pos = j + 1;
            },
            None => {
                let piece = s.substring_char(pos, len).to_owned();
                r.push(piece);
                proof {
                    assert(forall|k: int|
                        0 <= k < s@.len() - pos ==> s@.skip(pos as int)[k] == s@[k + pos]);
                    assert(find_char(s@.skip(pos as int), c) is None);
                    assert(split_on(s@.skip(pos as int), c) == seq![s@.skip(pos as int)]);
                    assert(s@.skip(pos as int) =~= s@.subrange(pos as int, len as int));
                    assert(r.deep_view() =~~= prefix.push(s@.skip(pos as int)));
                    assert(r.deep_view() =~~= prefix + split_on(s@.skip(pos as int), c));
                }
                return r;
            },
        }
    }
}

/// Joins the pieces with `sep` between neighbours.
pub fn join_str(parts: &Vec<String>, sep: &str) -> (r: String)
    ensures
        r@ == join_with(parts.deep_view(), sep@),
{
    let mut r = String::new();
    let mut i: usize = 0;
    while i < parts.len()
        invariant
            i <= parts@.len(),
            r@ == join_with(parts.deep_view().take(i as int), sep@),
        decreases parts@.len() - i,
    {
        if i > 0 {
            r.append(sep);
        }
        r.append(parts[i].as_str());
        proof {
            let dv = parts.deep_view();
            assert(dv.take(i + 1).drop_last() =~= dv.take(i as int));
            assert(dv.take(i + 1).last() == dv[i as int]);
            assert(dv[i as int] == parts@[i as int]@);
            if i == 0 {
                assert(r@ =~= join_with(dv.take(1), sep@));
            } else {
                assert(r@ =~= join_with(dv.take(i + 1), sep@));
            }
        }
        i = i + 1;
    }
    proof {
        assert(parts.deep_view().take(parts@.len() as int) =~= parts.deep_view());
    }
    r
}

/// Reads a non-empty, all-digit string as a decimal number; `None` when a
/// non-digit occurs, when the string is empty, or when the value would not
/// fit in 64 bits.
pub fn parse_decimal(s: &str) -> (r: Option<u64>)
    ensures
        r is Some <==> is_digits(s@) && dec_val(s@) <= u64::MAX,
        r matches Some(v) ==> v as nat == dec_val(s@),
{
    let len = s.unicode_len();
    if len == 0 {
        return None;
    }
    let mut acc: u64 = 0;
    let mut i: usize = 0;
    while i < len
        invariant
            i <= len,
            0 < len as nat == s@.len(),
            forall|k: int| 0 <= k < i ==> is_digit(#[trigger] s@[k]),
            acc as nat == dec_val(s@.take(i as int)),
        decreases len - i,
    {
        let c = s.get_char(i);
        if (c as u32) < ('0' as u32) || (c as u32) > ('9' as u32) {
            assert(!is_digit(s@[i as int]));
            return None;
        }
        let d: u64 = ((c as u32) - ('0' as u32)) as u64;
        let wide: u128 = (acc as u128) * 10 + (d as u128);
        proof {
            assert(s@.take(i + 1).drop_last() =~= s@.take(i as int));
            assert(s@.take(i + 1)[i as int] == s@[i as int]);
            assert(dec_val(s@.take(i + 1)) == wide);
        }
        if wide > u64::MAX as u128 {
            proof {
                lemma_dec_val_prefix(s@, i + 1);
            }
            return None;
        }
        acc = wide as u64;
        i = i + 1;
    }
    proof {
        assert(s@.take(len as int) =~= s@);
    }
    Some(acc)
}

} // verus!

//! Small verified string utilities: comparison, splitting on a separator
//! character, and first-letter capitalisation.

use vstd::prelude::*;
use vstd::string::StringSliceAdditionalSpecFns;
use vstd::utf8::encode_utf8_decode_utf8;

verus! {

/// The ASCII upper-case equivalent of `c`: the letters `a` to `z` map to `A`
/// to `Z`, every other character is unchanged.
pub open spec fn ascii_upper(c: char) -> char {
    if 'a' <= c && c <= 'z' {
        ((c as u32) - 32) as char
    } else {
        c
    }
}

/// `s` with its first character replaced by its ASCII upper-case equivalent.
/// The rest of the text keeps its case.
pub open spec fn capitalized(s: Seq<char>) -> Seq<char> {
    if s.len() == 0 {
        s
    } else {
        s.update(0, ascii_upper(s[0]))
    }
}

/// The pieces of `s` between occurrences of `sep`, in order. A text with `n`
/// separators has `n + 1` pieces; pieces may be empty.
pub open spec fn split_on(s: Seq<char>, sep: char) -> Seq<Seq<char>>
    decreases s.len(),
{
    if s.len() == 0 {
        seq![Seq::<char>::empty()]
    } else {
        let init = split_on(s.drop_last(), sep);
        if s.last() == sep {
            init.push(Seq::<char>::empty())
        } else {
            init.update(init.len() - 1, init.last().push(s.last()))
        }
    }
}

/// The views of a sequence of string slices.
pub open spec fn views(pieces: Seq<&str>) -> Seq<Seq<char>> {
    pieces.map_values(|p: &str| p@)
}

/// Taken on trust from the documentation of `char::to_ascii_uppercase`: it
/// maps the ASCII letters `a` to `z` to `A` to `Z` and returns every other
/// character unchanged.
pub assume_specification[ char::to_ascii_uppercase ](c: &char) -> (r: char)
    ensures
        r == ascii_upper(*c),
;

/// Taken on trust from the documentation of `String::push`: it appends the
/// character to the end of the string and changes nothing else.
pub assume_specification[ String::push ](s: &mut String, ch: char)
    ensures
        final(s)@ == old(s)@.push(ch),
;

/// Splitting always yields at least one piece.
pub proof fn lemma_split_on_nonempty(s: Seq<char>, sep: char)
    ensures
        split_on(s, sep).len() >= 1,
    decreases s.len(),
{
    if s.len() > 0 {
        lemma_split_on_nonempty(s.drop_last(), sep);
    }
}

/// A text in which `sep` does not occur is its own single piece.
pub proof fn lemma_split_on_no_sep(s: Seq<char>, sep: char)
    requires
        forall|i: int| 0 <= i < s.len() ==> s[i] != sep,
    ensures
        split_on(s, sep) == seq![s],
    decreases s.len(),
{
    if s.len() > 0 {
        let init = s.drop_last();
        lemma_split_on_no_sep(init, sep);
        assert(init.push(s.last()) =~= s);
        assert(seq![init].update(0, init.push(s.last())) =~= seq![s]);
    } else {
        assert(s =~= Seq::<char>::empty());
    }
}

/// The pieces of `pieces` joined into one text, with `sep` between
/// neighbours.
pub open spec fn join(pieces: Seq<Seq<char>>, sep: char) -> Seq<char>
    decreases pieces.len(),
{
    if pieces.len() == 0 {
        Seq::empty()
    } else if pieces.len() == 1 {
        pieces[0]
    } else {
        join(pieces.drop_last(), sep) + seq![sep] + pieces.last()
    }
}

/// Splitting loses nothing: no piece holds the separator, and the pieces
/// joined by the separator are the text again.
pub proof fn lemma_split_on_join(s: Seq<char>, sep: char)
    ensures
        join(split_on(s, sep), sep) == s,
        forall|i: int, j: int|
            0 <= i < split_on(s, sep).len() && 0 <= j < split_on(s, sep)[i].len() ==> split_on(
                s,
                sep,
            )[i][j] != sep,
    decreases s.len(),
{
    if s.len() > 0 {
        let t = s.drop_last();
        let c = s.last();
        let init = split_on(t, sep);
        lemma_split_on_join(t, sep);
        lemma_split_on_nonempty(t, sep);
        assert(t.push(c) =~= s);
        if c == sep {
            let all = init.push(Seq::<char>::empty());
            assert(all.drop_last() =~= init);
            assert(join(all, sep) =~= t.push(c));
        } else {
            let all = init.update(init.len() - 1, init.last().push(c));
            if init.len() == 1 {
                assert(join(all, sep) =~= t.push(c));
            } else {
                assert(all.drop_last() =~= init.drop_last());
                assert(join(all, sep) =~= join(init, sep).push(c));
            }
        }
    }
}

/// Whether two string slices hold the same text.
pub fn str_eq(a: &str, b: &str) -> (r: bool)
    ensures
        r == (a@ == b@),
{
    let x = a.as_bytes();
    let y = b.as_bytes();
    proof {
        encode_utf8_decode_utf8(a@);
        encode_utf8_decode_utf8(b@);
    }
    if x.len() != y.len() {
        return false;
    }
    let mut i: usize = 0;
    while i < x.len()
        invariant
            i <= x.len(),
            x.len() == y.len(),
            x@ == a.spec_bytes(),
            y@ == b.spec_bytes(),
            x@.take(i as int) == y@.take(i as int),
        decreases x.len() - i,
    {
        if x[i] != y[i] {
            return false;
        }
        i += 1;
    }
    assert(x@ == x@.take(i as int));
    assert(y@ == y@.take(i as int));
    true
}

/// Splits `s` on every occurrence of `sep`.
pub fn split<'a>(s: &'a str, sep: char) -> (pieces: Vec<&'a str>)
    ensures
        views(pieces@) == split_on(s@, sep),
{
    let n = s.unicode_len();
    let mut pieces: Vec<&'a str> = Vec::new();
    let mut start: usize = 0;
    let mut i: usize = 0;
    let chars = s.chars();
    proof {
        assert(s@.take(0).len() == 0);
        assert(s@.subrange(0, 0) =~= Seq::<char>::empty());
        assert(views(pieces@).push(s@.subrange(0, 0)) =~= seq![Seq::<char>::empty()]);
    }
    for c in it: chars
        invariant
            it.seq() == s@,
            n == s@.len(),
            i == it.index(),
            start <= i,
            split_on(s@.take(i as int), sep) == views(pieces@).push(
                s@.subrange(start as int, i as int),
            ),
    {
        let ghost done = views(pieces@);
        let ghost open = s@.subrange(start as int, i as int);
        proof {
            let prefix = s@.take(i + 1);
            assert(prefix.drop_last() =~= s@.take(i as int));
            assert(prefix.last() == c);
            assert(done.push(open).last() == open);
        }
        if c == sep {
            let piece = s.substring_char(start, i);
            proof {
                assert(views(pieces@.push(piece)) =~= done.push(open));
                assert(s@.subrange(i + 1, i + 1) =~= Seq::<char>::empty());
            }
            pieces.push(piece);
            start = i + 1;
        } else {
            proof {
                assert(open.push(c) =~= s@.subrange(start as int, i + 1));
                assert(done.push(open).update(done.len() as int, open.push(c)) =~= done.push(
                    open.push(c),
                ));
            }
        }
        i += 1;
    }
    let piece = s.substring_char(start, n);
    proof {
        assert(s@.take(n as int) =~= s@);
        assert(views(pieces@.push(piece)) =~= views(pieces@).push(piece@));
    }
    pieces.push(piece);
    pieces
}

/// Copies `data` with its first character in ASCII upper case.
pub fn uppercase_first(data: &str) -> (result: String)
    ensures
        result@ == capitalized(data@),
{
    let mut result = String::new();
    let mut first = true;
    let chars = data.chars();
    for value in it: chars
        invariant
            it.seq() == data@,
            first == (it.index() == 0),
            result@ == capitalized(data@.take(it.index())),
    {
        proof {
            let k = it.index();
            if first {
                assert(data@.take(1) == seq![value]);
                assert(capitalized(data@.take(1)) == Seq::<char>::empty().push(ascii_upper(value)));
            } else {
                assert(capitalized(data@.take(k + 1)) == capitalized(data@.take(k)).push(value));
            }
        }
        if first {
            result.push(value.to_ascii_uppercase());
            first = false;
        } else {
            result.push(value);
        }
    }
    proof {
        assert(data@.take(data@.len() as int) == data@);
    }
    result
}

} // verus!

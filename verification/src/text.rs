//! Character-level text helpers shared by the tokenizer and the
//! classifier.

use vstd::prelude::*;

verus! {

/// The characters that separate words in an input line.
pub open spec fn is_word_sep(c: char) -> bool {
    c == ' ' || c == '\t' || c == '\n'
}

/// Executable test for [`is_word_sep`].
pub fn word_sep(c: char) -> (r: bool)
    ensures
        r == is_word_sep(c),
{
    c == ' ' || c == '\t' || c == '\n'
}

/// Character-for-character equality of two string slices.
pub fn str_eq(a: &str, b: &str) -> (r: bool)
    ensures
        r == (a@ == b@),
{
    let an = a.unicode_len();
    let bn = b.unicode_len();
    if an != bn {
        return false;
    }
    let mut i: usize = 0;
    while i < an
        invariant
            an == a@.len(),
            bn == b@.len(),
            an == bn,
            i <= an,
            forall|j: int| 0 <= j < i ==> a@[j] == b@[j],
        decreases an - i,
    {
        if a.get_char(i) != b.get_char(i) {
            return false;
        }
        i += 1;
    }
    proof {
        assert(a@ =~= b@);
    }
    true
}

/// Appends the character at position `i` of `src` to `dst`.
pub fn push_char_at(dst: &mut String, src: &str, i: usize)
    requires
        i < src@.len(),
        src@.len() <= usize::MAX,
    ensures
        final(dst)@ == old(dst)@.push(src@[i as int]),
{
    let piece = src.substring_char(i, i + 1);
    proof {
        assert(piece@ =~= seq![src@[i as int]]);
        assert(old(dst)@ + seq![src@[i as int]] =~= old(dst)@.push(src@[i as int]));
    }
    dst.append(piece);
}

/// The words of `parts`, run together with a single space between
/// neighbouring words.
pub open spec fn joined_with_spaces(parts: Seq<Seq<char>>) -> Seq<char>
    decreases parts.len(),
{
    if parts.len() == 0 {
        Seq::empty()
    } else if parts.len() == 1 {
        parts[0]
    } else {
        joined_with_spaces(parts.drop_last()) + seq![' '] + parts.last()
    }
}

/// Joins `tokens[start..]` with a single space between neighbouring tokens.
pub fn join_tokens(tokens: &Vec<String>, start: usize) -> (r: String)
    requires
        start <= tokens@.len(),
    ensures
        r@ == joined_with_spaces(tokens.deep_view().skip(start as int)),
{
    let mut r = String::new();
    let mut i = start;
    proof {
        assert(tokens.deep_view().skip(start as int).subrange(0, 0) =~= Seq::<Seq<char>>::empty());
    }
    while i < tokens.len()
        invariant
            start <= i <= tokens@.len(),
            r@ == joined_with_spaces(
                tokens.deep_view().skip(start as int).subrange(0, i - start),
            ),
        decreases tokens@.len() - i,
    {
        proof {
            reveal_strlit(" ");
            assert(" "@ =~= seq![' ']);
            let whole = tokens.deep_view().skip(start as int);
            assert(whole.subrange(0, i - start + 1).drop_last() =~= whole.subrange(0, i - start));
            assert(whole.subrange(0, i - start + 1).last() == tokens.deep_view()[i as int]);
            assert(tokens.deep_view()[i as int] == tokens@[i as int]@);
        }
        if i > start {
            r.append(" ");
        }
        r.append(tokens[i].as_str());
        i += 1;
    }
    proof {
        assert(tokens.deep_view().skip(start as int).subrange(
            0,
            tokens@.len() - start,
        ) =~= tokens.deep_view().skip(start as int));
    }
    r
}

} // verus!

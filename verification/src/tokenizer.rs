//! Splits one line of raw input into words, honouring shell quoting rules:
//! unquoted white space separates words; single quotes take their contents
//! literally; double quotes keep their contents except that a backslash may
//! escape `$`, `` ` ``, `"` or `\`, and a backslash-newline pair vanishes; an
//! unquoted backslash escapes the following character (a backslash-newline
//! pair again vanishes); an unquoted `#` between words starts a comment that
//! runs to the end of the line.  A line that ends inside a quotation or right
//! after an unescaped backslash does not tokenize at all.

use vstd::prelude::*;

use crate::text::{is_word_sep, push_char_at, word_sep};

verus! {

/// Where the scanner stands after reading some prefix of the line.
pub enum LexMode {
    /// Between words, on white space.
    Between,
    /// Inside a comment that runs to the end of the line.
    Comment,
    /// Inside a word, outside any quotes.
    Word,
    /// Inside single quotes.
    Single,
    /// Inside double quotes.
    Double,
    /// Right after an unquoted backslash.
    Escape,
    /// Right after a backslash inside double quotes.
    DoubleEscape,
}

/// The scanner's whole state: its mode, the word collected so far, and the
/// words already finished.
pub struct LexState {
    pub mode: LexMode,
    pub cur: Seq<char>,
    pub toks: Seq<Seq<char>>,
}

/// The state the scanner starts a line in.
pub open spec fn lex_init() -> LexState {
    LexState { mode: LexMode::Between, cur: Seq::empty(), toks: Seq::empty() }
}

/// How one character advances the scanner.
pub open spec fn lex_step(st: LexState, c: char) -> LexState {
    match st.mode {
        LexMode::Between => {
            if is_word_sep(c) {
                st
            } else if c == '#' {
                LexState { mode: LexMode::Comment, cur: st.cur, toks: st.toks }
            } else if c == '\'' {
                LexState { mode: LexMode::Single, cur: st.cur, toks: st.toks }
            } else if c == '"' {
                LexState { mode: LexMode::Double, cur: st.cur, toks: st.toks }
            } else if c == '\\' {
                LexState { mode: LexMode::Escape, cur: st.cur, toks: st.toks }
            } else {
                LexState { mode: LexMode::Word, cur: st.cur.push(c), toks: st.toks }
            }
        },
        LexMode::Comment => {
            if c == '\n' {
                LexState { mode: LexMode::Between, cur: st.cur, toks: st.toks }
            } else {
                st
            }
        },
        LexMode::Word => {
            if is_word_sep(c) {
                LexState { mode: LexMode::Between, cur: Seq::empty(), toks: st.toks.push(st.cur) }
            } else if c == '\'' {
                LexState { mode: LexMode::Single, cur: st.cur, toks: st.toks }
            } else if c == '"' {
                LexState { mode: LexMode::Double, cur: st.cur, toks: st.toks }
            } else if c == '\\' {
                LexState { mode: LexMode::Escape, cur: st.cur, toks: st.toks }
            } else {
                LexState { mode: LexMode::Word, cur: st.cur.push(c), toks: st.toks }
            }
        },
        LexMode::Single => {
            if c == '\'' {
                LexState { mode: LexMode::Word, cur: st.cur, toks: st.toks }
            } else {
                LexState { mode: LexMode::Single, cur: st.cur.push(c), toks: st.toks }
            }
        },
        LexMode::Double => {
            if c == '"' {
                LexState { mode: LexMode::Word, cur: st.cur, toks: st.toks }
            } else if c == '\\' {
                LexState { mode: LexMode::DoubleEscape, cur: st.cur, toks: st.toks }
            } else {
                LexState { mode: LexMode::Double, cur: st.cur.push(c), toks: st.toks }
            }
        },
        LexMode::Escape => {
            if c == '\n' {
                LexState { mode: LexMode::Word, cur: st.cur, toks: st.toks }
            } else {
                LexState { mode: LexMode::Word, cur: st.cur.push(c), toks: st.toks }
            }
        },
        LexMode::DoubleEscape => {
            if c == '$' || c == '`' || c == '"' || c == '\\' {
                LexState { mode: LexMode::Double, cur: st.cur.push(c), toks: st.toks }
            } else if c == '\n' {
                LexState { mode: LexMode::Double, cur: st.cur, toks: st.toks }
            } else {
                LexState {
                    mode: LexMode::Double,
                    cur: st.cur.push('\\').push(c),
                    toks: st.toks,
                }
            }
        },
    }
}

/// The scanner's state after reading all of `s`.
pub open spec fn lex(s: Seq<char>) -> LexState
    decreases s.len(),
{
    if s.len() == 0 {
        lex_init()
    } else {
        lex_step(lex(s.drop_last()), s.last())
    }
}

/// The words of the line `s`, or `None` when the line ends inside a
/// quotation or right after an unescaped backslash.
pub open spec fn tokens_of(s: Seq<char>) -> Option<Seq<Seq<char>>> {
    let st = lex(s);
    match st.mode {
        LexMode::Between => Some(st.toks),
        LexMode::Comment => Some(st.toks),
        LexMode::Word => Some(st.toks.push(st.cur)),
        _ => None,
    }
}

/// Splits `input` into words, or reports that the line is malformed.
pub fn tokenize(input: &str) -> (r: Option<Vec<String>>)
    ensures
        match r {
            Some(toks) => tokens_of(input@) == Some(toks.deep_view()),
            None => tokens_of(input@) is None,
        },
{
    let n = input.unicode_len();
    let mut i: usize = 0;
    let mut mode = LexMode::Between;
    let mut cur = String::new();
    let mut toks: Vec<String> = Vec::new();
    proof {
        assert(input@.subrange(0, 0) =~= Seq::<char>::empty());
        assert(toks.deep_view() =~= Seq::<Seq<char>>::empty());
    }
    while i < n
        invariant
            i <= n,
            n == input@.len(),
            lex(input@.subrange(0, i as int)).mode == mode,
            lex(input@.subrange(0, i as int)).cur == cur@,
            lex(input@.subrange(0, i as int)).toks == toks.deep_view(),
        decreases n - i,
    {
        let ghost st = lex(input@.subrange(0, i as int));
        let ghost old_toks = toks.deep_view();
        let c = input.get_char(i);
        proof {
            assert(input@.subrange(0, i as int + 1).drop_last() =~= input@.subrange(0, i as int));
            assert(input@.subrange(0, i as int + 1).last() == c);
            assert(lex(input@.subrange(0, i as int + 1)) == lex_step(st, c));
        }
        match mode {
            LexMode::Between => {
                if word_sep(c) {
                } else if c == '#' {
                    mode = LexMode::Comment;
                } else if c == '\'' {
                    mode = LexMode::Single;
                } else if c == '"' {
                    mode = LexMode::Double;
                } else if c == '\\' {
                    mode = LexMode::Escape;
                } else {
                    mode = LexMode::Word;
                    push_char_at(&mut cur, input, i);
                }
            },
            LexMode::Comment => {
                if c == '\n' {
                    mode = LexMode::Between;
                }
            },
            LexMode::Word => {
                if word_sep(c) {
                    mode = LexMode::Between;
                    toks.push(cur);
                    cur = String::new();
                    proof {
                        assert(toks.deep_view() =~= old_toks.push(st.cur));
                    }
                } else if c == '\'' {
                    mode = LexMode::Single;
                } else if c == '"' {
                    mode = LexMode::Double;
                } else if c == '\\' {
                    mode = LexMode::Escape;
                } else {
                    push_char_at(&mut cur, input, i);
                }
            },
            LexMode::Single => {
                if c == '\'' {
                    mode = LexMode::Word;
                } else {
                    push_char_at(&mut cur, input, i);
                }
            },
            LexMode::Double => {
                if c == '"' {
                    mode = LexMode::Word;
                } else if c == '\\' {
                    mode = LexMode::DoubleEscape;
                } else {
                    push_char_at(&mut cur, input, i);
                }
            },
            LexMode::Escape => {
                mode = LexMode::Word;
                if c != '\n' {
                    push_char_at(&mut cur, input, i);
                }
            },
            LexMode::DoubleEscape => {
                mode = LexMode::Double;
                if c == '$' || c == '`' || c == '"' || c == '\\' {
                    push_char_at(&mut cur, input, i);
                } else if c != '\n' {
                    proof {
                        reveal_strlit("\\");
                        assert("\\"@ =~= seq!['\\']);
                    }
                    cur.append("\\");
                    push_char_at(&mut cur, input, i);
                    proof {
                        assert(cur@ =~= st.cur.push('\\').push(c));
                    }
                }
            },
        }
        i += 1;
    }
    proof {
        assert(input@.subrange(0, n as int) =~= input@);
    }
    match mode {
        LexMode::Between => Some(toks),
        LexMode::Comment => Some(toks),
        LexMode::Word => {
            let ghost old_toks = toks.deep_view();
            let ghost last_cur = cur@;
            toks.push(cur);
            proof {
                assert(toks.deep_view() =~= old_toks.push(last_cur));
            }
            Some(toks)
        },
        _ => None,
    }
}

/// While the scanner stands inside single quotes, text free of single
/// quotes is taken over literally, character for character.
proof fn lemma_single_quoted_run(prefix: Seq<char>, w: Seq<char>)
    requires
        lex(prefix).mode is Single,
        forall|i: int| 0 <= i < w.len() ==> #[trigger] w[i] != '\'',
    ensures
        lex(prefix + w).mode is Single,
        lex(prefix + w).cur == lex(prefix).cur + w,
        lex(prefix + w).toks == lex(prefix).toks,
    decreases w.len(),
{
    if w.len() == 0 {
        assert(prefix + w =~= prefix);
        assert(lex(prefix).cur + w =~= lex(prefix).cur);
    } else {
        lemma_single_quoted_run(prefix, w.drop_last());
        assert((prefix + w).drop_last() =~= prefix + w.drop_last());
        assert((prefix + w).last() == w.last());
        assert((lex(prefix).cur + w.drop_last()).push(w.last()) =~= lex(prefix).cur + w);
    }
}

/// A word written in single quotes tokenizes to its contents exactly as
/// written — white space, operators and all.
pub proof fn lemma_single_quotes_are_literal(w: Seq<char>)
    requires
        forall|i: int| 0 <= i < w.len() ==> #[trigger] w[i] != '\'',
    ensures
        tokens_of(seq!['\''] + w + seq!['\'']) == Some(seq![w]),
{
    reveal_with_fuel(lex, 3);
    let open = seq!['\''];
    assert(open.len() == 1 && open.last() == '\'');
    assert(open.drop_last() =~= Seq::<char>::empty());
    assert(lex(open) == lex_step(lex_init(), '\''));
    lemma_single_quoted_run(open, w);
    assert(lex(open + w).cur =~= w);
    let full = open + w + seq!['\''];
    assert(full.drop_last() =~= open + w);
    assert(full.last() == '\'');
    assert(lex(full) == lex_step(lex(open + w), '\''));
    assert(lex(full).toks.push(lex(full).cur) =~= seq![w]);
}

/// While the scanner stands inside double quotes, text free of double
/// quotes and backslashes is taken over literally, character for character.
proof fn lemma_double_quoted_run(prefix: Seq<char>, w: Seq<char>)
    requires
        lex(prefix).mode is Double,
        forall|i: int| 0 <= i < w.len() ==> #[trigger] w[i] != '"' && w[i] != '\\',
    ensures
        lex(prefix + w).mode is Double,
        lex(prefix + w).cur == lex(prefix).cur + w,
        lex(prefix + w).toks == lex(prefix).toks,
    decreases w.len(),
{
    if w.len() == 0 {
        assert(prefix + w =~= prefix);
        assert(lex(prefix).cur + w =~= lex(prefix).cur);
    } else {
        lemma_double_quoted_run(prefix, w.drop_last());
        assert((prefix + w).drop_last() =~= prefix + w.drop_last());
        assert((prefix + w).last() == w.last());
        assert((lex(prefix).cur + w.drop_last()).push(w.last()) =~= lex(prefix).cur + w);
    }
}

/// A word written in double quotes, with no escapes inside, tokenizes to
/// its contents exactly as written.
pub proof fn lemma_double_quotes_are_literal(w: Seq<char>)
    requires
        forall|i: int| 0 <= i < w.len() ==> #[trigger] w[i] != '"' && w[i] != '\\',
    ensures
        tokens_of(seq!['"'] + w + seq!['"']) == Some(seq![w]),
{
    reveal_with_fuel(lex, 3);
    let open = seq!['"'];
    assert(open.len() == 1 && open.last() == '"');
    assert(open.drop_last() =~= Seq::<char>::empty());
    assert(lex(open) == lex_step(lex_init(), '"'));
    lemma_double_quoted_run(open, w);
    assert(lex(open + w).cur =~= w);
    let full = open + w + seq!['"'];
    assert(full.drop_last() =~= open + w);
    assert(full.last() == '"');
    assert(lex(full) == lex_step(lex(open + w), '"'));
    assert(lex(full).toks.push(lex(full).cur) =~= seq![w]);
}

/// A line made only of word separators carries no words at all.
pub proof fn lemma_blank_line_has_no_tokens(s: Seq<char>)
    requires
        forall|i: int| 0 <= i < s.len() ==> is_word_sep(#[trigger] s[i]),
    ensures
        tokens_of(s) == Some(Seq::<Seq<char>>::empty()),
    decreases s.len(),
{
    if s.len() == 0 {
    } else {
        assert(forall|i: int| 0 <= i < s.drop_last().len() ==> is_word_sep(
            #[trigger] s.drop_last()[i],
        ));
        lemma_blank_line_has_no_tokens(s.drop_last());
        assert(is_word_sep(s.last()));
    }
}

} // verus!

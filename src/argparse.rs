//! Shell-style splitting of a command line into arguments.
//!
//! Arguments are separated by runs of plain spaces. Single or double quotes
//! group characters, spaces included, into one argument; the quote
//! characters themselves are dropped. Quoted and unquoted pieces with no
//! space between them join into one argument. An unterminated quote runs to
//! the end of the input.
use vstd::prelude::*;
use crate::text::{chars_of, is_white_space, views, string_from_chars, trim, trim_chars, trim_start};

verus! {

pub open spec fn is_quote(c: char) -> bool {
    c == '\'' || c == '"'
}

/// Scans `s` from index `i`, given the argument `tok` gathered so far, the
/// open quote (if any) and whether a space has ended the argument. Gives the
/// finished argument and the index of the first character not consumed.
pub open spec fn scan(s: Seq<char>, i: int, tok: Seq<char>, quote: Option<char>, spaced: bool) -> (
    Seq<char>,
    int,
)
    decreases s.len() - i,
{
    if i < 0 || i >= s.len() {
        (tok, i)
    } else {
        let c = s[i];
        if quote is Some || is_quote(c) {
            if spaced {
                (tok, i)
            } else if quote == Some(c) {
                scan(s, i + 1, tok, None, false)
            } else if quote is Some {
                scan(s, i + 1, tok.push(c), quote, false)
            } else {
                scan(s, i + 1, tok, Some(c), false)
            }
        } else if c == ' ' {
            scan(s, i + 1, tok, quote, true)
        } else if spaced {
            (tok, i)
        } else {
            scan(s, i + 1, tok.push(c), quote, false)
        }
    }
}

/// One argument read from position `pos` of `s`, and the position after it.
pub open spec fn step(s: Seq<char>, pos: int) -> (Seq<char>, int) {
    scan(s, pos, Seq::empty(), None, false)
}

/// The arguments read one after another from position `pos` of `s`.
pub open spec fn tokens_from(s: Seq<char>, pos: int) -> Seq<Seq<char>>
    decreases s.len() - pos,
{
    if pos < 0 || pos >= s.len() || step(s, pos).1 <= pos || step(s, pos).1 > s.len() {
        Seq::empty()
    } else {
        seq![step(s, pos).0].add(tokens_from(s, step(s, pos).1))
    }
}

/// The arguments of the command line `s`, after white space at both ends is
/// removed.
pub open spec fn tokenize(s: Seq<char>) -> Seq<Seq<char>> {
    tokens_from(trim(s, false), 0)
}

/// A scan stays within `s`, and one that starts before a space was seen
/// consumes at least one character.
pub proof fn lemma_scan_bounds(s: Seq<char>, i: int, tok: Seq<char>, quote: Option<char>, spaced: bool)
    requires
        0 <= i <= s.len(),
    ensures
        i <= scan(s, i, tok, quote, spaced).1 <= s.len(),
        !spaced && i < s.len() ==> i < scan(s, i, tok, quote, spaced).1,
    decreases s.len() - i,
{
    if i < s.len() {
        let c = s[i];
        if quote is Some || is_quote(c) {
            if !spaced {
                if quote == Some(c) {
                    lemma_scan_bounds(s, i + 1, tok, None, false);
                } else if quote is Some {
                    lemma_scan_bounds(s, i + 1, tok.push(c), quote, false);
                } else {
                    lemma_scan_bounds(s, i + 1, tok, Some(c), false);
                }
            }
        } else if c == ' ' {
            lemma_scan_bounds(s, i + 1, tok, quote, true);
        } else if !spaced {
            lemma_scan_bounds(s, i + 1, tok.push(c), quote, false);
        }
    }
}

/// A cursor over the characters of a command line that hands out one
/// argument at a time.
pub struct ArgParser {
    buf: Vec<char>,
    consumed: usize,
    total: usize,
}

impl ArgParser {
    /// The characters being split (white space at both ends removed).
    pub closed spec fn text(&self) -> Seq<char> {
        self.buf@
    }

    /// How many characters have been consumed.
    pub closed spec fn position(&self) -> int {
        self.consumed as int
    }

    pub closed spec fn wf(&self) -> bool {
        &&& self.total == self.buf.len()
        &&& self.consumed <= self.total
    }

    /// The arguments not yet handed out.
    pub open spec fn remaining(&self) -> Seq<Seq<char>> {
        tokens_from(self.text(), self.position())
    }

    /// A parser over `buf` with white space at both ends removed.
    pub fn new(buf: &str) -> (r: ArgParser)
        ensures
            r.wf(),
            r.text() == trim(buf@, false),
            r.position() == 0,
            r.remaining() == tokenize(buf@),
    {
        let chars = chars_of(buf);
        let buf = trim_chars(&chars, false);
        let total = buf.len();
        ArgParser { buf, consumed: 0, total }
    }

    /// Reads the next argument, or gives `None` once the text is used up.
    pub fn next(&mut self) -> (r: Option<String>)
        requires
            old(self).wf(),
        ensures
            final(self).wf(),
            final(self).text() == old(self).text(),
            old(self).position() >= old(self).text().len() ==> r is None && final(self).position()
                == old(self).position(),
            old(self).position() < old(self).text().len() ==> {
                &&& r matches Some(t)
                &&& t@ == step(old(self).text(), old(self).position()).0
                &&& final(self).position() == step(old(self).text(), old(self).position()).1
                &&& old(self).position() < final(self).position() <= old(self).text().len()
            },
            r is None <==> old(self).remaining().len() == 0,
            r matches Some(t) ==> old(self).remaining() == seq![t@].add(final(self).remaining()),
    {
        if self.consumed >= self.total {
            return None;
        }
        let ghost s = self.buf@;
        let ghost start = self.consumed as int;
        let mut tok: Vec<char> = Vec::new();
        let mut quote: Option<char> = None;
        let mut spaced = false;
        let mut i: usize = self.consumed;
        let n = self.total;
        while i < n
            invariant
                n == self.total == self.buf.len(),
                s == self.buf@,
                start <= i <= n,
                start < n,
                spaced ==> start < i,
                step(s, start) == scan(s, i as int, tok@, quote, spaced),
            ensures
                start < i <= n,
                step(s, start) == (tok@, i as int),
            decreases n - i,
        {
            let c = self.buf[i];
            if quote.is_some() || c == '\'' || c == '"' {
                if spaced {
                    break;
                }
                match quote {
                    Some(q) => {
                        if c == q {
                            quote = None;
                        } else {
                            tok.push(c);
                        }
                    },
                    None => {
                        quote = Some(c);
                    },
                }
            } else if c == ' ' {
                spaced = true;
            } else {
                if spaced {
                    break;
                }
                tok.push(c);
            }
            i = i + 1;
        }
        self.consumed = i;
        proof {
            lemma_scan_bounds(s, start, Seq::empty(), None, false);
        }
        Some(string_from_chars(&tok))
    }
}

/// All arguments of the command line `cmd`, in order.
pub fn collect_tokens(cmd: &str) -> (r: Vec<String>)
    ensures
        views(r@) == tokenize(cmd@),
{
    let mut parser = ArgParser::new(cmd);
    let mut out: Vec<String> = Vec::new();
    loop
        invariant
            parser.wf(),
            parser.text() == trim(cmd@, false),
            views(out@) + parser.remaining() == tokenize(cmd@),
        ensures
            views(out@) == tokenize(cmd@),
        decreases parser.text().len() - parser.position(),
    {
        let ghost before = parser;
        match parser.next() {
            Some(t) => {
                proof {
                    assert(views(out@.push(t)) =~= views(out@).push(t@));
                    assert(views(out@).push(t@) + parser.remaining() =~= views(out@) + before.remaining());
                }
                out.push(t);
            },
            None => {
                assert(views(out@) + parser.remaining() =~= views(out@));
                break;
            },
        }
    }
    out
}

/// How many characters each step consumes, from position `pos` of `s` on.
pub open spec fn step_lengths(s: Seq<char>, pos: int) -> Seq<int>
    decreases s.len() - pos,
{
    if pos < 0 || pos >= s.len() || step(s, pos).1 <= pos || step(s, pos).1 > s.len() {
        Seq::empty()
    } else {
        seq![step(s, pos).1 - pos].add(step_lengths(s, step(s, pos).1))
    }
}

pub open spec fn sum(v: Seq<int>) -> int
    decreases v.len(),
{
    if v.len() == 0 {
        0
    } else {
        v[0] + sum(v.drop_first())
    }
}

proof fn lemma_trim_start_blank(s: Seq<char>)
    requires
        forall|i: int| 0 <= i < s.len() ==> #[trigger] is_white_space(s[i]),
    ensures
        trim_start(s, false).len() == 0,
    decreases s.len(),
{
    if s.len() > 0 {
        lemma_trim_start_blank(s.drop_first());
    }
}

/// A command line of white space alone, the empty one included, has no
/// arguments.
pub proof fn lemma_blank_has_no_tokens(s: Seq<char>)
    requires
        forall|i: int| 0 <= i < s.len() ==> #[trigger] is_white_space(s[i]),
    ensures
        tokenize(s).len() == 0,
{
    lemma_trim_start_blank(s);
}

proof fn lemma_step_lengths_from(s: Seq<char>, pos: int)
    requires
        0 <= pos <= s.len(),
    ensures
        sum(step_lengths(s, pos)) == s.len() - pos,
        step_lengths(s, pos).len() == tokens_from(s, pos).len(),
        forall|k: int| 0 <= k < step_lengths(s, pos).len() ==> #[trigger] step_lengths(s, pos)[k] > 0,
    decreases s.len() - pos,
{
    if pos < s.len() {
        lemma_scan_bounds(s, pos, Seq::empty(), None, false);
        let next = step(s, pos).1;
        lemma_step_lengths_from(s, next);
        let v = step_lengths(s, pos);
        assert(v.drop_first() =~= step_lengths(s, next));
        assert forall|k: int| 0 <= k < v.len() implies #[trigger] v[k] > 0 by {
            if k > 0 {
                assert(v[k] == step_lengths(s, next)[k - 1]);
            }
        }
    }
}

/// The steps that split a command line each consume at least one character,
/// there is one step per argument, and together they consume exactly the
/// characters left after trimming.
pub proof fn lemma_steps_consume_all(s: Seq<char>)
    ensures
        sum(step_lengths(trim(s, false), 0)) == trim(s, false).len(),
        step_lengths(trim(s, false), 0).len() == tokenize(s).len(),
        forall|k: int|
            0 <= k < step_lengths(trim(s, false), 0).len() ==> #[trigger] step_lengths(
                trim(s, false),
                0,
            )[k] > 0,
{
    lemma_step_lengths_from(trim(s, false), 0);
}

/// The quote open just before index `i` of `s`, reading from the start: a
/// quote character opens a quote, and only the same character closes it.
pub open spec fn quote_before(s: Seq<char>, i: int) -> Option<char>
    decreases i,
{
    if i <= 0 {
        None
    } else {
        let c = s[i - 1];
        match quote_before(s, i - 1) {
            Some(q) => if c == q {
                None
            } else {
                Some(q)
            },
            None => if is_quote(c) {
                Some(c)
            } else {
                None
            },
        }
    }
}

/// Whether some quote character of `s` stands inside a quote opened by the
/// other quote character, where it is kept as text.
pub open spec fn has_literal_quote(s: Seq<char>) -> bool {
    exists|i: int|
        0 <= i < s.len() && is_quote(s[i]) && #[trigger] quote_before(s, i) is Some && quote_before(
            s,
            i,
        ) != Some(s[i])
}

pub open spec fn quote_free(t: Seq<char>) -> bool {
    forall|j: int| 0 <= j < t.len() ==> !is_quote(#[trigger] t[j])
}

proof fn lemma_scan_quote_free(s: Seq<char>, i: int, tok: Seq<char>, quote: Option<char>, spaced: bool)
    requires
        0 <= i <= s.len(),
        quote == quote_before(s, i),
        quote_free(tok),
        !has_literal_quote(s),
        spaced ==> quote is None,
    ensures
        quote_free(scan(s, i, tok, quote, spaced).0),
        scan(s, i, tok, quote, spaced).1 < s.len() ==> quote_before(
            s,
            scan(s, i, tok, quote, spaced).1,
        ) is None,
    decreases s.len() - i,
{
    if i < s.len() {
        let c = s[i];
        assert(quote_before(s, i + 1) == match quote {
            Some(q) => if c == q {
                None
            } else {
                Some(q)
            },
            None => if is_quote(c) {
                Some(c)
            } else {
                None
            },
        });
        if quote is Some || is_quote(c) {
            if !spaced {
                if quote == Some(c) {
                    lemma_scan_quote_free(s, i + 1, tok, None, false);
                } else if quote is Some {
                    assert(!is_quote(c)) by {
                        if is_quote(c) {
                            assert(quote_before(s, i) is Some);
                        }
                    }
                    assert(quote_free(tok.push(c))) by {
                        assert forall|j: int| 0 <= j < tok.push(c).len() implies !is_quote(
                            #[trigger] tok.push(c)[j],
                        ) by {
                            if j < tok.len() {
                                assert(tok.push(c)[j] == tok[j]);
                            }
                        }
                    }
                    lemma_scan_quote_free(s, i + 1, tok.push(c), quote, false);
                } else {
                    lemma_scan_quote_free(s, i + 1, tok, Some(c), false);
                }
            }
        } else if c == ' ' {
            lemma_scan_quote_free(s, i + 1, tok, quote, true);
        } else if !spaced {
            assert(quote_free(tok.push(c))) by {
                assert forall|j: int| 0 <= j < tok.push(c).len() implies !is_quote(
                    #[trigger] tok.push(c)[j],
                ) by {
                    if j < tok.len() {
                        assert(tok.push(c)[j] == tok[j]);
                    }
                }
            }
            lemma_scan_quote_free(s, i + 1, tok.push(c), quote, false);
        }
    }
}

proof fn lemma_tokens_from_quote_free(s: Seq<char>, pos: int)
    requires
        0 <= pos <= s.len(),
        quote_before(s, pos) is None,
        !has_literal_quote(s),
    ensures
        forall|k: int| 0 <= k < tokens_from(s, pos).len() ==> quote_free(#[trigger] tokens_from(s, pos)[k]),
    decreases s.len() - pos,
{
    if pos < s.len() {
        lemma_scan_bounds(s, pos, Seq::empty(), None, false);
        lemma_scan_quote_free(s, pos, Seq::empty(), None, false);
        let next = step(s, pos).1;
        if next < s.len() {
            lemma_tokens_from_quote_free(s, next);
        }
        let v = tokens_from(s, pos);
        assert forall|k: int| 0 <= k < v.len() implies quote_free(#[trigger] v[k]) by {
            if k > 0 {
                assert(v[k] == tokens_from(s, next)[k - 1]);
            }
        }
    }
}

/// No argument holds a quote character, on every command line where no quote
/// character stands inside a quote of the other kind (there it is kept as
/// text, as in `'say "hi"'`).
pub proof fn lemma_tokens_hold_no_quotes(s: Seq<char>)
    requires
        !has_literal_quote(trim(s, false)),
    ensures
        forall|k: int, j: int|
            0 <= k < tokenize(s).len() && 0 <= j < tokenize(s)[k].len() ==> !is_quote(
                #[trigger] tokenize(s)[k][j],
            ),
{
    lemma_tokens_from_quote_free(trim(s, false), 0);
    assert forall|k: int, j: int|
        0 <= k < tokenize(s).len() && 0 <= j < tokenize(s)[k].len() implies !is_quote(
        #[trigger] tokenize(s)[k][j],
    ) by {
        assert(quote_free(tokenize(s)[k]));
    }
}

} // verus!

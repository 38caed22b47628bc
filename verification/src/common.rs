//! Tokens and the lexer shared by the material-file reader.
//!
//! The lexer walks the source bytes once, left to right, and produces an
//! ordered token list that begins with `Token::Start` and ends with
//! `Token::End`. Textual tokens never own a copy of their text: each carries
//! a `StrRange`, a byte range into the source buffer.

use vstd::prelude::*;

use crate::vmt::error::VMTError;

verus! {

/// A byte range into some owning buffer: the zero-copy stand-in for a
/// borrowed string slice. The text it denotes is `buf[pos .. pos + len]`.
#[derive(Clone, Copy, PartialEq, Eq, Structural, Debug)]
pub struct StrRange {
    pub pos: usize,
    pub len: usize,
}

impl StrRange {
    /// True when the range lies inside a buffer of `n` bytes.
    pub open spec fn in_bounds(self, n: int) -> bool {
        self.pos + self.len <= n
    }

    /// The bytes this range denotes within `buf`.
    pub open spec fn text_of(self, buf: Seq<u8>) -> Seq<u8> {
        buf.subrange(self.pos as int, self.pos + self.len)
    }
}

/// One lexical token of a material file.
#[derive(Clone, Copy, PartialEq, Eq, Structural, Debug)]
pub enum Token {
    /// Start of file.
    Start,
    BlockStart,
    BlockEnd,
    /// Name of a block: the first token of the file, or any token that a
    /// `{` follows directly.
    BlockType(StrRange),
    /// Shader parameter key.
    ParamType(StrRange),
    /// Shader parameter value.
    ParamValue(StrRange),
    /// End of file.
    End,
}

impl Token {
    /// True for the three variants that carry text.
    pub open spec fn is_textual(self) -> bool {
        self is BlockType || self is ParamType || self is ParamValue
    }

    /// The range carried by a textual token.
    pub open spec fn spec_inner(self) -> Option<StrRange> {
        match self {
            Token::BlockType(r) => Some(r),
            Token::ParamType(r) => Some(r),
            Token::ParamValue(r) => Some(r),
            _ => None,
        }
    }

    /// Hands back the range of the token's text, or `None` for the
    /// punctuation and file-boundary tokens.
    pub fn get_inner_str(&self) -> (r: Option<StrRange>)
        ensures
            r == self.spec_inner(),
    {
        match self {
            Token::BlockType(s) => Some(*s),
            Token::ParamType(s) => Some(*s),
            Token::ParamValue(s) => Some(*s),
            _ => None,
        }
    }
}

/// The range carried by a textual token; the empty range at the buffer's
/// start for the punctuation and file-boundary tokens.
pub open spec fn inner_range(t: Token) -> StrRange {
    match t {
        Token::BlockType(r) => r,
        Token::ParamType(r) => r,
        Token::ParamValue(r) => r,
        _ => StrRange { pos: 0, len: 0 },
    }
}

/// What holds of every token list the lexer emits: it is framed by `Start`
/// and `End`, which appear nowhere else, and every textual token's range
/// lies inside the `n`-byte source.
pub open spec fn tokens_wf(toks: Seq<Token>, n: int) -> bool {
    &&& toks.len() >= 2
    &&& toks[0] == Token::Start
    &&& toks.last() == Token::End
    &&& forall|j: int|
        0 < j < toks.len() - 1 ==> !((#[trigger] toks[j]) is Start) && !(toks[j] is End)
    &&& forall|j: int| 0 <= j < toks.len() ==> inner_range(#[trigger] toks[j]).in_bounds(n)
}

/// The scanner's invariant after `i` characters: the pending run lies
/// before position `i`, and the emitted list is framed by a single `Start`
/// with every range inside the prefix read so far.
pub open spec fn lex_st_wf(s: LexSt, i: int) -> bool {
    &&& s.pos + s.len <= i
    &&& s.st is CommentStart ==> s.pos + s.len + 1 <= i
    &&& s.toks.len() >= 1
    &&& s.toks[0] == Token::Start
    &&& forall|j: int| 0 < j < s.toks.len() ==> !((#[trigger] s.toks[j]) is Start) && !(s.toks[j] is End)
    &&& forall|j: int| 0 <= j < s.toks.len() ==> inner_range(#[trigger] s.toks[j]).in_bounds(i)
}

/// Emitting the pending run keeps the list frame and keeps every range
/// inside the prefix read.
proof fn lemma_flush_wf(s: LexSt, i: int)
    requires
        0 <= i < usize::MAX,
        s.pos + s.len <= i + 1,
        s.toks.len() >= 1,
        s.toks[0] == Token::Start,
        forall|j: int| 0 < j < s.toks.len() ==> !((#[trigger] s.toks[j]) is Start) && !(s.toks[j] is End),
        forall|j: int| 0 <= j < s.toks.len() ==> inner_range(#[trigger] s.toks[j]).in_bounds(i + 1),
        flush(s, i) is Ok,
    ensures
        ({
            let r = flush(s, i)->Ok_0;
            &&& r.pos + r.len <= i + 1
            &&& r.st == s.st
            &&& r.toks.len() >= 1
            &&& r.toks[0] == Token::Start
            &&& forall|j: int|
                0 < j < r.toks.len() ==> !((#[trigger] r.toks[j]) is Start) && !(r.toks[j] is End)
            &&& forall|j: int|
                0 <= j < r.toks.len() ==> inner_range(#[trigger] r.toks[j]).in_bounds(i + 1)
        }),
{
}

/// One scan step keeps the scanner's invariant.
pub proof fn lemma_lex_step_wf(s: LexSt, c: u8, i: int)
    requires
        0 <= i < usize::MAX,
        lex_st_wf(s, i),
        lex_step(s, c, i) is Ok,
    ensures
        lex_st_wf(lex_step(s, c, i)->Ok_0, i + 1),
{
    let ns = char_state(s.st, c)->Some_0;
    let s1 = LexSt {
        st: ns,
        len: if s.st is CommentStart && !(ns is Comment) {
            (s.len + 1) as usize
        } else {
            s.len
        },
        ..s
    };
    match ns {
        State::Newline | State::Whitespace | State::QuoteStart | State::QuoteEnd
            | State::Comment => {
            lemma_flush_wf(s1, i);
        },
        State::BlockEnd => {
            lemma_flush_wf(s1, i);
        },
        State::BlockStart => {
            lemma_flush_wf(s1, i);
            let s2 = flush(s1, i)->Ok_0;
            if s2.toks.last().is_textual() {
                if s2.toks.len() == 1 {
                    assert(s2.toks.last() == s2.toks[0]);
                }
                assert(s2.toks.len() >= 2);
            }
        },
        _ => {},
    }
}

/// The scan of a well-formed intermediate state yields a well-formed token
/// list whose ranges all lie inside the source.
pub proof fn lemma_lex_from_wf(src: Seq<u8>, i: int, s: LexSt)
    requires
        0 <= i <= src.len(),
        src.len() <= usize::MAX,
        lex_st_wf(s, i),
        lex_from(src, i, s) is Ok,
    ensures
        tokens_wf(lex_from(src, i, s)->Ok_0, src.len() as int),
    decreases src.len() - i,
{
    if i < src.len() {
        lemma_lex_step_wf(s, src[i], i);
        lemma_lex_from_wf(src, i + 1, lex_step(s, src[i], i)->Ok_0);
    }
}

/// Every token list the lexer accepts is well formed: framed by `Start`
/// and `End`, with every textual range inside the source.
pub proof fn lemma_spec_lex_wf(src: Seq<u8>)
    requires
        src.len() <= usize::MAX,
        spec_lex(src) is Ok,
    ensures
        tokens_wf(spec_lex(src)->Ok_0, src.len() as int),
{
    lemma_lex_from_wf(src, 0, lex_init());
}

/// The ranges of the textual tokens, in emission order.
pub open spec fn token_ranges(toks: Seq<Token>) -> Seq<StrRange>
    decreases toks.len(),
{
    if toks.len() == 0 {
        Seq::empty()
    } else if toks.last().is_textual() {
        token_ranges(toks.drop_last()).push(inner_range(toks.last()))
    } else {
        token_ranges(toks.drop_last())
    }
}

/// The length of each range, in order.
pub open spec fn lens_of(rs: Seq<StrRange>) -> Seq<usize> {
    rs.map_values(|r: StrRange| r.len)
}

/// The compacted buffer: the texts of the given ranges, concatenated in
/// order with nothing between them.
pub open spec fn concat_texts(rs: Seq<StrRange>, buf: Seq<u8>) -> Seq<u8>
    decreases rs.len(),
{
    if rs.len() == 0 {
        Seq::empty()
    } else {
        concat_texts(rs.drop_last(), buf) + rs.last().text_of(buf)
    }
}

/// The sum of a list of lengths.
pub open spec fn sum_lens(ls: Seq<usize>) -> int
    decreases ls.len(),
{
    if ls.len() == 0 {
        0int
    } else {
        sum_lens(ls.drop_last()) + ls.last()
    }
}

/// Where the `j`-th text begins in the compacted buffer: the sum of the
/// lengths before it.
pub open spec fn offset_of(ls: Seq<usize>, j: int) -> int {
    sum_lens(ls.take(j))
}

/// Extending the summed prefix by one element adds that element.
pub proof fn lemma_sum_take_succ(ls: Seq<usize>, j: int)
    requires
        0 <= j < ls.len(),
    ensures
        sum_lens(ls.take(j + 1)) == sum_lens(ls.take(j)) + ls[j],
{
    assert(ls.take(j + 1).drop_last() =~= ls.take(j));
    assert(ls.take(j + 1).last() == ls[j]);
}

/// Sums of lengths are never negative.
pub proof fn lemma_sum_nonneg(ls: Seq<usize>)
    ensures
        sum_lens(ls) >= 0,
    decreases ls.len(),
{
    if ls.len() > 0 {
        lemma_sum_nonneg(ls.drop_last());
    }
}

/// A summed prefix never exceeds the whole sum.
pub proof fn lemma_sum_prefix_le(ls: Seq<usize>, j: int)
    requires
        0 <= j <= ls.len(),
    ensures
        sum_lens(ls.take(j)) <= sum_lens(ls),
    decreases ls.len() - j,
{
    if j == ls.len() {
        assert(ls.take(j) =~= ls);
    } else {
        lemma_sum_take_succ(ls, j);
        lemma_sum_prefix_le(ls, j + 1);
    }
}

/// The compacted buffer is exactly as long as its parts together.
pub proof fn lemma_concat_len(rs: Seq<StrRange>, buf: Seq<u8>)
    requires
        forall|k: int| 0 <= k < rs.len() ==> (#[trigger] rs[k]).in_bounds(buf.len() as int),
    ensures
        concat_texts(rs, buf).len() == sum_lens(lens_of(rs)),
    decreases rs.len(),
{
    if rs.len() > 0 {
        lemma_concat_len(rs.drop_last(), buf);
        assert(lens_of(rs).drop_last() =~= lens_of(rs.drop_last()));
    }
}

/// Zero-copy slice correctness: reading the `j`-th text back out of the
/// compacted buffer, from the summed offset and the recorded length, gives
/// exactly the bytes the range denotes in the original source.
pub proof fn lemma_zero_copy(rs: Seq<StrRange>, buf: Seq<u8>, j: int)
    requires
        forall|k: int| 0 <= k < rs.len() ==> (#[trigger] rs[k]).in_bounds(buf.len() as int),
        0 <= j < rs.len(),
    ensures
        concat_texts(rs, buf).subrange(
            offset_of(lens_of(rs), j),
            offset_of(lens_of(rs), j) + rs[j].len,
        ) == rs[j].text_of(buf),
    decreases rs.len(),
{
    let ls = lens_of(rs);
    lemma_concat_len(rs, buf);
    lemma_sum_nonneg(ls.take(j));
    if j == rs.len() - 1 {
        lemma_concat_len(rs.drop_last(), buf);
        assert(ls.take(j) =~= lens_of(rs.drop_last()));
        assert(concat_texts(rs, buf).subrange(
            offset_of(ls, j),
            offset_of(ls, j) + rs[j].len,
        ) =~= rs[j].text_of(buf));
    } else {
        let rs0 = rs.drop_last();
        lemma_zero_copy(rs0, buf, j);
        lemma_concat_len(rs0, buf);
        assert(ls.take(j) =~= lens_of(rs0).take(j));
        lemma_sum_prefix_le(lens_of(rs0), j + 1);
        lemma_sum_take_succ(lens_of(rs0), j);
        assert(concat_texts(rs, buf).subrange(
            offset_of(ls, j),
            offset_of(ls, j) + rs[j].len,
        ) =~= concat_texts(rs0, buf).subrange(
            offset_of(lens_of(rs0), j),
            offset_of(lens_of(rs0), j) + rs0[j].len,
        ));
    }
}

/// When every token's range lies inside the source, so does every range
/// the textual tokens contribute.
pub proof fn lemma_token_ranges_in_bounds(toks: Seq<Token>, n: int)
    requires
        forall|j: int| 0 <= j < toks.len() ==> inner_range(#[trigger] toks[j]).in_bounds(n),
    ensures
        forall|k: int|
            0 <= k < token_ranges(toks).len() ==> (#[trigger] token_ranges(toks)[k]).in_bounds(n),
    decreases toks.len(),
{
    if toks.len() > 0 {
        let toks0 = toks.drop_last();
        assert forall|j: int| 0 <= j < toks0.len() implies inner_range(
            #[trigger] toks0[j],
        ).in_bounds(n) by {
            assert(toks0[j] == toks[j]);
        }
        lemma_token_ranges_in_bounds(toks0, n);
        let rs = token_ranges(toks);
        let rs0 = token_ranges(toks0);
        assert forall|k: int| 0 <= k < rs.len() implies (#[trigger] rs[k]).in_bounds(n) by {
            if toks.last().is_textual() && k == rs.len() - 1 {
                assert(rs[k] == inner_range(toks.last()));
                assert(inner_range(toks[toks.len() - 1]).in_bounds(n));
            } else {
                assert(rs[k] == rs0[k]);
            }
        }
    }
}

/// Zero-copy slice correctness for a lexed source: for every textual token
/// of an accepted scan, the bytes read back out of the compacted buffer at
/// the summed offset equal the bytes the token's range denotes in the
/// source itself.
pub proof fn lemma_lex_zero_copy(src: Seq<u8>)
    requires
        src.len() <= usize::MAX,
        spec_lex(src) is Ok,
    ensures
        ({
            let rs = token_ranges(spec_lex(src)->Ok_0);
            forall|j: int|
                0 <= j < rs.len() ==> concat_texts(rs, src).subrange(
                    offset_of(lens_of(rs), j),
                    offset_of(lens_of(rs), j) + rs[j].len,
                ) == (#[trigger] rs[j]).text_of(src)
        }),
{
    lemma_spec_lex_wf(src);
    let toks = spec_lex(src)->Ok_0;
    lemma_token_ranges_in_bounds(toks, src.len() as int);
    let rs = token_ranges(toks);
    assert forall|j: int| 0 <= j < rs.len() implies concat_texts(rs, src).subrange(
        offset_of(lens_of(rs), j),
        offset_of(lens_of(rs), j) + rs[j].len,
    ) == (#[trigger] rs[j]).text_of(src) by {
        lemma_zero_copy(rs, src, j);
    }
}

/// The unterminated-quote law: once the scan stands inside an open quoted
/// run, and no closing quote arrives before position `k` — a newline or
/// the end of the input — the whole scan fails with the unclosed-quote
/// fault: whatever bytes the run holds, and whatever the input holds
/// beyond `k`. With `Lexer::new`'s contract this says the lexer returns
/// the lexical error and produces no token list for any such source.
pub proof fn lemma_unclosed_quote_errs(src: Seq<u8>, i: int, k: int, s: LexSt)
    requires
        0 <= i <= k <= src.len(),
        s.st is QuoteStart || s.st is QuoteChar,
        forall|j: int| i <= j < k ==> (#[trigger] src[j]) != BYTE_QUOTE && src[j] != BYTE_NEWLINE,
        k == src.len() || src[k] == BYTE_NEWLINE,
    ensures
        lex_from(src, i, s) == Err::<Seq<Token>, LexErr>(LexErr::UnclosedQuote),
    decreases k - i,
{
    if i < k {
        let s2 = lex_step(s, src[i], i)->Ok_0;
        lemma_unclosed_quote_errs(src, i + 1, k, s2);
    }
}

/// The byte values the scanner treats specially: newline, double quote,
/// the two braces, space, horizontal tab, carriage return and slash.
pub const BYTE_NEWLINE: u8 = 10;

pub const BYTE_QUOTE: u8 = 34;

pub const BYTE_BRACE_OPEN: u8 = 123;

pub const BYTE_BRACE_CLOSE: u8 = 125;

pub const BYTE_SPACE: u8 = 32;

pub const BYTE_TAB: u8 = 9;

pub const BYTE_CR: u8 = 13;

pub const BYTE_SLASH: u8 = 47;

/// The per-character state of the scanner: what the character just read
/// turned out to be, in the light of the character before it.
#[derive(Clone, Copy, PartialEq, Eq, Structural, Debug)]
pub enum State {
    /// A newline outside quotes.
    Newline,
    /// The opening `"` of a quoted run.
    QuoteStart,
    /// A character between two quotes.
    QuoteChar,
    /// The closing `"` of a quoted run.
    QuoteEnd,
    /// A `{` outside quotes.
    BlockStart,
    /// A `}` outside quotes.
    BlockEnd,
    /// Whitespace outside quotes.
    Whitespace,
    /// A `/` that may begin a comment; demoted to a plain character if no
    /// second `/` follows.
    CommentStart,
    /// The second `/` of a `//` comment opener.
    Comment,
    /// Any character inside a comment.
    CommentChar,
    /// Any other character outside quotes.
    Char,
    /// The state before the first character.
    Default,
}

/// The lexical faults the scanner can find.
#[derive(Clone, Copy, PartialEq, Eq, Structural, Debug)]
pub enum LexErr {
    /// A newline or the end of input arrived inside an open quote.
    UnclosedQuote,
    /// A token closed after a predecessor that allows no further token.
    InvalidSequence,
    /// A `{` arrived with no token before it to serve as the block's name.
    BraceWithoutName,
}

/// The whole state of the scan after some prefix of the input: the class of
/// the last character, the pending (not yet emitted) run of text, and the
/// tokens emitted so far.
pub struct LexSt {
    pub st: State,
    /// Start of the pending run in the source.
    pub pos: usize,
    /// Length of the pending run.
    pub len: usize,
    pub toks: Seq<Token>,
}

/// Classifies a freshly closed run of text by the token that came before
/// it: the first token of the file names the shader block, a token after a
/// brace or after a value is a parameter key, and a token after a key is
/// that key's value. After a block name, no further text may follow before
/// the block opens.
pub open spec fn classify(last: Token, r: StrRange) -> Option<Token> {
    match last {
        Token::Start => Some(Token::BlockType(r)),
        Token::BlockStart | Token::BlockEnd | Token::ParamValue(_) => Some(Token::ParamType(r)),
        Token::ParamType(_) => Some(Token::ParamValue(r)),
        _ => None,
    }
}

/// The class of byte `c` when the previous character had class `st`.
/// `None` stands for the one in-character fault: a newline inside quotes.
pub open spec fn char_state(st: State, c: u8) -> Option<State> {
    let in_quote = st is QuoteStart || st is QuoteChar;
    if (st is Comment || st is CommentChar) && c != BYTE_NEWLINE {
        Some(State::CommentChar)
    } else if c == BYTE_NEWLINE {
        if in_quote {
            None
        } else {
            Some(State::Newline)
        }
    } else if c == BYTE_QUOTE {
        if in_quote {
            Some(State::QuoteEnd)
        } else {
            Some(State::QuoteStart)
        }
    } else if c == BYTE_BRACE_OPEN {
        if in_quote {
            Some(State::QuoteChar)
        } else {
            Some(State::BlockStart)
        }
    } else if c == BYTE_BRACE_CLOSE {
        if in_quote {
            Some(State::QuoteChar)
        } else {
            Some(State::BlockEnd)
        }
    } else if c == BYTE_SPACE || c == BYTE_TAB || c == BYTE_CR {
        if in_quote {
            Some(State::QuoteChar)
        } else {
            Some(State::Whitespace)
        }
    } else if c == BYTE_SLASH {
        if st is CommentStart {
            Some(State::Comment)
        } else if in_quote {
            Some(State::QuoteChar)
        } else {
            Some(State::CommentStart)
        }
    } else {
        if in_quote {
            Some(State::QuoteChar)
        } else {
            Some(State::Char)
        }
    }
}

/// Emits the pending run, if any, as a token classified by its predecessor,
/// and moves the pending-run start past position `i`.
pub open spec fn flush(s: LexSt, i: int) -> Result<LexSt, LexErr> {
    if s.len == 0 {
        Ok(LexSt { pos: (i + 1) as usize, ..s })
    } else {
        match classify(s.toks.last(), StrRange { pos: s.pos, len: s.len }) {
            Some(t) => Ok(LexSt { toks: s.toks.push(t), pos: (i + 1) as usize, len: 0, ..s }),
            None => Err(LexErr::InvalidSequence),
        }
    }
}

/// One step of the scan: byte `c` at position `i` read in state `s`.
pub open spec fn lex_step(s: LexSt, c: u8, i: int) -> Result<LexSt, LexErr> {
    match char_state(s.st, c) {
        None => Err(LexErr::UnclosedQuote),
        Some(ns) => {
            // A '/' that did not open a comment was an ordinary character
            // of the pending run after all.
            let s1 = LexSt {
                st: ns,
                len: if s.st is CommentStart && !(ns is Comment) {
                    (s.len + 1) as usize
                } else {
                    s.len
                },
                ..s
            };
            match ns {
                State::Newline | State::Whitespace | State::QuoteStart | State::QuoteEnd
                    | State::Comment => flush(s1, i),
                State::BlockStart => match flush(s1, i) {
                    Err(e) => Err(e),
                    Ok(s2) => match s2.toks.last() {
                        Token::BlockType(r) | Token::ParamType(r) | Token::ParamValue(r) => Ok(
                            LexSt {
                                toks: s2.toks.drop_last().push(Token::BlockType(r)).push(
                                    Token::BlockStart,
                                ),
                                ..s2
                            },
                        ),
                        _ => Err(LexErr::BraceWithoutName),
                    },
                },
                State::BlockEnd => match flush(s1, i) {
                    Err(e) => Err(e),
                    Ok(s2) => Ok(LexSt { toks: s2.toks.push(Token::BlockEnd), ..s2 }),
                },
                State::CommentChar => Ok(LexSt { len: 0, pos: (i + 1) as usize, ..s1 }),
                State::CommentStart => Ok(s1),
                _ => Ok(LexSt { len: (s1.len + 1) as usize, ..s1 }),
            }
        },
    }
}

/// The end of the input: an open quote is a fault; otherwise any pending
/// run is emitted and the list is closed with `Token::End`.
pub open spec fn lex_finish(s: LexSt, n: int) -> Result<Seq<Token>, LexErr> {
    if s.st is QuoteStart || s.st is QuoteChar {
        Err(LexErr::UnclosedQuote)
    } else {
        // A '/' still waiting for a second '/' when the input ends was a
        // plain character of the pending run after all.
        let s1 = LexSt {
            len: if s.st is CommentStart {
                (s.len + 1) as usize
            } else {
                s.len
            },
            ..s
        };
        match flush(s1, n) {
            Err(e) => Err(e),
            Ok(s2) => Ok(s2.toks.push(Token::End)),
        }
    }
}

/// The scan of `src` from position `i` onward, started in state `s`.
pub open spec fn lex_from(src: Seq<u8>, i: int, s: LexSt) -> Result<Seq<Token>, LexErr>
    decreases src.len() - i,
{
    if i < 0 || i >= src.len() {
        lex_finish(s, src.len() as int)
    } else {
        match lex_step(s, src[i], i) {
            Err(e) => Err(e),
            Ok(s2) => lex_from(src, i + 1, s2),
        }
    }
}

/// The state before any character is read.
pub open spec fn lex_init() -> LexSt {
    LexSt { st: State::Default, pos: 0, len: 0, toks: seq![Token::Start] }
}

/// The token list of `src`, or the first lexical fault found.
pub open spec fn spec_lex(src: Seq<u8>) -> Result<Seq<Token>, LexErr> {
    lex_from(src, 0, lex_init())
}

/// How each lexical fault surfaces as a `VMTError`.
pub open spec fn lex_err_matches(e: VMTError, k: LexErr) -> bool {
    match k {
        LexErr::UnclosedQuote => e matches VMTError::SyntaxError(m) && m@ == "Unclosed quote"@,
        LexErr::InvalidSequence => e matches VMTError::SyntaxError(m) && m@
            == "Invalid token sequence"@,
        LexErr::BraceWithoutName => e matches VMTError::SyntaxError(m) && m@
            == "Block start without a block name"@,
    }
}

/// The lexer: one eager pass over the source bytes, producing the full
/// token list.
pub struct Lexer {
    pub tokens: Vec<Token>,
}

/// Classifies a closed run by the token before it; see [`classify`].
fn classify_token(last: &Token, r: StrRange) -> (t: Option<Token>)
    ensures
        t == classify(*last, r),
{
    match last {
        Token::Start => Some(Token::BlockType(r)),
        Token::BlockStart | Token::BlockEnd | Token::ParamValue(_) => Some(Token::ParamType(r)),
        Token::ParamType(_) => Some(Token::ParamValue(r)),
        _ => None,
    }
}

impl Lexer {
    /// Scans the whole source eagerly. On success the token list equals the
    /// scan `spec_lex` describes; on a lexical fault the error carries the
    /// matching description.
    pub fn new(source: &[u8]) -> (r: Result<Lexer, VMTError>)
        ensures
            match spec_lex(source@) {
                Ok(toks) => r matches Ok(lx) && lx.tokens@ == toks,
                Err(k) => r matches Err(e) && lex_err_matches(e, k),
            },
    {
        let mut tokens: Vec<Token> = Vec::new();
        tokens.push(Token::Start);
        let mut st = State::Default;
        let mut pos: usize = 0;
        let mut len: usize = 0;
        let mut i: usize = 0;
        while i < source.len()
            invariant
                i <= source.len(),
                pos + len <= i,
                st == State::CommentStart ==> pos + len < i,
                tokens@.len() >= 1,
                spec_lex(source@) == lex_from(
                    source@,
                    i as int,
                    LexSt { st, pos, len, toks: tokens@ },
                ),
            decreases source.len() - i,
        {
            let ghost g = LexSt { st, pos, len, toks: tokens@ };
            let c = source[i];
            let in_quote = st == State::QuoteStart || st == State::QuoteChar;
            let ns: State = if (st == State::Comment || st == State::CommentChar) && c != BYTE_NEWLINE {
                State::CommentChar
            } else if c == BYTE_NEWLINE {
                if in_quote {
                    return Err(VMTError::SyntaxError("Unclosed quote"));
                }
                State::Newline
            } else if c == BYTE_QUOTE {
                if in_quote {
                    State::QuoteEnd
                } else {
                    State::QuoteStart
                }
            } else if c == BYTE_BRACE_OPEN {
                if in_quote {
                    State::QuoteChar
                } else {
                    State::BlockStart
                }
            } else if c == BYTE_BRACE_CLOSE {
                if in_quote {
                    State::QuoteChar
                } else {
                    State::BlockEnd
                }
            } else if c == BYTE_SPACE || c == BYTE_TAB || c == BYTE_CR {
                if in_quote {
                    State::QuoteChar
                } else {
                    State::Whitespace
                }
            } else if c == BYTE_SLASH {
                if st == State::CommentStart {
                    State::Comment
                } else if in_quote {
                    State::QuoteChar
                } else {
                    State::CommentStart
                }
            } else {
                if in_quote {
                    State::QuoteChar
                } else {
                    State::Char
                }
            };
            proof {
                assert(char_state(g.st, c) == Some(ns));
            }
            if st == State::CommentStart && ns != State::Comment {
                len = len + 1;
            }
            st = ns;
            match ns {
                State::Newline | State::Whitespace | State::QuoteStart | State::QuoteEnd
                    | State::Comment => {
                    if len != 0 {
                        let last = tokens[tokens.len() - 1];
                        match classify_token(&last, StrRange { pos, len }) {
                            Some(t) => tokens.push(t),
                            None => {
                                return Err(VMTError::SyntaxError("Invalid token sequence"));
                            },
                        }
                    }
                    pos = i + 1;
                    len = 0;
                },
                State::BlockStart => {
                    if len != 0 {
                        let last = tokens[tokens.len() - 1];
                        match classify_token(&last, StrRange { pos, len }) {
                            Some(t) => tokens.push(t),
                            None => {
                                return Err(VMTError::SyntaxError("Invalid token sequence"));
                            },
                        }
                    }
                    pos = i + 1;
                    len = 0;
                    let last = tokens.pop().unwrap();
                    match last.get_inner_str() {
                        Some(r) => {
                            tokens.push(Token::BlockType(r));
                            tokens.push(Token::BlockStart);
                        },
                        None => {
                            return Err(
                                VMTError::SyntaxError("Block start without a block name"),
                            );
                        },
                    }
                },
                State::BlockEnd => {
                    if len != 0 {
                        let last = tokens[tokens.len() - 1];
                        match classify_token(&last, StrRange { pos, len }) {
                            Some(t) => tokens.push(t),
                            None => {
                                return Err(VMTError::SyntaxError("Invalid token sequence"));
                            },
                        }
                    }
                    pos = i + 1;
                    len = 0;
                    tokens.push(Token::BlockEnd);
                },
                State::CommentChar => {
                    pos = i + 1;
                    len = 0;
                },
                State::CommentStart => {},
                _ => {
                    len = len + 1;
                },
            }
            proof {
                assert(lex_step(g, c, i as int) == Ok::<LexSt, LexErr>(
                    LexSt { st, pos, len, toks: tokens@ },
                ));
            }
            i = i + 1;
        }
        if st == State::QuoteStart || st == State::QuoteChar {
            return Err(VMTError::SyntaxError("Unclosed quote"));
        }
        if st == State::CommentStart {
            len = len + 1;
        }
        if len != 0 {
            let last = tokens[tokens.len() - 1];
            match classify_token(&last, StrRange { pos, len }) {
                Some(t) => tokens.push(t),
                None => {
                    return Err(VMTError::SyntaxError("Invalid token sequence"));
                },
            }
        }
        tokens.push(Token::End);
        Ok(Lexer { tokens })
    }
}

} // verus!

//! The material-document parser: a strict state machine that consumes the
//! token list once, in order, and builds the shader document.
//!
//! The parser never copies text. Every key, value and type it records is a
//! `StrRange` into the compacted element buffer, whose layout the caller
//! fixes: the texts of the textual tokens, concatenated in token order.
//! The parser therefore only needs one running offset plus each token's
//! recorded length to know every slice.

use vstd::prelude::*;

use crate::common::{StrRange, Token};
use crate::vmt::error::VMTError;

verus! {

/// `<`, `>` and `=`: the bytes that open a fallback condition.
pub const BYTE_LT: u8 = 60;

pub const BYTE_GT: u8 = 62;

pub const BYTE_EQ: u8 = 61;

/// A conditional statement naming when a fallback block applies (for
/// instance when the host runs below a given renderer version).
#[derive(Debug, Clone, Copy, PartialEq, Eq, Structural)]
pub enum FallCond {
    /// Above the value; written `>`.
    Above,
    /// Above or equal to the value; written `>=`.
    AEqual,
    /// Below the value; written `<`.
    Below,
    /// Below or equal to the value; written `<=`.
    BEqual,
    /// The placeholder before any condition has been read.
    HellIfIKnow,
}

impl Default for FallCond {
    /// The placeholder condition.
    fn default() -> (r: FallCond)
        ensures
            r == FallCond::HellIfIKnow,
    {
        FallCond::HellIfIKnow
    }
}

/// One key/value parameter; both sides are ranges into the compacted
/// element buffer.
#[derive(Debug, Clone, Copy, PartialEq, Eq, Structural)]
pub struct Parameter {
    pub p_type: StrRange,
    pub value: StrRange,
}

impl Parameter {
    /// Builds a parameter from its key and value ranges.
    pub fn new(p_type: StrRange, value: StrRange) -> (r: Parameter)
        ensures
            r == (Parameter { p_type, value }),
    {
        Parameter { p_type, value }
    }

    /// The parameter's key.
    pub fn get_type(&self) -> (r: StrRange)
        ensures
            r == self.p_type,
    {
        self.p_type
    }

    /// The parameter's value.
    pub fn get_value(&self) -> (r: StrRange)
        ensures
            r == self.value,
    {
        self.value
    }
}

/// A named runtime-parameter-binding block under the "Proxies" section.
#[derive(Debug, Clone, PartialEq, Eq)]
pub struct Proxy {
    pub p_type: StrRange,
    pub parameters: Vec<Parameter>,
}

/// The mathematical model of a proxy: its name and its parameters.
pub struct ProxyV {
    pub p_type: StrRange,
    pub parameters: Seq<Parameter>,
}

impl View for Proxy {
    type V = ProxyV;

    open spec fn view(&self) -> ProxyV {
        ProxyV { p_type: self.p_type, parameters: self.parameters@ }
    }
}

impl Proxy {
    /// The proxy's name.
    pub fn get_type(&self) -> (r: StrRange)
        ensures
            r == self.p_type,
    {
        self.p_type
    }

    /// The proxy's parameters, in source order.
    pub fn get_parameters(&self) -> (r: &Vec<Parameter>)
        ensures
            r@ == self@.parameters,
    {
        &self.parameters
    }
}

/// A conditional override block inside the shader: a comparison operator,
/// the identifier compared against, and its own parameters.
#[derive(Debug, Clone, PartialEq, Eq)]
pub struct Fallback {
    pub f_cond: FallCond,
    pub f_type: StrRange,
    pub parameters: Vec<Parameter>,
}

/// The mathematical model of a fallback block.
pub struct FallbackV {
    pub f_cond: FallCond,
    pub f_type: StrRange,
    pub parameters: Seq<Parameter>,
}

impl View for Fallback {
    type V = FallbackV;

    open spec fn view(&self) -> FallbackV {
        FallbackV { f_cond: self.f_cond, f_type: self.f_type, parameters: self.parameters@ }
    }
}

impl Fallback {
    /// The comparison operator of the fallback's condition.
    pub fn get_condition(&self) -> (r: FallCond)
        ensures
            r == self.f_cond,
    {
        self.f_cond
    }

    /// The identifier the condition compares against.
    pub fn get_type(&self) -> (r: StrRange)
        ensures
            r == self.f_type,
    {
        self.f_type
    }

    /// The fallback's parameters, in source order.
    pub fn get_parameters(&self) -> (r: &Vec<Parameter>)
        ensures
            r@ == self@.parameters,
    {
        &self.parameters
    }
}

/// The parsed material document: the shader's type name, its parameters in
/// source order (duplicate keys kept), and its fallback and proxy blocks.
/// The lists are `None` exactly when they are empty, as the parser builds
/// them.
#[derive(Debug, Clone, PartialEq, Eq)]
pub struct Shader {
    pub s_type: StrRange,
    pub parameters: Vec<Parameter>,
    pub fallbacks: Option<Vec<Fallback>>,
    pub proxies: Option<Vec<Proxy>>,
}

/// The mathematical model of a document: the option wrappers erased, every
/// list a sequence.
pub struct ShaderV {
    pub s_type: StrRange,
    pub parameters: Seq<Parameter>,
    pub fallbacks: Seq<FallbackV>,
    pub proxies: Seq<ProxyV>,
}

impl View for Shader {
    type V = ShaderV;

    open spec fn view(&self) -> ShaderV {
        ShaderV {
            s_type: self.s_type,
            parameters: self.parameters@,
            fallbacks: match self.fallbacks {
                Some(v) => v@.map_values(|f: Fallback| f@),
                None => Seq::empty(),
            },
            proxies: match self.proxies {
                Some(v) => v@.map_values(|p: Proxy| p@),
                None => Seq::empty(),
            },
        }
    }
}

/// The parser's states, one per place in the grammar.
#[derive(Debug, Clone, Copy, PartialEq, Eq, Structural)]
pub enum ParseState {
    /// The shader's type name has been read.
    ShaderType,
    /// The shader's block has opened.
    ShaderBlockStart,
    /// The shader's block has closed: the terminal state.
    ShaderBlockEnd,
    /// A shader parameter key has been read; its value is owed.
    ShaderParamType,
    /// A shader parameter value has been read.
    ShaderParamValue,
    /// A fallback block's name has been read.
    FallBlockType,
    /// A fallback block has opened.
    FallBlockStart,
    /// A fallback block has closed.
    FallBlockEnd,
    /// A fallback parameter key has been read.
    FallParamType,
    /// A fallback parameter value has been read.
    FallParamValue,
    /// The literal block name "Proxies" has been read.
    ProxiesDecl,
    /// The "Proxies" block has opened.
    ProxiesStart,
    /// The "Proxies" block has closed.
    ProxiesEnd,
    /// A proxy's name has been read.
    ProxyBlockType,
    /// A proxy's block has opened.
    ProxyBlockStart,
    /// A proxy's block has closed.
    ProxyBlockEnd,
    /// A proxy parameter key has been read.
    ProxyParamType,
    /// A proxy parameter value has been read.
    ProxyParamValue,
    /// Before the first token.
    Default,
}

/// The syntactic faults the parser can find.
#[derive(Debug, Clone, Copy, PartialEq, Eq, Structural)]
pub enum ParseErr {
    /// The document does not begin with a block name.
    MissingShaderType,
    /// "Proxies" was read but no `{` follows.
    MissingProxiesBlockStart,
    /// The shader's name was read but no `{` follows.
    MissingBlockStart,
    /// A fallback's name was read but no `{` follows.
    MissingFallbackBlockStart,
    /// A proxy's name was read but no `{` follows.
    MissingProxyBlockStart,
    /// A parameter key sits directly in the "Proxies" block.
    ParamWithoutProxy,
    /// A block opens inside "Proxies" without a name.
    BlockWithoutTag,
    /// A second-level block name is neither a condition nor "Proxies".
    InvalidSecondLevelName,
    /// A parameter key has no value after it.
    MissingParamValue,
    /// A token follows the shader block's closing brace.
    UnexpectedAfterEnd,
    /// A token arrived that no rule of the current state covers.
    UnexpectedToken,
    /// The input ended before the shader block closed.
    UnclosedBlock,
}

/// How each syntactic fault surfaces as a `VMTError`.
pub open spec fn parse_err_matches(e: VMTError, k: ParseErr) -> bool {
    match k {
        ParseErr::MissingShaderType => e matches VMTError::SyntaxError(m) && m@
            == "Missing shader type"@,
        ParseErr::MissingProxiesBlockStart => e matches VMTError::SyntaxError(m) && m@
            == "Missing proxies block start: {"@,
        ParseErr::MissingBlockStart => e matches VMTError::SyntaxError(m) && m@
            == "Missing block start: {"@,
        ParseErr::MissingFallbackBlockStart => e matches VMTError::SyntaxError(m) && m@
            == "Missing fallback block start: {"@,
        ParseErr::MissingProxyBlockStart => e matches VMTError::SyntaxError(m) && m@
            == "Missing proxy block start: {"@,
        ParseErr::ParamWithoutProxy => e matches VMTError::SyntaxError(m) && m@
            == "Parameter exists in \"Proxies\" block without corresponding proxy"@,
        ParseErr::BlockWithoutTag => e matches VMTError::SyntaxError(m) && m@
            == "Block exists inside of \"Proxies\" without block tag"@,
        ParseErr::InvalidSecondLevelName => e matches VMTError::SyntaxError(m) && m@
            == "Invalid 2nd-level block name: must be a fallback or \"Proxies\""@,
        ParseErr::MissingParamValue => e matches VMTError::SyntaxError(m) && m@
            == "Missing parameter value"@,
        ParseErr::UnexpectedAfterEnd => e matches VMTError::SyntaxError(m) && m@
            == "Unexpected token after shader block end"@,
        ParseErr::UnexpectedToken => e matches VMTError::SyntaxError(m) && m@
            == "Unexpected token"@,
        ParseErr::UnclosedBlock => e == VMTError::UnclosedBlock,
    }
}

/// True when the `len` bytes at `pos` of the element buffer spell the
/// literal block name "Proxies".
pub open spec fn is_proxies(els: Seq<u8>, pos: int, len: int) -> bool {
    &&& len == 7
    &&& 0 <= pos
    &&& pos + 7 <= els.len()
    &&& els[pos] == 80u8
    &&& els[pos + 1] == 114u8
    &&& els[pos + 2] == 111u8
    &&& els[pos + 3] == 120u8
    &&& els[pos + 4] == 105u8
    &&& els[pos + 5] == 101u8
    &&& els[pos + 6] == 115u8
}

/// Reads a fallback condition out of a second-level block name: a leading
/// `<`, `<=`, `>` or `>=` names the comparison, and the rest of the name is
/// the identifier compared against. `None` when no comparison leads.
pub open spec fn spec_fall_cond(els: Seq<u8>, pos: int, len: int) -> Option<(FallCond, StrRange)> {
    if len < 1 || pos < 0 || pos + len > els.len() {
        None
    } else if els[pos] == BYTE_LT {
        if len >= 2 && els[pos + 1] == BYTE_EQ {
            Some(
                (FallCond::BEqual, StrRange { pos: (pos + 2) as usize, len: (len - 2) as usize }),
            )
        } else {
            Some(
                (FallCond::Below, StrRange { pos: (pos + 1) as usize, len: (len - 1) as usize }),
            )
        }
    } else if els[pos] == BYTE_GT {
        if len >= 2 && els[pos + 1] == BYTE_EQ {
            Some(
                (FallCond::AEqual, StrRange { pos: (pos + 2) as usize, len: (len - 2) as usize }),
            )
        } else {
            Some(
                (FallCond::Above, StrRange { pos: (pos + 1) as usize, len: (len - 1) as usize }),
            )
        }
    } else {
        None
    }
}

/// The parser's whole state: the grammar state, the document built so far,
/// the blocks still open, the parameter key awaiting its value, and the
/// cursor (`ti`-th textual token, at offset `elc` of the element buffer).
pub struct PSt {
    pub st: ParseState,
    pub s_type: StrRange,
    pub params: Seq<Parameter>,
    pub fbs: Seq<FallbackV>,
    pub pxs: Seq<ProxyV>,
    pub cur_fb: FallbackV,
    pub cur_px: ProxyV,
    pub key: StrRange,
    pub ti: int,
    pub elc: int,
}

/// The empty range.
pub open spec fn zero_range() -> StrRange {
    StrRange { pos: 0, len: 0 }
}

/// The parser's state before any token.
pub open spec fn parse_init() -> PSt {
    PSt {
        st: ParseState::Default,
        s_type: zero_range(),
        params: Seq::empty(),
        fbs: Seq::empty(),
        pxs: Seq::empty(),
        cur_fb: FallbackV { f_cond: FallCond::HellIfIKnow, f_type: zero_range(), parameters: Seq::empty() },
        cur_px: ProxyV { p_type: zero_range(), parameters: Seq::empty() },
        key: zero_range(),
        ti: 0,
        elc: 0,
    }
}

/// The range of the textual token now under the cursor.
pub open spec fn consumed(s: PSt, lens: Seq<usize>) -> StrRange {
    StrRange { pos: s.elc as usize, len: lens[s.ti] }
}

/// The state after consuming the textual token under the cursor.
pub open spec fn advanced(s: PSt, lens: Seq<usize>) -> PSt {
    PSt { ti: s.ti + 1, elc: s.elc + lens[s.ti], ..s }
}

/// One parser step: token `t` arrives in state `s`. Mirrors the transition
/// table of the grammar; start- and end-of-input tokens are skipped.
pub open spec fn parse_step(s: PSt, t: Token, els: Seq<u8>, lens: Seq<usize>) -> Result<
    PSt,
    ParseErr,
> {
    match t {
        Token::Start | Token::End => Ok(s),
        _ => match s.st {
            ParseState::Default => match t {
                Token::BlockType(_) => Ok(
                    PSt {
                        st: ParseState::ShaderType,
                        s_type: consumed(s, lens),
                        ..advanced(s, lens)
                    },
                ),
                _ => Err(ParseErr::MissingShaderType),
            },
            ParseState::ProxiesDecl => match t {
                Token::BlockStart => Ok(PSt { st: ParseState::ProxiesStart, ..s }),
                _ => Err(ParseErr::MissingProxiesBlockStart),
            },
            ParseState::ShaderType => match t {
                Token::BlockStart => Ok(PSt { st: ParseState::ShaderBlockStart, ..s }),
                _ => Err(ParseErr::MissingBlockStart),
            },
            ParseState::FallBlockType => match t {
                Token::BlockStart => Ok(PSt { st: ParseState::FallBlockStart, ..s }),
                _ => Err(ParseErr::MissingFallbackBlockStart),
            },
            ParseState::ProxyBlockType => match t {
                Token::BlockStart => Ok(PSt { st: ParseState::ProxyBlockStart, ..s }),
                _ => Err(ParseErr::MissingProxyBlockStart),
            },
            ParseState::ProxiesStart | ParseState::ProxyBlockEnd => match t {
                Token::BlockType(_) => Ok(
                    PSt {
                        st: ParseState::ProxyBlockType,
                        cur_px: ProxyV { p_type: consumed(s, lens), parameters: Seq::empty() },
                        ..advanced(s, lens)
                    },
                ),
                Token::BlockEnd => Ok(PSt { st: ParseState::ProxiesEnd, ..s }),
                Token::ParamType(_) => Err(ParseErr::ParamWithoutProxy),
                Token::BlockStart => Err(ParseErr::BlockWithoutTag),
                _ => Err(ParseErr::UnexpectedToken),
            },
            ParseState::ShaderBlockStart | ParseState::ShaderParamValue
                | ParseState::FallBlockEnd | ParseState::ProxiesEnd => match t {
                Token::BlockEnd => Ok(PSt { st: ParseState::ShaderBlockEnd, ..s }),
                Token::BlockType(_) => {
                    if is_proxies(els, s.elc, lens[s.ti] as int) {
                        Ok(PSt { st: ParseState::ProxiesDecl, ..advanced(s, lens) })
                    } else {
                        match spec_fall_cond(els, s.elc, lens[s.ti] as int) {
                            Some((cond, ftr)) => Ok(
                                PSt {
                                    st: ParseState::FallBlockType,
                                    cur_fb: FallbackV {
                                        f_cond: cond,
                                        f_type: ftr,
                                        parameters: Seq::empty(),
                                    },
                                    ..advanced(s, lens)
                                },
                            ),
                            None => Err(ParseErr::InvalidSecondLevelName),
                        }
                    }
                },
                Token::ParamType(_) => Ok(
                    PSt {
                        st: ParseState::ShaderParamType,
                        key: consumed(s, lens),
                        ..advanced(s, lens)
                    },
                ),
                _ => Err(ParseErr::UnexpectedToken),
            },
            ParseState::ProxyBlockStart | ParseState::ProxyParamValue => match t {
                Token::ParamType(_) => Ok(
                    PSt {
                        st: ParseState::ProxyParamType,
                        key: consumed(s, lens),
                        ..advanced(s, lens)
                    },
                ),
                Token::BlockEnd => Ok(
                    PSt {
                        st: ParseState::ProxyBlockEnd,
                        pxs: s.pxs.push(s.cur_px),
                        cur_px: ProxyV { p_type: zero_range(), parameters: Seq::empty() },
                        ..s
                    },
                ),
                _ => Err(ParseErr::UnexpectedToken),
            },
            ParseState::FallBlockStart | ParseState::FallParamValue => match t {
                Token::ParamType(_) => Ok(
                    PSt {
                        st: ParseState::FallParamType,
                        key: consumed(s, lens),
                        ..advanced(s, lens)
                    },
                ),
                Token::BlockEnd => Ok(
                    PSt {
                        st: ParseState::FallBlockEnd,
                        fbs: s.fbs.push(s.cur_fb),
                        cur_fb: FallbackV {
                            f_cond: FallCond::HellIfIKnow,
                            f_type: zero_range(),
                            parameters: Seq::empty(),
                        },
                        ..s
                    },
                ),
                _ => Err(ParseErr::UnexpectedToken),
            },
            ParseState::ShaderParamType => match t {
                Token::ParamValue(_) => Ok(
                    PSt {
                        st: ParseState::ShaderParamValue,
                        params: s.params.push(
                            Parameter { p_type: s.key, value: consumed(s, lens) },
                        ),
                        key: zero_range(),
                        ..advanced(s, lens)
                    },
                ),
                _ => Err(ParseErr::MissingParamValue),
            },
            ParseState::FallParamType => match t {
                Token::ParamValue(_) => Ok(
                    PSt {
                        st: ParseState::FallParamValue,
                        cur_fb: FallbackV {
                            parameters: s.cur_fb.parameters.push(
                                Parameter { p_type: s.key, value: consumed(s, lens) },
                            ),
                            ..s.cur_fb
                        },
                        key: zero_range(),
                        ..advanced(s, lens)
                    },
                ),
                _ => Err(ParseErr::MissingParamValue),
            },
            ParseState::ProxyParamType => match t {
                Token::ParamValue(_) => Ok(
                    PSt {
                        st: ParseState::ProxyParamValue,
                        cur_px: ProxyV {
                            parameters: s.cur_px.parameters.push(
                                Parameter { p_type: s.key, value: consumed(s, lens) },
                            ),
                            ..s.cur_px
                        },
                        key: zero_range(),
                        ..advanced(s, lens)
                    },
                ),
                _ => Err(ParseErr::MissingParamValue),
            },
            ParseState::ShaderBlockEnd => Err(ParseErr::UnexpectedAfterEnd),
        },
    }
}

/// The end of the token list: only the terminal state yields a document;
/// anything else left a block open.
pub open spec fn parse_finish(s: PSt) -> Result<ShaderV, ParseErr> {
    if s.st is ShaderBlockEnd {
        Ok(ShaderV { s_type: s.s_type, parameters: s.params, fallbacks: s.fbs, proxies: s.pxs })
    } else {
        Err(ParseErr::UnclosedBlock)
    }
}

/// The parse of the tokens from position `k` onward, started in state `s`.
pub open spec fn parse_from(
    toks: Seq<Token>,
    k: int,
    s: PSt,
    els: Seq<u8>,
    lens: Seq<usize>,
) -> Result<ShaderV, ParseErr>
    decreases toks.len() - k,
{
    if k < 0 || k >= toks.len() {
        parse_finish(s)
    } else {
        match parse_step(s, toks[k], els, lens) {
            Err(e) => Err(e),
            Ok(s2) => parse_from(toks, k + 1, s2, els, lens),
        }
    }
}

/// The document the token list denotes over the given element buffer, or
/// the first syntactic fault found.
pub open spec fn spec_parse(toks: Seq<Token>, els: Seq<u8>, lens: Seq<usize>) -> Result<
    ShaderV,
    ParseErr,
> {
    parse_from(toks, 0, parse_init(), els, lens)
}

/// The parser's state after the tokens from position `k` on, when no
/// token faults: the fold of `parse_step` without the final closed-state
/// check.
pub open spec fn parse_run(
    toks: Seq<Token>,
    k: int,
    s: PSt,
    els: Seq<u8>,
    lens: Seq<usize>,
) -> Result<PSt, ParseErr>
    decreases toks.len() - k,
{
    if k < 0 || k >= toks.len() {
        Ok(s)
    } else {
        match parse_step(s, toks[k], els, lens) {
            Err(e) => Err(e),
            Ok(s2) => parse_run(toks, k + 1, s2, els, lens),
        }
    }
}

/// A parse is its token fold followed by the final closed-state check.
pub proof fn lemma_parse_from_is_run(
    toks: Seq<Token>,
    k: int,
    s: PSt,
    els: Seq<u8>,
    lens: Seq<usize>,
)
    ensures
        parse_from(toks, k, s, els, lens) == (match parse_run(toks, k, s, els, lens) {
            Err(e) => Err::<ShaderV, ParseErr>(e),
            Ok(s2) => parse_finish(s2),
        }),
    decreases toks.len() - k,
{
    if 0 <= k < toks.len() {
        match parse_step(s, toks[k], els, lens) {
            Err(_) => {},
            Ok(s2) => {
                lemma_parse_from_is_run(toks, k + 1, s2, els, lens);
            },
        }
    }
}

/// Running the fold over the whole list is running it over the first `k`
/// tokens and then over the rest from whatever state that reached.
pub proof fn lemma_parse_run_splits(
    toks: Seq<Token>,
    j: int,
    k: int,
    s: PSt,
    els: Seq<u8>,
    lens: Seq<usize>,
)
    requires
        0 <= j <= k <= toks.len(),
    ensures
        parse_run(toks, j, s, els, lens) == (match parse_run(toks.take(k), j, s, els, lens) {
            Err(e) => Err::<PSt, ParseErr>(e),
            Ok(s2) => parse_run(toks, k, s2, els, lens),
        }),
    decreases k - j,
{
    if j < k {
        assert(toks.take(k)[j] == toks[j]);
        match parse_step(s, toks[j], els, lens) {
            Err(_) => {},
            Ok(s2) => {
                lemma_parse_run_splits(toks, j + 1, k, s2, els, lens);
            },
        }
    }
}

/// The unclosed-block law: when every token is consumed without fault but
/// the parse does not end in the terminal closed state — mid-parameter,
/// inside an unclosed fallback or proxy, or missing the top-level closing
/// brace — the whole parse fails as an unclosed block and no document is
/// produced.
pub proof fn lemma_unclosed_block(toks: Seq<Token>, els: Seq<u8>, lens: Seq<usize>)
    requires
        parse_run(toks, 0, parse_init(), els, lens) is Ok,
        !(parse_run(toks, 0, parse_init(), els, lens)->Ok_0.st is ShaderBlockEnd),
    ensures
        spec_parse(toks, els, lens) == Err::<ShaderV, ParseErr>(ParseErr::UnclosedBlock),
{
    lemma_parse_from_is_run(toks, 0, parse_init(), els, lens);
}

/// The named-fault law: the first token that arrives in a state that does
/// not expect it aborts the whole parse at once with that state's named
/// fault — no later token is consumed and no document is produced. Here
/// `s` is the state the fold reached over the first `k` tokens.
pub proof fn lemma_parse_fault_aborts(
    toks: Seq<Token>,
    k: int,
    s: PSt,
    els: Seq<u8>,
    lens: Seq<usize>,
)
    requires
        0 <= k < toks.len(),
        parse_run(toks.take(k), 0, parse_init(), els, lens) == Ok::<PSt, ParseErr>(s),
        parse_step(s, toks[k], els, lens) is Err,
    ensures
        spec_parse(toks, els, lens) == Err::<ShaderV, ParseErr>(
            parse_step(s, toks[k], els, lens)->Err_0,
        ),
{
    lemma_parse_run_splits(toks, 0, k, parse_init(), els, lens);
    lemma_parse_from_is_run(toks, 0, parse_init(), els, lens);
}

/// Count of the textual tokens: how many element lengths a parse consumes.
pub open spec fn count_textual(toks: Seq<Token>) -> int
    decreases toks.len(),
{
    if toks.len() == 0 {
        0int
    } else {
        count_textual(toks.drop_last()) + if toks.last().is_textual() {
            1int
        } else {
            0int
        }
    }
}

/// Extending the counted prefix by one token adds one for a textual token.
pub proof fn lemma_count_take_succ(toks: Seq<Token>, k: int)
    requires
        0 <= k < toks.len(),
    ensures
        count_textual(toks.take(k + 1)) == count_textual(toks.take(k)) + if toks[
            k
        ].is_textual() {
            1int
        } else {
            0int
        },
{
    assert(toks.take(k + 1).drop_last() =~= toks.take(k));
}

/// A parse consumes exactly one element length per textual token.
pub proof fn lemma_count_is_ranges(toks: Seq<Token>)
    ensures
        count_textual(toks) == crate::common::token_ranges(toks).len(),
    decreases toks.len(),
{
    if toks.len() > 0 {
        lemma_count_is_ranges(toks.drop_last());
    }
}

/// A counted prefix never exceeds the whole count.
pub proof fn lemma_count_prefix_le(toks: Seq<Token>, k: int)
    requires
        0 <= k <= toks.len(),
    ensures
        count_textual(toks.take(k)) <= count_textual(toks),
    decreases toks.len() - k,
{
    if k == toks.len() {
        assert(toks.take(k) =~= toks);
    } else {
        lemma_count_take_succ(toks, k);
        lemma_count_prefix_le(toks, k + 1);
    }
}

/// True when the element buffer spells "Proxies" at the given range; see
/// [`is_proxies`].
fn check_proxies(els: &[u8], pos: usize, len: usize) -> (b: bool)
    requires
        pos + len <= els@.len(),
    ensures
        b == is_proxies(els@, pos as int, len as int),
{
    len == 7 && els[pos] == 80 && els[pos + 1] == 114 && els[pos + 2] == 111 && els[pos + 3]
        == 120 && els[pos + 4] == 105 && els[pos + 5] == 101 && els[pos + 6] == 115
}

/// Reads the comparison operator off a second-level block name; see
/// [`spec_fall_cond`].
fn read_fall_cond(els: &[u8], pos: usize, len: usize) -> (r: Option<(FallCond, StrRange)>)
    requires
        pos + len <= els@.len(),
    ensures
        r == spec_fall_cond(els@, pos as int, len as int),
{
    if len < 1 {
        None
    } else if els[pos] == BYTE_LT {
        if len >= 2 && els[pos + 1] == BYTE_EQ {
            Some((FallCond::BEqual, StrRange { pos: pos + 2, len: len - 2 }))
        } else {
            Some((FallCond::Below, StrRange { pos: pos + 1, len: len - 1 }))
        }
    } else if els[pos] == BYTE_GT {
        if len >= 2 && els[pos + 1] == BYTE_EQ {
            Some((FallCond::AEqual, StrRange { pos: pos + 2, len: len - 2 }))
        } else {
            Some((FallCond::Above, StrRange { pos: pos + 1, len: len - 1 }))
        }
    } else {
        None
    }
}

impl Shader {
    /// Parses the token list into a document. `element_str` is the
    /// compacted element buffer — the texts of the textual tokens,
    /// concatenated in token order — and `element_lens` their lengths; the
    /// parser recovers every slice from those lengths alone. On success
    /// the document's model equals the parse `spec_parse` describes, and
    /// the fallback and proxy lists are `None` exactly when empty; on a
    /// fault the error carries the matching description.
    pub fn from_raw_parts(
        tokens: &Vec<Token>,
        element_str: &[u8],
        element_lens: &Vec<usize>,
    ) -> (r: Result<Shader, VMTError>)
        requires
            element_lens@.len() == count_textual(tokens@),
            crate::common::sum_lens(element_lens@) == element_str@.len(),
        ensures
            match spec_parse(tokens@, element_str@, element_lens@) {
                Ok(sv) => r matches Ok(sh) && sh@ == sv && (sh.fallbacks is None <==> sv.fallbacks.len() == 0) && (sh.proxies is None <==> sv.proxies.len() == 0),
                Err(k) => r matches Err(e) && parse_err_matches(e, k),
            },
    {
        let ghost lens = element_lens@;
        let ghost els = element_str@;
        let mut st = ParseState::Default;
        let mut s_type = StrRange { pos: 0, len: 0 };
        let mut parameters: Vec<Parameter> = Vec::new();
        let mut fallbacks_vec: Vec<Fallback> = Vec::new();
        let mut proxies_vec: Vec<Proxy> = Vec::new();
        let mut cur_fb_cond = FallCond::HellIfIKnow;
        let mut cur_fb_type = StrRange { pos: 0, len: 0 };
        let mut cur_fb_params: Vec<Parameter> = Vec::new();
        let mut cur_px_type = StrRange { pos: 0, len: 0 };
        let mut cur_px_params: Vec<Parameter> = Vec::new();
        let mut key = StrRange { pos: 0, len: 0 };
        let mut ti: usize = 0;
        let mut elc: usize = 0;
        let mut k: usize = 0;
        let n_els = element_str.len();
        let n_lens = element_lens.len();
        proof {
            assert(tokens@.take(0) =~= Seq::<Token>::empty());
            assert(lens.take(0) =~= Seq::<usize>::empty());
            assert(fallbacks_vec@.map_values(|f: Fallback| f@) =~= Seq::<FallbackV>::empty());
            assert(proxies_vec@.map_values(|p: Proxy| p@) =~= Seq::<ProxyV>::empty());
            assert(PSt {
                st: ParseState::Default,
                s_type: StrRange { pos: 0, len: 0 },
                params: parameters@,
                fbs: fallbacks_vec@.map_values(|f: Fallback| f@),
                pxs: proxies_vec@.map_values(|p: Proxy| p@),
                cur_fb: FallbackV {
                    f_cond: FallCond::HellIfIKnow,
                    f_type: StrRange { pos: 0, len: 0 },
                    parameters: cur_fb_params@,
                },
                cur_px: ProxyV {
                    p_type: StrRange { pos: 0, len: 0 },
                    parameters: cur_px_params@,
                },
                key: StrRange { pos: 0, len: 0 },
                ti: 0,
                elc: 0,
            } == parse_init());
        }
        while k < tokens.len()
            invariant
                k <= tokens@.len(),
                element_lens@ == lens,
                element_str@ == els,
                els.len() == n_els,
                lens.len() == n_lens,
                lens.len() == count_textual(tokens@),
                crate::common::sum_lens(lens) == els.len(),
                ti == count_textual(tokens@.take(k as int)),
                ti <= lens.len(),
                elc == crate::common::sum_lens(lens.take(ti as int)),
                elc <= els.len(),
                spec_parse(tokens@, els, lens) == parse_from(
                    tokens@,
                    k as int,
                    PSt {
                        st,
                        s_type,
                        params: parameters@,
                        fbs: fallbacks_vec@.map_values(|f: Fallback| f@),
                        pxs: proxies_vec@.map_values(|p: Proxy| p@),
                        cur_fb: FallbackV {
                            f_cond: cur_fb_cond,
                            f_type: cur_fb_type,
                            parameters: cur_fb_params@,
                        },
                        cur_px: ProxyV { p_type: cur_px_type, parameters: cur_px_params@ },
                        key,
                        ti: ti as int,
                        elc: elc as int,
                    },
                    els,
                    lens,
                ),
            decreases tokens@.len() - k,
        {
            let ghost g = PSt {
                st,
                s_type,
                params: parameters@,
                fbs: fallbacks_vec@.map_values(|f: Fallback| f@),
                pxs: proxies_vec@.map_values(|p: Proxy| p@),
                cur_fb: FallbackV {
                    f_cond: cur_fb_cond,
                    f_type: cur_fb_type,
                    parameters: cur_fb_params@,
                },
                cur_px: ProxyV { p_type: cur_px_type, parameters: cur_px_params@ },
                key,
                ti: ti as int,
                elc: elc as int,
            };
            let t = tokens[k];
            proof {
                lemma_count_take_succ(tokens@, k as int);
                lemma_count_prefix_le(tokens@, k as int + 1);
                if t.is_textual() {
                    assert(ti < lens.len());
                    crate::common::lemma_sum_take_succ(lens, ti as int);
                    crate::common::lemma_sum_prefix_le(lens, ti as int + 1);
                    assert(elc + lens[ti as int] <= els.len());
                }
            }
            match t {
                Token::Start | Token::End => {},
                _ => {
                    match st {
                        ParseState::Default => match t {
                            Token::BlockType(_) => {
                                st = ParseState::ShaderType;
                                s_type = StrRange { pos: elc, len: element_lens[ti] };
                                elc = elc + element_lens[ti];
                                ti = ti + 1;
                            },
                            _ => {
                                return Err(VMTError::SyntaxError("Missing shader type"));
                            },
                        },
                        ParseState::ProxiesDecl => match t {
                            Token::BlockStart => {
                                st = ParseState::ProxiesStart;
                            },
                            _ => {
                                return Err(
                                    VMTError::SyntaxError("Missing proxies block start: {"),
                                );
                            },
                        },
                        ParseState::ShaderType => match t {
                            Token::BlockStart => {
                                st = ParseState::ShaderBlockStart;
                            },
                            _ => {
                                return Err(VMTError::SyntaxError("Missing block start: {"));
                            },
                        },
                        ParseState::FallBlockType => match t {
                            Token::BlockStart => {
                                st = ParseState::FallBlockStart;
                            },
                            _ => {
                                return Err(
                                    VMTError::SyntaxError("Missing fallback block start: {"),
                                );
                            },
                        },
                        ParseState::ProxyBlockType => match t {
                            Token::BlockStart => {
                                st = ParseState::ProxyBlockStart;
                            },
                            _ => {
                                return Err(
                                    VMTError::SyntaxError("Missing proxy block start: {"),
                                );
                            },
                        },
                        ParseState::ProxiesStart | ParseState::ProxyBlockEnd => match t {
                            Token::BlockType(_) => {
                                st = ParseState::ProxyBlockType;
                                cur_px_type = StrRange { pos: elc, len: element_lens[ti] };
                                cur_px_params = Vec::new();
                                elc = elc + element_lens[ti];
                                ti = ti + 1;
                            },
                            Token::BlockEnd => {
                                st = ParseState::ProxiesEnd;
                            },
                            Token::ParamType(_) => {
                                return Err(
                                    VMTError::SyntaxError(
                                        "Parameter exists in \"Proxies\" block without corresponding proxy",
                                    ),
                                );
                            },
                            Token::BlockStart => {
                                return Err(
                                    VMTError::SyntaxError(
                                        "Block exists inside of \"Proxies\" without block tag",
                                    ),
                                );
                            },
                            _ => {
                                return Err(VMTError::SyntaxError("Unexpected token"));
                            },
                        },
                        ParseState::ShaderBlockStart | ParseState::ShaderParamValue
                            | ParseState::FallBlockEnd | ParseState::ProxiesEnd => match t {
                            Token::BlockEnd => {
                                st = ParseState::ShaderBlockEnd;
                            },
                            Token::BlockType(_) => {
                                let l = element_lens[ti];
                                if check_proxies(element_str, elc, l) {
                                    st = ParseState::ProxiesDecl;
                                    elc = elc + l;
                                    ti = ti + 1;
                                } else {
                                    match read_fall_cond(element_str, elc, l) {
                                        Some(cr) => {
                                            st = ParseState::FallBlockType;
                                            cur_fb_cond = cr.0;
                                            cur_fb_type = cr.1;
                                            cur_fb_params = Vec::new();
                                            elc = elc + l;
                                            ti = ti + 1;
                                        },
                                        None => {
                                            return Err(
                                                VMTError::SyntaxError(
                                                    "Invalid 2nd-level block name: must be a fallback or \"Proxies\"",
                                                ),
                                            );
                                        },
                                    }
                                }
                            },
                            Token::ParamType(_) => {
                                st = ParseState::ShaderParamType;
                                key = StrRange { pos: elc, len: element_lens[ti] };
                                elc = elc + element_lens[ti];
                                ti = ti + 1;
                            },
                            _ => {
                                return Err(VMTError::SyntaxError("Unexpected token"));
                            },
                        },
                        ParseState::ProxyBlockStart | ParseState::ProxyParamValue => match t {
                            Token::ParamType(_) => {
                                st = ParseState::ProxyParamType;
                                key = StrRange { pos: elc, len: element_lens[ti] };
                                elc = elc + element_lens[ti];
                                ti = ti + 1;
                            },
                            Token::BlockEnd => {
                                st = ParseState::ProxyBlockEnd;
                                let ghost old_pxs = proxies_vec@;
                                proxies_vec.push(
                                    Proxy { p_type: cur_px_type, parameters: cur_px_params },
                                );
                                cur_px_type = StrRange { pos: 0, len: 0 };
                                cur_px_params = Vec::new();
                                proof {
                                    assert(proxies_vec@.map_values(|p: Proxy| p@)
                                        =~= old_pxs.map_values(|p: Proxy| p@).push(g.cur_px));
                                }
                            },
                            _ => {
                                return Err(VMTError::SyntaxError("Unexpected token"));
                            },
                        },
                        ParseState::FallBlockStart | ParseState::FallParamValue => match t {
                            Token::ParamType(_) => {
                                st = ParseState::FallParamType;
                                key = StrRange { pos: elc, len: element_lens[ti] };
                                elc = elc + element_lens[ti];
                                ti = ti + 1;
                            },
                            Token::BlockEnd => {
                                st = ParseState::FallBlockEnd;
                                let ghost old_fbs = fallbacks_vec@;
                                fallbacks_vec.push(
                                    Fallback {
                                        f_cond: cur_fb_cond,
                                        f_type: cur_fb_type,
                                        parameters: cur_fb_params,
                                    },
                                );
                                cur_fb_cond = FallCond::HellIfIKnow;
                                cur_fb_type = StrRange { pos: 0, len: 0 };
                                cur_fb_params = Vec::new();
                                proof {
                                    assert(fallbacks_vec@.map_values(|f: Fallback| f@)
                                        =~= old_fbs.map_values(|f: Fallback| f@).push(g.cur_fb));
                                }
                            },
                            _ => {
                                return Err(VMTError::SyntaxError("Unexpected token"));
                            },
                        },
                        ParseState::ShaderParamType => match t {
                            Token::ParamValue(_) => {
                                st = ParseState::ShaderParamValue;
                                parameters.push(
                                    Parameter {
                                        p_type: key,
                                        value: StrRange { pos: elc, len: element_lens[ti] },
                                    },
                                );
                                key = StrRange { pos: 0, len: 0 };
                                elc = elc + element_lens[ti];
                                ti = ti + 1;
                            },
                            _ => {
                                return Err(VMTError::SyntaxError("Missing parameter value"));
                            },
                        },
                        ParseState::FallParamType => match t {
                            Token::ParamValue(_) => {
                                st = ParseState::FallParamValue;
                                cur_fb_params.push(
                                    Parameter {
                                        p_type: key,
                                        value: StrRange { pos: elc, len: element_lens[ti] },
                                    },
                                );
                                key = StrRange { pos: 0, len: 0 };
                                elc = elc + element_lens[ti];
                                ti = ti + 1;
                            },
                            _ => {
                                return Err(VMTError::SyntaxError("Missing parameter value"));
                            },
                        },
                        ParseState::ProxyParamType => match t {
                            Token::ParamValue(_) => {
                                st = ParseState::ProxyParamValue;
                                cur_px_params.push(
                                    Parameter {
                                        p_type: key,
                                        value: StrRange { pos: elc, len: element_lens[ti] },
                                    },
                                );
                                key = StrRange { pos: 0, len: 0 };
                                elc = elc + element_lens[ti];
                                ti = ti + 1;
                            },
                            _ => {
                                return Err(VMTError::SyntaxError("Missing parameter value"));
                            },
                        },
                        ParseState::ShaderBlockEnd => {
                            return Err(
                                VMTError::SyntaxError("Unexpected token after shader block end"),
                            );
                        },
                    }
                },
            }
            proof {
                assert(parse_step(g, t, els, lens) == Ok::<PSt, ParseErr>(
                    PSt {
                        st,
                        s_type,
                        params: parameters@,
                        fbs: fallbacks_vec@.map_values(|f: Fallback| f@),
                        pxs: proxies_vec@.map_values(|p: Proxy| p@),
                        cur_fb: FallbackV {
                            f_cond: cur_fb_cond,
                            f_type: cur_fb_type,
                            parameters: cur_fb_params@,
                        },
                        cur_px: ProxyV { p_type: cur_px_type, parameters: cur_px_params@ },
                        key,
                        ti: ti as int,
                        elc: elc as int,
                    },
                ));
            }
            k = k + 1;
        }
        if st != ParseState::ShaderBlockEnd {
            return Err(VMTError::UnclosedBlock);
        }
        let fallbacks = if fallbacks_vec.len() == 0 {
            proof {
                assert(fallbacks_vec@.map_values(|f: Fallback| f@) =~= Seq::<FallbackV>::empty());
            }
            None
        } else {
            Some(fallbacks_vec)
        };
        let proxies = if proxies_vec.len() == 0 {
            proof {
                assert(proxies_vec@.map_values(|p: Proxy| p@) =~= Seq::<ProxyV>::empty());
            }
            None
        } else {
            Some(proxies_vec)
        };
        Ok(Shader { s_type, parameters, fallbacks, proxies })
    }

    /// The shader's type name.
    pub fn get_type(&self) -> (r: StrRange)
        ensures
            r == self.s_type,
    {
        self.s_type
    }

    /// The shader's parameters, in source order.
    pub fn get_parameters(&self) -> (r: &Vec<Parameter>)
        ensures
            r@ == self@.parameters,
    {
        &self.parameters
    }

    /// The fallback blocks, if any were present.
    pub fn get_fallbacks(&self) -> (r: Option<&Vec<Fallback>>)
        ensures
            r is Some <==> self.fallbacks is Some,
            r matches Some(v) ==> v@.map_values(|f: Fallback| f@) == self@.fallbacks,
    {
        match &self.fallbacks {
            Some(f) => Some(f),
            None => None,
        }
    }

    /// The proxy blocks, if any were present.
    pub fn get_proxies(&self) -> (r: Option<&Vec<Proxy>>)
        ensures
            r is Some <==> self.proxies is Some,
            r matches Some(v) ==> v@.map_values(|p: Proxy| p@) == self@.proxies,
    {
        match &self.proxies {
            Some(p) => Some(p),
            None => None,
        }
    }
}

} // verus!

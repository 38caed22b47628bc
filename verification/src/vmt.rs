//! The material-file pipeline: the lexer's tokens are compacted into one
//! element buffer and parsed into a `Shader` document whose strings are
//! ranges into that buffer.

use vstd::prelude::*;

pub mod error;
pub mod format;

use crate::common::{
    concat_texts, lemma_concat_len, lemma_spec_lex_wf, lemma_token_ranges_in_bounds, lens_of,
    spec_lex, token_ranges, lex_err_matches, Lexer, StrRange, Token,
};
use crate::vmt::error::{VMTError, VMTLoadError};
use crate::vmt::format::{
    lemma_count_is_ranges, parse_err_matches, spec_parse, Shader,
};

verus! {

/// The compacted element buffer of a token list: the texts of its textual
/// tokens, concatenated in token order with nothing between them.
pub open spec fn spec_elements(toks: Seq<Token>, src: Seq<u8>) -> Seq<u8> {
    concat_texts(token_ranges(toks), src)
}

/// The recorded length of each textual token's text, in token order.
pub open spec fn spec_element_lens(toks: Seq<Token>) -> Seq<usize> {
    lens_of(token_ranges(toks))
}

/// A loaded material file: the one owned buffer holding every meaningful
/// substring, and the document whose ranges point into it.
pub struct VMTFile {
    /// The compacted element buffer: all of the document's strings,
    /// back to back, so that every `StrRange` of the shader resolves
    /// against this one allocation.
    pub vmt_els: Vec<u8>,
    /// The parsed document.
    pub shader: Shader,
}

/// Builds the compacted element buffer and the list of element lengths
/// from the token list: one slice of the source per textual token, in
/// token order.
fn compact_elements(source: &[u8], tokens: &Vec<Token>) -> (r: (Vec<u8>, Vec<usize>))
    requires
        forall|j: int|
            0 <= j < tokens@.len() ==> crate::common::inner_range(
                #[trigger] tokens@[j],
            ).in_bounds(source@.len() as int),
    ensures
        r.0@ == spec_elements(tokens@, source@),
        r.1@ == spec_element_lens(tokens@),
{
    let mut els: Vec<u8> = Vec::new();
    let mut lens: Vec<usize> = Vec::new();
    let mut i: usize = 0;
    let n_src = source.len();
    proof {
        assert(tokens@.take(0) =~= Seq::<Token>::empty());
    }
    while i < tokens.len()
        invariant
            i <= tokens@.len(),
            source@.len() == n_src,
            forall|j: int|
                0 <= j < tokens@.len() ==> crate::common::inner_range(
                    #[trigger] tokens@[j],
                ).in_bounds(source@.len() as int),
            els@ == concat_texts(token_ranges(tokens@.take(i as int)), source@),
            lens@ == lens_of(token_ranges(tokens@.take(i as int))),
        decreases tokens@.len() - i,
    {
        let ghost pre = tokens@.take(i as int);
        let t = tokens[i];
        proof {
            assert(tokens@.take(i as int + 1).drop_last() =~= pre);
            assert(tokens@.take(i as int + 1).last() == tokens@[i as int]);
        }
        match t.get_inner_str() {
            Some(rg) => {
                proof {
                    assert(crate::common::inner_range(tokens@[i as int]) == rg);
                    assert(rg.in_bounds(source@.len() as int));
                }
                let piece = vstd::slice::slice_subrange(source, rg.pos, rg.pos + rg.len);
                els.extend_from_slice(piece);
                lens.push(rg.len);
                proof {
                    let rs1 = token_ranges(tokens@.take(i as int + 1));
                    assert(rs1 == token_ranges(pre).push(rg));
                    assert(rs1.drop_last() =~= token_ranges(pre));
                    assert(els@ == concat_texts(rs1, source@));
                    assert(lens@ =~= lens_of(rs1));
                }
            },
            None => {
                proof {
                    assert(token_ranges(tokens@.take(i as int + 1)) == token_ranges(pre));
                }
            },
        }
        i = i + 1;
    }
    proof {
        assert(tokens@.take(tokens@.len() as int) =~= tokens@);
    }
    (els, lens)
}

impl VMTFile {
    /// Reads a material document out of its full text: the text is lexed
    /// eagerly, its meaningful substrings are compacted into one owned
    /// buffer, and the token list is parsed into the document. On success
    /// the document's model equals the parse of the lexed tokens over the
    /// compacted buffer; every fault of the lexer or parser comes back
    /// with its own description, wrapped as a material error.
    pub fn open(source: &[u8]) -> (r: Result<VMTFile, VMTLoadError>)
        ensures
            match spec_lex(source@) {
                Err(k) => r matches Err(VMTLoadError::VMT(e)) && lex_err_matches(e, k),
                Ok(toks) => ({
                    let els = spec_elements(toks, source@);
                    let lens = spec_element_lens(toks);
                    match spec_parse(toks, els, lens) {
                        Ok(sv) => r matches Ok(f) && f.vmt_els@ == els && f.shader@ == sv && (
                        f.shader.fallbacks is None <==> sv.fallbacks.len() == 0) && (
                        f.shader.proxies is None <==> sv.proxies.len() == 0),
                        Err(k) => r matches Err(VMTLoadError::VMT(e)) && parse_err_matches(e, k),
                    }
                }),
            },
    {
        let n_src = source.len();
        proof {
            assert(source@.len() == n_src);
        }
        let lexer = match Lexer::new(source) {
            Ok(l) => l,
            Err(e) => {
                return Err(VMTLoadError::VMT(e));
            },
        };
        proof {
            lemma_spec_lex_wf(source@);
            lemma_token_ranges_in_bounds(lexer.tokens@, source@.len() as int);
        }
        let (els, lens) = compact_elements(source, &lexer.tokens);
        proof {
            lemma_count_is_ranges(lexer.tokens@);
            lemma_concat_len(token_ranges(lexer.tokens@), source@);
        }
        match Shader::from_raw_parts(&lexer.tokens, els.as_slice(), &lens) {
            Ok(shader) => Ok(VMTFile { vmt_els: els, shader }),
            Err(e) => Err(VMTLoadError::VMT(e)),
        }
    }

    /// The parsed document.
    pub fn get_shader(&self) -> (r: &Shader)
        ensures
            r == &self.shader,
    {
        &self.shader
    }

    /// Resolves a range of the document against the owned element buffer:
    /// the read-time view of a zero-copy string.
    pub fn get_str(&self, r: StrRange) -> (b: &[u8])
        requires
            r.in_bounds(self.vmt_els@.len() as int),
        ensures
            b@ == r.text_of(self.vmt_els@),
    {
        let n = self.vmt_els.len();
        proof {
            assert(r.pos + r.len <= n);
        }
        vstd::slice::slice_subrange(self.vmt_els.as_slice(), r.pos, r.pos + r.len)
    }
}

} // verus!

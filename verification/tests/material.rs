//! Tests of the material pipeline: lexing, parsing, the compacted
//! element buffer, and the typed errors.

use sorcent::common::{Lexer, StrRange, Token};
use sorcent::vmt::error::{VMTError, VMTLoadError};
use sorcent::vmt::format::{FallCond, Parameter};
use sorcent::vmt::VMTFile;

fn text<'a>(src: &'a [u8], r: StrRange) -> &'a [u8] {
    &src[r.pos..r.pos + r.len]
}

#[test]
fn lex_minimal_block() {
    let src = b"\"a\" { \"b\" \"c\" }";
    let lx = Lexer::new(src).unwrap();
    let t = &lx.tokens;
    assert_eq!(t.len(), 7);
    assert!(matches!(t[0], Token::Start));
    match t[1] {
        Token::BlockType(r) => assert_eq!(text(src, r), b"a"),
        _ => panic!("expected a block name"),
    }
    assert!(matches!(t[2], Token::BlockStart));
    match t[3] {
        Token::ParamType(r) => assert_eq!(text(src, r), b"b"),
        _ => panic!("expected a parameter key"),
    }
    match t[4] {
        Token::ParamValue(r) => assert_eq!(text(src, r), b"c"),
        _ => panic!("expected a parameter value"),
    }
    assert!(matches!(t[5], Token::BlockEnd));
    assert!(matches!(t[6], Token::End));
}

#[test]
fn lex_unquoted_and_comments() {
    let src = b"// header comment\nLightmapped { $base wood // trail\n }";
    let lx = Lexer::new(src).unwrap();
    let t = &lx.tokens;
    assert!(matches!(t[0], Token::Start));
    match t[1] {
        Token::BlockType(r) => assert_eq!(text(src, r), b"Lightmapped"),
        _ => panic!("expected a block name"),
    }
    assert!(matches!(t[2], Token::BlockStart));
    match t[3] {
        Token::ParamType(r) => assert_eq!(text(src, r), b"$base"),
        _ => panic!("expected a parameter key"),
    }
    match t[4] {
        Token::ParamValue(r) => assert_eq!(text(src, r), b"wood"),
        _ => panic!("expected a parameter value"),
    }
    assert!(matches!(t[5], Token::BlockEnd));
    assert!(matches!(t[6], Token::End));
}

#[test]
fn lex_slash_inside_token() {
    let src = b"models/props { }";
    let lx = Lexer::new(src).unwrap();
    match lx.tokens[1] {
        Token::BlockType(r) => assert_eq!(text(src, r), b"models/props"),
        _ => panic!("expected a block name"),
    }
}

#[test]
fn lex_trailing_slash_joins_run() {
    // A '/' that never gets its second '/' is a plain character, also
    // when the input ends right after it.
    let src = b"name/";
    let lx = Lexer::new(src).unwrap();
    match lx.tokens[1] {
        Token::BlockType(r) => assert_eq!(text(src, r), b"name/"),
        _ => panic!("expected a block name"),
    }
    let src = b"a/ { }";
    let lx = Lexer::new(src).unwrap();
    match lx.tokens[1] {
        Token::BlockType(r) => assert_eq!(text(src, r), b"a/"),
        _ => panic!("expected a block name"),
    }
}

#[test]
fn lex_empty_quotes_drop() {
    let src = b"\"a\" { \"\" }";
    let f = VMTFile::open(src).unwrap();
    assert_eq!(f.get_shader().get_parameters().len(), 0);
}

#[test]
fn lex_empty_input() {
    let lx = Lexer::new(b"").unwrap();
    assert!(matches!(lx.tokens[0], Token::Start));
    assert!(matches!(lx.tokens[1], Token::End));
    assert_eq!(lx.tokens.len(), 2);
}

#[test]
fn lex_newline_inside_quote_fails() {
    match Lexer::new(b"\"a\nb\"") {
        Err(VMTError::SyntaxError(m)) => assert_eq!(m, "Unclosed quote"),
        _ => panic!("expected a lexical error"),
    }
}

#[test]
fn lex_invalid_token_sequence() {
    match Lexer::new(b"\"a\" \"b\"") {
        Err(VMTError::SyntaxError(m)) => assert_eq!(m, "Invalid token sequence"),
        _ => panic!("expected a lexical error"),
    }
}

#[test]
fn lex_brace_without_name() {
    match Lexer::new(b"{") {
        Err(VMTError::SyntaxError(m)) => assert_eq!(m, "Block start without a block name"),
        _ => panic!("expected a lexical error"),
    }
}

#[test]
fn token_inner_str() {
    assert!(Token::Start.get_inner_str().is_none());
    assert!(Token::BlockStart.get_inner_str().is_none());
    assert!(Token::BlockEnd.get_inner_str().is_none());
    assert!(Token::End.get_inner_str().is_none());
    let r = StrRange { pos: 2, len: 5 };
    assert_eq!(Token::ParamType(r).get_inner_str(), Some(r));
    assert_eq!(Token::BlockType(r).get_inner_str(), Some(r));
    assert_eq!(Token::ParamValue(r).get_inner_str(), Some(r));
}

#[test]
fn zero_copy_slices_match_source() {
    let src = b"\"a\" { \"$key\" \"some value\" \"k2\" v2 }";
    let lx = Lexer::new(src).unwrap();
    let f = VMTFile::open(src).unwrap();
    // Re-derive every textual token's slice from the compacted buffer
    // offsets and compare against a direct scan of the source text.
    let mut off = 0usize;
    for t in &lx.tokens {
        if let Some(r) = t.get_inner_str() {
            assert_eq!(&f.vmt_els[off..off + r.len], &src[r.pos..r.pos + r.len]);
            off += r.len;
        }
    }
    assert_eq!(off, f.vmt_els.len());
}

#[test]
fn parse_minimal_document() {
    let src = b"Shader { \"$key\" \"value\" }";
    let f = VMTFile::open(src).unwrap();
    let sh = f.get_shader();
    assert_eq!(f.get_str(sh.get_type()), b"Shader");
    let ps = sh.get_parameters();
    assert_eq!(ps.len(), 1);
    assert_eq!(f.get_str(ps[0].get_type()), b"$key");
    assert_eq!(f.get_str(ps[0].get_value()), b"value");
    assert!(sh.get_fallbacks().is_none());
    assert!(sh.get_proxies().is_none());
}

#[test]
fn parse_duplicate_keys_kept_in_order() {
    let src = b"S { \"$k\" \"1\" \"$k\" \"2\" }";
    let f = VMTFile::open(src).unwrap();
    let ps = f.get_shader().get_parameters();
    assert_eq!(ps.len(), 2);
    assert_eq!(f.get_str(ps[0].get_value()), b"1");
    assert_eq!(f.get_str(ps[1].get_value()), b"2");
}

#[test]
fn parse_unterminated_quote_is_lexical_error() {
    match VMTFile::open(b"Shader { \"$key\" \"val }") {
        Err(VMTLoadError::VMT(VMTError::SyntaxError(m))) => assert_eq!(m, "Unclosed quote"),
        _ => panic!("expected a lexical error"),
    }
    // The same holds when more input follows the unterminated quote.
    match VMTFile::open(b"Shader { \"$key\" \"val }\nmore garbage") {
        Err(VMTLoadError::VMT(VMTError::SyntaxError(m))) => assert_eq!(m, "Unclosed quote"),
        _ => panic!("expected a lexical error"),
    }
}

#[test]
fn parse_missing_close_is_unclosed_block() {
    match VMTFile::open(b"Shader { \"$key\" \"value\"") {
        Err(VMTLoadError::VMT(e)) => assert_eq!(e, VMTError::UnclosedBlock),
        _ => panic!("expected an unclosed-block error"),
    }
    match VMTFile::open(b"") {
        Err(VMTLoadError::VMT(e)) => assert_eq!(e, VMTError::UnclosedBlock),
        _ => panic!("expected an unclosed-block error"),
    }
}

#[test]
fn parse_key_without_value_is_syntax_error() {
    match VMTFile::open(b"Shader { \"a\" \"b\" \"c\" }") {
        Err(VMTLoadError::VMT(VMTError::SyntaxError(m))) => {
            assert_eq!(m, "Missing parameter value")
        },
        _ => panic!("expected a syntax error"),
    }
}

#[test]
fn parse_token_after_body_is_syntax_error() {
    match VMTFile::open(b"Shader { } \"x\"") {
        Err(VMTLoadError::VMT(VMTError::SyntaxError(m))) => {
            assert_eq!(m, "Unexpected token after shader block end")
        },
        _ => panic!("expected a syntax error"),
    }
}

#[test]
fn parse_missing_shader_block_start() {
    match VMTFile::open(b"\"a\" }") {
        Err(VMTLoadError::VMT(VMTError::SyntaxError(m))) => {
            assert_eq!(m, "Missing block start: {")
        },
        _ => panic!("expected a syntax error"),
    }
}

#[test]
fn parse_fallback_conditions() {
    let src = b"S { \"$k\" \"v\" \"<90\" { \"fk\" \"fv\" } \">=80\" { } }";
    let f = VMTFile::open(src).unwrap();
    let sh = f.get_shader();
    let fbs = sh.get_fallbacks().expect("fallbacks present");
    assert_eq!(fbs.len(), 2);
    assert_eq!(fbs[0].get_condition(), FallCond::Below);
    assert_eq!(f.get_str(fbs[0].get_type()), b"90");
    let fps = fbs[0].get_parameters();
    assert_eq!(fps.len(), 1);
    assert_eq!(f.get_str(fps[0].get_type()), b"fk");
    assert_eq!(f.get_str(fps[0].get_value()), b"fv");
    assert_eq!(fbs[1].get_condition(), FallCond::AEqual);
    assert_eq!(f.get_str(fbs[1].get_type()), b"80");
    assert_eq!(fbs[1].get_parameters().len(), 0);
}

#[test]
fn parse_fallback_le_and_gt() {
    let src = b"S { \"<=70\" { } \">60\" { } }";
    let f = VMTFile::open(src).unwrap();
    let fbs = f.get_shader().get_fallbacks().expect("fallbacks present");
    assert_eq!(fbs[0].get_condition(), FallCond::BEqual);
    assert_eq!(f.get_str(fbs[0].get_type()), b"70");
    assert_eq!(fbs[1].get_condition(), FallCond::Above);
    assert_eq!(f.get_str(fbs[1].get_type()), b"60");
}

#[test]
fn parse_invalid_second_level_name() {
    match VMTFile::open(b"S { \"NotACondition\" { } }") {
        Err(VMTLoadError::VMT(VMTError::SyntaxError(m))) => {
            assert_eq!(m, "Invalid 2nd-level block name: must be a fallback or \"Proxies\"")
        },
        _ => panic!("expected a syntax error"),
    }
}

#[test]
fn parse_proxies() {
    let src = b"S { \"Proxies\" { \"wave\" { \"pk\" \"pv\" } \"pulse\" { } } }";
    let f = VMTFile::open(src).unwrap();
    let sh = f.get_shader();
    let pxs = sh.get_proxies().expect("proxies present");
    assert_eq!(pxs.len(), 2);
    assert_eq!(f.get_str(pxs[0].get_type()), b"wave");
    let pps = pxs[0].get_parameters();
    assert_eq!(pps.len(), 1);
    assert_eq!(f.get_str(pps[0].get_type()), b"pk");
    assert_eq!(f.get_str(pps[0].get_value()), b"pv");
    assert_eq!(f.get_str(pxs[1].get_type()), b"pulse");
    assert!(sh.get_fallbacks().is_none());
}

#[test]
fn parse_param_directly_in_proxies() {
    match VMTFile::open(b"S { \"Proxies\" { \"k\" \"v\" } }") {
        Err(VMTLoadError::VMT(VMTError::SyntaxError(m))) => {
            assert_eq!(m, "Parameter exists in \"Proxies\" block without corresponding proxy")
        },
        _ => panic!("expected a syntax error"),
    }
}

#[test]
fn parameter_new_keeps_ranges() {
    let k = StrRange { pos: 0, len: 2 };
    let v = StrRange { pos: 2, len: 3 };
    let p = Parameter::new(k, v);
    assert_eq!(p.get_type(), k);
    assert_eq!(p.get_value(), v);
}

#[test]
fn fallcond_default_is_placeholder() {
    assert_eq!(FallCond::default(), FallCond::HellIfIKnow);
}

#[test]
fn vmt_error_descriptions() {
    assert_eq!(
        VMTError::UnclosedBlock.description(),
        "Unclosed Block; missing \"}\"",
    );
    assert_eq!(VMTError::InvalidToken.description(), "Invalid token");
    assert_eq!(VMTError::SyntaxError("x").description(), "Syntax Error");
    assert_eq!(
        VMTError::UnknownShader(String::from("s")).description(),
        "Unknown Shader found",
    );
    assert_eq!(
        VMTError::UnknownParameter(String::from("p")).description(),
        "Unknown Parameter found",
    );
}

//! Tokenization of source text.
//!
//! The lexer turns the character stream into a token stream: identifiers
//! (keywords stay ordinary identifiers), numeric and string literals,
//! operators and punctuation.  Whitespace and line comments separate
//! tokens and are dropped.  Any other character is a syntax error, which
//! aborts the whole file.

use vstd::prelude::*;
use vstd::string::StrSliceExecFns;
use crate::errors::TranspileError;
use crate::text::{sp_is_digit, sp_is_upper, sp_is_lower};

verus! {

/// Model of [`Tok`].
#[verifier::ext_equal]
pub enum TokV {
    Ident(Seq<char>),
    Num(Seq<char>),
    Str(Seq<char>),
    Op(Seq<char>),
    LBrace,
    RBrace,
    LParen,
    RParen,
    LBrack,
    RBrack,
    Semi,
    Comma,
    Dot,
    Assign,
    Arrow,
}

/// One token of the source language.
#[derive(Debug)]
pub enum Tok {
    Ident(String),
    Num(String),
    Str(String),
    Op(String),
    LBrace,
    RBrace,
    LParen,
    RParen,
    LBrack,
    RBrack,
    Semi,
    Comma,
    Dot,
    Assign,
    Arrow,
}

impl DeepView for Tok {
    type V = TokV;

    open spec fn deep_view(&self) -> TokV {
        match self {
            Tok::Ident(s) => TokV::Ident(s@),
            Tok::Num(s) => TokV::Num(s@),
            Tok::Str(s) => TokV::Str(s@),
            Tok::Op(s) => TokV::Op(s@),
            Tok::LBrace => TokV::LBrace,
            Tok::RBrace => TokV::RBrace,
            Tok::LParen => TokV::LParen,
            Tok::RParen => TokV::RParen,
            Tok::LBrack => TokV::LBrack,
            Tok::RBrack => TokV::RBrack,
            Tok::Semi => TokV::Semi,
            Tok::Comma => TokV::Comma,
            Tok::Dot => TokV::Dot,
            Tok::Assign => TokV::Assign,
            Tok::Arrow => TokV::Arrow,
        }
    }
}

/// The outcome of tokenization: the token models, or a failure.
#[verifier::ext_equal]
pub enum LexOut {
    Toks(Seq<TokV>),
    Fail,
}

/// Whether `c` is horizontal or vertical whitespace.
pub open spec fn sp_is_space(c: char) -> bool {
    c == ' ' || c == '\t' || c == '\r' || c == '\n'
}

/// Whether `c` may start an identifier.
pub open spec fn sp_is_ident_start(c: char) -> bool {
    sp_is_upper(c) || sp_is_lower(c) || c == '_'
}

/// Whether `c` may continue an identifier.
pub open spec fn sp_is_ident_char(c: char) -> bool {
    sp_is_ident_start(c) || sp_is_digit(c)
}

/// Whether `c` is a single-character operator lexeme.
pub open spec fn sp_is_op_char(c: char) -> bool {
    c == '+' || c == '-' || c == '*' || c == '/' || c == '%' || c == '<' || c == '>' || c == '!'
        || c == '&' || c == '|'
}

/// The first position at or after `i` whose character fails `pred`-style
/// scanning for identifiers; `s.len()` if none.
pub open spec fn sp_ident_end(s: Seq<char>, i: int) -> int
    decreases s.len() - i,
{
    if i < 0 || i >= s.len() {
        s.len() as int
    } else if sp_is_ident_char(s[i]) {
        sp_ident_end(s, i + 1)
    } else {
        i
    }
}

/// The first position at or after `i` holding a non-digit; `s.len()` if
/// none.
pub open spec fn sp_num_end(s: Seq<char>, i: int) -> int
    decreases s.len() - i,
{
    if i < 0 || i >= s.len() {
        s.len() as int
    } else if sp_is_digit(s[i]) {
        sp_num_end(s, i + 1)
    } else {
        i
    }
}

/// The first position at or after `i` holding a line break; `s.len()` if
/// none.
pub open spec fn sp_line_end(s: Seq<char>, i: int) -> int
    decreases s.len() - i,
{
    if i < 0 || i >= s.len() {
        s.len() as int
    } else if s[i] == '\n' {
        i
    } else {
        sp_line_end(s, i + 1)
    }
}

/// The position of the closing quote at or after `i`; `s.len()` if the
/// string literal is unterminated.
pub open spec fn sp_quote_end(s: Seq<char>, i: int) -> int
    decreases s.len() - i,
{
    if i < 0 || i >= s.len() {
        s.len() as int
    } else if s[i] == '"' {
        i
    } else {
        sp_quote_end(s, i + 1)
    }
}

/// Scan positions stay between their start and the end of the input.
pub proof fn lemma_scan_bounds(s: Seq<char>, i: int)
    requires
        0 <= i <= s.len(),
    ensures
        i <= sp_ident_end(s, i) <= s.len(),
        i <= sp_num_end(s, i) <= s.len(),
        i <= sp_line_end(s, i) <= s.len(),
        i <= sp_quote_end(s, i) <= s.len(),
    decreases s.len() - i,
{
    if i < s.len() {
        lemma_scan_bounds(s, i + 1);
    }
}

/// Prepending one token to a tokenization outcome.
pub open spec fn sp_lex_cons(t: TokV, rest: LexOut) -> LexOut {
    match rest {
        LexOut::Toks(ts) => LexOut::Toks(seq![t] + ts),
        LexOut::Fail => LexOut::Fail,
    }
}

/// Tokenization of `s` from position `i` on.
pub open spec fn sp_lex(s: Seq<char>, i: int) -> LexOut
    decreases s.len() - i,
{
    if i < 0 || i >= s.len() {
        LexOut::Toks(Seq::empty())
    } else {
        let c = s[i];
        if sp_is_space(c) {
            sp_lex(s, i + 1)
        } else if c == '/' && i + 1 < s.len() && s[i + 1] == '/' {
            let j = sp_line_end(s, i + 2);
            proof {
                lemma_scan_bounds(s, i + 2);
            }
            sp_lex(s, j)
        } else if sp_is_ident_start(c) {
            let j = sp_ident_end(s, i + 1);
            proof {
                lemma_scan_bounds(s, i + 1);
            }
            sp_lex_cons(TokV::Ident(s.subrange(i, j)), sp_lex(s, j))
        } else if sp_is_digit(c) {
            let j = sp_num_end(s, i + 1);
            proof {
                lemma_scan_bounds(s, i + 1);
            }
            sp_lex_cons(TokV::Num(s.subrange(i, j)), sp_lex(s, j))
        } else if c == '"' {
            let j = sp_quote_end(s, i + 1);
            proof {
                lemma_scan_bounds(s, i + 1);
            }
            if j >= s.len() {
                LexOut::Fail
            } else {
                sp_lex_cons(TokV::Str(s.subrange(i, j + 1)), sp_lex(s, j + 1))
            }
        } else if c == '{' {
            sp_lex_cons(TokV::LBrace, sp_lex(s, i + 1))
        } else if c == '}' {
            sp_lex_cons(TokV::RBrace, sp_lex(s, i + 1))
        } else if c == '(' {
            sp_lex_cons(TokV::LParen, sp_lex(s, i + 1))
        } else if c == ')' {
            sp_lex_cons(TokV::RParen, sp_lex(s, i + 1))
        } else if c == '[' {
            sp_lex_cons(TokV::LBrack, sp_lex(s, i + 1))
        } else if c == ']' {
            sp_lex_cons(TokV::RBrack, sp_lex(s, i + 1))
        } else if c == ';' {
            sp_lex_cons(TokV::Semi, sp_lex(s, i + 1))
        } else if c == ',' {
            sp_lex_cons(TokV::Comma, sp_lex(s, i + 1))
        } else if c == '.' {
            sp_lex_cons(TokV::Dot, sp_lex(s, i + 1))
        } else if c == '=' {
            if i + 1 < s.len() && s[i + 1] == '=' {
                sp_lex_cons(TokV::Op("=="@), sp_lex(s, i + 2))
            } else if i + 1 < s.len() && s[i + 1] == '>' {
                sp_lex_cons(TokV::Arrow, sp_lex(s, i + 2))
            } else {
                sp_lex_cons(TokV::Assign, sp_lex(s, i + 1))
            }
        } else if (c == '<' || c == '>' || c == '!') && i + 1 < s.len() && s[i + 1] == '=' {
            sp_lex_cons(TokV::Op(seq![c, '=']), sp_lex(s, i + 2))
        } else if c == '&' && i + 1 < s.len() && s[i + 1] == '&' {
            sp_lex_cons(TokV::Op("&&"@), sp_lex(s, i + 2))
        } else if c == '|' && i + 1 < s.len() && s[i + 1] == '|' {
            sp_lex_cons(TokV::Op("||"@), sp_lex(s, i + 2))
        } else if sp_is_op_char(c) {
            sp_lex_cons(TokV::Op(seq![c]), sp_lex(s, i + 1))
        } else {
            LexOut::Fail
        }
    }
}

/// Appending an already-lexed prefix to a tokenization outcome.
pub open spec fn sp_lex_app(p: Seq<TokV>, rest: LexOut) -> LexOut {
    match rest {
        LexOut::Toks(ts) => LexOut::Toks(p + ts),
        LexOut::Fail => LexOut::Fail,
    }
}

/// Consuming one token moves it from the continuation to the prefix.
pub proof fn lemma_lex_app_cons(p: Seq<TokV>, t: TokV, rest: LexOut)
    ensures
        sp_lex_app(p, sp_lex_cons(t, rest)) == sp_lex_app(p.push(t), rest),
{
    match rest {
        LexOut::Toks(ts) => {
            assert(p + (seq![t] + ts) =~= p.push(t) + ts);
        },
        LexOut::Fail => {},
    }
}

/// Whether `c` is whitespace.
fn is_space_c(c: char) -> (r: bool)
    ensures
        r == sp_is_space(c),
{
    c == ' ' || c == '\t' || c == '\r' || c == '\n'
}

/// Whether `c` may start an identifier.
fn is_ident_start_c(c: char) -> (r: bool)
    ensures
        r == sp_is_ident_start(c),
{
    (('A' as u32) <= (c as u32) && (c as u32) <= ('Z' as u32)) || (('a' as u32) <= (c as u32) && (
    c as u32) <= ('z' as u32)) || c == '_'
}

/// Whether `c` is an ASCII digit.
fn is_digit_c(c: char) -> (r: bool)
    ensures
        r == sp_is_digit(c),
{
    ('0' as u32) <= (c as u32) && (c as u32) <= ('9' as u32)
}

/// Whether `c` may continue an identifier.
fn is_ident_char_c(c: char) -> (r: bool)
    ensures
        r == sp_is_ident_char(c),
{
    is_ident_start_c(c) || is_digit_c(c)
}

/// Whether `c` is a single-character operator lexeme.
fn is_op_char_c(c: char) -> (r: bool)
    ensures
        r == sp_is_op_char(c),
{
    c == '+' || c == '-' || c == '*' || c == '/' || c == '%' || c == '<' || c == '>' || c == '!'
        || c == '&' || c == '|'
}

/// The end of the identifier starting before `from`.
fn scan_ident_end(src: &str, from: usize) -> (r: usize)
    requires
        from <= src@.len(),
    ensures
        r == sp_ident_end(src@, from as int),
        from <= r <= src@.len(),
{
    let n = src.unicode_len();
    let mut j = from;
    while j < n
        invariant
            n == src@.len(),
            from <= j <= n,
            sp_ident_end(src@, from as int) == sp_ident_end(src@, j as int),
        decreases n - j,
    {
        let c = src.get_char(j);
        if !is_ident_char_c(c) {
            return j;
        }
        j += 1;
    }
    j
}

/// The end of the number starting before `from`.
fn scan_num_end(src: &str, from: usize) -> (r: usize)
    requires
        from <= src@.len(),
    ensures
        r == sp_num_end(src@, from as int),
        from <= r <= src@.len(),
{
    let n = src.unicode_len();
    let mut j = from;
    while j < n
        invariant
            n == src@.len(),
            from <= j <= n,
            sp_num_end(src@, from as int) == sp_num_end(src@, j as int),
        decreases n - j,
    {
        let c = src.get_char(j);
        if !is_digit_c(c) {
            return j;
        }
        j += 1;
    }
    j
}

/// The position of the next line break at or after `from`.
fn scan_line_end(src: &str, from: usize) -> (r: usize)
    requires
        from <= src@.len(),
    ensures
        r == sp_line_end(src@, from as int),
        from <= r <= src@.len(),
{
    let n = src.unicode_len();
    let mut j = from;
    while j < n
        invariant
            n == src@.len(),
            from <= j <= n,
            sp_line_end(src@, from as int) == sp_line_end(src@, j as int),
        decreases n - j,
    {
        let c = src.get_char(j);
        if c == '\n' {
            return j;
        }
        j += 1;
    }
    j
}

/// The position of the closing quote at or after `from`.
fn scan_quote_end(src: &str, from: usize) -> (r: usize)
    requires
        from <= src@.len(),
    ensures
        r == sp_quote_end(src@, from as int),
        from <= r <= src@.len(),
{
    let n = src.unicode_len();
    let mut j = from;
    while j < n
        invariant
            n == src@.len(),
            from <= j <= n,
            sp_quote_end(src@, from as int) == sp_quote_end(src@, j as int),
        decreases n - j,
    {
        let c = src.get_char(j);
        if c == '"' {
            return j;
        }
        j += 1;
    }
    j
}

/// Tokenization of a whole source text.  A failure means the text holds a
/// character no token can start, or an unterminated string literal.
#[verifier::loop_isolation(false)]
#[verifier::rlimit(60)]
pub fn tokenize(src: &str) -> (r: Result<Vec<Tok>, TranspileError>)
    ensures
        match r {
            Result::Ok(toks) => sp_lex(src@, 0) == LexOut::Toks(toks.deep_view()),
            Result::Err(e) => sp_lex(src@, 0) == LexOut::Fail && e == TranspileError::Syntax,
        },
{
    broadcast use crate::views::lemma_vec_deep_view;

    let n = src.unicode_len();
    let mut toks: Vec<Tok> = Vec::new();
    let mut i: usize = 0;
    proof {
        assert(toks.deep_view() =~= Seq::<TokV>::empty());
        assert(sp_lex_app(toks.deep_view(), sp_lex(src@, 0)) == sp_lex(src@, 0)) by {
            match sp_lex(src@, 0) {
                LexOut::Toks(ts) => {
                    assert(Seq::<TokV>::empty() + ts =~= ts);
                },
                LexOut::Fail => {},
            }
        }
    }
    while i < n
        invariant
            n == src@.len(),
            0 <= i <= n,
            sp_lex(src@, 0) == sp_lex_app(toks.deep_view(), sp_lex(src@, i as int)),
        decreases n - i,
    {
        let ghost toksd = toks.deep_view();
        let ghost gi = i as int;
        let c = src.get_char(i);
        if is_space_c(c) {
            i += 1;
        } else if c == '/' && i + 1 < n && src.get_char(i + 1) == '/' {
            let j = scan_line_end(src, i + 2);
            i = j;
        } else if is_ident_start_c(c) {
            let j = scan_ident_end(src, i + 1);
            let lex = src.substring_char(i, j).to_owned();
            let tok = Tok::Ident(lex);
            let ghost tokv = tok.deep_view();
            toks.push(tok);
            proof {
                crate::views::lemma_seq_deep_view_push(toks@.drop_last(), toks@.last());
                assert(toks.deep_view() =~= toksd.push(tokv));
                lemma_lex_app_cons(toksd, tokv, sp_lex(src@, j as int));
            }
            i = j;
        } else if is_digit_c(c) {
            let j = scan_num_end(src, i + 1);
            let lex = src.substring_char(i, j).to_owned();
            let tok = Tok::Num(lex);
            let ghost tokv = tok.deep_view();
            toks.push(tok);
            proof {
                assert(toks.deep_view() =~= toksd.push(tokv));
                lemma_lex_app_cons(toksd, tokv, sp_lex(src@, j as int));
            }
            i = j;
        } else if c == '"' {
            let j = scan_quote_end(src, i + 1);
            if j >= n {
                return Result::Err(TranspileError::Syntax);
            }
            let lex = src.substring_char(i, j + 1).to_owned();
            let tok = Tok::Str(lex);
            let ghost tokv = tok.deep_view();
            toks.push(tok);
            proof {
                assert(toks.deep_view() =~= toksd.push(tokv));
                lemma_lex_app_cons(toksd, tokv, sp_lex(src@, j + 1 as int));
            }
            i = j + 1;
        } else if c == '{' || c == '}' || c == '(' || c == ')' || c == '[' || c == ']' || c == ';'
            || c == ',' || c == '.' {
            let tok = if c == '{' {
                Tok::LBrace
            } else if c == '}' {
                Tok::RBrace
            } else if c == '(' {
                Tok::LParen
            } else if c == ')' {
                Tok::RParen
            } else if c == '[' {
                Tok::LBrack
            } else if c == ']' {
                Tok::RBrack
            } else if c == ';' {
                Tok::Semi
            } else if c == ',' {
                Tok::Comma
            } else {
                Tok::Dot
            };
            let ghost tokv = tok.deep_view();
            toks.push(tok);
            proof {
                assert(toks.deep_view() =~= toksd.push(tokv));
                lemma_lex_app_cons(toksd, tokv, sp_lex(src@, gi + 1));
            }
            i += 1;
        } else if c == '=' {
            if i + 1 < n && src.get_char(i + 1) == '=' {
                let tok = Tok::Op(String::from_str("=="));
                let ghost tokv = tok.deep_view();
                toks.push(tok);
                proof {
                    assert(toks.deep_view() =~= toksd.push(tokv));
                    lemma_lex_app_cons(toksd, tokv, sp_lex(src@, gi + 2));
                }
                i += 2;
            } else if i + 1 < n && src.get_char(i + 1) == '>' {
                let tok = Tok::Arrow;
                let ghost tokv = tok.deep_view();
                toks.push(tok);
                proof {
                    assert(toks.deep_view() =~= toksd.push(tokv));
                    lemma_lex_app_cons(toksd, tokv, sp_lex(src@, gi + 2));
                }
                i += 2;
            } else {
                let tok = Tok::Assign;
                let ghost tokv = tok.deep_view();
                toks.push(tok);
                proof {
                    assert(toks.deep_view() =~= toksd.push(tokv));
                    lemma_lex_app_cons(toksd, tokv, sp_lex(src@, gi + 1));
                }
                i += 1;
            }
        } else if (c == '<' || c == '>' || c == '!') && i + 1 < n && src.get_char(i + 1) == '=' {
            let lex = src.substring_char(i, i + 2).to_owned();
            let tok = Tok::Op(lex);
            let ghost tokv = tok.deep_view();
            toks.push(tok);
            proof {
                assert(src@.subrange(gi, gi + 2) =~= seq![c, '=']);
                assert(toks.deep_view() =~= toksd.push(tokv));
                lemma_lex_app_cons(toksd, tokv, sp_lex(src@, gi + 2));
            }
            i += 2;
        } else if c == '&' && i + 1 < n && src.get_char(i + 1) == '&' {
            let tok = Tok::Op(String::from_str("&&"));
            let ghost tokv = tok.deep_view();
            toks.push(tok);
            proof {
                assert(toks.deep_view() =~= toksd.push(tokv));
                lemma_lex_app_cons(toksd, tokv, sp_lex(src@, gi + 2));
            }
            i += 2;
        } else if c == '|' && i + 1 < n && src.get_char(i + 1) == '|' {
            let tok = Tok::Op(String::from_str("||"));
            let ghost tokv = tok.deep_view();
            toks.push(tok);
            proof {
                assert(toks.deep_view() =~= toksd.push(tokv));
                lemma_lex_app_cons(toksd, tokv, sp_lex(src@, gi + 2));
            }
            i += 2;
        } else if is_op_char_c(c) {
            let lex = src.substring_char(i, i + 1).to_owned();
            let tok = Tok::Op(lex);
            let ghost tokv = tok.deep_view();
            toks.push(tok);
            proof {
                assert(src@.subrange(gi, gi + 1) =~= seq![c]);
                assert(toks.deep_view() =~= toksd.push(tokv));
                lemma_lex_app_cons(toksd, tokv, sp_lex(src@, gi + 1));
            }
            i += 1;
        } else {
            return Result::Err(TranspileError::Syntax);
        }
    }
    Result::Ok(toks)
}

} // verus!

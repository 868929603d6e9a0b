//! The lexer: turns source bytes into a finite token sequence, each token
//! carrying the line and column where it starts. Fails with a `LexError`
//! on an unrecognized character or an unterminated literal, naming the
//! offending location. Side-effect-free; the whole scan is pinned to the
//! spec-level scanner `spec_lex`.
use vstd::prelude::*;

use crate::diag::{res_view, CompileError, ErrorView};

verus! {

broadcast use vstd::std_specs::vec::group_vec_axioms, vstd::seq::group_seq_axioms;

pub struct Token {
    pub kind: TokenKind,
    pub line: usize,
    pub col: usize,
}

pub enum TokenKind {
    KwInt,
    KwFloat,
    KwDouble,
    KwChar,
    KwVoid,
    KwBool,
    KwIf,
    KwElse,
    KwWhile,
    KwFor,
    KwReturn,
    KwStruct,
    KwConst,
    KwTrue,
    KwFalse,
    KwNull,
    Ident(String),
    IntLit(i64),
    FloatLit(String),
    CharLit(char),
    StrLit(String),
    LParen,
    RParen,
    LBrace,
    RBrace,
    LBracket,
    RBracket,
    Semi,
    Comma,
    Dot,
    Arrow,
    Plus,
    Minus,
    Star,
    Slash,
    Percent,
    Amp,
    Pipe,
    Caret,
    Tilde,
    Bang,
    Assign,
    EqEq,
    BangEq,
    Lt,
    Gt,
    Le,
    Ge,
    AmpAmp,
    PipePipe,
    Shl,
    Shr,
    PlusPlus,
    MinusMinus,
}

pub enum TokenKindV {
    KwInt,
    KwFloat,
    KwDouble,
    KwChar,
    KwVoid,
    KwBool,
    KwIf,
    KwElse,
    KwWhile,
    KwFor,
    KwReturn,
    KwStruct,
    KwConst,
    KwTrue,
    KwFalse,
    KwNull,
    Ident(Seq<char>),
    IntLit(int),
    FloatLit(Seq<char>),
    CharLit(char),
    StrLit(Seq<char>),
    LParen,
    RParen,
    LBrace,
    RBrace,
    LBracket,
    RBracket,
    Semi,
    Comma,
    Dot,
    Arrow,
    Plus,
    Minus,
    Star,
    Slash,
    Percent,
    Amp,
    Pipe,
    Caret,
    Tilde,
    Bang,
    Assign,
    EqEq,
    BangEq,
    Lt,
    Gt,
    Le,
    Ge,
    AmpAmp,
    PipePipe,
    Shl,
    Shr,
    PlusPlus,
    MinusMinus,
}

pub struct TokenV {
    pub kind: TokenKindV,
    pub line: int,
    pub col: int,
}

impl DeepView for TokenKind {
    type V = TokenKindV;

    open spec fn deep_view(&self) -> TokenKindV {
        match self {
            TokenKind::KwInt => TokenKindV::KwInt,
            TokenKind::KwFloat => TokenKindV::KwFloat,
            TokenKind::KwDouble => TokenKindV::KwDouble,
            TokenKind::KwChar => TokenKindV::KwChar,
            TokenKind::KwVoid => TokenKindV::KwVoid,
            TokenKind::KwBool => TokenKindV::KwBool,
            TokenKind::KwIf => TokenKindV::KwIf,
            TokenKind::KwElse => TokenKindV::KwElse,
            TokenKind::KwWhile => TokenKindV::KwWhile,
            TokenKind::KwFor => TokenKindV::KwFor,
            TokenKind::KwReturn => TokenKindV::KwReturn,
            TokenKind::KwStruct => TokenKindV::KwStruct,
            TokenKind::KwConst => TokenKindV::KwConst,
            TokenKind::KwTrue => TokenKindV::KwTrue,
            TokenKind::KwFalse => TokenKindV::KwFalse,
            TokenKind::KwNull => TokenKindV::KwNull,
            TokenKind::Ident(s) => TokenKindV::Ident(s@),
            TokenKind::IntLit(v) => TokenKindV::IntLit(*v as int),
            TokenKind::FloatLit(s) => TokenKindV::FloatLit(s@),
            TokenKind::CharLit(c) => TokenKindV::CharLit(*c),
            TokenKind::StrLit(s) => TokenKindV::StrLit(s@),
            TokenKind::LParen => TokenKindV::LParen,
            TokenKind::RParen => TokenKindV::RParen,
            TokenKind::LBrace => TokenKindV::LBrace,
            TokenKind::RBrace => TokenKindV::RBrace,
            TokenKind::LBracket => TokenKindV::LBracket,
            TokenKind::RBracket => TokenKindV::RBracket,
            TokenKind::Semi => TokenKindV::Semi,
            TokenKind::Comma => TokenKindV::Comma,
            TokenKind::Dot => TokenKindV::Dot,
            TokenKind::Arrow => TokenKindV::Arrow,
            TokenKind::Plus => TokenKindV::Plus,
            TokenKind::Minus => TokenKindV::Minus,
            TokenKind::Star => TokenKindV::Star,
            TokenKind::Slash => TokenKindV::Slash,
            TokenKind::Percent => TokenKindV::Percent,
            TokenKind::Amp => TokenKindV::Amp,
            TokenKind::Pipe => TokenKindV::Pipe,
            TokenKind::Caret => TokenKindV::Caret,
            TokenKind::Tilde => TokenKindV::Tilde,
            TokenKind::Bang => TokenKindV::Bang,
            TokenKind::Assign => TokenKindV::Assign,
            TokenKind::EqEq => TokenKindV::EqEq,
            TokenKind::BangEq => TokenKindV::BangEq,
            TokenKind::Lt => TokenKindV::Lt,
            TokenKind::Gt => TokenKindV::Gt,
            TokenKind::Le => TokenKindV::Le,
            TokenKind::Ge => TokenKindV::Ge,
            TokenKind::AmpAmp => TokenKindV::AmpAmp,
            TokenKind::PipePipe => TokenKindV::PipePipe,
            TokenKind::Shl => TokenKindV::Shl,
            TokenKind::Shr => TokenKindV::Shr,
            TokenKind::PlusPlus => TokenKindV::PlusPlus,
            TokenKind::MinusMinus => TokenKindV::MinusMinus,
        }
    }
}

impl DeepView for Token {
    type V = TokenV;

    open spec fn deep_view(&self) -> TokenV {
        TokenV { kind: self.kind.deep_view(), line: self.line as int, col: self.col as int }
    }
}

/// ASCII bytes read as the characters they stand for.
pub open spec fn chars_of(s: Seq<u8>) -> Seq<char> {
    Seq::new(s.len(), |i: int| s[i] as char)
}

/// The sequence every contract indexes a `Vec` model with.
pub open spec fn dv_seq<T: DeepView>(s: Seq<T>) -> Seq<T::V> {
    Seq::new(s.len(), |i: int| s[i].deep_view())
}

pub proof fn lemma_dv_push<T: DeepView>(s: Seq<T>, x: T)
    ensures
        dv_seq(s.push(x)) =~= dv_seq(s).push(x.deep_view()),
{
}

pub open spec fn is_space(b: u8) -> bool {
    b == 32 || b == 9 || b == 13
}

pub open spec fn is_digit(b: u8) -> bool {
    48 <= b <= 57
}

pub open spec fn is_ident_start(b: u8) -> bool {
    (65 <= b <= 90) || (97 <= b <= 122) || b == 95
}

pub open spec fn is_ident_char(b: u8) -> bool {
    is_ident_start(b) || is_digit(b)
}

/// A keyword spelling names its token; any other spelling is an identifier.
pub open spec fn keyword_of(name: Seq<char>) -> TokenKindV {
    if name == "int"@ {
        TokenKindV::KwInt
    } else if name == "float"@ {
        TokenKindV::KwFloat
    } else if name == "double"@ {
        TokenKindV::KwDouble
    } else if name == "char"@ {
        TokenKindV::KwChar
    } else if name == "void"@ {
        TokenKindV::KwVoid
    } else if name == "bool"@ {
        TokenKindV::KwBool
    } else if name == "if"@ {
        TokenKindV::KwIf
    } else if name == "else"@ {
        TokenKindV::KwElse
    } else if name == "while"@ {
        TokenKindV::KwWhile
    } else if name == "for"@ {
        TokenKindV::KwFor
    } else if name == "return"@ {
        TokenKindV::KwReturn
    } else if name == "struct"@ {
        TokenKindV::KwStruct
    } else if name == "const"@ {
        TokenKindV::KwConst
    } else if name == "true"@ {
        TokenKindV::KwTrue
    } else if name == "false"@ {
        TokenKindV::KwFalse
    } else if name == "NULL"@ {
        TokenKindV::KwNull
    } else {
        TokenKindV::Ident(name)
    }
}

/// End of an identifier that starts at `j`.
pub open spec fn spec_ident_end(src: Seq<u8>, j: int) -> int
    decreases src.len() - j,
{
    if 0 <= j < src.len() && is_ident_char(src[j]) {
        spec_ident_end(src, j + 1)
    } else {
        j
    }
}

/// End of a digit run that starts at `j`.
pub open spec fn spec_digits_end(src: Seq<u8>, j: int) -> int
    decreases src.len() - j,
{
    if 0 <= j < src.len() && is_digit(src[j]) {
        spec_digits_end(src, j + 1)
    } else {
        j
    }
}

/// Index of the next newline at or after `j`, or the end of the input.
pub open spec fn spec_line_end(src: Seq<u8>, j: int) -> int
    decreases src.len() - j,
{
    if 0 <= j < src.len() && src[j] != 10 {
        spec_line_end(src, j + 1)
    } else {
        j
    }
}

/// Scans past a block comment body; yields the position and location
/// after the closing delimiter, or `None` when the comment never closes.
pub open spec fn spec_comment_end(src: Seq<u8>, j: int, line: int, col: int) -> Option<(int, int, int)>
    decreases src.len() - j,
{
    if j >= src.len() {
        None
    } else if src[j] == 42 && j + 1 < src.len() && src[j + 1] == 47 {
        Some((j + 2, line, col + 2))
    } else if src[j] == 10 {
        spec_comment_end(src, j + 1, line + 1, 1)
    } else {
        spec_comment_end(src, j + 1, line, col + 1)
    }
}

/// The digit-run value scan: fails when the value would leave `i64`.
pub open spec fn spec_scan_digits(src: Seq<u8>, j: int, acc: int) -> Result<(int, int), ()>
    decreases src.len() - j,
{
    if 0 <= j < src.len() && is_digit(src[j]) {
        let d = src[j] - 48;
        if acc < 922337203685477580 || (acc == 922337203685477580 && d <= 7) {
            spec_scan_digits(src, j + 1, acc * 10 + d)
        } else {
            Err(())
        }
    } else {
        Ok((j, acc))
    }
}

/// What a backslash escape stands for; escapes outside this set are
/// rejected.
pub open spec fn escape_char(b: u8) -> Option<char> {
    if b == 110 {
        Some('\n')
    } else if b == 116 {
        Some('\t')
    } else if b == 114 {
        Some('\r')
    } else if b == 92 {
        Some('\\')
    } else if b == 34 {
        Some('"')
    } else if b == 39 {
        Some('\'')
    } else if b == 48 {
        Some('\0')
    } else {
        None
    }
}

/// Scans a string literal body from just after the opening quote; yields
/// the position after the closing quote and the decoded contents.
pub open spec fn spec_scan_string(src: Seq<u8>, j: int, acc: Seq<char>) -> Result<(int, Seq<char>), ()>
    decreases src.len() - j,
{
    if j >= src.len() {
        Err(())
    } else if src[j] == 34 {
        Ok((j + 1, acc))
    } else if src[j] == 92 {
        if j + 1 < src.len() {
            match escape_char(src[j + 1]) {
                Some(c) => spec_scan_string(src, j + 2, acc.push(c)),
                None => Err(()),
            }
        } else {
            Err(())
        }
    } else if 32 <= src[j] < 127 {
        spec_scan_string(src, j + 1, acc.push(src[j] as char))
    } else {
        Err(())
    }
}

/// Scans a character literal body from just after the opening quote;
/// yields the position after the closing quote and the character.
pub open spec fn spec_scan_char(src: Seq<u8>, j: int) -> Result<(int, char), ()> {
    if j < src.len() && src[j] == 92 {
        if j + 2 < src.len() && src[j + 2] == 39 {
            match escape_char(src[j + 1]) {
                Some(c) => Ok((j + 3, c)),
                None => Err(()),
            }
        } else {
            Err(())
        }
    } else if j + 1 < src.len() && 32 <= src[j] < 127 && src[j] != 39 && src[j + 1] == 39 {
        Ok((j + 2, src[j] as char))
    } else {
        Err(())
    }
}

/// The next scan position: a scanned end never leaves the input nor moves
/// backwards, and the guard keeps the termination measure decreasing.
pub open spec fn next_pos(i: int, j: int, n: int) -> int {
    if j <= i {
        i + 1
    } else if j > n {
        n
    } else {
        j
    }
}

/// An identifier scan stays within the input and covers identifier
/// characters only.
pub proof fn lemma_ident_end(src: Seq<u8>, j: int)
    requires
        0 <= j <= src.len(),
    ensures
        j <= spec_ident_end(src, j) <= src.len(),
        forall|k: int| j <= k < spec_ident_end(src, j) ==> is_ident_char(src[k]),
    decreases src.len() - j,
{
    if j < src.len() && is_ident_char(src[j]) {
        lemma_ident_end(src, j + 1);
    }
}

/// A digit scan stays within the input and covers digits only.
pub proof fn lemma_digits_end(src: Seq<u8>, j: int)
    requires
        0 <= j <= src.len(),
    ensures
        j <= spec_digits_end(src, j) <= src.len(),
        forall|k: int| j <= k < spec_digits_end(src, j) ==> is_digit(src[k]),
    decreases src.len() - j,
{
    if j < src.len() && is_digit(src[j]) {
        lemma_digits_end(src, j + 1);
    }
}

pub open spec fn lex_err(message: Seq<char>, line: int, col: int) -> Result<Seq<TokenV>, ErrorView> {
    Err(ErrorView::Lex { message, line, col })
}

/// The whole scan, from position `i` at location `line:col`, with the
/// tokens already produced in `acc`. Comments, blank space and
/// preprocessor lines separate tokens and produce none.
pub open spec fn spec_lex_from(src: Seq<u8>, i: int, line: int, col: int, acc: Seq<TokenV>) -> Result<
    Seq<TokenV>,
    ErrorView,
>
    decreases src.len() - i,
{
    if i >= src.len() {
        Ok(acc)
    } else {
        let b = src[i];
        if is_space(b) {
            spec_lex_from(src, i + 1, line, col + 1, acc)
        } else if b == 10 {
            spec_lex_from(src, i + 1, line + 1, 1, acc)
        } else if b == 47 && i + 1 < src.len() && src[i + 1] == 47 {
            spec_lex_from(src, next_pos(i, spec_line_end(src, i), src.len() as int), line, col, acc)
        } else if b == 47 && i + 1 < src.len() && src[i + 1] == 42 {
            match spec_comment_end(src, i + 2, line, col + 2) {
                Some((j, line2, col2)) => spec_lex_from(src, next_pos(i, j, src.len() as int), line2, col2, acc),
                None => lex_err("unterminated block comment"@, line, col),
            }
        } else if b == 35 {
            spec_lex_from(src, next_pos(i, spec_line_end(src, i), src.len() as int), line, col, acc)
        } else if is_ident_start(b) {
            let j = next_pos(i, spec_ident_end(src, i), src.len() as int);
            let kind = keyword_of(chars_of(src.subrange(i, j)));
            spec_lex_from(src, j, line, col + (j - i), acc.push(TokenV { kind, line, col }))
        } else if is_digit(b) {
            let j = spec_digits_end(src, i);
            if j < src.len() && src[j] == 46 {
                let k = next_pos(i, spec_digits_end(src, j + 1), src.len() as int);
                let kind = TokenKindV::FloatLit(chars_of(src.subrange(i, k)));
                spec_lex_from(src, k, line, col + (k - i), acc.push(TokenV { kind, line, col }))
            } else {
                match spec_scan_digits(src, i, 0) {
                    Ok((j0, v)) => {
                        let j2 = next_pos(i, j0, src.len() as int);
                        spec_lex_from(
                            src,
                            j2,
                            line,
                            col + (j2 - i),
                            acc.push(TokenV { kind: TokenKindV::IntLit(v), line, col }),
                        )
                    },
                    Err(_) => lex_err("integer literal too large"@, line, col),
                }
            }
        } else if b == 34 {
            match spec_scan_string(src, i + 1, Seq::empty()) {
                Ok((j0, content)) => {
                    let j = next_pos(i, j0, src.len() as int);
                    spec_lex_from(
                        src,
                        j,
                        line,
                        col + (j - i),
                        acc.push(TokenV { kind: TokenKindV::StrLit(content), line, col }),
                    )
                },
                Err(_) => lex_err("unterminated string literal"@, line, col),
            }
        } else if b == 39 {
            match spec_scan_char(src, i + 1) {
                Ok((j0, c)) => {
                    let j = next_pos(i, j0, src.len() as int);
                    spec_lex_from(
                        src,
                        j,
                        line,
                        col + (j - i),
                        acc.push(TokenV { kind: TokenKindV::CharLit(c), line, col }),
                    )
                },
                Err(_) => lex_err("invalid character literal"@, line, col),
            }
        } else {
            let two = if i + 1 < src.len() {
                spec_two_char_op(b, src[i + 1])
            } else {
                None
            };
            match two {
                Some(kind) => spec_lex_from(
                    src,
                    i + 2,
                    line,
                    col + 2,
                    acc.push(TokenV { kind, line, col }),
                ),
                None => match spec_one_char_op(b) {
                    Some(kind) => spec_lex_from(
                        src,
                        i + 1,
                        line,
                        col + 1,
                        acc.push(TokenV { kind, line, col }),
                    ),
                    None => lex_err("unrecognized character"@, line, col),
                },
            }
        }
    }
}

pub open spec fn spec_two_char_op(a: u8, b: u8) -> Option<TokenKindV> {
    if a == 61 && b == 61 {
        Some(TokenKindV::EqEq)
    } else if a == 33 && b == 61 {
        Some(TokenKindV::BangEq)
    } else if a == 60 && b == 61 {
        Some(TokenKindV::Le)
    } else if a == 62 && b == 61 {
        Some(TokenKindV::Ge)
    } else if a == 38 && b == 38 {
        Some(TokenKindV::AmpAmp)
    } else if a == 124 && b == 124 {
        Some(TokenKindV::PipePipe)
    } else if a == 60 && b == 60 {
        Some(TokenKindV::Shl)
    } else if a == 62 && b == 62 {
        Some(TokenKindV::Shr)
    } else if a == 43 && b == 43 {
        Some(TokenKindV::PlusPlus)
    } else if a == 45 && b == 45 {
        Some(TokenKindV::MinusMinus)
    } else if a == 45 && b == 62 {
        Some(TokenKindV::Arrow)
    } else {
        None
    }
}

pub open spec fn spec_one_char_op(b: u8) -> Option<TokenKindV> {
    if b == 40 {
        Some(TokenKindV::LParen)
    } else if b == 41 {
        Some(TokenKindV::RParen)
    } else if b == 123 {
        Some(TokenKindV::LBrace)
    } else if b == 125 {
        Some(TokenKindV::RBrace)
    } else if b == 91 {
        Some(TokenKindV::LBracket)
    } else if b == 93 {
        Some(TokenKindV::RBracket)
    } else if b == 59 {
        Some(TokenKindV::Semi)
    } else if b == 44 {
        Some(TokenKindV::Comma)
    } else if b == 46 {
        Some(TokenKindV::Dot)
    } else if b == 43 {
        Some(TokenKindV::Plus)
    } else if b == 45 {
        Some(TokenKindV::Minus)
    } else if b == 42 {
        Some(TokenKindV::Star)
    } else if b == 47 {
        Some(TokenKindV::Slash)
    } else if b == 37 {
        Some(TokenKindV::Percent)
    } else if b == 38 {
        Some(TokenKindV::Amp)
    } else if b == 124 {
        Some(TokenKindV::Pipe)
    } else if b == 94 {
        Some(TokenKindV::Caret)
    } else if b == 126 {
        Some(TokenKindV::Tilde)
    } else if b == 33 {
        Some(TokenKindV::Bang)
    } else if b == 61 {
        Some(TokenKindV::Assign)
    } else if b == 60 {
        Some(TokenKindV::Lt)
    } else if b == 62 {
        Some(TokenKindV::Gt)
    } else {
        None
    }
}

/// The lexer's contract: the token sequence (or error) of a source text.
pub open spec fn spec_lex(src: Seq<u8>) -> Result<Seq<TokenV>, ErrorView> {
    spec_lex_from(src, 0, 1, 1, Seq::empty())
}

// ---------------------------------------------------------------------
// Executable scanner, pinned to the specification above.
// ---------------------------------------------------------------------

/// Relies on `String::from_utf8`: ASCII bytes decode to exactly the
/// characters they stand for.
#[verifier::external_body]
pub(crate) fn string_from_ascii(b: Vec<u8>) -> (r: String)
    requires
        forall|i: int| 0 <= i < b@.len() ==> b@[i] < 128,
    ensures
        r@ == chars_of(b@),
{
    match String::from_utf8(b) {
        Ok(s) => s,
        Err(_) => String::new(),
    }
}

pub(crate) fn string_eq_lit(s: &String, lit: &str) -> (r: bool)
    ensures
        r == (s@ == lit@),
{
    let other = String::from_str(lit);
    s.eq(&other)
}

fn bytes_range(src: &[u8], i: usize, j: usize) -> (r: Vec<u8>)
    requires
        i <= j <= src@.len(),
    ensures
        r@ == src@.subrange(i as int, j as int),
{
    let mut r: Vec<u8> = Vec::new();
    let mut k: usize = i;
    while k < j
        invariant
            i <= k <= j <= src@.len(),
            r@ == src@.subrange(i as int, k as int),
        decreases j - k,
    {
        r.push(src[k]);
        proof {
            assert(r@ =~= src@.subrange(i as int, (k + 1) as int));
        }
        k = k + 1;
    }
    r
}

fn ident_end(src: &[u8], j: usize) -> (r: usize)
    requires
        j <= src@.len(),
    ensures
        r == spec_ident_end(src@, j as int),
        j <= r <= src@.len(),
    decreases src@.len() - j,
{
    if j < src.len() && (src[j] == 95 || (65 <= src[j] && src[j] <= 90) || (97 <= src[j] && src[j]
        <= 122) || (48 <= src[j] && src[j] <= 57)) {
        ident_end(src, j + 1)
    } else {
        j
    }
}

fn digits_end(src: &[u8], j: usize) -> (r: usize)
    requires
        j <= src@.len(),
    ensures
        r == spec_digits_end(src@, j as int),
        j <= r <= src@.len(),
    decreases src@.len() - j,
{
    if j < src.len() && 48 <= src[j] && src[j] <= 57 {
        digits_end(src, j + 1)
    } else {
        j
    }
}

fn line_end(src: &[u8], j: usize) -> (r: usize)
    requires
        j <= src@.len(),
    ensures
        r == spec_line_end(src@, j as int),
        j <= r <= src@.len(),
    decreases src@.len() - j,
{
    if j < src.len() && src[j] != 10 {
        line_end(src, j + 1)
    } else {
        j
    }
}

fn comment_end(src: &[u8], j: usize, line: usize, col: usize) -> (r: Option<(usize, usize, usize)>)
    requires
        j <= src@.len(),
        src@.len() < usize::MAX - 2,
        1 <= line <= j + 1,
        1 <= col <= j + 1,
    ensures
        match r {
            Some((j2, l2, c2)) => spec_comment_end(src@, j as int, line as int, col as int)
                == Some((j2 as int, l2 as int, c2 as int)) && j <= j2 <= src@.len() && 1 <= l2 <= j2
                + 1 && 1 <= c2 <= j2 + 1,
            None => spec_comment_end(src@, j as int, line as int, col as int) is None,
        },
    decreases src@.len() - j,
{
    if j >= src.len() {
        None
    } else if src[j] == 42 && j + 1 < src.len() && src[j + 1] == 47 {
        Some((j + 2, line, col + 2))
    } else if src[j] == 10 {
        comment_end(src, j + 1, line + 1, 1)
    } else {
        comment_end(src, j + 1, line, col + 1)
    }
}

fn scan_digits(src: &[u8], j: usize, acc: i64) -> (r: Result<(usize, i64), ()>)
    requires
        j <= src@.len(),
        0 <= acc,
    ensures
        match r {
            Ok((j2, v)) => spec_scan_digits(src@, j as int, acc as int) == Ok::<_, ()>((
                j2 as int,
                v as int,
            )) && j <= j2 <= src@.len() && v >= 0,
            Err(_) => spec_scan_digits(src@, j as int, acc as int) is Err,
        },
    decreases src@.len() - j,
{
    if j < src.len() && 48 <= src[j] && src[j] <= 57 {
        let d: i64 = (src[j] - 48) as i64;
        if acc < 922337203685477580i64 || (acc == 922337203685477580i64 && d <= 7) {
            scan_digits(src, j + 1, acc * 10 + d)
        } else {
            Err(())
        }
    } else {
        Ok((j, acc))
    }
}

fn escape_char_exec(b: u8) -> (r: Option<char>)
    ensures
        r == escape_char(b),
{
    if b == 110 {
        Some('\n')
    } else if b == 116 {
        Some('\t')
    } else if b == 114 {
        Some('\r')
    } else if b == 92 {
        Some('\\')
    } else if b == 34 {
        Some('"')
    } else if b == 39 {
        Some('\'')
    } else if b == 48 {
        Some('\0')
    } else {
        None
    }
}

fn scan_string(src: &[u8], j: usize, acc: Vec<u8>) -> (r: Result<(usize, Vec<u8>), ()>)
    requires
        j <= src@.len(),
        forall|k: int| 0 <= k < acc@.len() ==> acc@[k] < 128,
    ensures
        match r {
            Ok((j2, content)) => spec_scan_string(src@, j as int, chars_of(acc@)) == Ok::<_, ()>((
                j2 as int,
                chars_of(content@),
            )) && j <= j2 <= src@.len() && (forall|k: int|
                0 <= k < content@.len() ==> content@[k] < 128),
            Err(_) => spec_scan_string(src@, j as int, chars_of(acc@)) is Err,
        },
    decreases src@.len() - j,
{
    if j >= src.len() {
        Err(())
    } else if src[j] == 34 {
        Ok((j + 1, acc))
    } else if src[j] == 92 {
        if j + 1 < src.len() {
            match escape_char_exec(src[j + 1]) {
                Some(c) => {
                    let mut acc2 = acc;
                    let cb: u8 = char_to_ascii(c);
                    acc2.push(cb);
                    proof {
                        assert(chars_of(acc2@) =~= chars_of(acc@).push(cb as char));
                    }
                    scan_string(src, j + 2, acc2)
                },
                None => Err(()),
            }
        } else {
            Err(())
        }
    } else if 32 <= src[j] && src[j] < 127 {
        let mut acc2 = acc;
        acc2.push(src[j]);
        proof {
            assert(chars_of(acc2@) =~= chars_of(acc@).push(src@[j as int] as char));
        }
        scan_string(src, j + 1, acc2)
    } else {
        Err(())
    }
}

/// The byte an ASCII escape character stands for.
fn char_to_ascii(c: char) -> (r: u8)
    requires
        (c as u32) < 128,
    ensures
        r == (c as u8),
        r < 128,
        (r as char) == c,
{
    c as u8
}

fn scan_char(src: &[u8], j: usize) -> (r: Result<(usize, char), ()>)
    requires
        j <= src@.len(),
        src@.len() < usize::MAX - 3,
    ensures
        match r {
            Ok((j2, c)) => spec_scan_char(src@, j as int) == Ok::<_, ()>((j2 as int, c)) && j <= j2
                <= src@.len(),
            Err(_) => spec_scan_char(src@, j as int) is Err,
        },
{
    if j < src.len() && src[j] == 92 {
        if j + 2 < src.len() && src[j + 2] == 39 {
            match escape_char_exec(src[j + 1]) {
                Some(c) => Ok((j + 3, c)),
                None => Err(()),
            }
        } else {
            Err(())
        }
    } else if j + 1 < src.len() && 32 <= src[j] && src[j] < 127 && src[j] != 39 && src[j + 1] == 39 {
        Ok((j + 2, src[j] as char))
    } else {
        Err(())
    }
}

fn keyword_or_ident(name: String) -> (r: TokenKind)
    ensures
        r.deep_view() == keyword_of(name@),
{
    if string_eq_lit(&name, "int") {
        TokenKind::KwInt
    } else if string_eq_lit(&name, "float") {
        TokenKind::KwFloat
    } else if string_eq_lit(&name, "double") {
        TokenKind::KwDouble
    } else if string_eq_lit(&name, "char") {
        TokenKind::KwChar
    } else if string_eq_lit(&name, "void") {
        TokenKind::KwVoid
    } else if string_eq_lit(&name, "bool") {
        TokenKind::KwBool
    } else if string_eq_lit(&name, "if") {
        TokenKind::KwIf
    } else if string_eq_lit(&name, "else") {
        TokenKind::KwElse
    } else if string_eq_lit(&name, "while") {
        TokenKind::KwWhile
    } else if string_eq_lit(&name, "for") {
        TokenKind::KwFor
    } else if string_eq_lit(&name, "return") {
        TokenKind::KwReturn
    } else if string_eq_lit(&name, "struct") {
        TokenKind::KwStruct
    } else if string_eq_lit(&name, "const") {
        TokenKind::KwConst
    } else if string_eq_lit(&name, "true") {
        TokenKind::KwTrue
    } else if string_eq_lit(&name, "false") {
        TokenKind::KwFalse
    } else if string_eq_lit(&name, "NULL") {
        TokenKind::KwNull
    } else {
        TokenKind::Ident(name)
    }
}

fn two_char_op(a: u8, b: u8) -> (r: Option<TokenKind>)
    ensures
        match r {
            Some(k) => spec_two_char_op(a, b) == Some(k.deep_view()),
            None => spec_two_char_op(a, b) is None,
        },
{
    if a == 61 && b == 61 {
        Some(TokenKind::EqEq)
    } else if a == 33 && b == 61 {
        Some(TokenKind::BangEq)
    } else if a == 60 && b == 61 {
        Some(TokenKind::Le)
    } else if a == 62 && b == 61 {
        Some(TokenKind::Ge)
    } else if a == 38 && b == 38 {
        Some(TokenKind::AmpAmp)
    } else if a == 124 && b == 124 {
        Some(TokenKind::PipePipe)
    } else if a == 60 && b == 60 {
        Some(TokenKind::Shl)
    } else if a == 62 && b == 62 {
        Some(TokenKind::Shr)
    } else if a == 43 && b == 43 {
        Some(TokenKind::PlusPlus)
    } else if a == 45 && b == 45 {
        Some(TokenKind::MinusMinus)
    } else if a == 45 && b == 62 {
        Some(TokenKind::Arrow)
    } else {
        None
    }
}

fn one_char_op(b: u8) -> (r: Option<TokenKind>)
    ensures
        match r {
            Some(k) => spec_one_char_op(b) == Some(k.deep_view()),
            None => spec_one_char_op(b) is None,
        },
{
    if b == 40 {
        Some(TokenKind::LParen)
    } else if b == 41 {
        Some(TokenKind::RParen)
    } else if b == 123 {
        Some(TokenKind::LBrace)
    } else if b == 125 {
        Some(TokenKind::RBrace)
    } else if b == 91 {
        Some(TokenKind::LBracket)
    } else if b == 93 {
        Some(TokenKind::RBracket)
    } else if b == 59 {
        Some(TokenKind::Semi)
    } else if b == 44 {
        Some(TokenKind::Comma)
    } else if b == 46 {
        Some(TokenKind::Dot)
    } else if b == 43 {
        Some(TokenKind::Plus)
    } else if b == 45 {
        Some(TokenKind::Minus)
    } else if b == 42 {
        Some(TokenKind::Star)
    } else if b == 47 {
        Some(TokenKind::Slash)
    } else if b == 37 {
        Some(TokenKind::Percent)
    } else if b == 38 {
        Some(TokenKind::Amp)
    } else if b == 124 {
        Some(TokenKind::Pipe)
    } else if b == 94 {
        Some(TokenKind::Caret)
    } else if b == 126 {
        Some(TokenKind::Tilde)
    } else if b == 33 {
        Some(TokenKind::Bang)
    } else if b == 61 {
        Some(TokenKind::Assign)
    } else if b == 60 {
        Some(TokenKind::Lt)
    } else if b == 62 {
        Some(TokenKind::Gt)
    } else {
        None
    }
}

fn lex_from(src: &[u8], i: usize, line: usize, col: usize, acc: Vec<Token>) -> (r: Result<
    Vec<Token>,
    CompileError,
>)
    requires
        i <= src@.len(),
        src@.len() < usize::MAX - 4,
        1 <= line <= i + 1,
        1 <= col <= i + 1,
    ensures
        res_view(r) == spec_lex_from(src@, i as int, line as int, col as int, dv_seq(acc@)),
    decreases src@.len() - i,
{
    if i >= src.len() {
        proof {
            assert(acc.deep_view() =~= dv_seq(acc@));
        }
        Ok(acc)
    } else {
        let b = src[i];
        if b == 32 || b == 9 || b == 13 {
            lex_from(src, i + 1, line, col + 1, acc)
        } else if b == 10 {
            lex_from(src, i + 1, line + 1, 1, acc)
        } else if b == 47 && i + 1 < src.len() && src[i + 1] == 47 {
            let j0 = line_end(src, i);
            let j = if j0 <= i { i + 1 } else if j0 > src.len() { src.len() } else { j0 };
            lex_from(src, j, line, col, acc)
        } else if b == 47 && i + 1 < src.len() && src[i + 1] == 42 {
            match comment_end(src, i + 2, line, col + 2) {
                Some((j0, line2, col2)) => {
                    let j = if j0 <= i { i + 1 } else if j0 > src.len() { src.len() } else { j0 };
                    lex_from(src, j, line2, col2, acc)
                },
                None => Err(CompileError::LexError { message: "unterminated block comment", line, col }),
            }
        } else if b == 35 {
            let j0 = line_end(src, i);
            let j = if j0 <= i { i + 1 } else if j0 > src.len() { src.len() } else { j0 };
            lex_from(src, j, line, col, acc)
        } else if b == 95 || (65 <= b && b <= 90) || (97 <= b && b <= 122) {
            let j0 = ident_end(src, i);
            proof {
                lemma_ident_end(src@, i as int);
            }
            let j = if j0 <= i { i + 1 } else if j0 > src.len() { src.len() } else { j0 };
            let word = bytes_range(src, i, j);
            let name = string_from_ascii(word);
            let kind = keyword_or_ident(name);
            let tok = Token { kind, line, col };
            let ghost pre = dv_seq(acc@);
            let mut acc2 = acc;
            acc2.push(tok);
            proof {
                lemma_dv_push(acc@, tok);
            }
            lex_from(src, j, line, col + (j - i), acc2)
        } else if 48 <= b && b <= 57 {
            let j = digits_end(src, i);
            if j < src.len() && src[j] == 46 {
                let k0 = digits_end(src, j + 1);
                proof {
                    lemma_digits_end(src@, i as int);
                    lemma_digits_end(src@, j + 1 as int);
                }
                let k = if k0 <= i { i + 1 } else if k0 > src.len() { src.len() } else { k0 };
                let text = bytes_range(src, i, k);
                let s = string_from_ascii(text);
                let tok = Token { kind: TokenKind::FloatLit(s), line, col };
                let mut acc2 = acc;
                acc2.push(tok);
                proof {
                    lemma_dv_push(acc@, tok);
                }
                lex_from(src, k, line, col + (k - i), acc2)
            } else {
                match scan_digits(src, i, 0) {
                    Ok((j0, v)) => {
                        let j2 = if j0 <= i { i + 1 } else if j0 > src.len() { src.len() } else { j0 };
                        let tok = Token { kind: TokenKind::IntLit(v), line, col };
                        let mut acc2 = acc;
                        acc2.push(tok);
                        proof {
                            lemma_dv_push(acc@, tok);
                        }
                        lex_from(src, j2, line, col + (j2 - i), acc2)
                    },
                    Err(_) => Err(
                        CompileError::LexError { message: "integer literal too large", line, col },
                    ),
                }
            }
        } else if b == 34 {
            let empty_acc: Vec<u8> = Vec::new();
            proof {
                assert(chars_of(empty_acc@) =~= Seq::<char>::empty());
            }
            match scan_string(src, i + 1, empty_acc) {
                Ok((j0, content)) => {
                    let j = if j0 <= i { i + 1 } else if j0 > src.len() { src.len() } else { j0 };
                    let s = string_from_ascii(content);
                    let tok = Token { kind: TokenKind::StrLit(s), line, col };
                    let mut acc2 = acc;
                    acc2.push(tok);
                    proof {
                        lemma_dv_push(acc@, tok);
                    }
                    lex_from(src, j, line, col + (j - i), acc2)
                },
                Err(_) => Err(
                    CompileError::LexError { message: "unterminated string literal", line, col },
                ),
            }
        } else if b == 39 {
            match scan_char(src, i + 1) {
                Ok((j0, c)) => {
                    let j = if j0 <= i { i + 1 } else if j0 > src.len() { src.len() } else { j0 };
                    let tok = Token { kind: TokenKind::CharLit(c), line, col };
                    let mut acc2 = acc;
                    acc2.push(tok);
                    proof {
                        lemma_dv_push(acc@, tok);
                    }
                    lex_from(src, j, line, col + (j - i), acc2)
                },
                Err(_) => Err(
                    CompileError::LexError { message: "invalid character literal", line, col },
                ),
            }
        } else {
            let two = if i + 1 < src.len() {
                two_char_op(b, src[i + 1])
            } else {
                None
            };
            match two {
                Some(kind) => {
                    let tok = Token { kind, line, col };
                    let mut acc2 = acc;
                    acc2.push(tok);
                    proof {
                        lemma_dv_push(acc@, tok);
                    }
                    lex_from(src, i + 2, line, col + 2, acc2)
                },
                None => match one_char_op(b) {
                    Some(kind) => {
                        let tok = Token { kind, line, col };
                        let mut acc2 = acc;
                        acc2.push(tok);
                        proof {
                            lemma_dv_push(acc@, tok);
                        }
                        lex_from(src, i + 1, line, col + 1, acc2)
                    },
                    None => Err(
                        CompileError::LexError { message: "unrecognized character", line, col },
                    ),
                },
            }
        }
    }
}

/// Lexes a whole source text into tokens.
pub fn lex(src: &[u8]) -> (r: Result<Vec<Token>, CompileError>)
    requires
        src@.len() < usize::MAX - 4,
    ensures
        res_view(r) == spec_lex(src@),
{
    let acc: Vec<Token> = Vec::new();
    proof {
        assert(dv_seq(acc@) =~= Seq::<TokenV>::empty());
    }
    lex_from(src, 0, 1, 1, acc)
}

} // verus!

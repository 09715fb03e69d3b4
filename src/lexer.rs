//! The manifest lexer: text to tokens, each with its 1-based line and column.

use vstd::prelude::*;
use vstd::string::*;
use crate::error::{BrewfileError, ParseFault};

verus! {

/// The kind of a token, with the text of a word.
#[derive(Debug, Clone, PartialEq, Eq)]
pub enum TokenClass {
    EndOfFile,
    Newline,
    String(String),
    Comma,
    Equals,
}

/// The mathematical form of [`TokenClass`].
pub enum TokenKind {
    EndOfFile,
    Newline,
    Word(Seq<char>),
    Comma,
    Equals,
}

impl View for TokenClass {
    type V = TokenKind;

    open spec fn view(&self) -> TokenKind {
        match self {
            TokenClass::EndOfFile => TokenKind::EndOfFile,
            TokenClass::Newline => TokenKind::Newline,
            TokenClass::String(s) => TokenKind::Word(s@),
            TokenClass::Comma => TokenKind::Comma,
            TokenClass::Equals => TokenKind::Equals,
        }
    }
}

/// A token and where it starts.
#[derive(Debug, Clone, PartialEq, Eq)]
pub struct Token {
    pub class: TokenClass,
    pub line: usize,
    pub column: usize,
}

/// The mathematical form of [`Token`].
pub struct TokenView {
    pub class: TokenKind,
    pub line: nat,
    pub column: nat,
}

impl View for Token {
    type V = TokenView;

    open spec fn view(&self) -> TokenView {
        TokenView { class: self.class@, line: self.line as nat, column: self.column as nat }
    }
}

impl Token {
    /// A copy of the token.
    pub fn duplicate(&self) -> (r: Token)
        ensures
            r@ == self@,
    {
        let class = match &self.class {
            TokenClass::EndOfFile => TokenClass::EndOfFile,
            TokenClass::Newline => TokenClass::Newline,
            TokenClass::String(s) => TokenClass::String(s.clone()),
            TokenClass::Comma => TokenClass::Comma,
            TokenClass::Equals => TokenClass::Equals,
        };
        Token { class, line: self.line, column: self.column }
    }
}

pub open spec fn token_views(ts: Seq<Token>) -> Seq<TokenView> {
    ts.map_values(|t: Token| t@)
}

/// Whether `c` is a letter or a digit, as Unicode defines them.
pub uninterp spec fn alphanumeric(c: char) -> bool;

/// Relies on `char::is_alphanumeric`: whether the character is alphabetic or numeric.
#[verifier::external_body]
fn is_alphanumeric(c: char) -> (r: bool)
    ensures
        r == alphanumeric(c),
{
    c.is_alphanumeric()
}

/// Whether a character may stand in a word: a letter or digit (as `letter`
/// tells), or one of `_ . - + / \`.
pub open spec fn is_word_char(c: char, letter: bool) -> bool {
    letter || c == '_' || c == '.' || c == '-' || c == '+' || c == '/' || c == '\\'
}

/// For each character of `cs`, whether it is a letter or a digit.
pub open spec fn letter_flags(cs: Seq<char>) -> Seq<bool> {
    Seq::new(cs.len(), |i: int| alphanumeric(cs[i]))
}

/// White space other than the line feed (the Unicode `White_Space` characters).
pub open spec fn is_blank(c: char) -> bool {
    let u = c as u32;
    u == 0x09 || u == 0x0B || u == 0x0C || u == 0x0D || u == 0x20 || u == 0x85 || u == 0xA0
        || u == 0x1680 || (0x2000 <= u <= 0x200A) || u == 0x2028 || u == 0x2029 || u == 0x202F
        || u == 0x205F || u == 0x3000
}

fn word_char(c: char, letter: bool) -> (r: bool)
    ensures
        r == is_word_char(c, letter),
{
    letter || c == '_' || c == '.' || c == '-' || c == '+' || c == '/' || c == '\\'
}

fn blank(c: char) -> (r: bool)
    ensures
        r == is_blank(c),
{
    let u = c as u32;
    u == 0x09 || u == 0x0B || u == 0x0C || u == 0x0D || u == 0x20 || u == 0x85 || u == 0xA0
        || u == 0x1680 || (0x2000 <= u && u <= 0x200A) || u == 0x2028 || u == 0x2029 || u
        == 0x202F || u == 0x205F || u == 0x3000
}

/// Where the lexer stands between characters.
pub enum LexMode {
    /// Between tokens.
    Plain,
    /// Inside a word that began at the given index, line and column.
    Word(int, nat, nat),
    /// Inside a comment.
    Comment,
}

pub open spec fn mode_rank(m: LexMode) -> int {
    match m {
        LexMode::Plain => 0,
        _ => 1,
    }
}

pub open spec fn tok(class: TokenKind, line: nat, column: nat) -> TokenView {
    TokenView { class, line, column }
}

/// Lexes `cs` from index `i`, at `line` and `col`, in mode `mode`, after the tokens `acc`.
pub open spec fn lex_from(
    cs: Seq<char>,
    letters: Seq<bool>,
    i: int,
    line: nat,
    col: nat,
    mode: LexMode,
    acc: Seq<TokenView>,
) -> Result<Seq<TokenView>, ParseFault>
    decreases 2 * (cs.len() - i) + mode_rank(mode),
{
    if i < 0 || i >= cs.len() {
        let closed = match mode {
            LexMode::Word(s, l, k) => acc.push(tok(TokenKind::Word(cs.subrange(s, cs.len() as int)), l, k)),
            _ => acc,
        };
        Ok(closed.push(tok(TokenKind::EndOfFile, line, col)))
    } else {
        let c = cs[i];
        match mode {
            LexMode::Word(s, l, k) => if is_word_char(c, letters[i]) {
                lex_from(cs, letters, i + 1, line, col + 1, mode, acc)
            } else {
                lex_from(cs, letters, i, line, col, LexMode::Plain, acc.push(tok(TokenKind::Word(cs.subrange(s, i)), l, k)))
            },
            LexMode::Comment => if c == '\n' {
                lex_from(cs, letters, i, line, col, LexMode::Plain, acc)
            } else {
                lex_from(cs, letters, i + 1, line, col + 1, LexMode::Comment, acc)
            },
            LexMode::Plain => if c == '\n' {
                lex_from(cs, letters, i + 1, line + 1, 1, LexMode::Plain, acc.push(tok(TokenKind::Newline, line, col)))
            } else if is_blank(c) {
                lex_from(cs, letters, i + 1, line, col + 1, LexMode::Plain, acc)
            } else if c == '#' {
                lex_from(cs, letters, i + 1, line, col + 1, LexMode::Comment, acc)
            } else if c == ',' {
                lex_from(cs, letters, i + 1, line, col + 1, LexMode::Plain, acc.push(tok(TokenKind::Comma, line, col)))
            } else if c == '=' {
                lex_from(cs, letters, i + 1, line, col + 1, LexMode::Plain, acc.push(tok(TokenKind::Equals, line, col)))
            } else if is_word_char(c, letters[i]) {
                lex_from(cs, letters, i + 1, line, col + 1, LexMode::Word(i, line, col), acc)
            } else {
                Err(ParseFault::UnknownCharacter(c, line, col))
            },
        }
    }
}

/// The tokens of a manifest text whose letters and digits `letters` marks,
/// ending with the end-of-file token.
pub open spec fn lexed_with(cs: Seq<char>, letters: Seq<bool>) -> Result<Seq<TokenView>, ParseFault> {
    lex_from(cs, letters, 0, 1, 1, LexMode::Plain, Seq::empty())
}

/// The tokens of a manifest text, ending with the end-of-file token.
pub open spec fn lexed(cs: Seq<char>) -> Result<Seq<TokenView>, ParseFault> {
    lexed_with(cs, letter_flags(cs))
}

enum Mode {
    Plain,
    Word,
    Comment,
}

spec fn mode_of(m: Mode, start: usize, line: usize, col: usize) -> LexMode {
    match m {
        Mode::Plain => LexMode::Plain,
        Mode::Word => LexMode::Word(start as int, line as nat, col as nat),
        Mode::Comment => LexMode::Comment,
    }
}

/// Splits a manifest text into tokens. The last token is the end-of-file token.
pub fn tokenize(text: &str) -> (r: Result<Vec<Token>, BrewfileError>)
    requires
        text@.len() < usize::MAX,
    ensures
        match lexed(text@) {
            Ok(ts) => r is Ok && token_views(r->Ok_0@) == ts,
            Err(f) => r is Err && r->Err_0@ == f,
        },
{
    let n = text.unicode_len();
    let mut letters: Vec<bool> = Vec::new();
    let mut i: usize = 0;
    while i < n
        invariant
            n == text@.len(),
            i <= n,
            letters@ == letter_flags(text@).subrange(0, i as int),
        decreases n - i,
    {
        letters.push(is_alphanumeric(text.get_char(i)));
        assert(letters@ =~= letter_flags(text@).subrange(0, i + 1));
        i = i + 1;
    }
    assert(letters@ =~= letter_flags(text@));
    tokenize_with_letters(text, &letters)
}

/// Splits a manifest text into tokens, where `letters` tells for each
/// character whether it is a letter or a digit. The last token is the
/// end-of-file token.
pub fn tokenize_with_letters(text: &str, letters: &Vec<bool>) -> (r: Result<Vec<Token>, BrewfileError>)
    requires
        text@.len() < usize::MAX,
        letters@.len() == text@.len(),
    ensures
        match lexed_with(text@, letters@) {
            Ok(ts) => r is Ok && token_views(r->Ok_0@) == ts,
            Err(f) => r is Err && r->Err_0@ == f,
        },
{
    let ghost cs = text@;
    let n = text.unicode_len();
    let mut toks: Vec<Token> = Vec::new();
    let mut i: usize = 0;
    let mut line: usize = 1;
    let mut col: usize = 1;
    let mut mode = Mode::Plain;
    let mut start: usize = 0;
    let mut start_line: usize = 1;
    let mut start_col: usize = 1;
    assert(token_views(toks@) =~= Seq::<TokenView>::empty());
    while i < n
        invariant
            cs == text@,
            n == cs.len(),
            letters@.len() == n,
            n < usize::MAX,
            i <= n,
            1 <= line <= i + 1,
            1 <= col <= i + 1,
            start <= i,
            lex_from(cs, letters@, i as int, line as nat, col as nat, mode_of(mode, start, start_line, start_col), token_views(toks@))
                == lexed_with(cs, letters@),
        decreases 2 * (n - i) + mode_rank(mode_of(mode, start, start_line, start_col)),
    {
        let c = text.get_char(i);
        let ghost before = token_views(toks@);
        match mode {
            Mode::Word => {
                if word_char(c, letters[i]) {
                    i = i + 1;
                    col = col + 1;
                } else {
                    let word = text.substring_char(start, i).to_owned();
                    toks.push(Token { class: TokenClass::String(word), line: start_line, column: start_col });
                    assert(token_views(toks@) == before.push(
                        tok(TokenKind::Word(cs.subrange(start as int, i as int)), start_line as nat, start_col as nat),
                    ));
                    mode = Mode::Plain;
                }
            },
            Mode::Comment => {
                if c == '\n' {
                    mode = Mode::Plain;
                } else {
                    i = i + 1;
                    col = col + 1;
                }
            },
            Mode::Plain => {
                if c == '\n' {
                    toks.push(Token { class: TokenClass::Newline, line, column: col });
                    assert(token_views(toks@) == before.push(tok(TokenKind::Newline, line as nat, col as nat)));
                    i = i + 1;
                    line = line + 1;
                    col = 1;
                } else if blank(c) {
                    i = i + 1;
                    col = col + 1;
                } else if c == '#' {
                    mode = Mode::Comment;
                    i = i + 1;
                    col = col + 1;
                } else if c == ',' {
                    toks.push(Token { class: TokenClass::Comma, line, column: col });
                    assert(token_views(toks@) == before.push(tok(TokenKind::Comma, line as nat, col as nat)));
                    i = i + 1;
                    col = col + 1;
                } else if c == '=' {
                    toks.push(Token { class: TokenClass::Equals, line, column: col });
                    assert(token_views(toks@) == before.push(tok(TokenKind::Equals, line as nat, col as nat)));
                    i = i + 1;
                    col = col + 1;
                } else if word_char(c, letters[i]) {
                    mode = Mode::Word;
                    start = i;
                    start_line = line;
                    start_col = col;
                    i = i + 1;
                    col = col + 1;
                } else {
                    return Err(BrewfileError::UnknownCharacter(c, line, col));
                }
            },
        }
    }
    let ghost before = token_views(toks@);
    match mode {
        Mode::Word => {
            let word = text.substring_char(start, n).to_owned();
            toks.push(Token { class: TokenClass::String(word), line: start_line, column: start_col });
            assert(token_views(toks@) == before.push(
                tok(TokenKind::Word(cs.subrange(start as int, n as int)), start_line as nat, start_col as nat),
            ));
        },
        _ => {},
    }
    let ghost closed = token_views(toks@);
    toks.push(Token { class: TokenClass::EndOfFile, line, column: col });
    assert(token_views(toks@) == closed.push(tok(TokenKind::EndOfFile, line as nat, col as nat)));
    Ok(toks)
}

} // verus!

//! Lexical analysis: the token model, a spec-level scanner over a
//! `Seq<char>`, and the executable [`Tokenizer`] proved to return exactly
//! what the spec scanner says.
//!
//! Policy decisions, stated here once:
//! - keywords and the literals `TRUE`, `FALSE` and `NULL` are matched
//!   case-insensitively (ASCII case folding);
//! - string literals are delimited by single quotes; an opening quote with
//!   no closing quote yields an [`Token::Unknown`] token and consumes the
//!   rest of the input;
//! - a character that starts no token yields [`Token::Unknown`] so that
//!   scanning is total; the statement parser rejects such a token;
//! - digit runs accumulate into a `u64` with wraparound on overflow.

use vstd::prelude::*;
use vstd::string::*;
use vstd::wrapping::u64_specs;

verus! {

/// A reserved word of the dialect.
#[derive(Debug, Clone, Copy, PartialEq, Eq, Structural)]
pub enum Keyword {
    Select,
    From,
    Where,
    Order,
    By,
    Create,
    Table,
    Insert,
    Into,
    Values,
    Int,
    Varchar,
    Boolean,
    And,
    Or,
    Not,
}

/// One lexeme of the input text.
#[derive(Debug, Clone, PartialEq)]
pub enum Token {
    Keyword(Keyword),
    Identifier(String),
    Number(u64),
    StringLit(String),
    Boolean(bool),
    Null,
    Comma,
    Semicolon,
    LeftParen,
    RightParen,
    Equals,
    NotEquals,
    LessThan,
    LessThanOrEqual,
    GreaterThan,
    GreaterThanOrEqual,
    Plus,
    Minus,
    Asterisk,
    Slash,
    Unknown(char),
    Eof,
}

/// The spec-level model of a [`Token`]: text becomes `Seq<char>`.
pub enum SpecTok {
    Keyword(Keyword),
    Identifier(Seq<char>),
    Number(u64),
    StringLit(Seq<char>),
    Boolean(bool),
    Null,
    Comma,
    Semicolon,
    LeftParen,
    RightParen,
    Equals,
    NotEquals,
    LessThan,
    LessThanOrEqual,
    GreaterThan,
    GreaterThanOrEqual,
    Plus,
    Minus,
    Asterisk,
    Slash,
    Unknown(char),
    Eof,
}

impl View for Token {
    type V = SpecTok;

    open spec fn view(&self) -> SpecTok {
        match self {
            Token::Keyword(k) => SpecTok::Keyword(*k),
            Token::Identifier(s) => SpecTok::Identifier(s@),
            Token::Number(n) => SpecTok::Number(*n),
            Token::StringLit(s) => SpecTok::StringLit(s@),
            Token::Boolean(b) => SpecTok::Boolean(*b),
            Token::Null => SpecTok::Null,
            Token::Comma => SpecTok::Comma,
            Token::Semicolon => SpecTok::Semicolon,
            Token::LeftParen => SpecTok::LeftParen,
            Token::RightParen => SpecTok::RightParen,
            Token::Equals => SpecTok::Equals,
            Token::NotEquals => SpecTok::NotEquals,
            Token::LessThan => SpecTok::LessThan,
            Token::LessThanOrEqual => SpecTok::LessThanOrEqual,
            Token::GreaterThan => SpecTok::GreaterThan,
            Token::GreaterThanOrEqual => SpecTok::GreaterThanOrEqual,
            Token::Plus => SpecTok::Plus,
            Token::Minus => SpecTok::Minus,
            Token::Asterisk => SpecTok::Asterisk,
            Token::Slash => SpecTok::Slash,
            Token::Unknown(c) => SpecTok::Unknown(*c),
            Token::Eof => SpecTok::Eof,
        }
    }
}

impl DeepView for Token {
    type V = SpecTok;

    open spec fn deep_view(&self) -> SpecTok {
        self.view()
    }
}

/// The spec-level model of a whole token sequence.
pub open spec fn spec_tokens_view(tokens: Seq<Token>) -> Seq<SpecTok> {
    Seq::new(tokens.len(), |i: int| tokens[i]@)
}

/// The canonical (upper-case) spelling of a keyword, for error messages.
pub open spec fn spec_keyword_name(k: Keyword) -> Seq<char> {
    match k {
        Keyword::Select => "SELECT"@,
        Keyword::From => "FROM"@,
        Keyword::Where => "WHERE"@,
        Keyword::Order => "ORDER"@,
        Keyword::By => "BY"@,
        Keyword::Create => "CREATE"@,
        Keyword::Table => "TABLE"@,
        Keyword::Insert => "INSERT"@,
        Keyword::Into => "INTO"@,
        Keyword::Values => "VALUES"@,
        Keyword::Int => "INT"@,
        Keyword::Varchar => "VARCHAR"@,
        Keyword::Boolean => "BOOLEAN"@,
        Keyword::And => "AND"@,
        Keyword::Or => "OR"@,
        Keyword::Not => "NOT"@,
    }
}

/// The canonical spelling of a keyword.
pub fn keyword_name(k: Keyword) -> (r: String)
    ensures
        r@ == spec_keyword_name(k),
{
    match k {
        Keyword::Select => "SELECT".to_owned(),
        Keyword::From => "FROM".to_owned(),
        Keyword::Where => "WHERE".to_owned(),
        Keyword::Order => "ORDER".to_owned(),
        Keyword::By => "BY".to_owned(),
        Keyword::Create => "CREATE".to_owned(),
        Keyword::Table => "TABLE".to_owned(),
        Keyword::Insert => "INSERT".to_owned(),
        Keyword::Into => "INTO".to_owned(),
        Keyword::Values => "VALUES".to_owned(),
        Keyword::Int => "INT".to_owned(),
        Keyword::Varchar => "VARCHAR".to_owned(),
        Keyword::Boolean => "BOOLEAN".to_owned(),
        Keyword::And => "AND".to_owned(),
        Keyword::Or => "OR".to_owned(),
        Keyword::Not => "NOT".to_owned(),
    }
}

/// A short human-readable description of a token, for error messages.
pub open spec fn spec_token_desc(t: SpecTok) -> Seq<char> {
    match t {
        SpecTok::Keyword(k) => spec_keyword_name(k),
        SpecTok::Identifier(_) => "identifier"@,
        SpecTok::Number(_) => "number"@,
        SpecTok::StringLit(_) => "string literal"@,
        SpecTok::Boolean(_) => "boolean literal"@,
        SpecTok::Null => "NULL"@,
        SpecTok::Comma => ","@,
        SpecTok::Semicolon => ";"@,
        SpecTok::LeftParen => "("@,
        SpecTok::RightParen => ")"@,
        SpecTok::Equals => "="@,
        SpecTok::NotEquals => "<>"@,
        SpecTok::LessThan => "<"@,
        SpecTok::LessThanOrEqual => "<="@,
        SpecTok::GreaterThan => ">"@,
        SpecTok::GreaterThanOrEqual => ">="@,
        SpecTok::Plus => "+"@,
        SpecTok::Minus => "-"@,
        SpecTok::Asterisk => "*"@,
        SpecTok::Slash => "/"@,
        SpecTok::Unknown(_) => "unrecognized character"@,
        SpecTok::Eof => "end of input"@,
    }
}

/// A short description of a token.
pub fn token_desc(t: &Token) -> (r: String)
    ensures
        r@ == spec_token_desc(t@),
{
    match t {
        Token::Keyword(k) => keyword_name(*k),
        Token::Identifier(_) => "identifier".to_owned(),
        Token::Number(_) => "number".to_owned(),
        Token::StringLit(_) => "string literal".to_owned(),
        Token::Boolean(_) => "boolean literal".to_owned(),
        Token::Null => "NULL".to_owned(),
        Token::Comma => ",".to_owned(),
        Token::Semicolon => ";".to_owned(),
        Token::LeftParen => "(".to_owned(),
        Token::RightParen => ")".to_owned(),
        Token::Equals => "=".to_owned(),
        Token::NotEquals => "<>".to_owned(),
        Token::LessThan => "<".to_owned(),
        Token::LessThanOrEqual => "<=".to_owned(),
        Token::GreaterThan => ">".to_owned(),
        Token::GreaterThanOrEqual => ">=".to_owned(),
        Token::Plus => "+".to_owned(),
        Token::Minus => "-".to_owned(),
        Token::Asterisk => "*".to_owned(),
        Token::Slash => "/".to_owned(),
        Token::Unknown(_) => "unrecognized character".to_owned(),
        Token::Eof => "end of input".to_owned(),
    }
}

/// A copy of a token whose model is the same as the original's.
pub fn token_dup(t: &Token) -> (r: Token)
    ensures
        r@ == t@,
{
    match t {
        Token::Keyword(k) => Token::Keyword(*k),
        Token::Identifier(s) => Token::Identifier(s.clone()),
        Token::Number(n) => Token::Number(*n),
        Token::StringLit(s) => Token::StringLit(s.clone()),
        Token::Boolean(b) => Token::Boolean(*b),
        Token::Null => Token::Null,
        Token::Comma => Token::Comma,
        Token::Semicolon => Token::Semicolon,
        Token::LeftParen => Token::LeftParen,
        Token::RightParen => Token::RightParen,
        Token::Equals => Token::Equals,
        Token::NotEquals => Token::NotEquals,
        Token::LessThan => Token::LessThan,
        Token::LessThanOrEqual => Token::LessThanOrEqual,
        Token::GreaterThan => Token::GreaterThan,
        Token::GreaterThanOrEqual => Token::GreaterThanOrEqual,
        Token::Plus => Token::Plus,
        Token::Minus => Token::Minus,
        Token::Asterisk => Token::Asterisk,
        Token::Slash => Token::Slash,
        Token::Unknown(c) => Token::Unknown(*c),
        Token::Eof => Token::Eof,
    }
}

// ---------------------------------------------------------------------------
// Character classes
// ---------------------------------------------------------------------------

/// Whitespace skipped between tokens.
pub open spec fn is_space_char(c: char) -> bool {
    c == ' ' || c == '\t' || c == '\n' || c == '\r'
}

/// An ASCII decimal digit.
pub open spec fn is_digit_char(c: char) -> bool {
    48 <= c as u32 && c as u32 <= 57
}

/// An ASCII letter.
pub open spec fn is_alpha_char(c: char) -> bool {
    (65 <= c as u32 && c as u32 <= 90) || (97 <= c as u32 && c as u32 <= 122)
}

/// A character that may begin an identifier or keyword.
pub open spec fn is_word_start_char(c: char) -> bool {
    is_alpha_char(c) || c == '_'
}

/// A character that may continue an identifier or keyword.
pub open spec fn is_word_char(c: char) -> bool {
    is_alpha_char(c) || is_digit_char(c) || c == '_'
}

/// ASCII upper-case folding of one character.
pub open spec fn spec_upper_char(c: char) -> char {
    match c {
        'a' => 'A',
        'b' => 'B',
        'c' => 'C',
        'd' => 'D',
        'e' => 'E',
        'f' => 'F',
        'g' => 'G',
        'h' => 'H',
        'i' => 'I',
        'j' => 'J',
        'k' => 'K',
        'l' => 'L',
        'm' => 'M',
        'n' => 'N',
        'o' => 'O',
        'p' => 'P',
        'q' => 'Q',
        'r' => 'R',
        's' => 'S',
        't' => 'T',
        'u' => 'U',
        'v' => 'V',
        'w' => 'W',
        'x' => 'X',
        'y' => 'Y',
        'z' => 'Z',
        _ => c,
    }
}

/// ASCII upper-case folding of a whole word.
pub open spec fn spec_upper_seq(s: Seq<char>) -> Seq<char> {
    Seq::new(s.len(), |i: int| spec_upper_char(s[i]))
}

fn is_space(c: char) -> (r: bool)
    ensures
        r == is_space_char(c),
{
    c == ' ' || c == '\t' || c == '\n' || c == '\r'
}

fn is_digit(c: char) -> (r: bool)
    ensures
        r == is_digit_char(c),
{
    let u = c as u32;
    48 <= u && u <= 57
}

fn is_word_start(c: char) -> (r: bool)
    ensures
        r == is_word_start_char(c),
{
    let u = c as u32;
    (65 <= u && u <= 90) || (97 <= u && u <= 122) || c == '_'
}

fn is_word(c: char) -> (r: bool)
    ensures
        r == is_word_char(c),
{
    let u = c as u32;
    (65 <= u && u <= 90) || (97 <= u && u <= 122) || (48 <= u && u <= 57) || c == '_'
}

fn upper_char(c: char) -> (r: char)
    ensures
        r == spec_upper_char(c),
{
    match c {
        'a' => 'A',
        'b' => 'B',
        'c' => 'C',
        'd' => 'D',
        'e' => 'E',
        'f' => 'F',
        'g' => 'G',
        'h' => 'H',
        'i' => 'I',
        'j' => 'J',
        'k' => 'K',
        'l' => 'L',
        'm' => 'M',
        'n' => 'N',
        'o' => 'O',
        'p' => 'P',
        'q' => 'Q',
        'r' => 'R',
        's' => 'S',
        't' => 'T',
        'u' => 'U',
        'v' => 'V',
        'w' => 'W',
        'x' => 'X',
        'y' => 'Y',
        'z' => 'Z',
        _ => c,
    }
}

// ---------------------------------------------------------------------------
// The spec scanner
// ---------------------------------------------------------------------------

/// First index at or after `pos` whose character does not continue a word.
pub open spec fn spec_word_end(s: Seq<char>, pos: nat) -> nat
    decreases s.len() - pos,
{
    if pos < s.len() && is_word_char(s[pos as int]) {
        spec_word_end(s, pos + 1)
    } else {
        pos
    }
}

/// First index at or after `pos` whose character is not a digit.
pub open spec fn spec_digits_end(s: Seq<char>, pos: nat) -> nat
    decreases s.len() - pos,
{
    if pos < s.len() && is_digit_char(s[pos as int]) {
        spec_digits_end(s, pos + 1)
    } else {
        pos
    }
}

/// First index at or after `pos` holding a single quote, or the input's end.
pub open spec fn spec_quote_end(s: Seq<char>, pos: nat) -> nat
    decreases s.len() - pos,
{
    if pos < s.len() && s[pos as int] != '\'' {
        spec_quote_end(s, pos + 1)
    } else {
        pos
    }
}

/// The numeric value of one digit character.
pub open spec fn spec_digit_val(c: char) -> u64 {
    (c as u32 - 48) as u64
}

/// The value a digit run accumulates to, with wraparound on overflow.
pub open spec fn spec_num_val(ds: Seq<char>, acc: u64) -> u64
    decreases ds.len(),
{
    if ds.len() == 0 {
        acc
    } else {
        spec_num_val(
            ds.drop_first(),
            u64_specs::wrapping_add(u64_specs::wrapping_mul(acc, 10), spec_digit_val(ds[0])),
        )
    }
}

/// The token a word maps to: a boolean or null literal, a keyword, or an
/// identifier, with case-insensitive matching of the reserved words.
pub open spec fn spec_word_token(w: Seq<char>) -> SpecTok {
    let u = spec_upper_seq(w);
    if u == "TRUE"@ {
        SpecTok::Boolean(true)
    } else if u == "FALSE"@ {
        SpecTok::Boolean(false)
    } else if u == "NULL"@ {
        SpecTok::Null
    } else if u == "SELECT"@ {
        SpecTok::Keyword(Keyword::Select)
    } else if u == "FROM"@ {
        SpecTok::Keyword(Keyword::From)
    } else if u == "WHERE"@ {
        SpecTok::Keyword(Keyword::Where)
    } else if u == "ORDER"@ {
        SpecTok::Keyword(Keyword::Order)
    } else if u == "BY"@ {
        SpecTok::Keyword(Keyword::By)
    } else if u == "CREATE"@ {
        SpecTok::Keyword(Keyword::Create)
    } else if u == "TABLE"@ {
        SpecTok::Keyword(Keyword::Table)
    } else if u == "INSERT"@ {
        SpecTok::Keyword(Keyword::Insert)
    } else if u == "INTO"@ {
        SpecTok::Keyword(Keyword::Into)
    } else if u == "VALUES"@ {
        SpecTok::Keyword(Keyword::Values)
    } else if u == "INT"@ {
        SpecTok::Keyword(Keyword::Int)
    } else if u == "VARCHAR"@ {
        SpecTok::Keyword(Keyword::Varchar)
    } else if u == "BOOLEAN"@ {
        SpecTok::Keyword(Keyword::Boolean)
    } else if u == "AND"@ {
        SpecTok::Keyword(Keyword::And)
    } else if u == "OR"@ {
        SpecTok::Keyword(Keyword::Or)
    } else if u == "NOT"@ {
        SpecTok::Keyword(Keyword::Not)
    } else {
        SpecTok::Identifier(w)
    }
}

/// The token beginning at `pos`, which must hold a non-space character,
/// and the position just past it.
pub open spec fn spec_scan_token(s: Seq<char>, pos: nat) -> (SpecTok, nat) {
    let c = s[pos as int];
    if is_word_start_char(c) {
        let e = spec_word_end(s, pos);
        (spec_word_token(s.subrange(pos as int, e as int)), e)
    } else if is_digit_char(c) {
        let e = spec_digits_end(s, pos);
        (SpecTok::Number(spec_num_val(s.subrange(pos as int, e as int), 0)), e)
    } else if c == '\'' {
        let q = spec_quote_end(s, pos + 1);
        if q < s.len() {
            (SpecTok::StringLit(s.subrange(pos + 1 as int, q as int)), (q + 1) as nat)
        } else {
            (SpecTok::Unknown('\''), s.len())
        }
    } else if c == '<' {
        if pos + 1 < s.len() && s[pos + 1 as int] == '>' {
            (SpecTok::NotEquals, (pos + 2) as nat)
        } else if pos + 1 < s.len() && s[pos + 1 as int] == '=' {
            (SpecTok::LessThanOrEqual, (pos + 2) as nat)
        } else {
            (SpecTok::LessThan, (pos + 1) as nat)
        }
    } else if c == '>' {
        if pos + 1 < s.len() && s[pos + 1 as int] == '=' {
            (SpecTok::GreaterThanOrEqual, (pos + 2) as nat)
        } else {
            (SpecTok::GreaterThan, (pos + 1) as nat)
        }
    } else if c == '=' {
        (SpecTok::Equals, (pos + 1) as nat)
    } else if c == '+' {
        (SpecTok::Plus, (pos + 1) as nat)
    } else if c == '-' {
        (SpecTok::Minus, (pos + 1) as nat)
    } else if c == '*' {
        (SpecTok::Asterisk, (pos + 1) as nat)
    } else if c == '/' {
        (SpecTok::Slash, (pos + 1) as nat)
    } else if c == ',' {
        (SpecTok::Comma, (pos + 1) as nat)
    } else if c == ';' {
        (SpecTok::Semicolon, (pos + 1) as nat)
    } else if c == '(' {
        (SpecTok::LeftParen, (pos + 1) as nat)
    } else if c == ')' {
        (SpecTok::RightParen, (pos + 1) as nat)
    } else {
        (SpecTok::Unknown(c), (pos + 1) as nat)
    }
}

/// The next token at or after `pos`, skipping whitespace, and the position
/// just past it.  At the input's end the token is `Eof` and the position
/// does not move, so repeated calls keep returning `Eof`.
pub open spec fn spec_next_token(s: Seq<char>, pos: nat) -> (SpecTok, nat)
    decreases s.len() - pos,
{
    if pos >= s.len() {
        (SpecTok::Eof, pos)
    } else if is_space_char(s[pos as int]) {
        spec_next_token(s, pos + 1)
    } else {
        spec_scan_token(s, pos)
    }
}

pub proof fn lemma_word_end_bounds(s: Seq<char>, pos: nat)
    requires
        pos <= s.len(),
    ensures
        pos <= spec_word_end(s, pos) <= s.len(),
    decreases s.len() - pos,
{
    if pos < s.len() && is_word_char(s[pos as int]) {
        lemma_word_end_bounds(s, pos + 1);
    }
}

pub proof fn lemma_digits_end_bounds(s: Seq<char>, pos: nat)
    requires
        pos <= s.len(),
    ensures
        pos <= spec_digits_end(s, pos) <= s.len(),
    decreases s.len() - pos,
{
    if pos < s.len() && is_digit_char(s[pos as int]) {
        lemma_digits_end_bounds(s, pos + 1);
    }
}

pub proof fn lemma_quote_end_bounds(s: Seq<char>, pos: nat)
    requires
        pos <= s.len(),
    ensures
        pos <= spec_quote_end(s, pos) <= s.len(),
    decreases s.len() - pos,
{
    if pos < s.len() && s[pos as int] != '\'' {
        lemma_quote_end_bounds(s, pos + 1);
    }
}

/// Scanning makes progress: the position never moves backwards, and it
/// strictly advances unless the returned token is `Eof`, which is returned
/// exactly at the input's end.
pub proof fn lemma_next_token_progress(s: Seq<char>, pos: nat)
    requires
        pos <= s.len(),
    ensures
        ({
            let (t, p) = spec_next_token(s, pos);
            &&& pos <= p <= s.len()
            &&& (!(t is Eof) ==> p > pos)
            &&& (t is Eof ==> p == s.len())
        }),
    decreases s.len() - pos,
{
    if pos >= s.len() {
    } else if is_space_char(s[pos as int]) {
        lemma_next_token_progress(s, pos + 1);
    } else {
        let c = s[pos as int];
        if is_word_start_char(c) {
            lemma_word_end_bounds(s, (pos + 1) as nat);
        } else if is_digit_char(c) {
            lemma_digits_end_bounds(s, (pos + 1) as nat);
        } else if c == '\'' {
            lemma_quote_end_bounds(s, (pos + 1) as nat);
        }
    }
}

// ---------------------------------------------------------------------------
// The spec token sequence of a whole input
// ---------------------------------------------------------------------------

/// All tokens from `pos` on, ending with the one `Eof` marker.
pub open spec fn spec_tokenize_from(s: Seq<char>, pos: nat) -> Seq<SpecTok>
    decreases s.len() - pos,
    via spec_tokenize_from_dec
{
    let (t, p) = spec_next_token(s, pos);
    if t is Eof {
        seq![SpecTok::Eof]
    } else {
        seq![t] + spec_tokenize_from(s, p)
    }
}

#[via_fn]
proof fn spec_tokenize_from_dec(s: Seq<char>, pos: nat) {
    if pos <= s.len() {
        lemma_next_token_progress(s, pos);
    }
}

/// The token sequence of a whole input.
pub open spec fn spec_tokenize(s: Seq<char>) -> Seq<SpecTok> {
    spec_tokenize_from(s, 0)
}

/// The token sequence is never empty, ends with `Eof`, and holds no other
/// `Eof`; and it holds at most one token per input character plus the
/// final marker, which bounds the scanning loop by the input's length.
pub proof fn lemma_tokenize_from_shape(s: Seq<char>, pos: nat)
    requires
        pos <= s.len(),
    ensures
        ({
            let ts = spec_tokenize_from(s, pos);
            &&& 1 <= ts.len() <= s.len() - pos + 1
            &&& ts[ts.len() - 1] is Eof
            &&& forall|i: int| 0 <= i < ts.len() - 1 ==> !(ts[i] is Eof)
        }),
    decreases s.len() - pos,
{
    let (t, p) = spec_next_token(s, pos);
    lemma_next_token_progress(s, pos);
    if !(t is Eof) {
        lemma_tokenize_from_shape(s, p);
    }
}

// ---------------------------------------------------------------------------
// The executable scanner
// ---------------------------------------------------------------------------

fn word_matches(w: &str, kw: &str) -> (r: bool)
    ensures
        r == (spec_upper_seq(w@) == kw@),
{
    let wl = w.unicode_len();
    let kl = kw.unicode_len();
    if wl != kl {
        proof {
            assert(spec_upper_seq(w@).len() == w@.len());
        }
        return false;
    }
    let mut i: usize = 0;
    while i < wl
        invariant
            i <= wl,
            wl as nat == w@.len(),
            kl as nat == kw@.len(),
            wl == kl,
            forall|j: int| 0 <= j < i ==> spec_upper_char(w@[j]) == kw@[j],
        decreases wl - i,
    {
        let cw = upper_char(w.get_char(i));
        let ck = kw.get_char(i);
        if cw != ck {
            proof {
                assert(spec_upper_seq(w@)[i as int] != kw@[i as int]);
            }
            return false;
        }
        i = i + 1;
    }
    proof {
        assert(spec_upper_seq(w@) =~= kw@);
    }
    true
}

fn word_token(w: &str) -> (t: Token)
    ensures
        t@ == spec_word_token(w@),
{
    if word_matches(w, "TRUE") {
        Token::Boolean(true)
    } else if word_matches(w, "FALSE") {
        Token::Boolean(false)
    } else if word_matches(w, "NULL") {
        Token::Null
    } else if word_matches(w, "SELECT") {
        Token::Keyword(Keyword::Select)
    } else if word_matches(w, "FROM") {
        Token::Keyword(Keyword::From)
    } else if word_matches(w, "WHERE") {
        Token::Keyword(Keyword::Where)
    } else if word_matches(w, "ORDER") {
        Token::Keyword(Keyword::Order)
    } else if word_matches(w, "BY") {
        Token::Keyword(Keyword::By)
    } else if word_matches(w, "CREATE") {
        Token::Keyword(Keyword::Create)
    } else if word_matches(w, "TABLE") {
        Token::Keyword(Keyword::Table)
    } else if word_matches(w, "INSERT") {
        Token::Keyword(Keyword::Insert)
    } else if word_matches(w, "INTO") {
        Token::Keyword(Keyword::Into)
    } else if word_matches(w, "VALUES") {
        Token::Keyword(Keyword::Values)
    } else if word_matches(w, "INT") {
        Token::Keyword(Keyword::Int)
    } else if word_matches(w, "VARCHAR") {
        Token::Keyword(Keyword::Varchar)
    } else if word_matches(w, "BOOLEAN") {
        Token::Keyword(Keyword::Boolean)
    } else if word_matches(w, "AND") {
        Token::Keyword(Keyword::And)
    } else if word_matches(w, "OR") {
        Token::Keyword(Keyword::Or)
    } else if word_matches(w, "NOT") {
        Token::Keyword(Keyword::Not)
    } else {
        Token::Identifier(w.to_owned())
    }
}

/// A scanner positioned inside one line of input text.
pub struct Tokenizer<'a> {
    text: &'a str,
    position: usize,
}

impl<'a> Tokenizer<'a> {
    /// The characters being scanned.
    pub closed spec fn text_view(&self) -> Seq<char> {
        self.text@
    }

    /// The current scan position, in characters.
    pub closed spec fn pos(&self) -> nat {
        self.position as nat
    }

    /// The position never runs past the input's end.
    pub open spec fn wf(&self) -> bool {
        self.pos() <= self.text_view().len()
    }

    /// A scanner positioned at the start of `text`.
    pub fn new(text: &'a str) -> (r: Self)
        ensures
            r.text_view() == text@,
            r.pos() == 0,
            r.wf(),
    {
        Tokenizer { text, position: 0 }
    }

    /// The next token of the input, exactly as the spec scanner gives it.
    /// Once the input is exhausted every further call returns `Eof` and
    /// the position stays put.
    pub fn next_token(&mut self) -> (t: Token)
        requires
            old(self).wf(),
        ensures
            final(self).wf(),
            final(self).text_view() == old(self).text_view(),
            ({
                let (st, p) = spec_next_token(old(self).text_view(), old(self).pos());
                t@ == st && final(self).pos() == p
            }),
    {
        let ghost s = self.text@;
        let n = self.text.unicode_len();
        while self.position < n && is_space(self.text.get_char(self.position))
            invariant
                self.text@ == s,
                n as nat == s.len(),
                old(self).pos() <= self.pos() <= s.len(),
                spec_next_token(s, self.pos()) == spec_next_token(s, old(self).pos()),
            decreases n - self.position,
        {
            self.position = self.position + 1;
        }
        if self.position >= n {
            return Token::Eof;
        }
        let c = self.text.get_char(self.position);
        if is_word_start(c) {
            let start = self.position;
            self.position = self.position + 1;
            while self.position < n && is_word(self.text.get_char(self.position))
                invariant
                    self.text@ == s,
                    n as nat == s.len(),
                    start < self.position <= n,
                    spec_word_end(s, start as nat) == spec_word_end(s, self.pos()),
                decreases n - self.position,
            {
                self.position = self.position + 1;
            }
            let w = self.text.substring_char(start, self.position);
            word_token(w)
        } else if is_digit(c) {
            let start = self.position;
            let ghost dend = spec_digits_end(s, start as nat);
            let mut value: u64 = 0;
            proof {
                lemma_digits_end_bounds(s, start as nat);
            }
            while self.position < n && is_digit(self.text.get_char(self.position))
                invariant
                    self.text@ == s,
                    n as nat == s.len(),
                    start <= self.position <= n,
                    dend == spec_digits_end(s, start as nat),
                    spec_digits_end(s, start as nat) == spec_digits_end(s, self.pos()),
                    spec_num_val(s.subrange(start as int, dend as int), 0) == spec_num_val(
                        s.subrange(self.position as int, dend as int),
                        value,
                    ),
                    self.pos() <= dend <= s.len(),
                decreases n - self.position,
            {
                let d = self.text.get_char(self.position);
                proof {
                    assert(spec_digits_end(s, self.pos()) == spec_digits_end(
                        s,
                        (self.position + 1) as nat,
                    ));
                    lemma_digits_end_bounds(s, (self.position + 1) as nat);
                    assert(self.pos() < dend);
                    assert(s.subrange(self.position as int, dend as int).drop_first()
                        =~= s.subrange(self.position + 1, dend as int));
                    assert(s.subrange(self.position as int, dend as int)[0] == s[self.position as int]);
                }
                value = value.wrapping_mul(10).wrapping_add((d as u32 - 48) as u64);
                self.position = self.position + 1;
            }
            proof {
                assert(s.subrange(self.position as int, dend as int) =~= Seq::<char>::empty());
            }
            Token::Number(value)
        } else if c == '\'' {
            let start = self.position;
            let mut q = start + 1;
            while q < n && self.text.get_char(q) != '\''
                invariant
                    self.text@ == s,
                    n as nat == s.len(),
                    start + 1 <= q <= n,
                    spec_quote_end(s, (start + 1) as nat) == spec_quote_end(s, q as nat),
                decreases n - q,
            {
                q = q + 1;
            }
            if q < n {
                let w = self.text.substring_char(start + 1, q);
                self.position = q + 1;
                Token::StringLit(w.to_owned())
            } else {
                self.position = n;
                Token::Unknown('\'')
            }
        } else if c == '<' {
            if self.position + 1 < n && self.text.get_char(self.position + 1) == '>' {
                self.position = self.position + 2;
                Token::NotEquals
            } else if self.position + 1 < n && self.text.get_char(self.position + 1) == '=' {
                self.position = self.position + 2;
                Token::LessThanOrEqual
            } else {
                self.position = self.position + 1;
                Token::LessThan
            }
        } else if c == '>' {
            if self.position + 1 < n && self.text.get_char(self.position + 1) == '=' {
                self.position = self.position + 2;
                Token::GreaterThanOrEqual
            } else {
                self.position = self.position + 1;
                Token::GreaterThan
            }
        } else if c == '=' {
            self.position = self.position + 1;
            Token::Equals
        } else if c == '+' {
            self.position = self.position + 1;
            Token::Plus
        } else if c == '-' {
            self.position = self.position + 1;
            Token::Minus
        } else if c == '*' {
            self.position = self.position + 1;
            Token::Asterisk
        } else if c == '/' {
            self.position = self.position + 1;
            Token::Slash
        } else if c == ',' {
            self.position = self.position + 1;
            Token::Comma
        } else if c == ';' {
            self.position = self.position + 1;
            Token::Semicolon
        } else if c == '(' {
            self.position = self.position + 1;
            Token::LeftParen
        } else if c == ')' {
            self.position = self.position + 1;
            Token::RightParen
        } else {
            self.position = self.position + 1;
            Token::Unknown(c)
        }
    }
}

/// Scans a whole line of text: the returned sequence is exactly the spec
/// scanner's token sequence, is never empty, and ends with the one `Eof`.
pub fn tokenize(text: &str) -> (r: Vec<Token>)
    ensures
        spec_tokens_view(r@) == spec_tokenize(text@),
        r@.len() >= 1,
        r@[r@.len() - 1]@ is Eof,
        forall|i: int| 0 <= i < r@.len() - 1 ==> !(r@[i]@ is Eof),
{
    let ghost s = text@;
    let mut tk = Tokenizer::new(text);
    let mut out: Vec<Token> = Vec::new();
    loop
        invariant_except_break
            tk.wf(),
            tk.text_view() == s,
            spec_tokenize(s) == spec_tokens_view(out@) + spec_tokenize_from(s, tk.pos()),
        ensures
            spec_tokenize(s) == spec_tokens_view(out@),
        decreases s.len() - tk.pos(),
    {
        let ghost pos0 = tk.pos();
        let ghost prev = spec_tokens_view(out@);
        let t = tk.next_token();
        let is_eof = matches!(t, Token::Eof);
        proof {
            lemma_next_token_progress(s, pos0);
        }
        out.push(t);
        proof {
            assert(spec_tokens_view(out@) =~= prev + seq![t@]);
        }
        if is_eof {
            proof {
                assert(prev + seq![t@] =~= prev + spec_tokenize_from(s, pos0));
            }
            break;
        } else {
            proof {
                assert(prev + seq![t@] + spec_tokenize_from(s, tk.pos()) =~= prev
                    + spec_tokenize_from(s, pos0));
            }
        }
    }
    proof {
        lemma_tokenize_from_shape(s, 0);
        assert(forall|i: int| 0 <= i < out@.len() ==> spec_tokens_view(out@)[i] == #[trigger] out@[
            i
        ]@);
    }
    out
}

} // verus!

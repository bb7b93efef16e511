use vstd::math::min;
use vstd::prelude::*;

use super::token::Token;
use crate::file::position::Position;
use super::token_kind::{PuncToken, TokenKind};
use crate::error::Error;
use crate::file::file_stream::{is_alphabet, is_digit, FileStream};
use crate::file::text::{chars_of, string_of};

verus! {

/// The punctuators, longest first: a longer one is tried before any of its
/// prefixes.
pub open spec fn punc_table() -> Seq<(&'static str, PuncToken)> {
    seq![
        ("...", PuncToken::DotDotDot),
        ("<<=", PuncToken::LtLtEqual),
        (">>=", PuncToken::GtGtEqual),
        ("<:", PuncToken::OpenSquare),
        (":>", PuncToken::CloseSquare),
        ("<%", PuncToken::OpenCurly),
        ("%>", PuncToken::CloseCurly),
        ("->", PuncToken::MinusGt),
        ("++", PuncToken::PlusPlus),
        ("--", PuncToken::MinusMinus),
        ("<<", PuncToken::LtLt),
        (">>", PuncToken::GtGt),
        ("<=", PuncToken::LtEqual),
        (">=", PuncToken::GtEqual),
        ("==", PuncToken::EqualEqual),
        ("!=", PuncToken::ExclEqual),
        ("&&", PuncToken::AndAnd),
        ("||", PuncToken::VertVert),
        ("*=", PuncToken::AsteriskEqual),
        ("/=", PuncToken::SlashEqual),
        ("%=", PuncToken::PercentEqual),
        ("+=", PuncToken::PlusEqual),
        ("-=", PuncToken::MinusEqual),
        ("&=", PuncToken::AndEqual),
        ("^=", PuncToken::HatEqual),
        ("|=", PuncToken::VertEqual),
        ("[", PuncToken::OpenSquare),
        ("]", PuncToken::CloseSquare),
        ("(", PuncToken::OpenRound),
        (")", PuncToken::CloseRound),
        ("{", PuncToken::OpenCurly),
        ("}", PuncToken::CloseCurly),
        (".", PuncToken::Dot),
        ("&", PuncToken::And),
        ("*", PuncToken::Asterisk),
        ("+", PuncToken::Plus),
        ("-", PuncToken::Minus),
        ("~", PuncToken::Tilde),
        ("!", PuncToken::Excl),
        ("/", PuncToken::Slash),
        ("%", PuncToken::Percent),
        ("<", PuncToken::Lt),
        (">", PuncToken::Gt),
        ("^", PuncToken::Hat),
        ("|", PuncToken::Vert),
        ("?", PuncToken::Question),
        (":", PuncToken::Colon),
        (";", PuncToken::Semicolon),
        ("=", PuncToken::Equal),
        (",", PuncToken::Comma),
    ]
}

/// The entry at `i` of the punctuator table.
fn punc_entry(i: usize) -> (r: (&'static str, PuncToken))
    requires
        i < 50,
    ensures
        r == punc_table()[i as int],
        r.0@.len() >= 1,
{
    if i == 0 {
        proof {
            reveal_strlit("...");
        }
        ("...", PuncToken::DotDotDot)
    } else if i == 1 {
        proof {
            reveal_strlit("<<=");
        }
        ("<<=", PuncToken::LtLtEqual)
    } else if i == 2 {
        proof {
            reveal_strlit(">>=");
        }
        (">>=", PuncToken::GtGtEqual)
    } else if i == 3 {
        proof {
            reveal_strlit("<:");
        }
        ("<:", PuncToken::OpenSquare)
    } else if i == 4 {
        proof {
            reveal_strlit(":>");
        }
        (":>", PuncToken::CloseSquare)
    } else if i == 5 {
        proof {
            reveal_strlit("<%");
        }
        ("<%", PuncToken::OpenCurly)
    } else if i == 6 {
        proof {
            reveal_strlit("%>");
        }
        ("%>", PuncToken::CloseCurly)
    } else if i == 7 {
        proof {
            reveal_strlit("->");
        }
        ("->", PuncToken::MinusGt)
    } else if i == 8 {
        proof {
            reveal_strlit("++");
        }
        ("++", PuncToken::PlusPlus)
    } else if i == 9 {
        proof {
            reveal_strlit("--");
        }
        ("--", PuncToken::MinusMinus)
    } else if i == 10 {
        proof {
            reveal_strlit("<<");
        }
        ("<<", PuncToken::LtLt)
    } else if i == 11 {
        proof {
            reveal_strlit(">>");
        }
        (">>", PuncToken::GtGt)
    } else if i == 12 {
        proof {
            reveal_strlit("<=");
        }
        ("<=", PuncToken::LtEqual)
    } else if i == 13 {
        proof {
            reveal_strlit(">=");
        }
        (">=", PuncToken::GtEqual)
    } else if i == 14 {
        proof {
            reveal_strlit("==");
        }
        ("==", PuncToken::EqualEqual)
    } else if i == 15 {
        proof {
            reveal_strlit("!=");
        }
        ("!=", PuncToken::ExclEqual)
    } else if i == 16 {
        proof {
            reveal_strlit("&&");
        }
        ("&&", PuncToken::AndAnd)
    } else if i == 17 {
        proof {
            reveal_strlit("||");
        }
        ("||", PuncToken::VertVert)
    } else if i == 18 {
        proof {
            reveal_strlit("*=");
        }
        ("*=", PuncToken::AsteriskEqual)
    } else if i == 19 {
        proof {
            reveal_strlit("/=");
        }
        ("/=", PuncToken::SlashEqual)
    } else if i == 20 {
        proof {
            reveal_strlit("%=");
        }
        ("%=", PuncToken::PercentEqual)
    } else if i == 21 {
        proof {
            reveal_strlit("+=");
        }
        ("+=", PuncToken::PlusEqual)
    } else if i == 22 {
        proof {
            reveal_strlit("-=");
        }
        ("-=", PuncToken::MinusEqual)
    } else if i == 23 {
        proof {
            reveal_strlit("&=");
        }
        ("&=", PuncToken::AndEqual)
    } else if i == 24 {
        proof {
            reveal_strlit("^=");
        }
        ("^=", PuncToken::HatEqual)
    } else if i == 25 {
        proof {
            reveal_strlit("|=");
        }
        ("|=", PuncToken::VertEqual)
    } else if i == 26 {
        proof {
            reveal_strlit("[");
        }
        ("[", PuncToken::OpenSquare)
    } else if i == 27 {
        proof {
            reveal_strlit("]");
        }
        ("]", PuncToken::CloseSquare)
    } else if i == 28 {
        proof {
            reveal_strlit("(");
        }
        ("(", PuncToken::OpenRound)
    } else if i == 29 {
        proof {
            reveal_strlit(")");
        }
        (")", PuncToken::CloseRound)
    } else if i == 30 {
        proof {
            reveal_strlit("{");
        }
        ("{", PuncToken::OpenCurly)
    } else if i == 31 {
        proof {
            reveal_strlit("}");
        }
        ("}", PuncToken::CloseCurly)
    } else if i == 32 {
        proof {
            reveal_strlit(".");
        }
        (".", PuncToken::Dot)
    } else if i == 33 {
        proof {
            reveal_strlit("&");
        }
        ("&", PuncToken::And)
    } else if i == 34 {
        proof {
            reveal_strlit("*");
        }
        ("*", PuncToken::Asterisk)
    } else if i == 35 {
        proof {
            reveal_strlit("+");
        }
        ("+", PuncToken::Plus)
    } else if i == 36 {
        proof {
            reveal_strlit("-");
        }
        ("-", PuncToken::Minus)
    } else if i == 37 {
        proof {
            reveal_strlit("~");
        }
        ("~", PuncToken::Tilde)
    } else if i == 38 {
        proof {
            reveal_strlit("!");
        }
        ("!", PuncToken::Excl)
    } else if i == 39 {
        proof {
            reveal_strlit("/");
        }
        ("/", PuncToken::Slash)
    } else if i == 40 {
        proof {
            reveal_strlit("%");
        }
        ("%", PuncToken::Percent)
    } else if i == 41 {
        proof {
            reveal_strlit("<");
        }
        ("<", PuncToken::Lt)
    } else if i == 42 {
        proof {
            reveal_strlit(">");
        }
        (">", PuncToken::Gt)
    } else if i == 43 {
        proof {
            reveal_strlit("^");
        }
        ("^", PuncToken::Hat)
    } else if i == 44 {
        proof {
            reveal_strlit("|");
        }
        ("|", PuncToken::Vert)
    } else if i == 45 {
        proof {
            reveal_strlit("?");
        }
        ("?", PuncToken::Question)
    } else if i == 46 {
        proof {
            reveal_strlit(":");
        }
        (":", PuncToken::Colon)
    } else if i == 47 {
        proof {
            reveal_strlit(";");
        }
        (";", PuncToken::Semicolon)
    } else if i == 48 {
        proof {
            reveal_strlit("=");
        }
        ("=", PuncToken::Equal)
    } else {
        proof {
            reveal_strlit(",");
        }
        (",", PuncToken::Comma)
    }
}

/// `lit` is a prefix of `rest`.
pub open spec fn matches_at(rest: Seq<char>, lit: Seq<char>) -> bool {
    lit.len() <= rest.len() && rest.subrange(0, lit.len() as int) == lit
}

/// The first entry of the table, from index `k` on, that `rest` starts with.
pub open spec fn first_punc(rest: Seq<char>, k: int) -> Option<(&'static str, PuncToken)>
    decreases punc_table().len() - k,
{
    if k < 0 || k >= punc_table().len() {
        None
    } else if matches_at(rest, punc_table()[k].0@) {
        Some(punc_table()[k])
    } else {
        first_punc(rest, k + 1)
    }
}

/// The value of a run of decimal digits.
pub open spec fn digits_value(s: Seq<char>) -> nat
    decreases s.len(),
{
    if s.len() == 0 {
        0
    } else {
        digits_value(s.drop_last()) * 10 + (s.last() as nat - '0' as nat) as nat
    }
}

/// The keyword that `text` spells, if any.
pub open spec fn keyword(text: Seq<char>) -> Option<TokenKind> {
    if text == "return"@ {
        Some(TokenKind::Return)
    } else if text == "if"@ {
        Some(TokenKind::If)
    } else if text == "else"@ {
        Some(TokenKind::Else)
    } else if text == "for"@ {
        Some(TokenKind::For)
    } else if text == "while"@ {
        Some(TokenKind::While)
    } else {
        None
    }
}

pub open spec fn is_blank(c: char) -> bool {
    c == ' ' || c == '\t' || c == '\n'
}

pub open spec fn is_word_char(c: char) -> bool {
    is_alphabet(c) || c == '_' || is_digit(c)
}

/// The length of the run of digits at the start of `s`.
pub open spec fn digit_run(s: Seq<char>) -> nat
    decreases s.len(),
{
    if s.len() > 0 && is_digit(s[0]) {
        1 + digit_run(s.drop_first())
    } else {
        0
    }
}

/// The length of the run of letters, digits and `_` at the start of `s`.
pub open spec fn word_run(s: Seq<char>) -> nat
    decreases s.len(),
{
    if s.len() > 0 && is_word_char(s[0]) {
        1 + word_run(s.drop_first())
    } else {
        0
    }
}

/// What a token is, with an identifier by its text.
pub enum Lexeme {
    Kind(TokenKind),
    Word(Seq<char>),
}

pub open spec fn lexeme_of(k: TokenKind) -> Lexeme {
    match k {
        TokenKind::Ident(name) => Lexeme::Word(name@),
        _ => Lexeme::Kind(k),
    }
}

/// The word `w` as a keyword, or else as an identifier.
pub open spec fn word_lexeme(w: Seq<char>) -> Lexeme {
    match keyword(w) {
        Some(k) => Lexeme::Kind(k),
        None => Lexeme::Word(w),
    }
}

/// The token at the start of `r`, which is not blank and not only the
/// sentinel, and how many characters it takes: the first punctuator of the
/// table, else a run of digits whose value fits a `usize`, else a word. None
/// when no token starts there.
pub open spec fn token_at(r: Seq<char>) -> Option<(Lexeme, nat)> {
    match first_punc(r, 0) {
        Some((lit, kind)) => Some(
            (Lexeme::Kind(TokenKind::Punc(kind)), min(lit@.len() as int, r.len() - 1) as nat),
        ),
        None => if is_digit(r[0]) {
            let n = digit_run(r);
            let v = digits_value(r.subrange(0, n as int));
            if v <= usize::MAX {
                Some((Lexeme::Kind(TokenKind::Number(v as usize)), n))
            } else {
                None
            }
        } else if is_alphabet(r[0]) || r[0] == '_' {
            let n = word_run(r);
            Some((word_lexeme(r.subrange(0, n as int)), n))
        } else {
            None
        },
    }
}

/// The tokens of `s` from index `i` on, each with the index where it starts,
/// ending with the end-of-input token at the sentinel; or the index of the
/// first character that starts no token. Blanks separate tokens.
pub open spec fn lex(s: Seq<char>, i: nat) -> Result<Seq<(Lexeme, nat)>, nat>
    decreases s.len() - i,
{
    if s.len() <= i + 1 {
        Ok(seq![(Lexeme::Kind(TokenKind::Eof), i)])
    } else if is_blank(s[i as int]) {
        lex(s, i + 1)
    } else {
        match token_at(s.subrange(i as int, s.len() as int)) {
            None => Err(i),
            Some((x, n)) => if n == 0 || i + n > s.len() {
                Err(i)
            } else {
                match lex(s, i + n) {
                    Err(k) => Err(k),
                    Ok(rest) => Ok(seq![(x, i)] + rest),
                }
            },
        }
    }
}

/// `done` followed by what lexing the rest gives.
pub open spec fn lex_after(done: Seq<(Lexeme, nat)>, rest: Result<Seq<(Lexeme, nat)>, nat>) -> Result<
    Seq<(Lexeme, nat)>,
    nat,
> {
    match rest {
        Err(k) => Err(k),
        Ok(xs) => Ok(done + xs),
    }
}

/// `ts` are the tokens that `ls` describes, placed by the characters `all`
/// from index `base` on.
pub open spec fn tokens_are(ts: Seq<Token>, ls: Seq<(Lexeme, nat)>, all: Seq<(Position, char)>, base: nat) -> bool {
    &&& ts.len() == ls.len()
    &&& forall|j: int|
        0 <= j < ts.len() ==> lexeme_of(#[trigger] ts[j].kind) == ls[j].0 && ts[j].position == all[base + ls[j].1 as int].0
}

proof fn lemma_digit_run_exact(s: Seq<char>, k: nat)
    requires
        k <= s.len(),
        forall|i: int| 0 <= i < k ==> is_digit(#[trigger] s[i]),
        k == s.len() || !is_digit(s[k as int]),
    ensures
        digit_run(s) == k,
    decreases k,
{
    if k > 0 {
        assert forall|i: int| 0 <= i < k - 1 implies is_digit(#[trigger] s.drop_first()[i]) by {
            assert(s.drop_first()[i] == s[i + 1]);
        }
        lemma_digit_run_exact(s.drop_first(), (k - 1) as nat);
    }
}

proof fn lemma_digit_run_at_least(s: Seq<char>, k: nat)
    requires
        k <= s.len(),
        forall|i: int| 0 <= i < k ==> is_digit(#[trigger] s[i]),
    ensures
        digit_run(s) >= k,
        digit_run(s) <= s.len(),
    decreases s.len(),
{
    if s.len() > 0 && is_digit(s[0]) {
        if k > 0 {
            assert forall|i: int| 0 <= i < k - 1 implies is_digit(#[trigger] s.drop_first()[i]) by {
                assert(s.drop_first()[i] == s[i + 1]);
            }
            lemma_digit_run_at_least(s.drop_first(), (k - 1) as nat);
        } else {
            lemma_digit_run_at_least(s.drop_first(), 0);
        }
    }
}

proof fn lemma_digits_value_grows(s: Seq<char>, a: nat, b: nat)
    requires
        a <= b <= s.len(),
    ensures
        digits_value(s.subrange(0, a as int)) <= digits_value(s.subrange(0, b as int)),
    decreases b - a,
{
    if a < b {
        lemma_digits_value_grows(s, a, (b - 1) as nat);
        assert(s.subrange(0, b as int).drop_last() =~= s.subrange(0, b - 1));
    }
}

proof fn lemma_word_run_le(s: Seq<char>)
    ensures
        word_run(s) <= s.len(),
    decreases s.len(),
{
    if s.len() > 0 {
        lemma_word_run_le(s.drop_first());
    }
}

proof fn lemma_word_run_exact(s: Seq<char>, k: nat)
    requires
        k <= s.len(),
        forall|i: int| 0 <= i < k ==> is_word_char(#[trigger] s[i]),
        k == s.len() || !is_word_char(s[k as int]),
    ensures
        word_run(s) == k,
    decreases k,
{
    if k > 0 {
        assert forall|i: int| 0 <= i < k - 1 implies is_word_char(#[trigger] s.drop_first()[i]) by {
            assert(s.drop_first()[i] == s[i + 1]);
        }
        lemma_word_run_exact(s.drop_first(), (k - 1) as nat);
    }
}

/// Turns a unit's characters into tokens.
pub struct Tokenizer {
    file_stream: FileStream,
}

impl Tokenizer {
    pub closed spec fn stream(&self) -> FileStream {
        self.file_stream
    }

    pub fn new(file_stream: FileStream) -> (r: Tokenizer)
        requires
            file_stream.wf(),
        ensures
            r.stream() == file_stream,
    {
        Tokenizer { file_stream }
    }

    /// Splits the characters into the tokens that `lex` gives, each placed at
    /// the position of its first character; on a character that starts no
    /// token, fails naming that character and its position.
    pub fn tokenize(&mut self) -> (r: Result<Vec<Token>, Error>)
        requires
            old(self).stream().wf(),
        ensures
            match lex(old(self).stream().rest(), 0) {
                Ok(ls) => r is Ok && tokens_are(
                    r->Ok_0@,
                    ls,
                    old(self).stream().all(),
                    old(self).stream().cursor(),
                ),
                Err(k) => r == Err::<Vec<Token>, Error>(
                    Error::TokenizeUnexpectedChar {
                        position: old(self).stream().position_at(k as int),
                        char: old(self).stream().rest()[k as int],
                    },
                ),
            },
    {
        let ghost s = self.file_stream.rest();
        let ghost all = self.file_stream.all();
        let ghost base = self.file_stream.cursor();
        let ghost mut done: Seq<(Lexeme, nat)> = Seq::empty();
        let mut tokens: Vec<Token> = Vec::new();
        proof {
            self.file_stream.lemma_layout();
            assert(s.subrange(0, s.len() as int) =~= s);
            if let Ok(xs) = lex(s, 0) {
                assert(done + xs =~= xs);
            }
        }
        while !self.file_stream.is_empty()
            invariant
                self.file_stream.wf(),
                s == old(self).stream().rest(),
                all == old(self).stream().all(),
                base == old(self).stream().cursor(),
                old(self).stream().wf(),
                self.file_stream.all() == all,
                base <= self.file_stream.cursor(),
                self.file_stream.rest() == s.subrange(
                    self.file_stream.cursor() - base,
                    s.len() as int,
                ),
                tokens_are(tokens@, done, all, base),
                lex(s, 0) == lex_after(done, lex(s, (self.file_stream.cursor() - base) as nat)),
            decreases self.file_stream.rest().len(),
        {
            let ghost cur = (self.file_stream.cursor() - base) as nat;
            proof {
                self.file_stream.lemma_sentinel();
                self.file_stream.lemma_layout();
                old(self).stream().lemma_layout();
                assert(s.len() > cur + 1);
                assert(self.file_stream.position_at(0) == old(self).stream().position_at(cur as int));
                assert(self.file_stream.rest()[0] == s[cur as int]);
            }
            if self.file_stream.starts_with_white_space() {
                self.file_stream.advance(1);
                proof {
                    self.file_stream.lemma_layout();
                    assert(self.file_stream.rest() =~= s.subrange(cur + 1int, s.len() as int));
                }
                continue;
            }
            assert(!is_blank(s[cur as int]));
            let ghost r0 = self.file_stream.rest();
            if let Some(token) = self.tokenize_symbol() {
                proof {
                    self.file_stream.lemma_layout();
                    let (x, n) = token_at(r0)->Some_0;
                    assert(self.file_stream.rest() =~= s.subrange((cur + n) as int, s.len() as int));
                    lemma_lex_step(done, x, cur, lex(s, cur + n));
                }
                tokens.push(token);
                proof {
                    done = done.push((token_at(r0)->Some_0.0, cur));
                }
                continue;
            }
            match self.tokenize_number() {
                Err(e) => {
                    return Err(e);
                },
                Ok(Some(token)) => {
                    proof {
                        self.file_stream.lemma_layout();
                        let (x, n) = token_at(r0)->Some_0;
                        assert(self.file_stream.rest() =~= s.subrange((cur + n) as int, s.len() as int));
                        lemma_lex_step(done, x, cur, lex(s, cur + n));
                    }
                    tokens.push(token);
                    proof {
                        done = done.push((token_at(r0)->Some_0.0, cur));
                    }
                    continue;
                },
                Ok(None) => {},
            }
            if let Some(token) = self.tokenize_other() {
                proof {
                    self.file_stream.lemma_layout();
                    let (x, n) = token_at(r0)->Some_0;
                    assert(self.file_stream.rest() =~= s.subrange((cur + n) as int, s.len() as int));
                    lemma_lex_step(done, x, cur, lex(s, cur + n));
                }
                tokens.push(token);
                proof {
                    done = done.push((token_at(r0)->Some_0.0, cur));
                }
                continue;
            }
            let (position, char) = match self.file_stream.peek() {
                Some(p) => p,
                None => {
                    return Err(Error::new_unexpected());
                },
            };
            return Err(Error::new_unexpected_char(position, char));
        }
        proof {
            self.file_stream.lemma_layout();
        }
        let position = match self.file_stream.advance(1) {
            Some(p) => p.0,
            None => {
                return Err(Error::new_unexpected());
            },
        };
        let ghost cur = (old(self).stream().rest().len() - 1) as nat;
        proof {
            lemma_lex_step(done, Lexeme::Kind(TokenKind::Eof), cur, Ok(Seq::empty()));
            assert(seq![(Lexeme::Kind(TokenKind::Eof), cur)] + Seq::<(Lexeme, nat)>::empty() =~= seq![
                (Lexeme::Kind(TokenKind::Eof), cur),
            ]);
        }
        tokens.push(Token::new_eof(position));
        proof {
            done = done.push((Lexeme::Kind(TokenKind::Eof), cur));
        }
        Ok(tokens)
    }

    /// Reads the first punctuator of the table that the input starts with.
    fn tokenize_symbol(&mut self) -> (r: Option<Token>)
        requires
            old(self).stream().wf(),
            old(self).stream().rest().len() > 1,
        ensures
            final(self).stream().wf(),
            final(self).stream().all() == old(self).stream().all(),
            match first_punc(old(self).stream().rest(), 0) {
                None => r is None && *final(self) == *old(self),
                Some((lit, kind)) => r matches Some(t) && t.kind == TokenKind::Punc(kind)
                    && t.position == old(self).stream().position_at(0) && lit@.len() >= 1
                    && final(self).stream().rest() == old(self).stream().rest().subrange(
                    min(lit@.len() as int, old(self).stream().rest().len() - 1),
                    old(self).stream().rest().len() as int,
                ),
            },
    {
        let mut i: usize = 0;
        while i < 50
            invariant
                self.file_stream.wf(),
                *self == *old(self),
                self.file_stream.rest().len() > 1,
                punc_table().len() == 50,
                first_punc(self.file_stream.rest(), 0) == first_punc(self.file_stream.rest(), i as int),
            decreases 50 - i,
        {
            let (literal, kind) = punc_entry(i);
            if self.file_stream.starts_with(literal) {
                let n = literal.unicode_len();
                let position = match self.file_stream.advance(n) {
                    Some(p) => p.0,
                    None => {
                        return None;
                    },
                };
                return Some(Token::new_punc_token(kind, position));
            }
            i = i + 1;
        }
        None
    }

    /// Reads a run of decimal digits as a number: the whole run, when its
    /// value fits a `usize`; fails at the run's first digit otherwise.
    fn tokenize_number(&mut self) -> (r: Result<Option<Token>, Error>)
        requires
            old(self).stream().wf(),
            old(self).stream().rest().len() > 1,
        ensures
            final(self).stream().wf(),
            final(self).stream().all() == old(self).stream().all(),
            ({
                let rest = old(self).stream().rest();
                let n = digit_run(rest);
                let v = digits_value(rest.subrange(0, n as int));
                &&& n <= rest.len()
                &&& !is_digit(rest[0]) ==> r == Ok::<Option<Token>, Error>(None) && *final(self) == *old(self)
                &&& is_digit(rest[0]) && v <= usize::MAX ==> (r matches Ok(Some(t)) && t.kind
                    == TokenKind::Number(v as usize) && t.position == old(self).stream().position_at(0)
                    && final(self).stream().rest() == rest.subrange(n as int, rest.len() as int))
                &&& is_digit(rest[0]) && v > usize::MAX ==> r == Err::<Option<Token>, Error>(
                    Error::TokenizeUnexpectedChar { position: old(self).stream().position_at(0), char: rest[0] },
                )
            }),
    {
        proof {
            lemma_digit_run_at_least(old(self).stream().rest(), 0);
        }
        if !self.file_stream.starts_with_number() {
            return Ok(None);
        }
        let ghost all = old(self).stream().rest();
        proof {
            self.file_stream.lemma_sentinel();
        }
        let (position, c) = match self.file_stream.advance(1) {
            Some(p) => p,
            None => {
                return Err(Error::new_unexpected());
            },
        };
        let mut number: usize = (c as u32 - '0' as u32) as usize;
        proof {
            assert(all.subrange(0, 1).drop_last() =~= Seq::<char>::empty());
            assert(all.subrange(0, 1).last() == c);
            assert(digits_value(Seq::<char>::empty()) == 0);
            assert(self.file_stream.rest() =~= all.subrange(1, all.len() as int));
        }
        while self.file_stream.starts_with_number()
            invariant
                self.file_stream.wf(),
                self.file_stream.all() == old(self).stream().all(),
                self.file_stream.rest().len() < all.len(),
                is_digit(all[0]),
                all == old(self).stream().rest(),
                position == old(self).stream().position_at(0),
                c == all[0],
                self.file_stream.rest() == all.subrange(
                    all.len() - self.file_stream.rest().len(),
                    all.len() as int,
                ),
                forall|i: int|
                    0 <= i < all.len() - self.file_stream.rest().len() ==> is_digit(#[trigger] all[i]),
                number == digits_value(all.subrange(0, all.len() - self.file_stream.rest().len())),
            decreases self.file_stream.rest().len(),
        {
            let ghost k = all.len() - self.file_stream.rest().len();
            proof {
                self.file_stream.lemma_sentinel();
                assert(self.file_stream.rest()[0] == all[k]);
            }
            let (_, d) = match self.file_stream.advance(1) {
                Some(p) => p,
                None => {
                    return Err(Error::new_unexpected());
                },
            };
            let digit = (d as u32 - '0' as u32) as usize;
            proof {
                let sub = all.subrange(0, k + 1);
                assert(sub.drop_last() =~= all.subrange(0, k));
                assert(sub.last() == d);
            }
            if number > (usize::MAX - digit) / 10 {
                proof {
                    assert(number * 10 + digit > usize::MAX) by (nonlinear_arith)
                        requires
                            number > (usize::MAX - digit) / 10,
                            digit <= 9,
                    ;
                    assert forall|i: int| 0 <= i < k + 1 implies is_digit(#[trigger] all[i]) by {}
                    lemma_digit_run_at_least(all, (k + 1) as nat);
                    lemma_digits_value_grows(all, (k + 1) as nat, digit_run(all));
                }
                return Err(Error::new_unexpected_char(position, c));
            }
            assert(number * 10 + digit <= usize::MAX) by (nonlinear_arith)
                requires
                    number <= (usize::MAX - digit) / 10,
                    digit <= 9,
            ;
            number = number * 10 + digit;
            proof {
                assert(self.file_stream.rest() =~= all.subrange(k + 1, all.len() as int));
            }
        }
        proof {
            lemma_digit_run_exact(all, (all.len() - self.file_stream.rest().len()) as nat);
        }
        Ok(Some(Token::new_number(number, position)))
    }

    /// Reads a word: the longest run of letters, digits and `_` from a letter
    /// or `_`, as its keyword or else as an identifier.
    fn tokenize_other(&mut self) -> (r: Option<Token>)
        requires
            old(self).stream().wf(),
            old(self).stream().rest().len() > 1,
        ensures
            final(self).stream().wf(),
            final(self).stream().all() == old(self).stream().all(),
            ({
                let rest = old(self).stream().rest();
                let n = word_run(rest);
                &&& n <= rest.len()
                &&& !(is_alphabet(rest[0]) || rest[0] == '_') ==> r is None && *final(self) == *old(self)
                &&& (is_alphabet(rest[0]) || rest[0] == '_') ==> (r matches Some(t) && lexeme_of(t.kind)
                    == word_lexeme(rest.subrange(0, n as int)) && t.position == old(self).stream().position_at(0)
                    && final(self).stream().rest() == rest.subrange(n as int, rest.len() as int))
            }),
    {
        if !(self.file_stream.starts_with_alphabet() || self.file_stream.starts_with_underscore()) {
            proof {
                lemma_word_run_le(old(self).stream().rest());
            }
            return None;
        }
        let ghost all = old(self).stream().rest();
        proof {
            self.file_stream.lemma_sentinel();
        }
        let (position, c) = match self.file_stream.advance(1) {
            Some(p) => p,
            None => {
                return None;
            },
        };
        let mut ident: Vec<char> = Vec::new();
        ident.push(c);
        proof {
            assert(ident@ =~= all.subrange(0, 1));
            assert(self.file_stream.rest() =~= all.subrange(1, all.len() as int));
        }
        while self.file_stream.starts_with_alphabet() || self.file_stream.starts_with_underscore()
            || self.file_stream.starts_with_number()
            invariant
                self.file_stream.wf(),
                self.file_stream.all() == old(self).stream().all(),
                self.file_stream.rest().len() < all.len(),
                all == old(self).stream().rest(),
                position == old(self).stream().position_at(0),
                is_word_char(all[0]),
                self.file_stream.rest() == all.subrange(
                    all.len() - self.file_stream.rest().len(),
                    all.len() as int,
                ),
                ident@ == all.subrange(0, all.len() - self.file_stream.rest().len()),
                forall|i: int|
                    0 <= i < all.len() - self.file_stream.rest().len() ==> is_word_char(#[trigger] all[i]),
            decreases self.file_stream.rest().len(),
        {
            let ghost k = all.len() - self.file_stream.rest().len();
            proof {
                self.file_stream.lemma_sentinel();
                assert(self.file_stream.rest()[0] == all[k]);
            }
            let (_, d) = match self.file_stream.advance(1) {
                Some(p) => p,
                None => {
                    return None;
                },
            };
            ident.push(d);
            proof {
                assert(ident@ =~= all.subrange(0, k + 1));
                assert(self.file_stream.rest() =~= all.subrange(k + 1, all.len() as int));
            }
        }
        proof {
            lemma_word_run_exact(all, (all.len() - self.file_stream.rest().len()) as nat);
        }
        let kind = if same_text(&ident, "return") {
            TokenKind::Return
        } else if same_text(&ident, "if") {
            TokenKind::If
        } else if same_text(&ident, "else") {
            TokenKind::Else
        } else if same_text(&ident, "for") {
            TokenKind::For
        } else if same_text(&ident, "while") {
            TokenKind::While
        } else {
            TokenKind::Ident(string_of(&ident))
        };
        Some(Token::new(kind, position))
    }
}

/// What lexing gives: tokens that start at strictly increasing indices, none
/// before `i`, with the end-of-input token last and only there.
pub proof fn lemma_lex_shape(s: Seq<char>, i: nat)
    ensures
        lex(s, i) matches Ok(ls) ==> {
            &&& ls.len() >= 1
            &&& ls.last().0 == Lexeme::Kind(TokenKind::Eof)
            &&& forall|j: int| 0 <= j < ls.len() - 1 ==> #[trigger] ls[j].0 != Lexeme::Kind(TokenKind::Eof)
            &&& forall|j: int| 0 <= j < ls.len() ==> #[trigger] ls[j].1 >= i
            &&& forall|j: int, k: int| 0 <= j < k < ls.len() ==> #[trigger] ls[j].1 < #[trigger] ls[k].1
        },
    decreases s.len() - i,
{
    if s.len() <= i + 1 {
    } else if is_blank(s[i as int]) {
        lemma_lex_shape(s, i + 1);
    } else if let Some((x, n)) = token_at(s.subrange(i as int, s.len() as int)) {
        if n != 0 && i + n <= s.len() {
            lemma_lex_shape(s, i + n);
            if let Ok(rest) = lex(s, i + n) {
                let ls = seq![(x, i)] + rest;
                assert(x != Lexeme::Kind(TokenKind::Eof));
                assert forall|j: int| 0 <= j < ls.len() implies #[trigger] ls[j].1 >= i by {
                    if j > 0 {
                        assert(ls[j] == rest[j - 1]);
                    }
                }
                assert forall|j: int, k: int| 0 <= j < k < ls.len() implies #[trigger] ls[j].1 < #[trigger] ls[k].1 by {
                    assert(ls[k] == rest[k - 1]);
                    if j > 0 {
                        assert(ls[j] == rest[j - 1]);
                    }
                }
                assert forall|j: int| 0 <= j < ls.len() - 1 implies #[trigger] ls[j].0 != Lexeme::Kind(TokenKind::Eof) by {
                    if j > 0 {
                        assert(ls[j] == rest[j - 1]);
                    }
                }
                assert(ls.last() == rest.last());
            }
        }
    }
}

/// One token more on the lexed prefix.
proof fn lemma_lex_step(
    done: Seq<(Lexeme, nat)>,
    x: Lexeme,
    i: nat,
    rest: Result<Seq<(Lexeme, nat)>, nat>,
)
    ensures
        lex_after(done, lex_after(seq![(x, i)], rest)) == lex_after(done.push((x, i)), rest),
{
    if let Ok(xs) = rest {
        assert(done + (seq![(x, i)] + xs) =~= done.push((x, i)) + xs);
    }
}

/// Whether `v` holds exactly the characters of `s`.
fn same_text(v: &Vec<char>, s: &str) -> (r: bool)
    ensures
        r == (v@ == s@),
{
    let t = chars_of(s);
    if t.len() != v.len() {
        return false;
    }
    let mut i: usize = 0;
    while i < t.len()
        invariant
            t@ == s@,
            t@.len() == v@.len(),
            i <= t@.len(),
            forall|k: int| 0 <= k < i ==> v@[k] == t@[k],
        decreases t@.len() - i,
    {
        if v[i] != t[i] {
            return false;
        }
        i = i + 1;
    }
    assert(v@ =~= s@);
    true
}

} // verus!

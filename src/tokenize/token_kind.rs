use vstd::prelude::*;

verus! {

/// What a token is.
#[derive(Debug, PartialEq, Eq)]
pub enum TokenKind {
    Ident(String),
    Number(usize),
    Punc(PuncToken),
    Return,
    If,
    Else,
    For,
    While,
    Eof,
}

impl Clone for TokenKind {
    fn clone(&self) -> (r: Self)
        ensures
            r == *self,
    {
        match self {
            TokenKind::Ident(name) => TokenKind::Ident(name.clone()),
            TokenKind::Number(n) => TokenKind::Number(*n),
            TokenKind::Punc(p) => TokenKind::Punc(*p),
            TokenKind::Return => TokenKind::Return,
            TokenKind::If => TokenKind::If,
            TokenKind::Else => TokenKind::Else,
            TokenKind::For => TokenKind::For,
            TokenKind::While => TokenKind::While,
            TokenKind::Eof => TokenKind::Eof,
        }
    }
}

impl TokenKind {
    /// Whether two kinds are the same token: identifiers compare by their text.
    pub fn same(&self, other: &TokenKind) -> (r: bool)
        ensures
            r == kind_eq(*self, *other),
    {
        match (self, other) {
            (TokenKind::Ident(a), TokenKind::Ident(b)) => a.eq(b),
            (TokenKind::Number(a), TokenKind::Number(b)) => *a == *b,
            (TokenKind::Punc(a), TokenKind::Punc(b)) => *a == *b,
            (TokenKind::Return, TokenKind::Return) => true,
            (TokenKind::If, TokenKind::If) => true,
            (TokenKind::Else, TokenKind::Else) => true,
            (TokenKind::For, TokenKind::For) => true,
            (TokenKind::While, TokenKind::While) => true,
            (TokenKind::Eof, TokenKind::Eof) => true,
            _ => false,
        }
    }
}

/// Two kinds denote the same token; identifiers compare by their text.
pub open spec fn kind_eq(a: TokenKind, b: TokenKind) -> bool {
    match (a, b) {
        (TokenKind::Ident(x), TokenKind::Ident(y)) => x@ == y@,
        _ => a == b,
    }
}

/// The punctuators of the language.
#[derive(Debug, Clone, Copy, PartialEq, Eq, Structural)]
pub enum PuncToken {
    /// '[' '<:'
    OpenSquare,
    /// ']' ':>'
    CloseSquare,
    /// '('
    OpenRound,
    /// ')'
    CloseRound,
    /// '{' '<%'
    OpenCurly,
    /// '}' '%>'
    CloseCurly,
    /// '.'
    Dot,
    /// '->'
    MinusGt,
    /// '++'
    PlusPlus,
    /// '--'
    MinusMinus,
    /// '&'
    And,
    /// '*'
    Asterisk,
    /// '+'
    Plus,
    /// '-'
    Minus,
    /// '~'
    Tilde,
    /// '!'
    Excl,
    /// '/'
    Slash,
    /// '%'
    Percent,
    /// '<<'
    LtLt,
    /// '>>'
    GtGt,
    /// '<'
    Lt,
    /// '>'
    Gt,
    /// '<='
    LtEqual,
    /// '>='
    GtEqual,
    /// '=='
    EqualEqual,
    /// '!='
    ExclEqual,
    /// '^'
    Hat,
    /// '|'
    Vert,
    /// '&&'
    AndAnd,
    /// '||'
    VertVert,
    /// '?'
    Question,
    /// ':'
    Colon,
    /// ';'
    Semicolon,
    /// '...'
    DotDotDot,
    /// '='
    Equal,
    /// '*='
    AsteriskEqual,
    /// '/='
    SlashEqual,
    /// '%='
    PercentEqual,
    /// '+='
    PlusEqual,
    /// '-='
    MinusEqual,
    /// '<<='
    LtLtEqual,
    /// '>>='
    GtGtEqual,
    /// '&='
    AndEqual,
    /// '^='
    HatEqual,
    /// '|='
    VertEqual,
    /// ','
    Comma,
}

impl PuncToken {
    /// How the punctuator is written.
    pub fn text(&self) -> (r: &'static str)
        ensures
            r@ == punc_text(*self),
    {
        match self {
            PuncToken::OpenSquare => "[",
            PuncToken::CloseSquare => "]",
            PuncToken::OpenRound => "(",
            PuncToken::CloseRound => ")",
            PuncToken::OpenCurly => "{",
            PuncToken::CloseCurly => "}",
            PuncToken::Dot => ".",
            PuncToken::MinusGt => "->",
            PuncToken::PlusPlus => "++",
            PuncToken::MinusMinus => "--",
            PuncToken::And => "&",
            PuncToken::Asterisk => "*",
            PuncToken::Plus => "+",
            PuncToken::Minus => "-",
            PuncToken::Tilde => "~",
            PuncToken::Excl => "!",
            PuncToken::Slash => "/",
            PuncToken::Percent => "%",
            PuncToken::LtLt => "<<",
            PuncToken::GtGt => ">>",
            PuncToken::Lt => "<",
            PuncToken::Gt => ">",
            PuncToken::LtEqual => "<=",
            PuncToken::GtEqual => ">=",
            PuncToken::EqualEqual => "==",
            PuncToken::ExclEqual => "!=",
            PuncToken::Hat => "^",
            PuncToken::Vert => "|",
            PuncToken::AndAnd => "&&",
            PuncToken::VertVert => "||",
            PuncToken::Question => "?",
            PuncToken::Colon => ":",
            PuncToken::Semicolon => ";",
            PuncToken::DotDotDot => "...",
            PuncToken::Equal => "=",
            PuncToken::AsteriskEqual => "*=",
            PuncToken::SlashEqual => "/=",
            PuncToken::PercentEqual => "%=",
            PuncToken::PlusEqual => "+=",
            PuncToken::MinusEqual => "-=",
            PuncToken::LtLtEqual => "<<=",
            PuncToken::GtGtEqual => ">>=",
            PuncToken::AndEqual => "&=",
            PuncToken::HatEqual => "^=",
            PuncToken::VertEqual => "|=",
            PuncToken::Comma => ",",
        }
    }
}

/// How a punctuator is written.
pub open spec fn punc_text(p: PuncToken) -> Seq<char> {
    match p {
        PuncToken::OpenSquare => "["@,
        PuncToken::CloseSquare => "]"@,
        PuncToken::OpenRound => "("@,
        PuncToken::CloseRound => ")"@,
        PuncToken::OpenCurly => "{"@,
        PuncToken::CloseCurly => "}"@,
        PuncToken::Dot => "."@,
        PuncToken::MinusGt => "->"@,
        PuncToken::PlusPlus => "++"@,
        PuncToken::MinusMinus => "--"@,
        PuncToken::And => "&"@,
        PuncToken::Asterisk => "*"@,
        PuncToken::Plus => "+"@,
        PuncToken::Minus => "-"@,
        PuncToken::Tilde => "~"@,
        PuncToken::Excl => "!"@,
        PuncToken::Slash => "/"@,
        PuncToken::Percent => "%"@,
        PuncToken::LtLt => "<<"@,
        PuncToken::GtGt => ">>"@,
        PuncToken::Lt => "<"@,
        PuncToken::Gt => ">"@,
        PuncToken::LtEqual => "<="@,
        PuncToken::GtEqual => ">="@,
        PuncToken::EqualEqual => "=="@,
        PuncToken::ExclEqual => "!="@,
        PuncToken::Hat => "^"@,
        PuncToken::Vert => "|"@,
        PuncToken::AndAnd => "&&"@,
        PuncToken::VertVert => "||"@,
        PuncToken::Question => "?"@,
        PuncToken::Colon => ":"@,
        PuncToken::Semicolon => ";"@,
        PuncToken::DotDotDot => "..."@,
        PuncToken::Equal => "="@,
        PuncToken::AsteriskEqual => "*="@,
        PuncToken::SlashEqual => "/="@,
        PuncToken::PercentEqual => "%="@,
        PuncToken::PlusEqual => "+="@,
        PuncToken::MinusEqual => "-="@,
        PuncToken::LtLtEqual => "<<="@,
        PuncToken::GtGtEqual => ">>="@,
        PuncToken::AndEqual => "&="@,
        PuncToken::HatEqual => "^="@,
        PuncToken::VertEqual => "|="@,
        PuncToken::Comma => ","@,
    }
}

} // verus!

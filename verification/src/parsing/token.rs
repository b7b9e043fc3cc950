use vstd::prelude::*;

verus! {

/// A piece of the text of a file.
#[derive(Debug, PartialEq)]
pub enum Token {
    Switch,
    Case,
    Break,
    Return,
    Colon,
    Dot,
    Enum,
    LeftBrace,
    RightBrace,
    LeftParenthesis,
    RightParenthesis,
    Default,
    Comma,
    AndKeyword,
    OrKeyword,
    Equals,
    Macro,
    Function,
    Constructor,
    Identifier(String),
    /// A number, as it was written.
    Real(String),
    StringLiteral(String),
    Eof,
}

/// The mathematical value of a [`Token`].
pub ghost enum TokenV {
    Switch,
    Case,
    Break,
    Return,
    Colon,
    Dot,
    Enum,
    LeftBrace,
    RightBrace,
    LeftParenthesis,
    RightParenthesis,
    Default,
    Comma,
    AndKeyword,
    OrKeyword,
    Equals,
    Macro,
    Function,
    Constructor,
    Identifier(Seq<char>),
    Real(Seq<char>),
    StringLiteral(Seq<char>),
    Eof,
}

impl View for Token {
    type V = TokenV;

    open spec fn view(&self) -> TokenV {
        match *self {
            Token::Switch => TokenV::Switch,
            Token::Case => TokenV::Case,
            Token::Break => TokenV::Break,
            Token::Return => TokenV::Return,
            Token::Colon => TokenV::Colon,
            Token::Dot => TokenV::Dot,
            Token::Enum => TokenV::Enum,
            Token::LeftBrace => TokenV::LeftBrace,
            Token::RightBrace => TokenV::RightBrace,
            Token::LeftParenthesis => TokenV::LeftParenthesis,
            Token::RightParenthesis => TokenV::RightParenthesis,
            Token::Default => TokenV::Default,
            Token::Comma => TokenV::Comma,
            Token::AndKeyword => TokenV::AndKeyword,
            Token::OrKeyword => TokenV::OrKeyword,
            Token::Equals => TokenV::Equals,
            Token::Macro => TokenV::Macro,
            Token::Function => TokenV::Function,
            Token::Constructor => TokenV::Constructor,
            Token::Identifier(name) => TokenV::Identifier(name@),
            Token::Real(lexeme) => TokenV::Real(lexeme@),
            Token::StringLiteral(text) => TokenV::StringLiteral(text@),
            Token::Eof => TokenV::Eof,
        }
    }
}

impl Token {
    /// The name, where the token is an identifier.
    pub fn as_identifier(&self) -> (out: Option<&String>)
        ensures
            match out {
                Some(name) => *self == Token::Identifier(*name),
                None => !(*self is Identifier),
            },
    {
        if let Token::Identifier(v) = self {
            Some(v)
        } else {
            None
        }
    }

    /// Whether two tokens are the same piece of text.
    pub fn same(&self, other: &Token) -> (yes: bool)
        ensures
            yes == (self@ == other@),
    {
        match (self, other) {
            (Token::Switch, Token::Switch) => true,
            (Token::Case, Token::Case) => true,
            (Token::Break, Token::Break) => true,
            (Token::Return, Token::Return) => true,
            (Token::Colon, Token::Colon) => true,
            (Token::Dot, Token::Dot) => true,
            (Token::Enum, Token::Enum) => true,
            (Token::LeftBrace, Token::LeftBrace) => true,
            (Token::RightBrace, Token::RightBrace) => true,
            (Token::LeftParenthesis, Token::LeftParenthesis) => true,
            (Token::RightParenthesis, Token::RightParenthesis) => true,
            (Token::Default, Token::Default) => true,
            (Token::Comma, Token::Comma) => true,
            (Token::AndKeyword, Token::AndKeyword) => true,
            (Token::OrKeyword, Token::OrKeyword) => true,
            (Token::Equals, Token::Equals) => true,
            (Token::Macro, Token::Macro) => true,
            (Token::Function, Token::Function) => true,
            (Token::Constructor, Token::Constructor) => true,
            (Token::Identifier(a), Token::Identifier(b)) => *a == *b,
            (Token::Real(a), Token::Real(b)) => *a == *b,
            (Token::StringLiteral(a), Token::StringLiteral(b)) => *a == *b,
            (Token::Eof, Token::Eof) => true,
            _ => false,
        }
    }

    /// A copy of the token.
    pub fn duplicate(&self) -> (out: Token)
        ensures
            out@ == self@,
    {
        match self {
            Token::Switch => Token::Switch,
            Token::Case => Token::Case,
            Token::Break => Token::Break,
            Token::Return => Token::Return,
            Token::Colon => Token::Colon,
            Token::Dot => Token::Dot,
            Token::Enum => Token::Enum,
            Token::LeftBrace => Token::LeftBrace,
            Token::RightBrace => Token::RightBrace,
            Token::LeftParenthesis => Token::LeftParenthesis,
            Token::RightParenthesis => Token::RightParenthesis,
            Token::Default => Token::Default,
            Token::Comma => Token::Comma,
            Token::AndKeyword => Token::AndKeyword,
            Token::OrKeyword => Token::OrKeyword,
            Token::Equals => Token::Equals,
            Token::Macro => Token::Macro,
            Token::Function => Token::Function,
            Token::Constructor => Token::Constructor,
            Token::Identifier(name) => Token::Identifier(name.clone()),
            Token::Real(lexeme) => Token::Real(lexeme.clone()),
            Token::StringLiteral(text) => Token::StringLiteral(text.clone()),
            Token::Eof => Token::Eof,
        }
    }
}

/// What a word of letters, digits and underscores is: a keyword, or else an identifier.
pub open spec fn word_token(word: Seq<char>) -> TokenV {
    if word == "switch"@ {
        TokenV::Switch
    } else if word == "case"@ {
        TokenV::Case
    } else if word == "break"@ {
        TokenV::Break
    } else if word == "return"@ {
        TokenV::Return
    } else if word == "default"@ {
        TokenV::Default
    } else if word == "enum"@ {
        TokenV::Enum
    } else if word == "and"@ {
        TokenV::AndKeyword
    } else if word == "or"@ {
        TokenV::OrKeyword
    } else if word == "function"@ {
        TokenV::Function
    } else if word == "constructor"@ {
        TokenV::Constructor
    } else {
        TokenV::Identifier(word)
    }
}

/// Whether a text is the given literal.
fn is_word(text: &String, literal: &str) -> (yes: bool)
    ensures
        yes == (text@ == literal@),
{
    *text == literal.to_owned()
}

/// What a word of letters, digits and underscores is: a keyword, or else an identifier.
pub fn token_of_word(word: String) -> (out: Token)
    ensures
        out@ == word_token(word@),
{
    if is_word(&word, "switch") {
        Token::Switch
    } else if is_word(&word, "case") {
        Token::Case
    } else if is_word(&word, "break") {
        Token::Break
    } else if is_word(&word, "return") {
        Token::Return
    } else if is_word(&word, "default") {
        Token::Default
    } else if is_word(&word, "enum") {
        Token::Enum
    } else if is_word(&word, "and") {
        Token::AndKeyword
    } else if is_word(&word, "or") {
        Token::OrKeyword
    } else if is_word(&word, "function") {
        Token::Function
    } else if is_word(&word, "constructor") {
        Token::Constructor
    } else {
        Token::Identifier(word)
    }
}

} // verus!

use vstd::prelude::*;
use crate::parsing::lexer::{Lexer, lemma_lex_advances, tokens_from};
use crate::parsing::token::{Token, TokenV};

verus! {

/// Why a collector gave up on a text.
#[derive(Debug, PartialEq)]
pub enum ClippieParseError {
    /// A token that cannot stand where it was found, with the place of the file.
    UnexpectedToken(Token, String),
    /// The token that was owed where another one was found.
    ExpectedToken(Token),
    /// The tokens ended where one more was owed.
    UnexpectedEnd,
}

/// The mathematical value of a [`ClippieParseError`].
pub ghost enum ClippieParseErrorV {
    UnexpectedToken(TokenV, Seq<char>),
    ExpectedToken(TokenV),
    UnexpectedEnd,
}

impl View for ClippieParseError {
    type V = ClippieParseErrorV;

    open spec fn view(&self) -> ClippieParseErrorV {
        match *self {
            ClippieParseError::UnexpectedToken(token, place) => ClippieParseErrorV::UnexpectedToken(
                token@,
                place@,
            ),
            ClippieParseError::ExpectedToken(token) => ClippieParseErrorV::ExpectedToken(token@),
            ClippieParseError::UnexpectedEnd => ClippieParseErrorV::UnexpectedEnd,
        }
    }
}

/// The values of a list of tokens.
pub open spec fn tokens_view(tokens: Seq<Token>) -> Seq<TokenV> {
    Seq::new(tokens.len(), |i: int| tokens[i]@)
}

/// The place of the first token at `at` or behind it that is one of `ending`.
pub open spec fn first_among(tokens: Seq<TokenV>, at: nat, ending: Seq<TokenV>) -> Option<nat>
    decreases tokens.len() - at,
{
    if at >= tokens.len() {
        None
    } else if ending.contains(tokens[at as int]) {
        Some(at)
    } else {
        first_among(tokens, at + 1, ending)
    }
}

/// The place that `first_among` finds holds one of the tokens looked for, and stands at or
/// behind the place the search began at.
pub proof fn lemma_first_among_bounds(tokens: Seq<TokenV>, at: nat, ending: Seq<TokenV>)
    ensures
        first_among(tokens, at, ending) matches Some(found) ==> at <= found < tokens.len()
            && ending.contains(tokens[found as int]),
    decreases tokens.len() - at,
{
    if at < tokens.len() && !ending.contains(tokens[at as int]) {
        lemma_first_among_bounds(tokens, at + 1, ending);
    }
}

/// Whether a token is one of a list.
pub fn is_among(token: &Token, list: &[Token]) -> (yes: bool)
    ensures
        yes == tokens_view(list@).contains(token@),
{
    let mut i: usize = 0;
    while i < list.len()
        invariant
            i <= list@.len(),
            forall|j: int| 0 <= j < i ==> tokens_view(list@)[j] != token@,
        decreases list@.len() - i,
    {
        if token.same(&list[i]) {
            assert(tokens_view(list@)[i as int] == token@);
            return true;
        }
        i += 1;
    }
    false
}

/// The tokens of a text, given out one by one.
pub struct GmlTokens {
    tokens: Vec<Token>,
    at: usize,
}

/// The mathematical value of a [`GmlTokens`].
pub ghost struct GmlTokensV {
    /// All the tokens of the text.
    pub tokens: Seq<TokenV>,
    /// The place of the token that is given out next.
    pub at: nat,
}

impl View for GmlTokens {
    type V = GmlTokensV;

    closed spec fn view(&self) -> GmlTokensV {
        GmlTokensV { tokens: tokens_view(self.tokens@), at: self.at as nat }
    }
}

impl GmlTokens {
    #[verifier::type_invariant]
    spec fn within_the_tokens(self) -> bool {
        self.at <= self.tokens@.len()
    }

    /// The tokens of a text, with the first one to be given out next.
    pub fn new(source_code: String) -> (out: GmlTokens)
        ensures
            out@ == (GmlTokensV { tokens: tokens_from(source_code@, 0), at: 0 }),
    {
        let mut lexer = Lexer::new(source_code.as_str());
        let mut tokens: Vec<Token> = Vec::new();
        loop
            invariant
                lexer@.input == source_code@,
                tokens_view(tokens@) + tokens_from(source_code@, lexer@.position) == tokens_from(
                    source_code@,
                    0,
                ),
            decreases source_code@.len() - lexer@.position,
        {
            let ghost before = lexer@.position;
            let ghost held = tokens_view(tokens@);
            proof {
                lemma_lex_advances(source_code@, before);
            }
            match lexer.next() {
                Some((_, token)) => {
                    tokens.push(token);
                    assert(tokens_view(tokens@) =~= held.push(token@));
                    assert(held.push(token@) + tokens_from(source_code@, lexer@.position) =~= held
                        + tokens_from(source_code@, before));
                },
                None => {
                    assert(held + tokens_from(source_code@, before) =~= held);
                    return GmlTokens { tokens, at: 0 };
                },
            }
        }
    }

    /// The place of the token that is given out next.
    pub fn position(&self) -> (at: usize)
        ensures
            at == self@.at,
            self@.at <= self@.tokens.len(),
    {
        proof {
            use_type_invariant(self);
        }
        self.at
    }

    /// The next token, or an error where there is none. The token stays.
    pub fn peek(&self) -> (out: Result<&Token, ClippieParseError>)
        ensures
            self@.at <= self@.tokens.len(),
            match out {
                Ok(token) => self@.at < self@.tokens.len() && token@ == self@.tokens[self@.at as int],
                Err(error) => self@.at == self@.tokens.len() && error@
                    == ClippieParseErrorV::UnexpectedEnd,
            },
    {
        proof {
            use_type_invariant(self);
        }
        if self.at < self.tokens.len() {
            Ok(&self.tokens[self.at])
        } else {
            Err(ClippieParseError::UnexpectedEnd)
        }
    }

    /// Takes and returns the next token, or an error where there is none.
    pub fn take(&mut self) -> (out: Result<Token, ClippieParseError>)
        ensures
            final(self)@.tokens == old(self)@.tokens,
            old(self)@.at <= old(self)@.tokens.len(),
            match out {
                Ok(token) => old(self)@.at < old(self)@.tokens.len() && token@ == old(self)@.tokens[old(self)@.at as int] && final(self)@.at == old(self)@.at + 1,
                Err(error) => old(self)@.at == old(self)@.tokens.len() && error@
                    == ClippieParseErrorV::UnexpectedEnd && final(self)@.at == old(self)@.at,
            },
    {
        proof {
            use_type_invariant(&*self);
        }
        if self.at < self.tokens.len() {
            let token = self.tokens[self.at].duplicate();
            self.at = self.at + 1;
            Ok(token)
        } else {
            Err(ClippieParseError::UnexpectedEnd)
        }
    }

    /// Takes and returns the next token if it is the given one.
    pub fn match_take(&mut self, token: Token) -> (out: Option<Token>)
        ensures
            final(self)@.tokens == old(self)@.tokens,
            old(self)@.at <= old(self)@.tokens.len(),
            out.is_some() == (old(self)@.at < old(self)@.tokens.len() && old(self)@.tokens[old(self)@.at as int] == token@),
            match out {
                Some(taken) => taken@ == token@ && final(self)@.at == old(self)@.at + 1,
                None => final(self)@.at == old(self)@.at,
            },
    {
        let matches = match self.peek() {
            Ok(found) => found.same(&token),
            Err(_) => false,
        };
        if matches {
            match self.take() {
                Ok(taken) => Some(taken),
                Err(_) => None,
            }
        } else {
            None
        }
    }

    /// Takes the next token, and returns it if it is the given one: an error where there is
    /// none, or where it is another.
    pub fn require(&mut self, token: Token) -> (out: Result<Token, ClippieParseError>)
        ensures
            final(self)@.tokens == old(self)@.tokens,
            old(self)@.at <= old(self)@.tokens.len(),
            match out {
                Ok(taken) => old(self)@.at < old(self)@.tokens.len() && taken@ == token@ && old(self)@.tokens[old(self)@.at as int] == token@ && final(self)@.at == old(self)@.at + 1,
                Err(error) => if old(self)@.at == old(self)@.tokens.len() {
                    error@ == ClippieParseErrorV::UnexpectedEnd && final(self)@.at == old(self)@.at
                } else {
                    old(self)@.tokens[old(self)@.at as int] != token@ && error@
                        == ClippieParseErrorV::ExpectedToken(token@) && final(self)@.at == old(self)@.at + 1
                },
            },
    {
        match self.take() {
            Ok(found) => {
                if found.same(&token) {
                    Ok(found)
                } else {
                    Err(ClippieParseError::ExpectedToken(token))
                }
            },
            Err(error) => Err(error),
        }
    }

    /// Takes tokens up to and with the first that is one of `ending_tokens`, and returns that
    /// one: an error, with all tokens taken, where there is none.
    pub fn take_through(&mut self, ending_tokens: &[Token]) -> (out: Result<
        Token,
        ClippieParseError,
    >)
        ensures
            final(self)@.tokens == old(self)@.tokens,
            match out {
                Ok(token) => first_among(
                    old(self)@.tokens,
                    old(self)@.at,
                    tokens_view(ending_tokens@),
                ) matches Some(found) && token@ == old(self)@.tokens[found as int] && final(self)@.at == found + 1,
                Err(error) => first_among(
                    old(self)@.tokens,
                    old(self)@.at,
                    tokens_view(ending_tokens@),
                ).is_none() && error@ == ClippieParseErrorV::UnexpectedEnd && final(self)@.at
                    == old(self)@.tokens.len(),
            },
    {
        proof {
            lemma_first_among_bounds(self@.tokens, self@.at, tokens_view(ending_tokens@));
        }
        match self.take_until(ending_tokens) {
            Ok(_) => self.take(),
            Err(error) => Err(error),
        }
    }

    /// Takes the tokens in front of the first that is one of `ending_tokens`, and returns that
    /// one, which stays: an error, with all tokens taken, where there is none.
    pub fn take_until(&mut self, ending_tokens: &[Token]) -> (out: Result<
        &Token,
        ClippieParseError,
    >)
        ensures
            final(self)@.tokens == old(self)@.tokens,
            match out {
                Ok(token) => first_among(
                    old(self)@.tokens,
                    old(self)@.at,
                    tokens_view(ending_tokens@),
                ) matches Some(found) && token@ == old(self)@.tokens[found as int] && final(self)@.at == found,
                Err(error) => first_among(
                    old(self)@.tokens,
                    old(self)@.at,
                    tokens_view(ending_tokens@),
                ).is_none() && error@ == ClippieParseErrorV::UnexpectedEnd && final(self)@.at
                    == old(self)@.tokens.len(),
            },
    {
        proof {
            use_type_invariant(&*self);
        }
        let mut at = self.at;
        while at < self.tokens.len() && !is_among(&self.tokens[at], ending_tokens)
            invariant
                *self == *old(self),
                at <= self.tokens@.len(),
                first_among(self@.tokens, at as nat, tokens_view(ending_tokens@)) == first_among(
                    self@.tokens,
                    self@.at,
                    tokens_view(ending_tokens@),
                ),
            decreases self.tokens@.len() - at,
        {
            at += 1;
        }
        self.at = at;
        self.peek()
    }
}

} // verus!

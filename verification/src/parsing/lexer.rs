use vstd::prelude::*;
use crate::parsing::token::{Token, TokenV, token_of_word, word_token};

verus! {

/// Whether a character beyond the ASCII range is white space, as `char::is_whitespace` tells.
pub uninterp spec fn wide_white_space(c: char) -> bool;

/// Whether a character beyond the ASCII range is a letter, as `char::is_alphabetic` tells.
pub uninterp spec fn wide_alphabetic(c: char) -> bool;

/// Whether a character beyond the ASCII range is a number, as `char::is_numeric` tells.
pub uninterp spec fn wide_numeric(c: char) -> bool;

/// Whether a character is white space: in the ASCII range the space and the characters from
/// the tab to the carriage return.
pub open spec fn white_space(c: char) -> bool {
    if c <= '\u{7f}' {
        c == ' ' || ('\u{9}' <= c && c <= '\u{d}')
    } else {
        wide_white_space(c)
    }
}

/// Whether a character is a letter: in the ASCII range the letters of the basic alphabet.
pub open spec fn alphabetic(c: char) -> bool {
    if c <= '\u{7f}' {
        ('a' <= c && c <= 'z') || ('A' <= c && c <= 'Z')
    } else {
        wide_alphabetic(c)
    }
}

/// Whether a character is a number: in the ASCII range the ten digits.
pub open spec fn numeric(c: char) -> bool {
    if c <= '\u{7f}' {
        '0' <= c && c <= '9'
    } else {
        wide_numeric(c)
    }
}

/// `char::is_whitespace`: whether the character has the property `White_Space` of the
/// Unicode character database. Of the ASCII characters the space and the characters from
/// the tab to the carriage return have it; beyond them the property is named, not stated.
pub assume_specification[ char::is_whitespace ](c: char) -> (yes: bool)
    ensures
        yes == white_space(c),
        c > '\u{7f}' ==> yes == wide_white_space(c),
;

/// `char::is_alphabetic`: whether the character has the property `Alphabetic` of the Unicode
/// character database. Of the ASCII characters the letters of the basic alphabet have it;
/// beyond them the property is named, not stated.
pub assume_specification[ char::is_alphabetic ](c: char) -> (yes: bool)
    ensures
        yes == alphabetic(c),
        c > '\u{7f}' ==> yes == wide_alphabetic(c),
;

/// `char::is_numeric`: whether the character is of one of the general categories for
/// numbers. Of the ASCII characters the ten digits are; beyond them the categories are
/// named, not stated.
pub assume_specification[ char::is_numeric ](c: char) -> (yes: bool)
    ensures
        yes == numeric(c),
        c > '\u{7f}' ==> yes == wide_numeric(c),
;

/// `String::push`: the character is appended to the end of the text.
pub assume_specification[ std::string::String::push ](text: &mut std::string::String, c: char)
    ensures
        final(text)@ == old(text)@.push(c),
;

/// The characters of a text, one by one.
pub fn characters(content: &str) -> (out: Vec<char>)
    ensures
        out@ == content@,
{
    let mut out: Vec<char> = Vec::new();
    for c in it: content.chars()
        invariant
            out@ == it.seq().subrange(0, it.index() as int),
            it.seq() == content@,
    {
        out.push(c);
    }
    assert(out@ =~= content@);
    out
}

/// Whether a character may stand in a word: a letter of the basic alphabet, a digit or an
/// underscore.
pub open spec fn word_char(c: char) -> bool {
    c == '_' || ('A' <= c && c <= 'Z') || ('a' <= c && c <= 'z') || ('0' <= c && c <= '9')
}

/// Whether a character may stand in a word.
pub fn is_word_char(c: char) -> (yes: bool)
    ensures
        yes == word_char(c),
{
    c == '_' || ('A' <= c && c <= 'Z') || ('a' <= c && c <= 'z') || ('0' <= c && c <= '9')
}

/// Whether a character ends a line.
pub open spec fn line_end(c: char) -> bool {
    c == '\r' || c == '\n'
}

/// The place of the end of the line that `at` stands in: the first place from `at` on that
/// holds a character that ends a line, or the end of the text.
pub open spec fn rest_of_line(input: Seq<char>, at: nat) -> nat
    decreases input.len() - at,
{
    if at >= input.len() {
        input.len()
    } else if line_end(input[at as int]) {
        at
    } else {
        rest_of_line(input, at + 1)
    }
}

/// The place of the first quote from `at` on, where there is one.
pub open spec fn closing_quote(input: Seq<char>, at: nat) -> Option<nat>
    decreases input.len() - at,
{
    if at >= input.len() {
        None
    } else if input[at as int] == '"' {
        Some(at)
    } else {
        closing_quote(input, at + 1)
    }
}

/// The place behind the first `*/` that starts at `at` or later, where there is one.
pub open spec fn comment_end(input: Seq<char>, at: nat) -> Option<nat>
    decreases input.len() - at,
{
    if at >= input.len() {
        None
    } else if input[at as int] == '*' && at + 1 < input.len() && input[at as int + 1] == '/' {
        Some(at + 2)
    } else {
        comment_end(input, at + 1)
    }
}

/// The place behind the run of word characters that starts at `at`.
pub open spec fn word_end(input: Seq<char>, at: nat) -> nat
    decreases input.len() - at,
{
    if at < input.len() && word_char(input[at as int]) {
        word_end(input, at + 1)
    } else if at > input.len() {
        input.len()
    } else {
        at
    }
}

/// The place behind the run of numbers that starts at `at`.
pub open spec fn number_end(input: Seq<char>, at: nat) -> nat
    decreases input.len() - at,
{
    if at < input.len() && numeric(input[at as int]) {
        number_end(input, at + 1)
    } else if at > input.len() {
        input.len()
    } else {
        at
    }
}

/// What stands behind a `#`: the place behind `#macro`, or else the place to go on from,
/// which is the end of the line behind `#region`, and the place where the word behind the
/// `#` ends otherwise.
pub open spec fn directive(input: Seq<char>, at: nat, lexeme: Seq<char>) -> (bool, nat)
    decreases input.len() - at,
{
    if at >= input.len() {
        (false, input.len())
    } else if word_char(input[at as int]) {
        let longer = lexeme.push(input[at as int]);
        if longer == "#macro"@ {
            (true, at + 1)
        } else if longer == "#region"@ {
            (false, rest_of_line(input, at + 1))
        } else {
            directive(input, at + 1, longer)
        }
    } else {
        (false, at)
    }
}

/// A token with the place it starts at and the place behind it.
pub ghost struct Lexed {
    pub start: nat,
    pub token: TokenV,
    pub next: nat,
}

/// The token of a single character, where the character alone is one.
pub open spec fn sign_token(c: char) -> Option<TokenV> {
    if c == ':' {
        Some(TokenV::Colon)
    } else if c == '.' {
        Some(TokenV::Dot)
    } else if c == '{' {
        Some(TokenV::LeftBrace)
    } else if c == '}' {
        Some(TokenV::RightBrace)
    } else if c == '(' {
        Some(TokenV::LeftParenthesis)
    } else if c == ')' {
        Some(TokenV::RightParenthesis)
    } else if c == ',' {
        Some(TokenV::Comma)
    } else if c == '=' {
        Some(TokenV::Equals)
    } else {
        None
    }
}

/// The lexeme of the number that starts at `at`: its digits, and a dot behind them where one
/// follows. The dot itself stays in the text.
pub open spec fn number_lexeme(input: Seq<char>, at: nat) -> Seq<char> {
    let end = number_end(input, at + 1);
    let digits = input.subrange(at as int, end as int);
    if end < input.len() && input[end as int] == '.' {
        digits.push('.')
    } else {
        digits
    }
}

/// The next token from `at` on. Comments, white space and characters that start no token are
/// passed over. The end of the text gives the token of the end at the place 0; a text or a
/// comment that is not closed gives the token of the end at the place where it starts.
pub open spec fn lex_from(input: Seq<char>, at: nat) -> Lexed
    decreases input.len() - at,
{
    if at >= input.len() {
        Lexed { start: 0, token: TokenV::Eof, next: input.len() }
    } else {
        let c = input[at as int];
        let behind = at + 1;
        if sign_token(c) is Some {
            Lexed { start: at, token: sign_token(c).unwrap(), next: behind }
        } else if c == '"' {
            match closing_quote(input, behind) {
                Some(end) => Lexed {
                    start: at,
                    token: TokenV::StringLiteral(input.subrange(behind as int, end as int)),
                    next: end + 1,
                },
                None => Lexed { start: at, token: TokenV::Eof, next: input.len() },
            }
        } else if c == '/' && behind < input.len() && input[behind as int] == '/' {
            proof {
                lemma_rest_of_line_bounds(input, behind + 1);
            }
            lex_from(input, rest_of_line(input, behind + 1))
        } else if c == '#' {
            proof {
                lemma_directive_bounds(input, behind, seq!['#']);
            }
            let (is_macro, next) = directive(input, behind, seq!['#']);
            if is_macro {
                Lexed { start: at, token: TokenV::Macro, next }
            } else {
                lex_from(input, next)
            }
        } else if c == '/' && behind < input.len() && input[behind as int] == '*' {
            match comment_end(input, behind + 1) {
                Some(end) => {
                    proof {
                        lemma_comment_end_bounds(input, behind + 1);
                    }
                    lex_from(input, end)
                },
                None => Lexed { start: at, token: TokenV::Eof, next: input.len() },
            }
        } else if white_space(c) {
            lex_from(input, behind)
        } else if '0' <= c && c <= '9' {
            Lexed {
                start: at,
                token: TokenV::Real(number_lexeme(input, at)),
                next: number_end(input, behind),
            }
        } else if alphabetic(c) || c == '_' {
            Lexed {
                start: at,
                token: word_token(input.subrange(at as int, word_end(input, behind) as int)),
                next: word_end(input, behind),
            }
        } else {
            lex_from(input, behind)
        }
    }
}

/// The end of a line stands at or behind the place it is looked for from.
pub proof fn lemma_rest_of_line_bounds(input: Seq<char>, at: nat)
    ensures
        at <= input.len() ==> at <= rest_of_line(input, at) <= input.len(),
        rest_of_line(input, at) <= input.len(),
    decreases input.len() - at,
{
    if at < input.len() && !line_end(input[at as int]) {
        lemma_rest_of_line_bounds(input, at + 1);
    }
}

/// The place behind a comment stands behind the place it is looked for from.
pub proof fn lemma_comment_end_bounds(input: Seq<char>, at: nat)
    ensures
        comment_end(input, at) matches Some(end) ==> at + 2 <= end <= input.len(),
    decreases input.len() - at,
{
    if at < input.len() && !(input[at as int] == '*' && at + 1 < input.len() && input[at as int + 1]
        == '/') {
        lemma_comment_end_bounds(input, at + 1);
    }
}

/// A closing quote stands at or behind the place it is looked for from.
pub proof fn lemma_closing_quote_bounds(input: Seq<char>, at: nat)
    ensures
        closing_quote(input, at) matches Some(end) ==> at <= end < input.len() && input[end as int]
            == '"',
    decreases input.len() - at,
{
    if at < input.len() && input[at as int] != '"' {
        lemma_closing_quote_bounds(input, at + 1);
    }
}

/// What stands behind a `#` ends at or behind the place it is looked at from.
pub proof fn lemma_directive_bounds(input: Seq<char>, at: nat, lexeme: Seq<char>)
    ensures
        at <= input.len() ==> at <= directive(input, at, lexeme).1 <= input.len(),
        directive(input, at, lexeme).1 <= input.len(),
    decreases input.len() - at,
{
    if at < input.len() && word_char(input[at as int]) {
        let longer = lexeme.push(input[at as int]);
        if longer == "#macro"@ {
        } else if longer == "#region"@ {
            lemma_rest_of_line_bounds(input, at + 1);
        } else {
            lemma_directive_bounds(input, at + 1, longer);
        }
    }
}

/// A run of word characters ends at or behind the place it starts at.
pub proof fn lemma_word_end_bounds(input: Seq<char>, at: nat)
    ensures
        at <= input.len() ==> at <= word_end(input, at) <= input.len(),
    decreases input.len() - at,
{
    if at < input.len() && word_char(input[at as int]) {
        lemma_word_end_bounds(input, at + 1);
    }
}

/// A run of numbers ends at or behind the place it starts at.
pub proof fn lemma_number_end_bounds(input: Seq<char>, at: nat)
    ensures
        at <= input.len() ==> at <= number_end(input, at) <= input.len(),
    decreases input.len() - at,
{
    if at < input.len() && numeric(input[at as int]) {
        lemma_number_end_bounds(input, at + 1);
    }
}

/// A token that is not the end starts at or behind the place it was looked for from, and ends
/// behind that place and within the text.
pub proof fn lemma_lex_advances(input: Seq<char>, at: nat)
    ensures
        lex_from(input, at).next <= input.len(),
        !(lex_from(input, at).token is Eof) ==> at <= lex_from(input, at).start < lex_from(
            input,
            at,
        ).next,
    decreases input.len() - at,
{
    if at < input.len() {
        let c = input[at as int];
        let behind = at + 1;
        if sign_token(c) is Some {
        } else if c == '"' {
            lemma_closing_quote_bounds(input, behind);
        } else if c == '/' && behind < input.len() && input[behind as int] == '/' {
            lemma_rest_of_line_bounds(input, behind + 1);
            lemma_lex_advances(input, rest_of_line(input, behind + 1));
        } else if c == '#' {
            lemma_directive_bounds(input, behind, seq!['#']);
            let (is_macro, next) = directive(input, behind, seq!['#']);
            if !is_macro {
                lemma_lex_advances(input, next);
            }
        } else if c == '/' && behind < input.len() && input[behind as int] == '*' {
            lemma_comment_end_bounds(input, behind + 1);
            if let Some(end) = comment_end(input, behind + 1) {
                lemma_lex_advances(input, end);
            }
        } else if white_space(c) {
            lemma_lex_advances(input, behind);
        } else if '0' <= c && c <= '9' {
            lemma_number_end_bounds(input, behind);
        } else if alphabetic(c) || c == '_' {
            lemma_word_end_bounds(input, behind);
        } else {
            lemma_lex_advances(input, behind);
        }
    }
}

/// The tokens of a text from `at` on, up to the first token of the end.
pub open spec fn tokens_from(input: Seq<char>, at: nat) -> Seq<TokenV>
    decreases input.len() - at,
{
    let lexed = lex_from(input, at);
    if lexed.token is Eof {
        Seq::empty()
    } else {
        proof {
            lemma_lex_advances(input, at);
        }
        seq![lexed.token] + tokens_from(input, lexed.next)
    }
}

/// Takes the text of a file and gives out its tokens one by one.
pub struct Lexer {
    input: Vec<char>,
    position: usize,
    cursor: usize,
}

/// The mathematical value of a [`Lexer`].
pub ghost struct LexerV {
    /// The characters of the text.
    pub input: Seq<char>,
    /// The place of the character that is taken next.
    pub position: nat,
    /// The place where the token that was given out last starts.
    pub cursor: nat,
}

impl View for Lexer {
    type V = LexerV;

    closed spec fn view(&self) -> LexerV {
        LexerV {
            input: self.input@,
            position: self.position as nat,
            cursor: self.cursor as nat,
        }
    }
}

/// The token of a single character, where the character alone is one.
pub fn token_of_sign(c: char) -> (out: Option<Token>)
    ensures
        match out {
            Some(token) => sign_token(c) == Some(token@),
            None => sign_token(c).is_none(),
        },
{
    if c == ':' {
        Some(Token::Colon)
    } else if c == '.' {
        Some(Token::Dot)
    } else if c == '{' {
        Some(Token::LeftBrace)
    } else if c == '}' {
        Some(Token::RightBrace)
    } else if c == '(' {
        Some(Token::LeftParenthesis)
    } else if c == ')' {
        Some(Token::RightParenthesis)
    } else if c == ',' {
        Some(Token::Comma)
    } else if c == '=' {
        Some(Token::Equals)
    } else {
        None
    }
}

impl Lexer {
    #[verifier::type_invariant]
    spec fn within_the_text(self) -> bool {
        self.position <= self.input@.len()
    }

    /// Creates a new Lexer, taking a string of gml source.
    pub fn new(content: &str) -> (lexer: Lexer)
        ensures
            lexer@ == (LexerV { input: content@, position: 0, cursor: 0 }),
    {
        Lexer { input: characters(content), position: 0, cursor: 0 }
    }

    /// The characters from `from` up to `to`, as a text.
    fn text_between(&self, from: usize, to: usize) -> (out: String)
        requires
            from <= to <= self@.input.len(),
        ensures
            out@ == self@.input.subrange(from as int, to as int),
    {
        let mut out = String::new();
        let mut i = from;
        while i < to
            invariant
                from <= i <= to <= self.input@.len(),
                out@ == self.input@.subrange(from as int, i as int),
            decreases to - i,
        {
            out.push(self.input[i]);
            i += 1;
            assert(out@ =~= self.input@.subrange(from as int, i as int));
        }
        out
    }

    /// Returns the next character in the source code.
    pub fn peek(&self) -> (out: Option<char>)
        ensures
            out == if self@.position < self@.input.len() {
                Some(self@.input[self@.position as int])
            } else {
                None
            },
    {
        proof {
            use_type_invariant(self);
        }
        if self.position < self.input.len() {
            Some(self.input[self.position])
        } else {
            None
        }
    }

    /// Consumes and returns the next character in the source code, with its place.
    pub fn take(&mut self) -> (out: Option<(usize, char)>)
        ensures
            final(self)@.input == old(self)@.input,
            final(self)@.cursor == old(self)@.cursor,
            old(self)@.position <= old(self)@.input.len(),
            match out {
                Some((at, c)) => at == old(self)@.position && at < old(self)@.input.len() && c
                    == old(self)@.input[at as int] && final(self)@.position == at + 1,
                None => old(self)@.position == old(self)@.input.len() && final(self)@.position
                    == old(self)@.position,
            },
    {
        proof {
            use_type_invariant(&*self);
        }
        if self.position < self.input.len() {
            let at = self.position;
            let c = self.input[at];
            self.position = at + 1;
            Some((at, c))
        } else {
            None
        }
    }

    /// Consumes the next character in the source code if it matches the given character.
    pub fn match_take(&mut self, chr: char) -> (yes: bool)
        ensures
            final(self)@.input == old(self)@.input,
            final(self)@.cursor == old(self)@.cursor,
            yes == (old(self)@.position < old(self)@.input.len() && old(self)@.input[old(self)@.position as int]
                == chr),
            final(self)@.position == if yes {
                old(self)@.position + 1
            } else {
                old(self)@.position
            },
    {
        match self.peek() {
            Some(c) => {
                if c == chr {
                    let _ = self.take();
                    true
                } else {
                    false
                }
            },
            None => false,
        }
    }

    /// Passes over the rest of the line. Used for comments.
    pub fn discard_rest_of_line(&mut self)
        ensures
            final(self)@.input == old(self)@.input,
            final(self)@.cursor == old(self)@.cursor,
            final(self)@.position == rest_of_line(old(self)@.input, old(self)@.position),
    {
        proof {
            use_type_invariant(&*self);
        }
        let mut at = self.position;
        while at < self.input.len() && !(self.input[at] == '\r' || self.input[at] == '\n')
            invariant
                at <= self.input@.len(),
                rest_of_line(self.input@, at as nat) == rest_of_line(
                    self.input@,
                    self.position as nat,
                ),
            decreases self.input@.len() - at,
        {
            at += 1;
        }
        self.position = at;
    }

    /// Passes over the text of a string literal and its closing quote, and returns the text;
    /// passes to the end where the literal is not closed.
    fn scan_text(&mut self) -> (out: Option<String>)
        ensures
            final(self)@.input == old(self)@.input,
            final(self)@.cursor == old(self)@.cursor,
            match out {
                Some(text) => closing_quote(old(self)@.input, old(self)@.position) matches Some(
                    end,
                ) && text@ == old(self)@.input.subrange(old(self)@.position as int, end as int)
                    && final(self)@.position == end + 1,
                None => closing_quote(old(self)@.input, old(self)@.position).is_none()
                    && final(self)@.position == old(self)@.input.len(),
            },
    {
        proof {
            use_type_invariant(&*self);
        }
        let from = self.position;
        let mut at = from;
        while at < self.input.len() && self.input[at] != '"'
            invariant
                from <= at <= self.input@.len(),
                closing_quote(self.input@, at as nat) == closing_quote(self.input@, from as nat),
            decreases self.input@.len() - at,
        {
            at += 1;
        }
        if at < self.input.len() {
            let text = self.text_between(from, at);
            self.position = at + 1;
            Some(text)
        } else {
            self.position = at;
            None
        }
    }

    /// Passes over a comment up to and with its `*/`, and tells whether it was closed.
    fn scan_comment(&mut self) -> (closed: bool)
        ensures
            final(self)@.input == old(self)@.input,
            final(self)@.cursor == old(self)@.cursor,
            closed == comment_end(old(self)@.input, old(self)@.position).is_some(),
            final(self)@.position == match comment_end(old(self)@.input, old(self)@.position) {
                Some(end) => end,
                None => old(self)@.input.len(),
            },
    {
        proof {
            use_type_invariant(&*self);
        }
        let from = self.position;
        let mut at = from;
        while at < self.input.len()
            invariant
                *self == *old(self),
                from == self.position,
                from <= at <= self.input@.len(),
                comment_end(self.input@, at as nat) == comment_end(self.input@, from as nat),
            decreases self.input@.len() - at,
        {
            if self.input[at] == '*' && at + 1 < self.input.len() && self.input[at + 1] == '/' {
                assert(comment_end(self.input@, at as nat) == Some((at + 2) as nat));
                self.position = at + 2;
                return true;
            }
            at += 1;
        }
        self.position = at;
        false
    }

    /// Passes over what stands behind a `#` and tells whether it was `#macro`.
    fn scan_directive(&mut self) -> (is_macro: bool)
        ensures
            final(self)@.input == old(self)@.input,
            final(self)@.cursor == old(self)@.cursor,
            (is_macro, final(self)@.position) == directive(
                old(self)@.input,
                old(self)@.position,
                seq!['#'],
            ),
    {
        proof {
            use_type_invariant(&*self);
        }
        let mut lexeme = String::new();
        lexeme.push('#');
        assert(lexeme@ =~= seq!['#']);
        let mut at = self.position;
        let macro_word = "#macro".to_owned();
        let region_word = "#region".to_owned();
        while at < self.input.len() && is_word_char(self.input[at])
            invariant
                *self == *old(self),
                at <= self.input@.len(),
                macro_word@ == "#macro"@,
                region_word@ == "#region"@,
                directive(self.input@, at as nat, lexeme@) == directive(
                    self.input@,
                    self.position as nat,
                    seq!['#'],
                ),
            decreases self.input@.len() - at,
        {
            lexeme.push(self.input[at]);
            if lexeme == macro_word {
                self.position = at + 1;
                return true;
            } else if lexeme == region_word {
                self.position = at + 1;
                self.discard_rest_of_line();
                return false;
            }
            at += 1;
        }
        self.position = at;
        false
    }

    /// Passes over the digits of a number and returns its lexeme; `start` is the place of its
    /// first digit, which was taken.
    fn scan_number(&mut self, start: usize) -> (lexeme: String)
        requires
            start + 1 == old(self)@.position,
            start < old(self)@.input.len(),
        ensures
            final(self)@.input == old(self)@.input,
            final(self)@.cursor == old(self)@.cursor,
            lexeme@ == number_lexeme(old(self)@.input, start as nat),
            final(self)@.position == number_end(old(self)@.input, old(self)@.position),
    {
        proof {
            use_type_invariant(&*self);
        }
        let mut at = self.position;
        while at < self.input.len() && self.input[at].is_numeric()
            invariant
                self.position <= at <= self.input@.len(),
                number_end(self.input@, at as nat) == number_end(self.input@, self.position as nat),
            decreases self.input@.len() - at,
        {
            at += 1;
        }
        let mut lexeme = self.text_between(start, at);
        if at < self.input.len() && self.input[at] == '.' {
            lexeme.push('.');
        }
        self.position = at;
        lexeme
    }

    /// Passes over the rest of a word and returns the word; `start` is the place of its first
    /// character, which was taken.
    fn scan_word(&mut self, start: usize) -> (word: String)
        requires
            start + 1 == old(self)@.position,
            start < old(self)@.input.len(),
        ensures
            final(self)@.input == old(self)@.input,
            final(self)@.cursor == old(self)@.cursor,
            final(self)@.position == word_end(old(self)@.input, old(self)@.position),
            word@ == old(self)@.input.subrange(start as int, final(self)@.position as int),
    {
        proof {
            use_type_invariant(&*self);
        }
        let mut at = self.position;
        while at < self.input.len() && is_word_char(self.input[at])
            invariant
                self.position <= at <= self.input@.len(),
                word_end(self.input@, at as nat) == word_end(self.input@, self.position as nat),
            decreases self.input@.len() - at,
        {
            at += 1;
        }
        let word = self.text_between(start, at);
        self.position = at;
        word
    }

    /// Consumes the Lexer's source code until it identifies the next Token.
    pub fn lex(&mut self) -> (out: (usize, Token))
        ensures
            final(self)@.input == old(self)@.input,
            final(self)@.cursor == old(self)@.cursor,
            (Lexed { start: out.0 as nat, token: out.1@, next: final(self)@.position }) == lex_from(
                old(self)@.input,
                old(self)@.position,
            ),
    {
        loop
            invariant
                self@.input == old(self)@.input,
                self@.cursor == old(self)@.cursor,
                lex_from(self@.input, self@.position) == lex_from(
                    old(self)@.input,
                    old(self)@.position,
                ),
            decreases self@.input.len() - self@.position,
        {
            let ghost before = self@.position;
            let (start, chr) = match self.take() {
                Some(taken) => taken,
                None => {
                    return (0, Token::Eof);
                },
            };
            match token_of_sign(chr) {
                Some(token) => {
                    return (start, token);
                },
                None => {},
            }
            if chr == '"' {
                match self.scan_text() {
                    Some(text) => {
                        return (start, Token::StringLiteral(text));
                    },
                    None => {
                        return (start, Token::Eof);
                    },
                }
            }
            if chr == '/' && self.match_take('/') {
                proof {
                    lemma_rest_of_line_bounds(self@.input, self@.position);
                }
                self.discard_rest_of_line();
                continue ;
            }
            if chr == '#' {
                proof {
                    lemma_directive_bounds(self@.input, self@.position, seq!['#']);
                }
                if self.scan_directive() {
                    return (start, Token::Macro);
                }
                continue ;
            }
            if chr == '/' && self.match_take('*') {
                proof {
                    lemma_comment_end_bounds(self@.input, self@.position);
                }
                if self.scan_comment() {
                    continue ;
                }
                return (start, Token::Eof);
            }
            if chr.is_whitespace() {
                continue ;
            }
            if '0' <= chr && chr <= '9' {
                let lexeme = self.scan_number(start);
                return (start, Token::Real(lexeme));
            }
            if chr.is_alphabetic() || chr == '_' {
                let word = self.scan_word(start);
                return (start, token_of_word(word));
            }
        }
    }

    /// Returns the next Token in the Lexer, with the place it starts at; nothing at the end.
    pub fn next(&mut self) -> (out: Option<(usize, Token)>)
        ensures
            final(self)@.input == old(self)@.input,
            final(self)@.position == lex_from(old(self)@.input, old(self)@.position).next,
            final(self)@.cursor == lex_from(old(self)@.input, old(self)@.position).start,
            match out {
                Some((at, token)) => at == lex_from(old(self)@.input, old(self)@.position).start
                    && token@ == lex_from(old(self)@.input, old(self)@.position).token && !(
                token@ is Eof),
                None => lex_from(old(self)@.input, old(self)@.position).token is Eof,
            },
    {
        let (position, token) = self.lex();
        proof {
            use_type_invariant(&*self);
        }
        self.cursor = position;
        match token {
            Token::Eof => None,
            token => Some((position, token)),
        }
    }
}

} // verus!

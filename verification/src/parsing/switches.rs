use vstd::prelude::*;
use crate::gml::declarations::{
    GmlSwitchStatement,
    GmlSwitchStatementDefault,
    GmlSwitchStatementDefaultV,
    GmlSwitchStatementV,
    texts_view,
};
use crate::parsing::collect::{Parser, append, unexpected};
use crate::parsing::pattern::{captured_group, group_in_match, text_view};
use crate::parsing::token::{Token, TokenV};
use crate::parsing::tokens::{
    ClippieParseError,
    ClippieParseErrorV,
    GmlTokens,
    first_among,
    lemma_first_among_bounds,
    tokens_view,
};

verus! {

/// The values of a list of switch statements.
pub open spec fn switches_view(switches: Seq<GmlSwitchStatement>) -> Seq<GmlSwitchStatementV> {
    Seq::new(switches.len(), |i: int| switches[i]@)
}

/// The value of what a collector of switch statements returns.
pub open spec fn switches_outcome(
    out: Result<Vec<GmlSwitchStatement>, ClippieParseError>,
) -> Result<Seq<GmlSwitchStatementV>, ClippieParseErrorV> {
    match out {
        Ok(found) => Ok(switches_view(found@)),
        Err(error) => Err(error@),
    }
}

/// The pattern of the message by which a default case reports a value of a type that was
/// not expected; its first group is the name of the type.
pub open spec fn type_assert_pattern() -> Seq<char> {
    "Unexpected (\\w+):"@
}

/// The name by which a default case reports such a value.
pub open spec fn impossible() -> TokenV {
    TokenV::Identifier("IMPOSSIBLE"@)
}

/// The opening brace alone.
pub open spec fn opening() -> Seq<TokenV> {
    seq![TokenV::LeftBrace]
}

/// The closing brace alone.
pub open spec fn closing() -> Seq<TokenV> {
    seq![TokenV::RightBrace]
}

/// What a case names, read behind the word `case`, with the place behind it: a number or a
/// text as it is written, a name, or two names with a dot between them.
pub open spec fn case_label(tokens: Seq<TokenV>, at: nat, resource_path: Seq<char>) -> Result<
    (Seq<char>, nat),
    ClippieParseErrorV,
> {
    if at >= tokens.len() {
        Err(ClippieParseErrorV::UnexpectedEnd)
    } else {
        match tokens[at as int] {
            TokenV::Real(lexeme) => Ok((lexeme, at + 1)),
            TokenV::StringLiteral(lexeme) => Ok((lexeme, at + 1)),
            TokenV::Identifier(lexeme) => if at + 1 < tokens.len() && tokens[at as int + 1] is Dot {
                if at + 2 >= tokens.len() {
                    Err(ClippieParseErrorV::UnexpectedEnd)
                } else {
                    match tokens[at as int + 2] {
                        TokenV::Identifier(suffix) => Ok((lexeme + "."@ + suffix, at + 3)),
                        other => Err(unexpected(other, resource_path)),
                    }
                }
            } else {
                Ok((lexeme, at + 1))
            },
            other => Err(unexpected(other, resource_path)),
        }
    }
}

/// The place where the block of a case ends, with the number of braces that are open there:
/// at the next `case` or `default`, or at a closing brace where none is open.
pub open spec fn block_end(tokens: Seq<TokenV>, at: nat, braces: nat) -> Result<
    (nat, nat),
    ClippieParseErrorV,
>
    decreases tokens.len() - at,
{
    if at >= tokens.len() {
        Err(ClippieParseErrorV::UnexpectedEnd)
    } else {
        match tokens[at as int] {
            TokenV::Case => Ok((at, braces)),
            TokenV::Default => Ok((at, braces)),
            TokenV::LeftBrace => block_end(tokens, at + 1, braces + 1),
            TokenV::RightBrace => if braces == 0 {
                Ok((at, braces))
            } else {
                block_end(tokens, at + 1, (braces - 1) as nat)
            },
            _ => block_end(tokens, at + 1, braces),
        }
    }
}

/// A block ends at or behind the place it starts at, on a token, and with no more braces
/// open than tokens were passed.
pub proof fn lemma_block_end_bounds(tokens: Seq<TokenV>, at: nat, braces: nat)
    ensures
        block_end(tokens, at, braces) matches Ok((end, open)) ==> at <= end < tokens.len() && open
            <= braces + (end - at),
    decreases tokens.len() - at,
{
    if at < tokens.len() {
        match tokens[at as int] {
            TokenV::Case => {},
            TokenV::Default => {},
            TokenV::LeftBrace => {
                lemma_block_end_bounds(tokens, at + 1, braces + 1);
            },
            TokenV::RightBrace => {
                if braces != 0 {
                    lemma_block_end_bounds(tokens, at + 1, (braces - 1) as nat);
                }
            },
            _ => {
                lemma_block_end_bounds(tokens, at + 1, braces);
            },
        }
    }
}

/// What a default case is, given what the pattern found in its message.
pub open spec fn default_of(capture: Option<Seq<char>>) -> GmlSwitchStatementDefaultV {
    match capture {
        Some(name) => GmlSwitchStatementDefaultV::TypeAssert(name),
        None => GmlSwitchStatementDefaultV::Present,
    }
}

/// What a default case is, read behind `default:`, with the place behind what was read of
/// it: where the name `IMPOSSIBLE`, an opening parenthesis and a text follow, the text
/// decides.
pub open spec fn default_kind(tokens: Seq<TokenV>, at: nat) -> Result<
    (GmlSwitchStatementDefaultV, nat),
    ClippieParseErrorV,
> {
    if at < tokens.len() && tokens[at as int] == impossible() {
        if at + 1 < tokens.len() && tokens[at as int + 1] is LeftParenthesis {
            if at + 2 >= tokens.len() {
                Err(ClippieParseErrorV::UnexpectedEnd)
            } else {
                match tokens[at as int + 2] {
                    TokenV::StringLiteral(message) => Ok(
                        (default_of(group_in_match(type_assert_pattern(), 1, message)), at + 3),
                    ),
                    _ => Ok((GmlSwitchStatementDefaultV::Present, at + 3)),
                }
            }
        } else {
            Ok((GmlSwitchStatementDefaultV::Present, at + 1))
        }
    } else {
        Ok((GmlSwitchStatementDefaultV::Present, at))
    }
}

/// What is known of a switch statement while its body is read.
pub ghost struct Reading {
    pub cases: Seq<Seq<char>>,
    pub default_case: GmlSwitchStatementDefaultV,
    pub braces: nat,
}

/// What is known after one more case or default case, which starts at `at`, with the place
/// to go on from. A closing brace ends the statement, and `None` stands for that.
pub open spec fn part_read(
    tokens: Seq<TokenV>,
    at: nat,
    resource_path: Seq<char>,
    reading: Reading,
) -> Result<Option<(Reading, nat)>, ClippieParseErrorV> {
    if at >= tokens.len() {
        Err(ClippieParseErrorV::UnexpectedEnd)
    } else {
        match tokens[at as int] {
            TokenV::Case => match case_label(tokens, at + 1, resource_path) {
                Err(error) => Err(error),
                Ok((label, next)) => if next >= tokens.len() {
                    Err(ClippieParseErrorV::UnexpectedEnd)
                } else if !(tokens[next as int] is Colon) {
                    Err(ClippieParseErrorV::ExpectedToken(TokenV::Colon))
                } else {
                    match block_end(tokens, next + 1, reading.braces) {
                        Err(error) => Err(error),
                        Ok((end, braces)) => Ok(
                            Some(
                                (
                                    Reading {
                                        cases: reading.cases.push(label),
                                        default_case: reading.default_case,
                                        braces,
                                    },
                                    end,
                                ),
                            ),
                        ),
                    }
                },
            },
            TokenV::Default => if at + 1 >= tokens.len() {
                Err(ClippieParseErrorV::UnexpectedEnd)
            } else if !(tokens[at as int + 1] is Colon) {
                Err(ClippieParseErrorV::ExpectedToken(TokenV::Colon))
            } else {
                match default_kind(tokens, at + 2) {
                    Err(error) => Err(error),
                    Ok((kind, next)) => match first_among(tokens, next, closing()) {
                        None => Err(ClippieParseErrorV::UnexpectedEnd),
                        Some(found) => Ok(
                            Some(
                                (
                                    Reading {
                                        cases: reading.cases,
                                        default_case: kind,
                                        braces: reading.braces,
                                    },
                                    found,
                                ),
                            ),
                        ),
                    },
                }
            },
            TokenV::RightBrace => Ok(None),
            other => Err(unexpected(other, resource_path)),
        }
    }
}

/// A part of a switch statement ends behind the place it starts at, on a token.
pub proof fn lemma_part_read_bounds(
    tokens: Seq<TokenV>,
    at: nat,
    resource_path: Seq<char>,
    reading: Reading,
)
    ensures
        part_read(tokens, at, resource_path, reading) matches Ok(Some((after, next))) ==> at < next
            < tokens.len() && after.braces <= reading.braces + (next - at),
        part_read(tokens, at, resource_path, reading) is Ok ==> at < tokens.len(),
{
    if at < tokens.len() {
        match tokens[at as int] {
            TokenV::Case => {
                if let Ok((_, next)) = case_label(tokens, at + 1, resource_path) {
                    lemma_block_end_bounds(tokens, next + 1, reading.braces);
                }
            },
            TokenV::Default => {
                if let Ok((_, next)) = default_kind(tokens, at + 2) {
                    lemma_first_among_bounds(tokens, next, closing());
                }
            },
            _ => {},
        }
    }
}

/// The switch statement whose body is read from `at` on, with the place behind its closing
/// brace.
pub open spec fn switch_body(
    tokens: Seq<TokenV>,
    at: nat,
    resource_path: Seq<char>,
    reading: Reading,
) -> Result<(GmlSwitchStatementV, nat), ClippieParseErrorV>
    decreases tokens.len() - at,
{
    match part_read(tokens, at, resource_path, reading) {
        Err(error) => Err(error),
        Ok(None) => Ok(
            (
                GmlSwitchStatementV {
                    default_case: reading.default_case,
                    resource_path,
                    cases: reading.cases,
                },
                at + 1,
            ),
        ),
        Ok(Some((after, next))) => {
            proof {
                lemma_part_read_bounds(tokens, at, resource_path, reading);
            }
            switch_body(tokens, next, resource_path, after)
        },
    }
}

/// The body of a switch statement ends behind the place it starts at.
pub proof fn lemma_switch_body_advances(
    tokens: Seq<TokenV>,
    at: nat,
    resource_path: Seq<char>,
    reading: Reading,
)
    ensures
        switch_body(tokens, at, resource_path, reading) matches Ok((_, next)) ==> at < next
            <= tokens.len(),
    decreases tokens.len() - at,
{
    lemma_part_read_bounds(tokens, at, resource_path, reading);
    if let Ok(Some((after, next))) = part_read(tokens, at, resource_path, reading) {
        lemma_switch_body_advances(tokens, next, resource_path, after);
    }
}

/// A switch statement of which nothing was read yet.
pub open spec fn nothing_read() -> Reading {
    Reading {
        cases: Seq::empty(),
        default_case: GmlSwitchStatementDefaultV::Missing,
        braces: 0,
    }
}

/// The switch statements from `at` on, behind those in `found`: each `switch` is followed,
/// behind the next opening brace, by its body.
pub open spec fn switches_from(
    tokens: Seq<TokenV>,
    at: nat,
    resource_path: Seq<char>,
    found: Seq<GmlSwitchStatementV>,
) -> Result<Seq<GmlSwitchStatementV>, ClippieParseErrorV>
    decreases tokens.len() - at,
{
    if at >= tokens.len() {
        Ok(found)
    } else if tokens[at as int] is Switch {
        match first_among(tokens, at + 1, opening()) {
            None => Err(ClippieParseErrorV::UnexpectedEnd),
            Some(brace) => match switch_body(tokens, brace + 1, resource_path, nothing_read()) {
                Err(error) => Err(error),
                Ok((statement, next)) => {
                    proof {
                        lemma_first_among_bounds(tokens, at + 1, opening());
                        lemma_switch_body_advances(
                            tokens,
                            brace + 1,
                            resource_path,
                            nothing_read(),
                        );
                    }
                    switches_from(tokens, next, resource_path, found.push(statement))
                },
            },
        }
    } else {
        switches_from(tokens, at + 1, resource_path, found)
    }
}

/// What a default case is, given what the pattern found in its message: a report of a value
/// of the type found, or a plain default case where nothing was found.
pub fn default_case_of(capture: Option<String>) -> (out: GmlSwitchStatementDefault)
    ensures
        out@ == default_of(text_view(capture)),
{
    match capture {
        Some(name) => GmlSwitchStatementDefault::TypeAssert(name),
        None => GmlSwitchStatementDefault::Present,
    }
}

/// Takes the tokens of the block of a case, and returns the number of braces that are open
/// behind it.
fn pass_block(gml: &mut GmlTokens, braces: usize) -> (out: Result<usize, ClippieParseError>)
    requires
        braces <= old(gml)@.at,
    ensures
        final(gml)@.tokens == old(gml)@.tokens,
        match out {
            Ok(open) => block_end(old(gml)@.tokens, old(gml)@.at, braces as nat) == Ok::<
                (nat, nat),
                ClippieParseErrorV,
            >((final(gml)@.at, open as nat)) && open <= final(gml)@.at,
            Err(error) => block_end(old(gml)@.tokens, old(gml)@.at, braces as nat) == Err::<
                (nat, nat),
                ClippieParseErrorV,
            >(error@),
        },
{
    let mut open = braces;
    loop
        invariant
            gml@.tokens == old(gml)@.tokens,
            open <= gml@.at,
            block_end(gml@.tokens, gml@.at, open as nat) == block_end(
                old(gml)@.tokens,
                old(gml)@.at,
                braces as nat,
            ),
        decreases gml@.tokens.len() - gml@.at,
    {
        let stop = match gml.peek() {
            Ok(Token::Case) => true,
            Ok(Token::Default) => true,
            Ok(Token::LeftBrace) => false,
            Ok(Token::RightBrace) => open == 0,
            Ok(_) => false,
            Err(error) => {
                return Err(error);
            },
        };
        if stop {
            return Ok(open);
        }
        match gml.take() {
            Ok(Token::LeftBrace) => {
                let _ = gml.position();
                open = open + 1;
            },
            Ok(Token::RightBrace) => {
                open = open - 1;
            },
            Ok(_) => {},
            Err(error) => {
                return Err(error);
            },
        }
    }
}

/// Reads what a default case is behind `default:`.
fn read_default(gml: &mut GmlTokens) -> (out: Result<GmlSwitchStatementDefault, ClippieParseError>)
    ensures
        final(gml)@.tokens == old(gml)@.tokens,
        match out {
            Ok(kind) => default_kind(old(gml)@.tokens, old(gml)@.at) == Ok::<
                (GmlSwitchStatementDefaultV, nat),
                ClippieParseErrorV,
            >((kind@, final(gml)@.at)),
            Err(error) => default_kind(old(gml)@.tokens, old(gml)@.at) == Err::<
                (GmlSwitchStatementDefaultV, nat),
                ClippieParseErrorV,
            >(error@),
        },
{
    if gml.match_take(Token::Identifier("IMPOSSIBLE".to_owned())).is_none() {
        return Ok(GmlSwitchStatementDefault::Present);
    }
    if gml.match_take(Token::LeftParenthesis).is_none() {
        return Ok(GmlSwitchStatementDefault::Present);
    }
    match gml.take() {
        Ok(Token::StringLiteral(message)) => Ok(
            default_case_of(captured_group("Unexpected (\\w+):", 1, message.as_str())),
        ),
        Ok(_) => Ok(GmlSwitchStatementDefault::Present),
        Err(error) => Err(error),
    }
}

impl Parser {
    /// Reads what a case names behind the word `case`.
    fn read_case_label(&mut self, gml: &mut GmlTokens) -> (out: Result<String, ClippieParseError>)
        ensures
            final(self)@ == old(self)@,
            final(gml)@.tokens == old(gml)@.tokens,
            match out {
                Ok(label) => case_label(old(gml)@.tokens, old(gml)@.at, old(self)@.resource_path)
                    == Ok::<(Seq<char>, nat), ClippieParseErrorV>((label@, final(gml)@.at)),
                Err(error) => case_label(old(gml)@.tokens, old(gml)@.at, old(self)@.resource_path)
                    == Err::<(Seq<char>, nat), ClippieParseErrorV>(error@),
            },
    {
        match gml.take() {
            Ok(Token::Real(lexeme)) => Ok(lexeme),
            Ok(Token::StringLiteral(lexeme)) => Ok(lexeme),
            Ok(Token::Identifier(lexeme)) => {
                if gml.match_take(Token::Dot).is_some() {
                    match gml.take() {
                        Ok(Token::Identifier(suffix)) => {
                            let mut label = lexeme;
                            append(&mut label, ".");
                            append(&mut label, suffix.as_str());
                            Ok(label)
                        },
                        Ok(token) => Err(self.unexpected(token)),
                        Err(error) => Err(error),
                    }
                } else {
                    Ok(lexeme)
                }
            },
            Ok(token) => Err(self.unexpected(token)),
            Err(error) => Err(error),
        }
    }

    /// Reads the body of a switch statement up to and with its closing brace.
    fn read_switch_body(&mut self, gml: &mut GmlTokens) -> (out: Result<
        GmlSwitchStatement,
        ClippieParseError,
    >)
        ensures
            final(self)@ == old(self)@,
            final(gml)@.tokens == old(gml)@.tokens,
            match out {
                Ok(statement) => switch_body(
                    old(gml)@.tokens,
                    old(gml)@.at,
                    old(self)@.resource_path,
                    nothing_read(),
                ) == Ok::<(GmlSwitchStatementV, nat), ClippieParseErrorV>(
                    (statement@, final(gml)@.at),
                ),
                Err(error) => switch_body(
                    old(gml)@.tokens,
                    old(gml)@.at,
                    old(self)@.resource_path,
                    nothing_read(),
                ) == Err::<(GmlSwitchStatementV, nat), ClippieParseErrorV>(error@),
            },
    {
        let mut cases: Vec<String> = Vec::new();
        let mut default_case = GmlSwitchStatementDefault::Missing;
        let mut braces: usize = 0;
        let mut ending: Vec<Token> = Vec::new();
        ending.push(Token::RightBrace);
        assert(tokens_view(ending@) =~= closing());
        assert(texts_view(cases@) =~= Seq::empty());
        loop
            invariant
                self@ == old(self)@,
                gml@.tokens == old(gml)@.tokens,
                tokens_view(ending@) == closing(),
                braces <= gml@.at,
                switch_body(
                    gml@.tokens,
                    gml@.at,
                    self@.resource_path,
                    Reading {
                        cases: texts_view(cases@),
                        default_case: default_case@,
                        braces: braces as nat,
                    },
                ) == switch_body(
                    old(gml)@.tokens,
                    old(gml)@.at,
                    old(self)@.resource_path,
                    nothing_read(),
                ),
            decreases gml@.tokens.len() - gml@.at,
        {
            let ghost reading = Reading {
                cases: texts_view(cases@),
                default_case: default_case@,
                braces: braces as nat,
            };
            proof {
                lemma_part_read_bounds(gml@.tokens, gml@.at, self@.resource_path, reading);
            }
            match gml.take() {
                Ok(Token::Case) => {
                    let label = match self.read_case_label(gml) {
                        Ok(label) => label,
                        Err(error) => {
                            return Err(error);
                        },
                    };
                    match gml.require(Token::Colon) {
                        Ok(_) => {},
                        Err(error) => {
                            return Err(error);
                        },
                    }
                    braces = match pass_block(gml, braces) {
                        Ok(open) => open,
                        Err(error) => {
                            return Err(error);
                        },
                    };
                    cases.push(label);
                    assert(texts_view(cases@) =~= reading.cases.push(label@));
                },
                Ok(Token::Default) => {
                    match gml.require(Token::Colon) {
                        Ok(_) => {},
                        Err(error) => {
                            return Err(error);
                        },
                    }
                    default_case = match read_default(gml) {
                        Ok(kind) => kind,
                        Err(error) => {
                            return Err(error);
                        },
                    };
                    proof {
                        lemma_first_among_bounds(gml@.tokens, gml@.at, closing());
                    }
                    match gml.take_until(ending.as_slice()) {
                        Ok(_) => {},
                        Err(error) => {
                            return Err(error);
                        },
                    }
                },
                Ok(Token::RightBrace) => {
                    return Ok(GmlSwitchStatement::new(default_case, self.resource_path(), cases));
                },
                Ok(token) => {
                    return Err(self.unexpected(token));
                },
                Err(error) => {
                    return Err(error);
                },
            }
        }
    }

    /// The switch statements of the file, in the order of the text, each with what its cases
    /// name and with what its default case is.
    pub fn collect_gml_switch_statements(&mut self) -> (out: Result<
        Vec<GmlSwitchStatement>,
        ClippieParseError,
    >)
        ensures
            final(self)@ == old(self)@,
            switches_outcome(out) == switches_from(
                old(self)@.tokens(),
                0,
                old(self)@.resource_path,
                Seq::empty(),
            ),
    {
        let mut collection: Vec<GmlSwitchStatement> = Vec::new();
        let mut gml = self.tokens();
        let mut opening_brace: Vec<Token> = Vec::new();
        opening_brace.push(Token::LeftBrace);
        assert(tokens_view(opening_brace@) =~= opening());
        assert(switches_view(collection@) =~= Seq::empty());
        loop
            invariant
                self@ == old(self)@,
                gml@.tokens == self@.tokens(),
                tokens_view(opening_brace@) == opening(),
                switches_from(gml@.tokens, gml@.at, self@.resource_path, switches_view(collection@))
                    == switches_from(self@.tokens(), 0, self@.resource_path, Seq::empty()),
            decreases gml@.tokens.len() - gml@.at,
        {
            let token = match gml.take() {
                Ok(token) => token,
                Err(_) => {
                    return Ok(collection);
                },
            };
            if token.same(&Token::Switch) {
                proof {
                    lemma_first_among_bounds(gml@.tokens, gml@.at, opening());
                }
                match gml.take_through(opening_brace.as_slice()) {
                    Ok(_) => {},
                    Err(error) => {
                        return Err(error);
                    },
                }
                proof {
                    lemma_switch_body_advances(
                        gml@.tokens,
                        gml@.at,
                        self@.resource_path,
                        nothing_read(),
                    );
                }
                let statement = match self.read_switch_body(&mut gml) {
                    Ok(statement) => statement,
                    Err(error) => {
                        return Err(error);
                    },
                };
                let ghost held = switches_view(collection@);
                collection.push(statement);
                assert(switches_view(collection@) =~= held.push(statement@));
            }
        }
    }
}

} // verus!

use vstd::prelude::*;
use crate::gml::declarations::{
    GmlConstructor,
    GmlConstructorV,
    GmlKeywords,
    GmlKeywordsV,
    GmlMacro,
    GmlMacroV,
    name_view,
};
use crate::gml::environment::{GmlEnum, GmlEnumV};
use crate::parsing::lexer::{characters, tokens_from};
use crate::parsing::token::{Token, TokenV};
use crate::parsing::tokens::{
    ClippieParseError,
    ClippieParseErrorV,
    GmlTokens,
    first_among,
    lemma_first_among_bounds,
    tokens_view,
};

verus! {

/// The place of a file as an error names it.
pub open spec fn error_path(resource_path: Seq<char>) -> Seq<char> {
    resource_path + ":[GABE BROKE LINE NUMEBERS]"@
}

/// The error for a token that cannot stand where it was found.
pub open spec fn unexpected(token: TokenV, resource_path: Seq<char>) -> ClippieParseErrorV {
    ClippieParseErrorV::UnexpectedToken(token, error_path(resource_path))
}

/// Appends a text to another.
pub fn append(text: &mut String, more: &str)
    ensures
        final(text)@ == old(text)@ + more@,
{
    let added = characters(more);
    let mut i: usize = 0;
    assert(text@ =~= old(text)@ + added@.subrange(0, 0));
    while i < added.len()
        invariant
            i <= added@.len(),
            text@ == old(text)@ + added@.subrange(0, i as int),
        decreases added@.len() - i,
    {
        text.push(added[i]);
        i += 1;
        assert(text@ =~= old(text)@ + added@.subrange(0, i as int));
    }
    assert(added@.subrange(0, i as int) =~= more@);
}

/// The values of a list of macros.
pub open spec fn macros_view(macros: Seq<GmlMacro>) -> Seq<GmlMacroV> {
    Seq::new(macros.len(), |i: int| macros[i]@)
}

/// The values of a list of constructors.
pub open spec fn constructors_view(constructors: Seq<GmlConstructor>) -> Seq<GmlConstructorV> {
    Seq::new(constructors.len(), |i: int| constructors[i]@)
}

/// The values of a list of keywords.
pub open spec fn keywords_view(keywords: Seq<GmlKeywords>) -> Seq<GmlKeywordsV> {
    Seq::new(keywords.len(), |i: int| keywords[i]@)
}

/// The values of a list of enums.
pub open spec fn enums_view(enums: Seq<GmlEnum>) -> Seq<GmlEnumV> {
    Seq::new(enums.len(), |i: int| enums[i]@)
}

/// The value of what a collector of macros returns.
pub open spec fn macros_outcome(out: Result<Vec<GmlMacro>, ClippieParseError>) -> Result<
    Seq<GmlMacroV>,
    ClippieParseErrorV,
> {
    match out {
        Ok(found) => Ok(macros_view(found@)),
        Err(error) => Err(error@),
    }
}

/// The value of what a collector of constructors returns.
pub open spec fn constructors_outcome(
    out: Result<Vec<GmlConstructor>, ClippieParseError>,
) -> Result<Seq<GmlConstructorV>, ClippieParseErrorV> {
    match out {
        Ok(found) => Ok(constructors_view(found@)),
        Err(error) => Err(error@),
    }
}

/// The value of what a collector of keywords returns.
pub open spec fn keywords_outcome(out: Result<Vec<GmlKeywords>, ClippieParseError>) -> Result<
    Seq<GmlKeywordsV>,
    ClippieParseErrorV,
> {
    match out {
        Ok(found) => Ok(keywords_view(found@)),
        Err(error) => Err(error@),
    }
}

/// The value of what a collector of enums returns.
pub open spec fn enums_outcome(out: Result<Vec<GmlEnum>, ClippieParseError>) -> Result<
    Seq<GmlEnumV>,
    ClippieParseErrorV,
> {
    match out {
        Ok(found) => Ok(enums_view(found@)),
        Err(error) => Err(error@),
    }
}

/// The macros declared from `at` on, behind those in `found`: each `#macro` is followed by
/// the name of one.
pub open spec fn macros_from(
    tokens: Seq<TokenV>,
    at: nat,
    resource_path: Seq<char>,
    found: Seq<GmlMacroV>,
) -> Result<Seq<GmlMacroV>, ClippieParseErrorV>
    decreases tokens.len() - at,
{
    if at >= tokens.len() {
        Ok(found)
    } else if tokens[at as int] is Macro {
        if at + 1 >= tokens.len() {
            Err(ClippieParseErrorV::UnexpectedEnd)
        } else {
            match tokens[at as int + 1] {
                TokenV::Identifier(name) => macros_from(
                    tokens,
                    at + 2,
                    resource_path,
                    found.push(GmlMacroV { name, resource_path }),
                ),
                other => Err(unexpected(other, resource_path)),
            }
        }
    } else {
        macros_from(tokens, at + 1, resource_path, found)
    }
}

/// The uses of `and` and `or` from `at` on, behind those in `found`.
pub open spec fn keywords_from(
    tokens: Seq<TokenV>,
    at: nat,
    resource_path: Seq<char>,
    found: Seq<GmlKeywordsV>,
) -> Seq<GmlKeywordsV>
    decreases tokens.len() - at,
{
    if at >= tokens.len() {
        found
    } else if tokens[at as int] is AndKeyword {
        keywords_from(tokens, at + 1, resource_path, found.push(GmlKeywordsV::And(resource_path)))
    } else if tokens[at as int] is OrKeyword {
        keywords_from(tokens, at + 1, resource_path, found.push(GmlKeywordsV::Or(resource_path)))
    } else {
        keywords_from(tokens, at + 1, resource_path, found)
    }
}

/// The tokens that end the value of a member of an enum.
pub open spec fn value_ends() -> Seq<TokenV> {
    seq![TokenV::Comma, TokenV::RightBrace]
}

/// The place behind what stands behind a member's name: behind the value that an equals
/// sign brings, and otherwise the place itself.
pub open spec fn value_end(tokens: Seq<TokenV>, at: nat) -> Result<nat, ClippieParseErrorV> {
    if at < tokens.len() && tokens[at as int] is Equals {
        match first_among(tokens, at + 1, value_ends()) {
            Some(found) => Ok(found),
            None => Err(ClippieParseErrorV::UnexpectedEnd),
        }
    } else {
        Ok(at)
    }
}

/// The place behind a comma, where one stands at `at`.
pub open spec fn behind_comma(tokens: Seq<TokenV>, at: nat) -> nat {
    if at < tokens.len() && tokens[at as int] is Comma {
        at + 1
    } else {
        at
    }
}

/// The enum with one more member.
pub open spec fn with_member(so_far: GmlEnumV, member: Seq<char>) -> GmlEnumV {
    GmlEnumV { name: so_far.name, members: so_far.members.push(member) }
}

/// The enum that `so_far` grows into by the members from `at` on, with the place behind its
/// closing brace. A member is a name, a value behind an equals sign where there is one, and
/// a comma where there is one.
pub open spec fn members_from(
    tokens: Seq<TokenV>,
    at: nat,
    resource_path: Seq<char>,
    so_far: GmlEnumV,
) -> Result<(GmlEnumV, nat), ClippieParseErrorV>
    decreases tokens.len() - at,
{
    if at >= tokens.len() {
        Err(ClippieParseErrorV::UnexpectedEnd)
    } else {
        match tokens[at as int] {
            TokenV::Identifier(member) => match value_end(tokens, at + 1) {
                Err(error) => Err(error),
                Ok(behind_value) => {
                    let next = behind_comma(tokens, behind_value);
                    if next < tokens.len() && tokens[next as int] is RightBrace {
                        Ok((with_member(so_far, member), next + 1))
                    } else {
                        proof {
                            lemma_first_among_bounds(tokens, at + 2, value_ends());
                        }
                        members_from(tokens, next, resource_path, with_member(so_far, member))
                    }
                },
            },
            other => Err(unexpected(other, resource_path)),
        }
    }
}

/// The members of an enum end behind the place they start at.
pub proof fn lemma_members_advance(
    tokens: Seq<TokenV>,
    at: nat,
    resource_path: Seq<char>,
    so_far: GmlEnumV,
)
    ensures
        members_from(tokens, at, resource_path, so_far) matches Ok((_, next)) ==> at < next
            <= tokens.len(),
    decreases tokens.len() - at,
{
    if at < tokens.len() {
        if let TokenV::Identifier(member) = tokens[at as int] {
            lemma_first_among_bounds(tokens, at + 2, value_ends());
            if let Ok(behind_value) = value_end(tokens, at + 1) {
                let next = behind_comma(tokens, behind_value);
                if !(next < tokens.len() && tokens[next as int] is RightBrace) {
                    lemma_members_advance(tokens, next, resource_path, with_member(so_far, member));
                }
            }
        }
    }
}

/// The enums declared from `at` on, behind those in `found`: each `enum` is followed by a
/// name, an opening brace and the members.
pub open spec fn enums_from(
    tokens: Seq<TokenV>,
    at: nat,
    resource_path: Seq<char>,
    found: Seq<GmlEnumV>,
) -> Result<Seq<GmlEnumV>, ClippieParseErrorV>
    decreases tokens.len() - at,
{
    if at >= tokens.len() {
        Ok(found)
    } else if tokens[at as int] is Enum {
        if at + 1 >= tokens.len() {
            Err(ClippieParseErrorV::UnexpectedEnd)
        } else {
            match tokens[at as int + 1] {
                TokenV::Identifier(name) => if at + 2 >= tokens.len() {
                    Err(ClippieParseErrorV::UnexpectedEnd)
                } else if !(tokens[at as int + 2] is LeftBrace) {
                    Err(ClippieParseErrorV::ExpectedToken(TokenV::LeftBrace))
                } else {
                    match members_from(
                        tokens,
                        at + 3,
                        resource_path,
                        GmlEnumV { name, members: Seq::empty() },
                    ) {
                        Err(error) => Err(error),
                        Ok((gml_enum, next)) => {
                            proof {
                                lemma_members_advance(
                                    tokens,
                                    at + 3,
                                    resource_path,
                                    GmlEnumV { name, members: Seq::empty() },
                                );
                            }
                            enums_from(tokens, next, resource_path, found.push(gml_enum))
                        },
                    }
                },
                other => Err(unexpected(other, resource_path)),
            }
        }
    } else {
        enums_from(tokens, at + 1, resource_path, found)
    }
}

/// The name of a function, read behind the word `function`, with the place behind the
/// opening parenthesis: no name where the parenthesis comes at once.
pub open spec fn callee_name(tokens: Seq<TokenV>, at: nat, resource_path: Seq<char>) -> Result<
    (Option<Seq<char>>, nat),
    ClippieParseErrorV,
> {
    if at >= tokens.len() {
        Err(ClippieParseErrorV::UnexpectedEnd)
    } else {
        match tokens[at as int] {
            TokenV::LeftParenthesis => Ok((None, at + 1)),
            TokenV::Identifier(name) => if at + 1 >= tokens.len() {
                Err(ClippieParseErrorV::UnexpectedEnd)
            } else if !(tokens[at as int + 1] is LeftParenthesis) {
                Err(ClippieParseErrorV::ExpectedToken(TokenV::LeftParenthesis))
            } else {
                Ok((Some(name), at + 2))
            },
            other => Err(unexpected(other, resource_path)),
        }
    }
}

/// Whether the word `constructor` follows the signature that is read from `at` on, with the
/// place behind the signature and that word. A closing parenthesis ends the signature unless
/// a colon, a name and an opening parenthesis follow it.
pub open spec fn signature_end(tokens: Seq<TokenV>, at: nat, resource_path: Seq<char>) -> Result<
    (bool, nat),
    ClippieParseErrorV,
>
    decreases tokens.len() - at,
{
    if at >= tokens.len() {
        Err(ClippieParseErrorV::UnexpectedEnd)
    } else if tokens[at as int] is RightParenthesis {
        if at + 1 < tokens.len() && tokens[at as int + 1] is Colon {
            if at + 2 >= tokens.len() {
                Err(ClippieParseErrorV::UnexpectedEnd)
            } else {
                match tokens[at as int + 2] {
                    TokenV::Identifier(_) => if at + 3 >= tokens.len() {
                        Err(ClippieParseErrorV::UnexpectedEnd)
                    } else if !(tokens[at as int + 3] is LeftParenthesis) {
                        Err(ClippieParseErrorV::ExpectedToken(TokenV::LeftParenthesis))
                    } else {
                        signature_end(tokens, at + 4, resource_path)
                    },
                    other => Err(unexpected(other, resource_path)),
                }
            }
        } else if at + 1 < tokens.len() && tokens[at as int + 1] is Constructor {
            Ok((true, at + 2))
        } else {
            Ok((false, at + 1))
        }
    } else {
        signature_end(tokens, at + 1, resource_path)
    }
}

/// A signature ends behind the place it is read from.
pub proof fn lemma_signature_advances(tokens: Seq<TokenV>, at: nat, resource_path: Seq<char>)
    ensures
        signature_end(tokens, at, resource_path) matches Ok((_, next)) ==> at < next
            <= tokens.len(),
    decreases tokens.len() - at,
{
    if at < tokens.len() {
        if tokens[at as int] is RightParenthesis {
            if at + 1 < tokens.len() && tokens[at as int + 1] is Colon {
                if at + 3 < tokens.len() && tokens[at as int + 2] is Identifier
                    && tokens[at as int + 3] is LeftParenthesis {
                    lemma_signature_advances(tokens, at + 4, resource_path);
                }
            }
        } else {
            lemma_signature_advances(tokens, at + 1, resource_path);
        }
    }
}

/// The constructors declared from `at` on, behind those in `found`: each function whose
/// signature is followed by the word `constructor`.
pub open spec fn constructors_from(
    tokens: Seq<TokenV>,
    at: nat,
    resource_path: Seq<char>,
    found: Seq<GmlConstructorV>,
) -> Result<Seq<GmlConstructorV>, ClippieParseErrorV>
    decreases tokens.len() - at,
{
    if at >= tokens.len() {
        Ok(found)
    } else if tokens[at as int] is Function {
        match callee_name(tokens, at + 1, resource_path) {
            Err(error) => Err(error),
            Ok((name, inside)) => match signature_end(tokens, inside, resource_path) {
                Err(error) => Err(error),
                Ok((is_constructor, next)) => {
                    proof {
                        lemma_signature_advances(tokens, inside, resource_path);
                    }
                    constructors_from(
                        tokens,
                        next,
                        resource_path,
                        if is_constructor {
                            found.push(GmlConstructorV { name, resource_path })
                        } else {
                            found
                        },
                    )
                },
            },
        }
    } else {
        constructors_from(tokens, at + 1, resource_path, found)
    }
}

/// Finds what a file declares by a scan over its tokens.
pub struct Parser {
    source_code: String,
    resource_path: String,
}

/// The mathematical value of a [`Parser`].
pub ghost struct ParserV {
    /// The text of the file.
    pub source_code: Seq<char>,
    /// The place of the file.
    pub resource_path: Seq<char>,
}

impl ParserV {
    /// The tokens of the text.
    pub open spec fn tokens(self) -> Seq<TokenV> {
        tokens_from(self.source_code, 0)
    }
}

impl View for Parser {
    type V = ParserV;

    closed spec fn view(&self) -> ParserV {
        ParserV { source_code: self.source_code@, resource_path: self.resource_path@ }
    }
}

impl Parser {
    /// A parser for the text of the file at that place.
    pub fn new(source_code: String, resource_path: String) -> (out: Parser)
        ensures
            out@ == (ParserV { source_code: source_code@, resource_path: resource_path@ }),
    {
        Parser { source_code, resource_path }
    }

    /// The tokens of the text, with the first one to be given out next.
    pub(crate) fn tokens(&self) -> (out: GmlTokens)
        ensures
            out@.tokens == self@.tokens(),
            out@.at == 0,
    {
        GmlTokens::new(self.source_code.clone())
    }

    /// The place of the file.
    pub(crate) fn resource_path(&self) -> (out: String)
        ensures
            out@ == self@.resource_path,
    {
        self.resource_path.clone()
    }

    /// The place of the file as an error names it.
    pub fn create_error_path(&mut self) -> (out: String)
        ensures
            final(self)@ == old(self)@,
            out@ == error_path(old(self)@.resource_path),
    {
        let mut out = self.resource_path.clone();
        append(&mut out, ":[GABE BROKE LINE NUMEBERS]");
        out
    }

    /// The error for a token that cannot stand where it was found.
    pub(crate) fn unexpected(&mut self, token: Token) -> (out: ClippieParseError)
        ensures
            final(self)@ == old(self)@,
            out@ == unexpected(token@, old(self)@.resource_path),
    {
        ClippieParseError::UnexpectedToken(token, self.create_error_path())
    }

    /// The macros that the file declares, in the order of the text.
    pub fn collect_gml_macros(&mut self) -> (out: Result<Vec<GmlMacro>, ClippieParseError>)
        ensures
            final(self)@ == old(self)@,
            macros_outcome(out) == macros_from(
                old(self)@.tokens(),
                0,
                old(self)@.resource_path,
                Seq::empty(),
            ),
    {
        let mut collection: Vec<GmlMacro> = Vec::new();
        let mut gml = GmlTokens::new(self.source_code.clone());
        assert(macros_view(collection@) =~= Seq::empty());
        loop
            invariant
                self@ == old(self)@,
                gml@.tokens == self@.tokens(),
                macros_from(gml@.tokens, gml@.at, self@.resource_path, macros_view(collection@))
                    == macros_from(self@.tokens(), 0, self@.resource_path, Seq::empty()),
            decreases gml@.tokens.len() - gml@.at,
        {
            let token = match gml.take() {
                Ok(token) => token,
                Err(_) => {
                    return Ok(collection);
                },
            };
            if token.same(&Token::Macro) {
                match gml.take() {
                    Ok(Token::Identifier(name)) => {
                        let ghost held = macros_view(collection@);
                        let found = GmlMacro::new(name, self.resource_path.clone());
                        collection.push(found);
                        assert(macros_view(collection@) =~= held.push(found@));
                    },
                    Ok(token) => {
                        return Err(self.unexpected(token));
                    },
                    Err(error) => {
                        return Err(error);
                    },
                }
            }
        }
    }

    /// The uses of the keywords `and` and `or` in the file, in the order of the text.
    pub fn collect_gml_keywords(&mut self) -> (out: Result<Vec<GmlKeywords>, ClippieParseError>)
        ensures
            final(self)@ == old(self)@,
            keywords_outcome(out) == Ok::<Seq<GmlKeywordsV>, ClippieParseErrorV>(
                keywords_from(old(self)@.tokens(), 0, old(self)@.resource_path, Seq::empty()),
            ),
    {
        let mut collection: Vec<GmlKeywords> = Vec::new();
        let mut gml = GmlTokens::new(self.source_code.clone());
        assert(keywords_view(collection@) =~= Seq::empty());
        loop
            invariant
                self@ == old(self)@,
                gml@.tokens == self@.tokens(),
                keywords_from(gml@.tokens, gml@.at, self@.resource_path, keywords_view(collection@))
                    == keywords_from(self@.tokens(), 0, self@.resource_path, Seq::empty()),
            decreases gml@.tokens.len() - gml@.at,
        {
            let ghost held = keywords_view(collection@);
            match gml.take() {
                Ok(Token::AndKeyword) => {
                    let found = GmlKeywords::And(self.resource_path.clone());
                    collection.push(found);
                    assert(keywords_view(collection@) =~= held.push(found@));
                },
                Ok(Token::OrKeyword) => {
                    let found = GmlKeywords::Or(self.resource_path.clone());
                    collection.push(found);
                    assert(keywords_view(collection@) =~= held.push(found@));
                },
                Ok(_) => {},
                Err(_) => {
                    return Ok(collection);
                },
            }
        }
    }

    /// Reads the members of an enum up to and with its closing brace.
    fn read_members(&mut self, gml: &mut GmlTokens, gml_enum: GmlEnum) -> (out: Result<
        GmlEnum,
        ClippieParseError,
    >)
        ensures
            final(self)@ == old(self)@,
            final(gml)@.tokens == old(gml)@.tokens,
            match out {
                Ok(grown) => members_from(
                    old(gml)@.tokens,
                    old(gml)@.at,
                    old(self)@.resource_path,
                    gml_enum@,
                ) == Ok::<(GmlEnumV, nat), ClippieParseErrorV>((grown@, final(gml)@.at)),
                Err(error) => members_from(
                    old(gml)@.tokens,
                    old(gml)@.at,
                    old(self)@.resource_path,
                    gml_enum@,
                ) == Err::<(GmlEnumV, nat), ClippieParseErrorV>(error@),
            },
    {
        let mut growing = gml_enum;
        let mut ending: Vec<Token> = Vec::new();
        ending.push(Token::Comma);
        ending.push(Token::RightBrace);
        assert(tokens_view(ending@) =~= value_ends());
        loop
            invariant
                self@ == old(self)@,
                gml@.tokens == old(gml)@.tokens,
                tokens_view(ending@) == value_ends(),
                members_from(gml@.tokens, gml@.at, self@.resource_path, growing@) == members_from(
                    old(gml)@.tokens,
                    old(gml)@.at,
                    old(self)@.resource_path,
                    gml_enum@,
                ),
            decreases gml@.tokens.len() - gml@.at,
        {
            let ghost at = gml@.at;
            proof {
                lemma_first_among_bounds(gml@.tokens, at + 2, value_ends());
            }
            match gml.take() {
                Ok(Token::Identifier(name)) => {
                    growing.add_member(name);
                    if gml.match_take(Token::Equals).is_some() {
                        match gml.take_until(ending.as_slice()) {
                            Ok(_) => {},
                            Err(error) => {
                                return Err(error);
                            },
                        }
                    }
                    let _ = gml.match_take(Token::Comma);
                    if gml.match_take(Token::RightBrace).is_some() {
                        return Ok(growing);
                    }
                },
                Ok(token) => {
                    return Err(self.unexpected(token));
                },
                Err(error) => {
                    return Err(error);
                },
            }
        }
    }

    /// The enums that the file declares, in the order of the text.
    pub fn collect_gml_enums(&mut self) -> (out: Result<Vec<GmlEnum>, ClippieParseError>)
        ensures
            final(self)@ == old(self)@,
            enums_outcome(out) == enums_from(
                old(self)@.tokens(),
                0,
                old(self)@.resource_path,
                Seq::empty(),
            ),
    {
        let mut collection: Vec<GmlEnum> = Vec::new();
        let mut gml = GmlTokens::new(self.source_code.clone());
        assert(enums_view(collection@) =~= Seq::empty());
        loop
            invariant
                self@ == old(self)@,
                gml@.tokens == self@.tokens(),
                enums_from(gml@.tokens, gml@.at, self@.resource_path, enums_view(collection@))
                    == enums_from(self@.tokens(), 0, self@.resource_path, Seq::empty()),
            decreases gml@.tokens.len() - gml@.at,
        {
            let ghost at = gml@.at;
            let token = match gml.take() {
                Ok(token) => token,
                Err(_) => {
                    return Ok(collection);
                },
            };
            if token.same(&Token::Enum) {
                match gml.take() {
                    Ok(Token::Identifier(name)) => {
                        let gml_enum = GmlEnum::new(name);
                        match gml.require(Token::LeftBrace) {
                            Ok(_) => {},
                            Err(error) => {
                                return Err(error);
                            },
                        }
                        proof {
                            lemma_members_advance(
                                gml@.tokens,
                                at + 3,
                                self@.resource_path,
                                gml_enum@,
                            );
                        }
                        let gml_enum = match self.read_members(&mut gml, gml_enum) {
                            Ok(gml_enum) => gml_enum,
                            Err(error) => {
                                return Err(error);
                            },
                        };
                        let ghost held = enums_view(collection@);
                        collection.push(gml_enum);
                        assert(enums_view(collection@) =~= held.push(gml_enum@));
                    },
                    Ok(token) => {
                        return Err(self.unexpected(token));
                    },
                    Err(error) => {
                        return Err(error);
                    },
                }
            }
        }
    }

    /// Reads the name of a function behind the word `function`, and the opening parenthesis.
    fn read_callee_name(&mut self, gml: &mut GmlTokens) -> (out: Result<
        Option<String>,
        ClippieParseError,
    >)
        ensures
            final(self)@ == old(self)@,
            final(gml)@.tokens == old(gml)@.tokens,
            match out {
                Ok(name) => callee_name(old(gml)@.tokens, old(gml)@.at, old(self)@.resource_path)
                    == Ok::<(Option<Seq<char>>, nat), ClippieParseErrorV>(
                    (name_view(name), final(gml)@.at),
                ),
                Err(error) => callee_name(old(gml)@.tokens, old(gml)@.at, old(self)@.resource_path)
                    == Err::<(Option<Seq<char>>, nat), ClippieParseErrorV>(error@),
            },
    {
        if gml.match_take(Token::LeftParenthesis).is_some() {
            return Ok(None);
        }
        let name = match gml.take() {
            Ok(Token::Identifier(name)) => name,
            Ok(token) => {
                return Err(self.unexpected(token));
            },
            Err(error) => {
                return Err(error);
            },
        };
        match gml.require(Token::LeftParenthesis) {
            Ok(_) => Ok(Some(name)),
            Err(error) => Err(error),
        }
    }

    /// Reads a signature to its end, and tells whether the word `constructor` follows it.
    fn read_signature(&mut self, gml: &mut GmlTokens) -> (out: Result<bool, ClippieParseError>)
        ensures
            final(self)@ == old(self)@,
            final(gml)@.tokens == old(gml)@.tokens,
            match out {
                Ok(is_constructor) => signature_end(
                    old(gml)@.tokens,
                    old(gml)@.at,
                    old(self)@.resource_path,
                ) == Ok::<(bool, nat), ClippieParseErrorV>((is_constructor, final(gml)@.at)),
                Err(error) => signature_end(
                    old(gml)@.tokens,
                    old(gml)@.at,
                    old(self)@.resource_path,
                ) == Err::<(bool, nat), ClippieParseErrorV>(error@),
            },
    {
        loop
            invariant
                self@ == old(self)@,
                gml@.tokens == old(gml)@.tokens,
                signature_end(gml@.tokens, gml@.at, self@.resource_path) == signature_end(
                    old(gml)@.tokens,
                    old(gml)@.at,
                    old(self)@.resource_path,
                ),
            decreases gml@.tokens.len() - gml@.at,
        {
            let token = match gml.take() {
                Ok(token) => token,
                Err(error) => {
                    return Err(error);
                },
            };
            if token.same(&Token::RightParenthesis) {
                if gml.match_take(Token::Colon).is_some() {
                    match gml.take() {
                        Ok(Token::Identifier(_)) => {},
                        Ok(token) => {
                            return Err(self.unexpected(token));
                        },
                        Err(error) => {
                            return Err(error);
                        },
                    }
                    match gml.require(Token::LeftParenthesis) {
                        Ok(_) => {},
                        Err(error) => {
                            return Err(error);
                        },
                    }
                } else {
                    return Ok(gml.match_take(Token::Constructor).is_some());
                }
            }
        }
    }

    /// The constructors that the file declares, in the order of the text.
    pub fn collect_gml_constructors(&mut self) -> (out: Result<
        Vec<GmlConstructor>,
        ClippieParseError,
    >)
        ensures
            final(self)@ == old(self)@,
            constructors_outcome(out) == constructors_from(
                old(self)@.tokens(),
                0,
                old(self)@.resource_path,
                Seq::empty(),
            ),
    {
        let mut collection: Vec<GmlConstructor> = Vec::new();
        let mut gml = GmlTokens::new(self.source_code.clone());
        assert(constructors_view(collection@) =~= Seq::empty());
        loop
            invariant
                self@ == old(self)@,
                gml@.tokens == self@.tokens(),
                constructors_from(
                    gml@.tokens,
                    gml@.at,
                    self@.resource_path,
                    constructors_view(collection@),
                ) == constructors_from(self@.tokens(), 0, self@.resource_path, Seq::empty()),
            decreases gml@.tokens.len() - gml@.at,
        {
            let token = match gml.take() {
                Ok(token) => token,
                Err(_) => {
                    return Ok(collection);
                },
            };
            if token.same(&Token::Function) {
                let constructor_name = match self.read_callee_name(&mut gml) {
                    Ok(name) => name,
                    Err(error) => {
                        return Err(error);
                    },
                };
                proof {
                    lemma_signature_advances(gml@.tokens, gml@.at, self@.resource_path);
                }
                let is_constructor = match self.read_signature(&mut gml) {
                    Ok(is_constructor) => is_constructor,
                    Err(error) => {
                        return Err(error);
                    },
                };
                if is_constructor {
                    let ghost held = constructors_view(collection@);
                    let found = GmlConstructor::new(constructor_name, self.resource_path.clone());
                    collection.push(found);
                    assert(constructors_view(collection@) =~= held.push(found@));
                }
            }
        }
    }
}

} // verus!

use duck::gml::declarations::{
    GmlConstructor, GmlKeywords, GmlMacro, GmlSwitchStatement, GmlSwitchStatementDefault,
};
use duck::gml::environment::GmlEnum;
use duck::parsing::collect::{append, Parser};
use duck::parsing::lexer::{characters, is_word_char, token_of_sign, Lexer};
use duck::parsing::switches::default_case_of;
use duck::parsing::token::{token_of_word, Token};
use duck::parsing::tokens::{is_among, ClippieParseError, GmlTokens};

fn parser(source: &str) -> Parser {
    Parser::new(source.to_string(), "test".to_string())
}

fn word(text: &str) -> Token {
    Token::Identifier(text.to_string())
}

fn digits(text: &str) -> Token {
    Token::Real(text.to_string())
}

fn all_tokens(source: &str) -> Vec<(usize, Token)> {
    let mut lexer = Lexer::new(source);
    let mut out = vec![];
    while let Some(found) = lexer.next() {
        out.push(found);
    }
    out
}

fn unexpected(token: Token) -> ClippieParseError {
    ClippieParseError::UnexpectedToken(token, "test:[GABE BROKE LINE NUMEBERS]".to_string())
}

fn gml_enum(name: &str, members: &[&str]) -> GmlEnum {
    let mut out = GmlEnum::new(name.to_string());
    for member in members {
        out.add_member(member.to_string());
    }
    out
}

fn switch_statement(default_case: GmlSwitchStatementDefault, cases: &[&str]) -> GmlSwitchStatement {
    GmlSwitchStatement::new(
        default_case,
        "test".to_string(),
        cases.iter().map(|case| case.to_string()).collect(),
    )
}

#[test]
fn a_line_is_cut_into_tokens_with_their_places() {
    assert_eq!(
        all_tokens("enum Foo { a = 1, b }"),
        vec![
            (0, Token::Enum),
            (5, word("Foo")),
            (9, Token::LeftBrace),
            (11, word("a")),
            (13, Token::Equals),
            (15, digits("1")),
            (16, Token::Comma),
            (18, word("b")),
            (20, Token::RightBrace),
        ]
    );
}

#[test]
fn every_sign_and_keyword_has_its_token() {
    assert_eq!(
        all_tokens(": . { } ( ) , ="),
        vec![
            (0, Token::Colon),
            (2, Token::Dot),
            (4, Token::LeftBrace),
            (6, Token::RightBrace),
            (8, Token::LeftParenthesis),
            (10, Token::RightParenthesis),
            (12, Token::Comma),
            (14, Token::Equals),
        ]
    );
    let words: Vec<Token> =
        all_tokens("switch case break return default enum and or function constructor other")
            .into_iter()
            .map(|(_, token)| token)
            .collect();
    assert_eq!(
        words,
        vec![
            Token::Switch,
            Token::Case,
            Token::Break,
            Token::Return,
            Token::Default,
            Token::Enum,
            Token::AndKeyword,
            Token::OrKeyword,
            Token::Function,
            Token::Constructor,
            word("other"),
        ]
    );
}

#[test]
fn comments_are_passed_over() {
    assert_eq!(
        all_tokens("// hi\nx /* y */ z"),
        vec![(6, word("x")), (16, word("z"))]
    );
    assert_eq!(all_tokens("a /* b **/ c"), vec![(0, word("a")), (11, word("c"))]);
    assert_eq!(all_tokens("a / b"), vec![(0, word("a")), (4, word("b"))]);
}

#[test]
fn what_is_not_closed_ends_the_tokens() {
    assert_eq!(all_tokens("x \"abc"), vec![(0, word("x"))]);
    assert_eq!(all_tokens("x /* abc"), vec![(0, word("x"))]);
    let mut lexer = Lexer::new("x \"abc");
    assert_eq!(lexer.lex(), (0, word("x")));
    assert_eq!(lexer.lex(), (2, Token::Eof));
    assert_eq!(lexer.lex(), (0, Token::Eof));
}

#[test]
fn a_text_keeps_what_stands_between_its_quotes() {
    assert_eq!(
        all_tokens("\"a b\" \"\""),
        vec![
            (0, Token::StringLiteral("a b".to_string())),
            (6, Token::StringLiteral(String::new())),
        ]
    );
}

#[test]
fn macros_and_regions_are_told_apart() {
    assert_eq!(
        all_tokens("#macro FOO 1\n#region stuff here\nbar #endregion\nlast"),
        vec![
            (0, Token::Macro),
            (7, word("FOO")),
            (11, digits("1")),
            (32, word("bar")),
            (47, word("last")),
        ]
    );
    assert_eq!(all_tokens("a[# 1]"), vec![(0, word("a")), (4, digits("1"))]);
    assert_eq!(all_tokens("#macros"), vec![(0, Token::Macro), (6, word("s"))]);
}

#[test]
fn a_number_keeps_its_digits_and_a_dot_behind_them() {
    assert_eq!(
        all_tokens("12.5 7"),
        vec![
            (0, digits("12.")),
            (2, Token::Dot),
            (3, digits("5")),
            (5, digits("7")),
        ]
    );
    assert_eq!(all_tokens("007"), vec![(0, digits("007"))]);
}

#[test]
fn letters_numbers_and_white_space_of_other_scripts_are_known() {
    assert_eq!(
        all_tokens("\u{e9}1 \u{e9}\u{e0}"),
        vec![
            (0, word("\u{e9}1")),
            (3, word("\u{e9}")),
            (4, word("\u{e0}")),
        ]
    );
    assert_eq!(all_tokens("1\u{663}"), vec![(0, digits("1\u{663}"))]);
    assert_eq!(all_tokens("\u{663}"), vec![]);
    assert_eq!(
        all_tokens("a\u{2003}b"),
        vec![(0, word("a")), (2, word("b"))]
    );
    assert_eq!(all_tokens("_a1 + $"), vec![(0, word("_a1"))]);
}

#[test]
fn the_lexer_moves_one_character_at_a_time() {
    let mut lexer = Lexer::new("ab\nc");
    assert_eq!(lexer.peek(), Some('a'));
    assert_eq!(lexer.take(), Some((0, 'a')));
    assert!(!lexer.match_take('x'));
    assert!(lexer.match_take('b'));
    lexer.discard_rest_of_line();
    assert_eq!(lexer.take(), Some((2, '\n')));
    lexer.discard_rest_of_line();
    assert_eq!(lexer.peek(), None);
    assert_eq!(lexer.take(), None);
    assert!(!lexer.match_take('c'));
}

#[test]
fn words_and_signs_are_classified() {
    assert_eq!(token_of_word("enum".to_string()), Token::Enum);
    assert_eq!(token_of_word("enums".to_string()), word("enums"));
    assert_eq!(token_of_sign('{'), Some(Token::LeftBrace));
    assert_eq!(token_of_sign(';'), None);
    assert!(is_word_char('_') && is_word_char('z') && is_word_char('A') && is_word_char('0'));
    assert!(!is_word_char('-') && !is_word_char('\u{e9}'));
    assert_eq!(characters("a\u{e9}b"), vec!['a', '\u{e9}', 'b']);
    assert_eq!(word("x").as_identifier(), Some(&"x".to_string()));
    assert_eq!(Token::Enum.as_identifier(), None);
    assert!(word("x").same(&word("x")) && !word("x").same(&digits("x")));
    assert_eq!(digits("1").duplicate(), digits("1"));
}

#[test]
fn a_text_is_appended_to_another() {
    let mut text = "ab".to_string();
    append(&mut text, "cd");
    append(&mut text, "");
    assert_eq!(text, "abcd");
}

#[test]
fn tokens_are_peeked_taken_and_required() {
    let mut gml = GmlTokens::new("a , b }".to_string());
    assert_eq!(gml.position(), 0);
    assert_eq!(gml.peek(), Ok(&word("a")));
    assert_eq!(gml.match_take(Token::Comma), None);
    assert_eq!(gml.match_take(word("a")), Some(word("a")));
    assert_eq!(gml.require(Token::Comma), Ok(Token::Comma));
    assert_eq!(
        gml.require(Token::Comma),
        Err(ClippieParseError::ExpectedToken(Token::Comma))
    );
    assert_eq!(gml.position(), 3);
    assert_eq!(gml.take(), Ok(Token::RightBrace));
    assert_eq!(gml.peek(), Err(ClippieParseError::UnexpectedEnd));
    assert_eq!(gml.take(), Err(ClippieParseError::UnexpectedEnd));
    assert_eq!(
        gml.require(Token::Comma),
        Err(ClippieParseError::UnexpectedEnd)
    );
    assert_eq!(gml.match_take(Token::Comma), None);
}

#[test]
fn tokens_are_taken_up_to_one_of_a_list() {
    let ending = [Token::Comma, Token::RightBrace];
    let mut gml = GmlTokens::new("a b } c , d".to_string());
    assert_eq!(gml.take_until(&ending), Ok(&Token::RightBrace));
    assert_eq!(gml.position(), 2);
    assert_eq!(gml.take_until(&ending), Ok(&Token::RightBrace));
    assert_eq!(gml.position(), 2);
    assert_eq!(gml.take_through(&ending), Ok(Token::RightBrace));
    assert_eq!(gml.take_through(&ending), Ok(Token::Comma));
    assert_eq!(gml.position(), 5);
    assert_eq!(
        gml.take_through(&ending),
        Err(ClippieParseError::UnexpectedEnd)
    );
    assert_eq!(gml.position(), 6);
    assert_eq!(gml.take_until(&[]), Err(ClippieParseError::UnexpectedEnd));
    assert!(is_among(&Token::Comma, &ending));
    assert!(!is_among(&Token::Dot, &ending));
    assert!(!is_among(&Token::Dot, &[]));
}

#[test]
fn macros_are_collected() {
    assert_eq!(
        parser("#macro FOO 1\nvar x = FOO;\n#macro BAR x").collect_gml_macros(),
        Ok(vec![
            GmlMacro::new("FOO".to_string(), "test".to_string()),
            GmlMacro::new("BAR".to_string(), "test".to_string()),
        ])
    );
    assert_eq!(parser("var x = 1;").collect_gml_macros(), Ok(vec![]));
    assert_eq!(parser("").collect_gml_macros(), Ok(vec![]));
}

#[test]
fn a_macro_without_a_name_is_refused() {
    assert_eq!(
        parser("#macro 1").collect_gml_macros(),
        Err(unexpected(digits("1")))
    );
    assert_eq!(
        parser("#macro FOO 1\n#macro").collect_gml_macros(),
        Err(ClippieParseError::UnexpectedEnd)
    );
}

#[test]
fn keywords_are_collected() {
    assert_eq!(
        parser("if a and b or c and d {}").collect_gml_keywords(),
        Ok(vec![
            GmlKeywords::And("test".to_string()),
            GmlKeywords::Or("test".to_string()),
            GmlKeywords::And("test".to_string()),
        ])
    );
    assert_eq!(parser("a && b || c").collect_gml_keywords(), Ok(vec![]));
}

#[test]
fn enums_are_collected() {
    assert_eq!(
        parser("enum Foo { a, b = 3, c }\nvar x = 0;\nenum Bar { only, }").collect_gml_enums(),
        Ok(vec![
            gml_enum("Foo", &["a", "b", "c"]),
            gml_enum("Bar", &["only"]),
        ])
    );
    assert_eq!(
        parser("enum Foo { a = 1 + 2, b = Other.c }").collect_gml_enums(),
        Ok(vec![gml_enum("Foo", &["a", "b"])])
    );
    assert_eq!(parser("var x = 0;").collect_gml_enums(), Ok(vec![]));
}

#[test]
fn an_enum_that_is_malformed_is_refused() {
    assert_eq!(
        parser("enum { a }").collect_gml_enums(),
        Err(unexpected(Token::LeftBrace))
    );
    assert_eq!(
        parser("enum Foo ( a }").collect_gml_enums(),
        Err(ClippieParseError::ExpectedToken(Token::LeftBrace))
    );
    assert_eq!(
        parser("enum Foo { 1 }").collect_gml_enums(),
        Err(unexpected(digits("1")))
    );
    assert_eq!(
        parser("enum Foo { }").collect_gml_enums(),
        Err(unexpected(Token::RightBrace))
    );
    assert_eq!(
        parser("enum Foo { a").collect_gml_enums(),
        Err(ClippieParseError::UnexpectedEnd)
    );
    assert_eq!(
        parser("enum Foo { a = 1").collect_gml_enums(),
        Err(ClippieParseError::UnexpectedEnd)
    );
    assert_eq!(
        parser("enum Foo").collect_gml_enums(),
        Err(ClippieParseError::UnexpectedEnd)
    );
    assert_eq!(
        parser("enum").collect_gml_enums(),
        Err(ClippieParseError::UnexpectedEnd)
    );
}

#[test]
fn constructors_are_collected() {
    assert_eq!(
        parser(
            "function Foo(a, b) constructor {}\n\
             function plain(a) {}\n\
             var Anon = function(a) constructor {}\n\
             function Bar(a) : Foo(a, 0) constructor {}\n\
             function Baz() : Bar() {}"
        )
        .collect_gml_constructors(),
        Ok(vec![
            GmlConstructor::new(Some("Foo".to_string()), "test".to_string()),
            GmlConstructor::new(None, "test".to_string()),
            GmlConstructor::new(Some("Bar".to_string()), "test".to_string()),
        ])
    );
    assert_eq!(parser("var x;").collect_gml_constructors(), Ok(vec![]));
}

#[test]
fn a_function_that_is_malformed_is_refused() {
    assert_eq!(
        parser("function foo {").collect_gml_constructors(),
        Err(ClippieParseError::ExpectedToken(Token::LeftParenthesis))
    );
    assert_eq!(
        parser("function 1").collect_gml_constructors(),
        Err(unexpected(digits("1")))
    );
    assert_eq!(
        parser("function foo(a").collect_gml_constructors(),
        Err(ClippieParseError::UnexpectedEnd)
    );
    assert_eq!(
        parser("function foo() : 1").collect_gml_constructors(),
        Err(unexpected(digits("1")))
    );
    assert_eq!(
        parser("function foo() : bar {").collect_gml_constructors(),
        Err(ClippieParseError::ExpectedToken(Token::LeftParenthesis))
    );
    assert_eq!(
        parser("function").collect_gml_constructors(),
        Err(ClippieParseError::UnexpectedEnd)
    );
}

#[test]
fn switch_statements_are_collected() {
    assert_eq!(
        parser(
            "switch foo {\n\
                case 10: a = 1; break;\n\
                case \"two\": { b = 2; } break;\n\
                case Kind.Three: if c { break; } break;\n\
                case other:\n\
                default: IMPOSSIBLE(\"Unexpected Kind: \" + foo);\n\
             }\n\
             switch (bar) { case 20: break; }\n\
             switch (bar) { default: break; }"
        )
        .collect_gml_switch_statements(),
        Ok(vec![
            switch_statement(
                GmlSwitchStatementDefault::TypeAssert("Kind".to_string()),
                &["10", "two", "Kind.Three", "other"]
            ),
            switch_statement(GmlSwitchStatementDefault::Missing, &["20"]),
            switch_statement(GmlSwitchStatementDefault::Present, &[]),
        ])
    );
    assert_eq!(parser("var x;").collect_gml_switch_statements(), Ok(vec![]));
}

#[test]
fn braces_inside_a_case_do_not_end_the_switch() {
    assert_eq!(
        parser("switch x { case 10: { if y { z } } case 20: w } switch y { }")
            .collect_gml_switch_statements(),
        Ok(vec![
            switch_statement(GmlSwitchStatementDefault::Missing, &["10", "20"]),
            switch_statement(GmlSwitchStatementDefault::Missing, &[]),
        ])
    );
}

#[test]
fn a_default_case_is_a_type_assert_only_by_its_message() {
    let default_of = |source: &str| {
        parser(source)
            .collect_gml_switch_statements()
            .map(|mut found| found.remove(0).default_case)
    };
    assert_eq!(
        default_of("switch x { default: IMPOSSIBLE(\"nothing of the kind\"); }"),
        Ok(GmlSwitchStatementDefault::Present)
    );
    assert_eq!(
        default_of("switch x { default: IMPOSSIBLE(\"Oh no! Unexpected Shape_1: here\"); }"),
        Ok(GmlSwitchStatementDefault::TypeAssert("Shape_1".to_string()))
    );
    assert_eq!(
        default_of("switch x { default: IMPOSSIBLE(x); }"),
        Ok(GmlSwitchStatementDefault::Present)
    );
    assert_eq!(
        default_of("switch x { default: IMPOSSIBLE; }"),
        Ok(GmlSwitchStatementDefault::Present)
    );
    assert_eq!(
        default_of("switch x { default: IMPOSSIBLE("),
        Err(ClippieParseError::UnexpectedEnd)
    );
    assert_eq!(
        default_case_of(Some("Kind".to_string())),
        GmlSwitchStatementDefault::TypeAssert("Kind".to_string())
    );
    assert_eq!(default_case_of(None), GmlSwitchStatementDefault::Present);
}

#[test]
fn a_switch_that_is_malformed_is_refused() {
    assert_eq!(
        parser("switch x { foo }").collect_gml_switch_statements(),
        Err(unexpected(word("foo")))
    );
    assert_eq!(
        parser("switch x { case 10 a }").collect_gml_switch_statements(),
        Err(ClippieParseError::ExpectedToken(Token::Colon))
    );
    assert_eq!(
        parser("switch x { case : }").collect_gml_switch_statements(),
        Err(unexpected(Token::Colon))
    );
    assert_eq!(
        parser("switch x { case A.1: }").collect_gml_switch_statements(),
        Err(unexpected(digits("1")))
    );
    assert_eq!(
        parser("switch x { default break; }").collect_gml_switch_statements(),
        Err(ClippieParseError::ExpectedToken(Token::Colon))
    );
    assert_eq!(
        parser("switch x { case 10: break;").collect_gml_switch_statements(),
        Err(ClippieParseError::UnexpectedEnd)
    );
    assert_eq!(
        parser("switch x").collect_gml_switch_statements(),
        Err(ClippieParseError::UnexpectedEnd)
    );
}

#[test]
fn an_error_names_the_file() {
    assert_eq!(
        parser("").create_error_path(),
        "test:[GABE BROKE LINE NUMEBERS]"
    );
}

#[test]
fn collecting_twice_gives_the_same() {
    let mut parser = parser("enum A { x } #macro M 1\nfunction F() constructor {}");
    assert_eq!(parser.collect_gml_enums(), parser.collect_gml_enums());
    assert_eq!(parser.collect_gml_macros(), parser.collect_gml_macros());
    assert_eq!(
        parser.collect_gml_constructors(),
        Ok(vec![GmlConstructor::new(
            Some("F".to_string()),
            "test".to_string()
        )])
    );
}

use duck::lint::{
    count_levels, exit_status, Finding, Label, LintCategory, LintLevel, LintReport,
};
use duck::lints::and_keyword::AndKeyword;
use duck::lints::anonymous_constructor::AnonymousConstructor;
use duck::lints::bool_equality::BoolEquality;
use duck::lints::draw_sprite::{gm_draw_sprite_functions, is_among, DrawSprite};
use duck::lints::function_name_as_parameter::FunctionNameAsParameter;
use duck::lints::global::Global;
use duck::lints::mod_preference::ModPreference;
use duck::lints::non_constant_default_parameter::NonConstantDefaultParameter;
use duck::lints::null_coalescence_equal::NullCoalescenceEqual;
use duck::lints::show_debug_message::ShowDebugMessage;
use duck::lints::single_equals_comparison::SingleEqualsComparison;
use duck::lints::try_catch::TryCatch;
use duck::lints::with_loop::WithLoop;
use duck::location::{Location, Span};
use duck::parse::expression::{
    Assignment, Constructor, Expression, ExpressionBox, Literal, Parameter, Scope,
};
use duck::parse::operators::{AssignmentOperator, EqualityOperator, EvaluationOperator};
use duck::parse::statement::{RepeatLoop, Return, Statement, StatementBox};

fn name(text: &str) -> ExpressionBox {
    Expression::Identifier(text.to_string()).lazy_box(0)
}

fn block() -> StatementBox {
    Statement::Block(vec![]).lazy_box()
}

fn span() -> Span {
    Span(4, 8)
}

#[test]
fn and_keyword_reports() {
    let report = AndKeyword::generate_report(span());
    assert_eq!(report.tag, "and_keyword");
    assert_eq!(AndKeyword::tag(), "and_keyword");
    assert_eq!(report.display_name, "Use of `and`");
    assert_eq!(report.category, LintCategory::Style);
    assert_eq!(AndKeyword::category(), LintCategory::Style);
    assert_eq!(report.suggestions, vec!["Use `&&` instead of `and`".to_string()]);
    assert_eq!(report.span, span());
}

#[test]
fn anonymous_constructors_are_flagged() {
    let mut reports: Vec<LintReport> = vec![];
    let anonymous =
        Expression::FunctionDeclaration(None, vec![], Some(Constructor(None)), block(), false);
    AnonymousConstructor::visit_expression(&anonymous, span(), &mut reports);
    assert_eq!(reports, vec![AnonymousConstructor::generate_report(span())]);
    assert_eq!(reports[0].suggestions.len(), 2);
    let named = Expression::FunctionDeclaration(
        Some("foo".to_string()),
        vec![],
        Some(Constructor(None)),
        block(),
        false,
    );
    AnonymousConstructor::visit_expression(&named, span(), &mut reports);
    let plain = Expression::FunctionDeclaration(None, vec![], None, block(), false);
    AnonymousConstructor::visit_expression(&plain, span(), &mut reports);
    assert_eq!(reports.len(), 1);
}

#[test]
fn comparisons_with_bool_literals_are_flagged() {
    let mut reports: Vec<LintReport> = vec![];
    let with_true = Expression::Equality(
        name("foo"),
        EqualityOperator::Equal,
        Expression::Literal(Literal::True).lazy_box(1),
    );
    BoolEquality::visit_expression_early(&with_true, span(), &mut reports);
    assert_eq!(reports.len(), 1);
    assert_eq!(reports[0].display_name, "Equality check with `true`");
    assert_eq!(reports[0].suggestions, vec!["Remove the `== true`".to_string()]);
    assert_eq!(reports[0].tag, "bool_equality");
    let with_false = Expression::Equality(
        name("foo"),
        EqualityOperator::Equal,
        Expression::Literal(Literal::False).lazy_box(1),
    );
    BoolEquality::visit_expression_early(&with_false, span(), &mut reports);
    assert_eq!(reports.len(), 2);
    assert_eq!(reports[1].display_name, "Equality check with `false`");
    let unequal = Expression::Equality(
        name("foo"),
        EqualityOperator::NotEqual,
        Expression::Literal(Literal::True).lazy_box(1),
    );
    BoolEquality::visit_expression_early(&unequal, span(), &mut reports);
    let with_name = Expression::Equality(name("foo"), EqualityOperator::Equal, name("bar"));
    BoolEquality::visit_expression_early(&with_name, span(), &mut reports);
    assert_eq!(reports.len(), 2);
    assert_eq!(BoolEquality::generate_report(span()).display_name, "Equality check on bool");
}

#[test]
fn the_global_scope_is_flagged() {
    let mut reports: Vec<LintReport> = vec![];
    Global::visit_expression_early(&Expression::Access(Scope::Global, name("foo")), span(), &mut reports);
    Global::visit_expression_early(&Expression::Access(Scope::Current, name("foo")), span(), &mut reports);
    assert_eq!(reports, vec![Global::generate_report(span())]);
    assert_eq!(Global::category(), LintCategory::Strict);
}

#[test]
fn debug_messages_are_flagged() {
    let mut reports: Vec<LintReport> = vec![];
    let call = Expression::Call(name("show_debug_message"), vec![], false);
    ShowDebugMessage::visit_expression_early(&call, span(), &mut reports);
    let other = Expression::Call(name("show_message"), vec![], false);
    ShowDebugMessage::visit_expression_early(&other, span(), &mut reports);
    assert_eq!(reports, vec![ShowDebugMessage::generate_report(span())]);
}

#[test]
fn try_and_with_are_flagged() {
    let mut reports: Vec<LintReport> = vec![];
    let attempt = Statement::TryCatch(block(), name("e"), block(), None);
    TryCatch::visit_statement_early(&attempt, span(), &mut reports);
    WithLoop::visit_statement_early(&attempt, span(), &mut reports);
    assert_eq!(reports, vec![TryCatch::generate_report(span())]);
    let with = Statement::With(name("foo"), block());
    TryCatch::visit_statement_early(&with, span(), &mut reports);
    WithLoop::visit_statement_early(&with, span(), &mut reports);
    assert_eq!(reports.len(), 2);
    assert_eq!(reports[1].tag, "with_loop");
}

#[test]
fn null_coalescence_assignment_is_flagged() {
    let mut reports: Vec<LintReport> = vec![];
    let flagged = Expression::Assignment(Assignment::new(
        name("foo"),
        AssignmentOperator::NullCoalecenceEqual,
        name("bar"),
    ));
    NullCoalescenceEqual::visit_stmt_early(&flagged, span(), &mut reports);
    let plain =
        Expression::Assignment(Assignment::new(name("foo"), AssignmentOperator::Equal, name("bar")));
    NullCoalescenceEqual::visit_stmt_early(&plain, span(), &mut reports);
    assert_eq!(reports, vec![NullCoalescenceEqual::generate_report(span())]);
    assert_eq!(reports[0].display_name, "Use of `??=`");
    assert!(reports[0].suggestions.is_empty());
}

#[test]
fn sprite_drawing_is_flagged_at_the_callee() {
    assert_eq!(gm_draw_sprite_functions().len(), 10);
    assert!(is_among("draw_sprite_ext", &gm_draw_sprite_functions()));
    assert!(!is_among("draw_text", &gm_draw_sprite_functions()));
    let mut findings: Vec<Finding> = vec![];
    let callee =
        Expression::Identifier("draw_sprite_tiled".to_string()).into_box(Location(2, Span(10, 27)), 0);
    DrawSprite::visit_expr_early(&Expression::Call(callee, vec![], false), &mut findings);
    DrawSprite::visit_expr_early(&Expression::Call(name("draw_text"), vec![], false), &mut findings);
    DrawSprite::visit_expr_early(&Expression::Identifier("draw_sprite".to_string()), &mut findings);
    assert_eq!(
        findings,
        vec![Finding {
            tag: "draw_sprite",
            level: LintLevel::Allow,
            message: "Use of `draw_sprite_tiled`".to_string(),
            labels: vec![Label {
                primary: true,
                span: Span(10, 27),
                message: "replace this call with your API's ideal function".to_string(),
            }],
        }]
    );
    assert_eq!(DrawSprite::tag(), "draw_sprite");
    assert_eq!(DrawSprite::default_level(), LintLevel::Allow);
    assert!(DrawSprite::explanation().starts_with("Projects that implement"));
}

#[test]
fn parameters_named_like_global_functions_are_flagged() {
    let globals = vec!["foo".to_string(), "bar".to_string()];
    let function = Expression::FunctionDeclaration(
        None,
        vec![
            Parameter("foo".to_string(), None),
            Parameter("fine".to_string(), None),
            Parameter("bar".to_string(), None),
        ],
        None,
        block(),
        false,
    );
    let mut findings: Vec<Finding> = vec![];
    FunctionNameAsParameter::visit_expr_late(&function, &globals, span(), &mut findings);
    assert_eq!(findings.len(), 2);
    assert_eq!(findings[0].tag, "fucntion_name_as_parameter");
    assert_eq!(findings[0].level, LintLevel::Deny);
    assert_eq!(findings[0].labels[0].span, span());
    FunctionNameAsParameter::visit_expr_late(&Expression::Identifier("foo".to_string()), &globals, span(), &mut findings);
    assert_eq!(findings.len(), 2);
    assert_eq!(FunctionNameAsParameter::default_level(), LintLevel::Deny);
    assert_eq!(
        FunctionNameAsParameter::explanation(),
        "This pattern leads to runtime bugs in v2024.2.0.163."
    );
}

#[test]
fn the_spelling_of_modulo_is_flagged() {
    let modulo = Expression::Evaluation(name("a"), EvaluationOperator::Modulo, name("b"));
    let mut findings: Vec<Finding> = vec![];
    ModPreference::visit_expr_early(&modulo, true, false, span(), &mut findings);
    assert_eq!(findings[0].message, "Use of `%`");
    ModPreference::visit_expr_early(&modulo, true, true, span(), &mut findings);
    assert_eq!(findings[1].message, "Use of `mod`");
    ModPreference::visit_expr_early(&modulo, false, true, span(), &mut findings);
    assert_eq!(findings[2].message, "Use of `mod`");
    ModPreference::visit_expr_early(&modulo, false, false, span(), &mut findings);
    let plus = Expression::Evaluation(name("a"), EvaluationOperator::Plus, name("b"));
    ModPreference::visit_expr_early(&plus, true, false, span(), &mut findings);
    assert_eq!(findings.len(), 3);
    assert_eq!(ModPreference::tag(), "mod_preference");
    assert_eq!(ModPreference::default_level(), LintLevel::Allow);
}

#[test]
fn single_equals_comparisons_are_flagged() {
    let equality = Expression::Equality(name("a"), EqualityOperator::Equal, name("b"));
    let mut findings: Vec<Finding> = vec![];
    SingleEqualsComparison::visit_expr_early(&equality, true, span(), &mut findings);
    SingleEqualsComparison::visit_expr_early(&equality, false, span(), &mut findings);
    let unequal = Expression::Equality(name("a"), EqualityOperator::NotEqual, name("b"));
    SingleEqualsComparison::visit_expr_early(&unequal, true, span(), &mut findings);
    assert_eq!(findings.len(), 1);
    assert_eq!(findings[0].message, "Comparison with `=`");
    assert_eq!(findings[0].labels[0].message, "use `==` instead of `=`");
    assert_eq!(SingleEqualsComparison::default_level(), LintLevel::Warn);
    assert_eq!(SingleEqualsComparison::tag(), "single_equals_comparison");
}

#[test]
fn no_default_value_is_taken_for_a_constant() {
    assert!(!NonConstantDefaultParameter::_is_constant(&name("foo")));
    let mut findings: Vec<Finding> = vec![];
    NonConstantDefaultParameter::visit_expr_late(&name("foo"), &mut findings);
    assert!(findings.is_empty());
    assert_eq!(NonConstantDefaultParameter::default_level(), LintLevel::Warn);
    assert_eq!(NonConstantDefaultParameter::tag(), "non_constant_default_parameter");
}

#[test]
fn children_are_listed_in_source_order() {
    let call = Expression::Call(name("f"), vec![name("a"), name("b")], false);
    let children = call.visit_child_expressions();
    let names: Vec<&Expression> = children.iter().map(|child| child.expression()).collect();
    assert_eq!(
        names,
        vec![
            &Expression::Identifier("f".to_string()),
            &Expression::Identifier("a".to_string()),
            &Expression::Identifier("b".to_string())
        ]
    );
    assert!(call.visit_child_statements().is_empty());
    let function = Expression::FunctionDeclaration(
        None,
        vec![Parameter("a".to_string(), None), Parameter("b".to_string(), Some(name("d")))],
        Some(Constructor(Some(name("p")))),
        block(),
        false,
    );
    assert_eq!(function.visit_child_expressions().len(), 2);
    assert_eq!(function.visit_child_statements().len(), 1);
    let access = Expression::Access(Scope::Array(name("i"), Some(name("j")), false), name("a"));
    assert_eq!(access.visit_child_expressions().len(), 3);
}

#[test]
fn statements_list_their_children() {
    let repeat = Statement::Repeat(RepeatLoop::new(name("n"), block()));
    assert_eq!(repeat.visit_child_statements().len(), 1);
    assert_eq!(repeat.visit_child_expressions().len(), 1);
    let conditional = Statement::If(name("c"), block(), Some(block()), false);
    assert_eq!(conditional.visit_child_statements().len(), 2);
    assert_eq!(conditional.visit_child_expressions().len(), 1);
    let returned = Statement::Return(Return::new(Some(name("x"))));
    assert_eq!(returned.visit_child_expressions().len(), 1);
    assert!(Statement::Return(Return::new(None)).visit_child_expressions().is_empty());
    let nested = Statement::Block(vec![block(), Statement::Break.lazy_box()]);
    assert_eq!(nested.visit_child_statements().len(), 2);
    let boxed = Statement::Exit.into_box(Location(1, Span(2, 3)));
    assert_eq!(boxed.statement(), &Statement::Exit);
    assert_eq!(boxed.span(), Span(2, 3));
    assert_eq!(boxed.location(), Location(1, Span(2, 3)));
    let expression = Expression::Identifier("x".to_string()).into_box(Location(1, Span(2, 3)), 9);
    assert_eq!(expression.span(), Span(2, 3));
    assert_eq!(expression.id(), 9);
    assert_eq!(expression.location(), Location(1, Span(2, 3)));
}

#[test]
fn a_run_fails_on_what_is_not_allowed() {
    assert_eq!(exit_status(false, false, false, 0, 0, 0, 0), 0);
    assert_eq!(exit_status(false, false, false, 1, 0, 0, 0), 1);
    assert_eq!(exit_status(true, false, false, 1, 0, 0, 0), 0);
    assert_eq!(exit_status(true, false, false, 1, 2, 0, 0), 1);
    assert_eq!(exit_status(true, true, false, 1, 2, 0, 0), 0);
    assert_eq!(exit_status(true, true, false, 0, 0, 1, 0), 1);
    assert_eq!(exit_status(true, true, false, 0, 0, 0, 3), 1);
    assert_eq!(exit_status(false, false, true, 0, 0, 4, 3), 0);
    assert_eq!(exit_status(true, true, true, 5, 6, 7, 8), 0);
    assert_eq!(
        count_levels(&vec![
            LintLevel::Warn,
            LintLevel::Allow,
            LintLevel::Deny,
            LintLevel::Warn,
        ]),
        (2, 1)
    );
    assert_eq!(count_levels(&vec![]), (0, 0));
}

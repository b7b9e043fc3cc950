use duck::location::{Location, Span};
use duck::parse::expression::{Assignment, Expression, ExpressionBox, Literal, Ternary};
use duck::parse::operators::AssignmentOperator;
use duck::parse::statement::{IntoStatementBox, RepeatLoop, Return, Statement, StatementBox};

fn name(text: &str, id: u64) -> ExpressionBox {
    ExpressionBox(
        Box::new(Expression::Identifier(text.to_string())),
        Location::default(),
        id,
    )
}

#[test]
fn a_return_becomes_a_statement() {
    let statement: Statement = Return::new(Some(name("x", 1))).into();
    assert_eq!(statement, Statement::Return(Return::new(Some(name("x", 1)))));
    assert_eq!(
        Return::new(None).into_statement(),
        Statement::Return(Return { value: None })
    );
}

#[test]
fn a_repeat_loop_becomes_a_statement() {
    let body = || Statement::Block(vec![]).lazy_box();
    let statement = Statement::from(RepeatLoop::new(name("n", 1), body()));
    assert_eq!(
        statement,
        Statement::Repeat(RepeatLoop {
            tick_counts: name("n", 1),
            body: body(),
        })
    );
}

#[test]
fn a_statement_is_boxed_with_the_location_given() {
    let location = Location(3, Span(4, 9));
    let StatementBox(statement, found) = Return::new(None).into_statement_box(location);
    assert_eq!(*statement, Statement::Return(Return::new(None)));
    assert_eq!(found, Location(3, Span(4, 9)));
}

#[test]
fn a_lazy_box_has_the_default_location() {
    let StatementBox(statement, found) =
        RepeatLoop::new(name("n", 1), Statement::Block(vec![]).lazy_box()).into_lazy_box();
    assert_eq!(found, Location::default());
    assert_eq!(
        *statement,
        Statement::Repeat(RepeatLoop::new(
            name("n", 1),
            Statement::Block(vec![]).lazy_box()
        ))
    );
}

#[test]
fn a_ternary_becomes_an_expression() {
    let ternary = || Ternary {
        condition: name("c", 1),
        true_value: name("a", 2),
        false_value: name("b", 3),
    };
    assert_eq!(Expression::from(ternary()), Expression::Ternary(ternary()));
}

#[test]
fn an_assignment_becomes_an_expression() {
    let assignment = || Assignment {
        left: name("x", 1),
        operator: AssignmentOperator::Equal,
        right: ExpressionBox(
            Box::new(Expression::Literal(Literal::True)),
            Location::default(),
            2,
        ),
    };
    let expression: Expression = assignment().into();
    assert_eq!(expression, Expression::Assignment(assignment()));
}

#[test]
fn nodes_list_what_stands_below_them() {
    let ternary = Ternary::new(name("c", 1), name("a", 2), name("b", 3));
    assert_eq!(
        ternary.visit_child_expressions(),
        vec![&name("c", 1), &name("a", 2), &name("b", 3)]
    );
    assert!(ternary.visit_child_statements().is_empty());
    let assignment = Assignment {
        left: name("x", 1),
        operator: AssignmentOperator::PlusEqual,
        right: name("y", 2),
    };
    assert_eq!(
        assignment.visit_child_expressions(),
        vec![&name("x", 1), &name("y", 2)]
    );
    assert!(assignment.visit_child_statements().is_empty());
    let repeat = RepeatLoop::new(name("n", 1), Statement::Block(vec![]).lazy_box());
    assert_eq!(repeat.visit_child_exprs(), vec![&name("n", 1)]);
    assert_eq!(
        repeat.visit_child_stmts(),
        vec![&Statement::Block(vec![]).lazy_box()]
    );
    let with_value = Return::new(Some(name("v", 1)));
    assert_eq!(with_value.visit_child_expressions(), vec![&name("v", 1)]);
    assert!(with_value.visit_child_statements().is_empty());
    assert!(Return::new(None).visit_child_expressions().is_empty());
}

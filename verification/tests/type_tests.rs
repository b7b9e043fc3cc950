use duck::error::TypeError;
use duck::parse::expression::{
    Assignment, Constructor, Expression, ExpressionBox, Literal, Parameter, Scope, Ternary,
};
use duck::parse::operators::{
    AssignmentOperator, EqualityOperator, EvaluationOperator, LogicalOperator, PostfixOperator,
    UnaryOperator,
};
use duck::parse::statement::{
    Globalvar, LocalVariable, LocalVariableSeries, Return, Statement, StatementBox,
};
use duck::solver::Solver;
use duck::ty::{Func, State, Ty};

/// Builds syntax trees and numbers their expressions.
struct Tree {
    next: u64,
}

impl Tree {
    fn new() -> Self {
        Tree { next: 0 }
    }

    fn expr(&mut self, expression: Expression) -> ExpressionBox {
        self.next += 1;
        expression.lazy_box(self.next)
    }

    fn number(&mut self, text: &str) -> ExpressionBox {
        self.expr(Expression::Literal(Literal::Real(text.to_string())))
    }

    fn text(&mut self, text: &str) -> ExpressionBox {
        self.expr(Expression::Literal(Literal::String(text.to_string())))
    }

    fn truth(&mut self) -> ExpressionBox {
        self.expr(Expression::Literal(Literal::True))
    }

    fn name(&mut self, name: &str) -> ExpressionBox {
        self.expr(Expression::Identifier(name.to_string()))
    }

    fn dot(&mut self, object: ExpressionBox, member: &str) -> ExpressionBox {
        let member = self.name(member);
        self.expr(Expression::Access(Scope::Dot(object), member))
    }

    fn current(&mut self, member: &str) -> ExpressionBox {
        let member = self.name(member);
        self.expr(Expression::Access(Scope::Current, member))
    }

    fn at(&mut self, array: ExpressionBox, index: ExpressionBox) -> ExpressionBox {
        self.expr(Expression::Access(Scope::Array(index, None, false), array))
    }

    fn call(&mut self, callee: ExpressionBox, arguments: Vec<ExpressionBox>) -> ExpressionBox {
        self.expr(Expression::Call(callee, arguments, false))
    }

    fn construct(&mut self, callee: ExpressionBox, arguments: Vec<ExpressionBox>) -> ExpressionBox {
        self.expr(Expression::Call(callee, arguments, true))
    }

    fn plus(&mut self, left: ExpressionBox, right: ExpressionBox) -> ExpressionBox {
        self.expr(Expression::Evaluation(left, EvaluationOperator::Plus, right))
    }

    fn list(&mut self, members: Vec<ExpressionBox>) -> ExpressionBox {
        self.expr(Expression::Literal(Literal::Array(members)))
    }

    fn structure(&mut self, members: Vec<(&str, ExpressionBox)>) -> ExpressionBox {
        let members = members.into_iter().map(|(name, value)| (name.to_string(), value)).collect();
        self.expr(Expression::Literal(Literal::Struct(members)))
    }

    fn function(
        &mut self,
        name: Option<&str>,
        parameters: Vec<&str>,
        constructor: Option<Constructor>,
        body: Vec<StatementBox>,
    ) -> ExpressionBox {
        let parameters =
            parameters.into_iter().map(|name| Parameter(name.to_string(), None)).collect();
        self.expr(Expression::FunctionDeclaration(
            name.map(|name| name.to_string()),
            parameters,
            constructor,
            Statement::Block(body).lazy_box(),
            false,
        ))
    }

    fn falsehood(&mut self) -> ExpressionBox {
        self.expr(Expression::Literal(Literal::False))
    }

    fn literal(&mut self, literal: Literal) -> ExpressionBox {
        self.expr(Expression::Literal(literal))
    }

    fn group(&mut self, inner: ExpressionBox) -> ExpressionBox {
        self.expr(Expression::Grouping(inner))
    }

    fn unary(&mut self, operator: UnaryOperator, right: ExpressionBox) -> ExpressionBox {
        self.expr(Expression::Unary(operator, right))
    }

    fn postfix(&mut self, left: ExpressionBox, operator: PostfixOperator) -> ExpressionBox {
        self.expr(Expression::Postfix(left, operator))
    }

    fn evaluate(
        &mut self,
        left: ExpressionBox,
        operator: EvaluationOperator,
        right: ExpressionBox,
    ) -> ExpressionBox {
        self.expr(Expression::Evaluation(left, operator, right))
    }

    fn logical(&mut self, left: ExpressionBox, right: ExpressionBox) -> ExpressionBox {
        self.expr(Expression::Logical(left, LogicalOperator::And, right))
    }

    fn equals(&mut self, left: ExpressionBox, right: ExpressionBox) -> ExpressionBox {
        self.expr(Expression::Equality(left, EqualityOperator::Equal, right))
    }

    fn ternary(
        &mut self,
        condition: ExpressionBox,
        yes: ExpressionBox,
        no: ExpressionBox,
    ) -> ExpressionBox {
        self.expr(Expression::Ternary(Ternary::new(condition, yes, no)))
    }

    fn global(&mut self, member: &str) -> ExpressionBox {
        let member = self.name(member);
        self.expr(Expression::Access(Scope::Global, member))
    }

    fn assign(&mut self, left: ExpressionBox, right: ExpressionBox) -> StatementBox {
        let assignment =
            self.expr(Expression::Assignment(Assignment::new(left, AssignmentOperator::Equal, right)));
        Statement::Expression(assignment).lazy_box()
    }
}

fn var(name: &str, value: ExpressionBox) -> StatementBox {
    Statement::LocalVariableSeries(LocalVariableSeries {
        declarations: vec![LocalVariable(name.to_string(), Some(value))],
    })
    .lazy_box()
}

fn declare(name: &str) -> StatementBox {
    Statement::LocalVariableSeries(LocalVariableSeries {
        declarations: vec![LocalVariable(name.to_string(), None)],
    })
    .lazy_box()
}

fn ret(value: Option<ExpressionBox>) -> StatementBox {
    Statement::Return(Return::new(value)).lazy_box()
}

fn statement(expression: ExpressionBox) -> StatementBox {
    Statement::Expression(expression).lazy_box()
}

/// Writes a type with the fields of its records in alphabetical order.
fn show(ty: &Ty) -> String {
    match ty {
        Ty::Uninitialized => "<null>".to_string(),
        Ty::Any => "any".to_string(),
        Ty::Undefined => "undefined".to_string(),
        Ty::Noone => "noone".to_string(),
        Ty::Bool => "bool".to_string(),
        Ty::Real => "real".to_string(),
        Ty::Str => "string".to_string(),
        Ty::Var(_) => "?".to_string(),
        Ty::Array(inner) => format!("[{}]", show(inner)),
        Ty::Record(record) => {
            let mut fields: Vec<String> = record
                .fields
                .iter()
                .map(|(name, field)| format!("{}: {}", name, show(&field.ty)))
                .collect();
            fields.sort();
            format!("{{{}}}", fields.join(", "))
        }
        Ty::Func(function) => {
            let parameters: Vec<String> = function.parameters().iter().map(show).collect();
            let arrow = match function {
                Func::Def(_) => "fn",
                Func::Call(_) => "call",
            };
            format!("{} ({}) -> {}", arrow, parameters.join(", "), show(function.return_type()))
        }
    }
}

fn local(solver: &Solver, name: &str) -> String {
    match solver.query_local(name) {
        Some(ty) => show(&ty),
        None => "<unknown>".to_string(),
    }
}

fn field_of_self(solver: &Solver, name: &str) -> String {
    match solver.query_self(name) {
        Some(ty) => show(&ty),
        None => "<unknown>".to_string(),
    }
}

fn infer<'a>(program: &'a Vec<StatementBox>) -> Solver<'a> {
    let mut solver = Solver::new();
    let outcome = solver.process_statements(program);
    assert!(outcome.is_ok(), "{:?}", outcome);
    solver
}

fn type_of_expression(expression: ExpressionBox) -> String {
    let program = vec![statement(expression)];
    let solver = infer(&program);
    match &*program[0].0 {
        Statement::Expression(expression) => match solver.query(expression) {
            Some(ty) => show(&ty),
            None => "<unknown>".to_string(),
        },
        _ => unreachable!(),
    }
}

#[test]
fn local_var() {
    let mut t = Tree::new();
    let program = vec![var("a", t.number("0"))];
    let solver = infer(&program);
    assert_eq!(local(&solver, "a"), "real");
}

#[test]
fn null_local_var() {
    let program = vec![declare("a")];
    let solver = infer(&program);
    assert_eq!(local(&solver, "a"), "<null>");
}

#[test]
fn assign_to_null_var() {
    let mut t = Tree::new();
    let target = t.name("a");
    let value = t.number("0");
    let program = vec![declare("a"), t.assign(target, value)];
    let solver = infer(&program);
    assert_eq!(local(&solver, "a"), "real");
}

#[test]
fn struct_extention() {
    let mut t = Tree::new();
    let zero = t.number("0");
    let literal = t.structure(vec![("x", zero)]);
    let foo = t.name("foo");
    let target = t.dot(foo, "y");
    let value = t.number("0");
    let program = vec![var("foo", literal), t.assign(target, value)];
    let solver = infer(&program);
    assert_eq!(local(&solver, "foo"), "{x: real, y: real}");
}

#[test]
fn multi_use_identity() {
    let mut t = Tree::new();
    let a = t.name("a");
    let function = t.function(None, vec!["a"], None, vec![ret(Some(a))]);
    let foo = t.name("foo");
    let truth = t.truth();
    let first = t.call(foo, vec![truth]);
    let foo = t.name("foo");
    let zero = t.number("0");
    let second = t.call(foo, vec![zero]);
    let program = vec![var("foo", function), var("bar", first), var("fizz", second)];
    let solver = infer(&program);
    assert_eq!(local(&solver, "bar"), "bool");
    assert_eq!(local(&solver, "fizz"), "real");
}

#[test]
fn named_identity_called_twice() {
    let mut t = Tree::new();
    let a = t.name("a");
    let function = t.function(Some("foo"), vec!["a"], None, vec![ret(Some(a))]);
    let foo = t.name("foo");
    let truth = t.truth();
    let first = t.call(foo, vec![truth]);
    let foo = t.name("foo");
    let zero = t.number("0");
    let second = t.call(foo, vec![zero]);
    let program = vec![statement(function), var("bar", first), var("baz", second)];
    let solver = infer(&program);
    assert_eq!(local(&solver, "bar"), "bool");
    assert_eq!(local(&solver, "baz"), "real");
    assert_eq!(field_of_self(&solver, "foo"), "fn (?) -> ?");
}

#[test]
fn inheritance() {
    let mut t = Tree::new();
    let member = t.current("a");
    let zero = t.number("0");
    let write = t.assign(member, zero);
    let parent = t.function(None, vec![], Some(Constructor(None)), vec![write]);
    let foo = t.name("foo");
    let parent_call = t.call(foo, vec![]);
    let child = t.function(None, vec![], Some(Constructor(Some(parent_call))), vec![]);
    let bar = t.name("bar");
    let made = t.construct(bar, vec![]);
    let program = vec![var("foo", parent), var("bar", child), var("fizz", made)];
    let solver = infer(&program);
    assert_eq!(local(&solver, "fizz"), "{a: real}");
}

#[test]
fn evaluation() {
    let mut t = Tree::new();
    let one = t.number("1");
    let other = t.number("1");
    let sum = t.plus(one, other);
    assert_eq!(type_of_expression(sum), "real");
    let a = t.text("foo");
    let b = t.text("bar");
    let joined = t.plus(a, b);
    assert_eq!(type_of_expression(joined), "string");
}

#[test]
fn evaluation_of_unlike_operands_is_a_mismatch() {
    let mut t = Tree::new();
    let one = t.number("1");
    let a = t.text("a");
    let sum = t.plus(one, a);
    let program = vec![statement(sum)];
    let mut solver = Solver::new();
    match solver.process_statements(&program) {
        Err(errors) => {
            assert_eq!(errors.len(), 1);
            assert!(matches!(errors[0], TypeError::Mismatch(..)), "{:?}", errors);
        }
        Ok(()) => panic!("the operands were taken to agree"),
    }
}

fn global_of(solver: &Solver, name: &str) -> String {
    match solver.query_global(name) {
        Some(ty) => show(&ty),
        None => "<unknown>".to_string(),
    }
}

#[test]
fn undefined() {
    let mut t = Tree::new();
    let e = t.literal(Literal::Undefined);
    assert_eq!(type_of_expression(e), "undefined");
}

#[test]
fn noone() {
    let mut t = Tree::new();
    let e = t.literal(Literal::Noone);
    assert_eq!(type_of_expression(e), "noone");
}

#[test]
fn bools() {
    let mut t = Tree::new();
    let e = t.truth();
    assert_eq!(type_of_expression(e), "bool");
    let e = t.falsehood();
    assert_eq!(type_of_expression(e), "bool");
}

#[test]
fn number_literals() {
    let mut t = Tree::new();
    let e = t.number("1");
    assert_eq!(type_of_expression(e), "real");
    let e = t.number("0.1");
    assert_eq!(type_of_expression(e), "real");
    let e = t.literal(Literal::Hex("ffffff".to_string()));
    assert_eq!(type_of_expression(e), "real");
}

#[test]
fn text_literal() {
    let mut t = Tree::new();
    let e = t.text("foo");
    assert_eq!(type_of_expression(e), "string");
}

#[test]
fn grouping() {
    let mut t = Tree::new();
    let zero = t.number("0");
    let e = t.group(zero);
    assert_eq!(type_of_expression(e), "real");
}

#[test]
fn postfix() {
    let mut t = Tree::new();
    let zero = t.number("0");
    let x = t.name("x");
    let up = t.postfix(x, PostfixOperator::Increment);
    let x = t.name("x");
    let down = t.postfix(x, PostfixOperator::Decrement);
    let program = vec![var("x", zero), var("y", up), var("z", down)];
    let solver = infer(&program);
    assert_eq!(local(&solver, "x"), "real");
    assert_eq!(local(&solver, "y"), "real");
    assert_eq!(local(&solver, "z"), "real");
}

#[test]
fn unary() {
    let mut t = Tree::new();
    let zero = t.number("0");
    let mut program = vec![var("a", zero)];
    let operators = [
        ("b", UnaryOperator::Increment),
        ("c", UnaryOperator::Decrement),
        ("d", UnaryOperator::Positive),
        ("e", UnaryOperator::Negative),
        ("f", UnaryOperator::BitwiseNot),
    ];
    for (name, operator) in operators {
        let a = t.name("a");
        let value = t.unary(operator, a);
        program.push(var(name, value));
    }
    let truth = t.truth();
    program.push(var("g", truth));
    let g = t.name("g");
    let not = t.unary(UnaryOperator::Not, g);
    program.push(var("h", not));
    let solver = infer(&program);
    for name in ["a", "b", "c", "d", "e", "f"] {
        assert_eq!(local(&solver, name), "real");
    }
    assert_eq!(local(&solver, "g"), "bool");
    assert_eq!(local(&solver, "h"), "bool");
}

#[test]
fn ternary() {
    let mut t = Tree::new();
    let condition = t.truth();
    let yes = t.number("0");
    let no = t.number("0");
    let e = t.ternary(condition, yes, no);
    assert_eq!(type_of_expression(e), "real");
}

#[test]
fn ternary_with_unlike_branches_is_a_mismatch() {
    let mut t = Tree::new();
    let condition = t.truth();
    let yes = t.number("0");
    let no = t.text("no");
    let e = t.ternary(condition, yes, no);
    let program = vec![statement(e)];
    let mut solver = Solver::new();
    let errors = solver.process_statements(&program).unwrap_err();
    assert!(matches!(errors[0], TypeError::Mismatch(..)));
}

#[test]
fn evaluation_operators() {
    let operators = [
        EvaluationOperator::Star,
        EvaluationOperator::Slash,
        EvaluationOperator::Modulo,
        EvaluationOperator::Div,
        EvaluationOperator::Minus,
    ];
    for operator in operators {
        let mut t = Tree::new();
        let one = t.number("1");
        let other = t.number("1");
        let e = t.evaluate(one, operator, other);
        assert_eq!(type_of_expression(e), "real");
    }
}

#[test]
fn logical() {
    let mut t = Tree::new();
    let left = t.truth();
    let right = t.falsehood();
    let e = t.logical(left, right);
    assert_eq!(type_of_expression(e), "bool");
}

#[test]
fn logical_on_numbers_is_a_mismatch() {
    let mut t = Tree::new();
    let left = t.number("1");
    let right = t.truth();
    let e = t.logical(left, right);
    let program = vec![statement(e)];
    let mut solver = Solver::new();
    let errors = solver.process_statements(&program).unwrap_err();
    match &errors[0] {
        TypeError::Mismatch(a, b, _) => {
            assert_eq!(show(a), "real");
            assert_eq!(show(b), "bool");
        }
        other => panic!("{:?}", other),
    }
}

#[test]
fn equality_is_a_condition() {
    let mut t = Tree::new();
    let left = t.number("1");
    let right = t.number("2");
    let e = t.equals(left, right);
    assert_eq!(type_of_expression(e), "bool");
}

#[test]
fn globalvar() {
    let program =
        vec![Statement::GlobalvarDeclaration(Globalvar { name: "foo".to_string() }).lazy_box()];
    let solver = infer(&program);
    assert_eq!(global_of(&solver, "foo"), "<null>");
}

#[test]
fn global() {
    let mut t = Tree::new();
    let target = t.global("foo");
    let zero = t.number("0");
    let program = vec![t.assign(target, zero)];
    let solver = infer(&program);
    assert_eq!(global_of(&solver, "foo"), "real");
}

#[test]
fn global_declared_then_written() {
    let mut t = Tree::new();
    let target = t.global("foo");
    let zero = t.number("0");
    let program = vec![
        Statement::GlobalvarDeclaration(Globalvar { name: "foo".to_string() }).lazy_box(),
        t.assign(target, zero),
    ];
    let solver = infer(&program);
    assert_eq!(global_of(&solver, "foo"), "real");
}

#[test]
fn empty_array() {
    let mut t = Tree::new();
    let e = t.list(vec![]);
    assert_eq!(type_of_expression(e), "[any]");
}

#[test]
fn constant_array() {
    let mut t = Tree::new();
    let zero = t.number("0");
    let e = t.list(vec![zero]);
    assert_eq!(type_of_expression(e), "[real]");
}

#[test]
fn nested_array() {
    let mut t = Tree::new();
    let zero = t.number("0");
    let inner = t.list(vec![zero]);
    let middle = t.list(vec![inner]);
    let e = t.list(vec![middle]);
    assert_eq!(type_of_expression(e), "[[[real]]]");
}

#[test]
fn array_of_unlike_members_is_a_mismatch() {
    let mut t = Tree::new();
    let zero = t.number("0");
    let word = t.text("a");
    let e = t.list(vec![zero, word]);
    let program = vec![statement(e)];
    let mut solver = Solver::new();
    let errors = solver.process_statements(&program).unwrap_err();
    assert!(matches!(errors[0], TypeError::Mismatch(..)));
}

#[test]
fn array_access() {
    let mut t = Tree::new();
    let zero = t.number("0");
    let array = t.list(vec![zero]);
    let x = t.name("x");
    let at = t.number("0");
    let access = t.at(x, at);
    let program = vec![var("x", array), var("y", access)];
    let solver = infer(&program);
    assert_eq!(local(&solver, "y"), "real");
}

#[test]
fn empty_struct() {
    let mut t = Tree::new();
    let e = t.structure(vec![]);
    assert_eq!(type_of_expression(e), "{}");
}

#[test]
fn populated_struct() {
    let mut t = Tree::new();
    let zero = t.number("0");
    let e = t.structure(vec![("x", zero)]);
    assert_eq!(type_of_expression(e), "{x: real}");
}

#[test]
fn struct_access() {
    let mut t = Tree::new();
    let zero = t.number("0");
    let literal = t.structure(vec![("x", zero)]);
    let foo = t.name("foo");
    let access = t.dot(foo, "x");
    let program = vec![var("foo", literal), var("bar", access)];
    let solver = infer(&program);
    assert_eq!(local(&solver, "bar"), "real");
}

#[test]
fn reading_a_field_that_a_struct_lacks_is_an_illegal_extension() {
    let mut t = Tree::new();
    let zero = t.number("0");
    let literal = t.structure(vec![("x", zero)]);
    let foo = t.name("foo");
    let access = t.dot(foo, "y");
    let program = vec![var("foo", literal), var("bar", access)];
    let mut solver = Solver::new();
    let errors = solver.process_statements(&program).unwrap_err();
    match &errors[0] {
        TypeError::IllegalExtension { name, state, .. } => {
            assert_eq!(name, "y");
            assert_eq!(*state, State::Extendable);
        }
        other => panic!("{:?}", other),
    }
}

#[test]
fn nested_structs() {
    let mut t = Tree::new();
    let zero = t.number("0");
    let z = t.structure(vec![("z", zero)]);
    let y = t.structure(vec![("y", z)]);
    let x = t.structure(vec![("x", y)]);
    let foo = t.name("foo");
    let a = t.dot(foo, "x");
    let b = t.dot(a, "y");
    let c = t.dot(b, "z");
    let program = vec![var("foo", x), var("bar", c)];
    let solver = infer(&program);
    assert_eq!(local(&solver, "bar"), "real");
}

#[test]
fn struct_field_transfer() {
    let mut t = Tree::new();
    let zero = t.number("0");
    let first = t.structure(vec![("x", zero)]);
    let zero = t.number("0");
    let second = t.structure(vec![("y", zero)]);
    let foo = t.name("foo");
    let target = t.dot(foo, "x");
    let bar = t.name("bar");
    let value = t.dot(bar, "y");
    let program = vec![var("foo", first), var("bar", second), t.assign(target, value)];
    let solver = infer(&program);
    assert_eq!(local(&solver, "foo"), "{x: real}");
}

#[test]
fn function_on_struct() {
    let mut t = Tree::new();
    let zero = t.number("0");
    let method = t.function(None, vec![], None, vec![ret(Some(zero))]);
    let literal = t.structure(vec![("bar", method)]);
    let foo = t.name("foo");
    let callee = t.dot(foo, "bar");
    let call = t.call(callee, vec![]);
    let program = vec![var("foo", literal), var("fizz", call)];
    let solver = infer(&program);
    assert_eq!(local(&solver, "fizz"), "real");
}

#[test]
fn function() {
    let mut t = Tree::new();
    let e = t.function(None, vec![], None, vec![]);
    assert_eq!(type_of_expression(e), "fn () -> undefined");
}

#[test]
fn named_function() {
    let mut t = Tree::new();
    let e = t.function(Some("foo"), vec![], None, vec![]);
    let program = vec![statement(e)];
    let solver = infer(&program);
    assert_eq!(field_of_self(&solver, "foo"), "fn () -> undefined");
}

#[test]
fn return_nothing() {
    let mut t = Tree::new();
    let function = t.function(None, vec![], None, vec![]);
    let foo = t.name("foo");
    let call = t.call(foo, vec![]);
    let program = vec![var("foo", function), var("bar", call)];
    let solver = infer(&program);
    assert_eq!(local(&solver, "bar"), "undefined");
}

#[test]
fn return_constant() {
    let mut t = Tree::new();
    let zero = t.number("0");
    let function = t.function(None, vec![], None, vec![ret(Some(zero))]);
    let foo = t.name("foo");
    let call = t.call(foo, vec![]);
    let program = vec![var("foo", function), var("bar", call)];
    let solver = infer(&program);
    assert_eq!(local(&solver, "bar"), "real");
}

#[test]
fn return_inferred_constant() {
    let mut t = Tree::new();
    let x = t.name("x");
    let one = t.number("1");
    let sum = t.plus(x, one);
    let function = t.function(None, vec!["x"], None, vec![ret(Some(sum))]);
    let foo = t.name("foo");
    let one = t.number("1");
    let call = t.call(foo, vec![one]);
    let program = vec![var("foo", function), var("bar", call)];
    let solver = infer(&program);
    assert_eq!(local(&solver, "bar"), "real");
}

#[test]
fn identity_function() {
    let mut t = Tree::new();
    let x = t.name("x");
    let function = t.function(None, vec!["x"], None, vec![ret(Some(x))]);
    let foo = t.name("foo");
    let truth = t.truth();
    let call = t.call(foo, vec![truth]);
    let program = vec![var("foo", function), var("bar", call)];
    let solver = infer(&program);
    assert_eq!(local(&solver, "bar"), "bool");
}

#[test]
fn return_generic_array() {
    let mut t = Tree::new();
    let x = t.name("x");
    let zero = t.number("0");
    let first = t.at(x, zero);
    let function = t.function(None, vec!["x"], None, vec![ret(Some(first))]);
    let foo = t.name("foo");
    let zero = t.number("0");
    let array = t.list(vec![zero]);
    let call = t.call(foo, vec![array]);
    let program = vec![var("foo", function), var("bar", call)];
    let solver = infer(&program);
    assert_eq!(local(&solver, "bar"), "real");
}

#[test]
fn return_generic_struct() {
    let mut t = Tree::new();
    let x = t.name("x");
    let member = t.dot(x, "y");
    let function = t.function(None, vec!["x"], None, vec![ret(Some(member))]);
    let foo = t.name("foo");
    let zero = t.number("0");
    let literal = t.structure(vec![("y", zero)]);
    let call = t.call(foo, vec![literal]);
    let program = vec![var("foo", function), var("bar", call)];
    let solver = infer(&program);
    assert_eq!(local(&solver, "bar"), "real");
}

#[test]
fn return_other_function_return() {
    let mut t = Tree::new();
    let lambda = t.name("lambda");
    let zero = t.number("0");
    let inner_call = t.call(lambda, vec![zero]);
    let wrapper = t.function(Some("wrapper"), vec!["lambda"], None, vec![ret(Some(inner_call))]);
    let n = t.name("n");
    let inner = t.function(Some("inner"), vec!["n"], None, vec![ret(Some(n))]);
    let callee = t.name("wrapper");
    let argument = t.name("inner");
    let call = t.call(callee, vec![argument]);
    let program = vec![statement(wrapper), statement(inner), var("data", call)];
    let solver = infer(&program);
    assert_eq!(local(&solver, "data"), "real");
}

#[test]
fn return_onto_known_type() {
    let mut t = Tree::new();
    let zero = t.number("0");
    let function = t.function(None, vec![], None, vec![ret(Some(zero))]);
    let zero = t.number("0");
    let target = t.name("bar");
    let foo = t.name("foo");
    let call = t.call(foo, vec![]);
    let program = vec![var("foo", function), var("bar", zero), t.assign(target, call)];
    let solver = infer(&program);
    assert_eq!(local(&solver, "bar"), "real");
}

#[test]
fn infer_array_in_parameters() {
    let mut t = Tree::new();
    let x = t.name("x");
    let zero = t.number("0");
    let first = t.at(x, zero);
    let one = t.number("1");
    let sum = t.plus(first, one);
    let e = t.function(None, vec!["x"], None, vec![ret(Some(sum))]);
    assert_eq!(type_of_expression(e), "fn ([real]) -> real");
}

#[test]
fn infer_struct_in_parameters() {
    let mut t = Tree::new();
    let x = t.name("x");
    let member = t.dot(x, "y");
    let one = t.number("1");
    let sum = t.plus(member, one);
    let e = t.function(None, vec!["x"], None, vec![ret(Some(sum))]);
    assert_eq!(type_of_expression(e), "fn ({y: real}) -> real");
}

#[test]
fn infer_function_in_parameters() {
    let mut t = Tree::new();
    let x = t.name("x");
    let call = t.call(x, vec![]);
    let one = t.number("1");
    let sum = t.plus(call, one);
    let e = t.function(None, vec!["x"], None, vec![ret(Some(sum))]);
    assert_eq!(type_of_expression(e), "fn (call () -> real) -> real");
}

#[test]
fn mutate_struct_via_function() {
    let mut t = Tree::new();
    let a = t.name("a");
    let target = t.dot(a, "a");
    let zero = t.number("0");
    let write = t.assign(target, zero);
    let function = t.function(None, vec!["a"], None, vec![write]);
    let empty = t.structure(vec![]);
    let foo = t.name("foo");
    let bar = t.name("bar");
    let call = t.call(foo, vec![bar]);
    let program = vec![var("foo", function), var("bar", empty), statement(call)];
    let solver = infer(&program);
    assert_eq!(local(&solver, "bar"), "{a: real}");
}

#[test]
fn retain_all_fields_in_generic_call() {
    let mut t = Tree::new();
    let a = t.name("a");
    let target = t.dot(a, "a");
    let zero = t.number("0");
    let write = t.assign(target, zero);
    let a = t.name("a");
    let function = t.function(None, vec!["a"], None, vec![write, ret(Some(a))]);
    let zero = t.number("0");
    let other = t.number("0");
    let literal = t.structure(vec![("a", zero), ("b", other)]);
    let foo = t.name("foo");
    let bar = t.name("bar");
    let call = t.call(foo, vec![bar]);
    let program = vec![var("foo", function), var("bar", literal), statement(call)];
    let solver = infer(&program);
    assert_eq!(local(&solver, "bar"), "{a: real, b: real}");
}

#[test]
fn retain_all_fields_in_generic_call_after_return() {
    let mut t = Tree::new();
    let a = t.name("a");
    let target = t.dot(a, "a");
    let zero = t.number("0");
    let write = t.assign(target, zero);
    let a = t.name("a");
    let function = t.function(None, vec!["a"], None, vec![write, ret(Some(a))]);
    let zero = t.number("0");
    let other = t.number("0");
    let literal = t.structure(vec![("a", zero), ("b", other)]);
    let foo = t.name("foo");
    let bar = t.name("bar");
    let call = t.call(foo, vec![bar]);
    let target = t.name("bar");
    let program = vec![var("foo", function), var("bar", literal), t.assign(target, call)];
    let solver = infer(&program);
    assert_eq!(local(&solver, "bar"), "{a: real, b: real}");
}

#[test]
fn self_assignment_no_keyword() {
    let mut t = Tree::new();
    let target = t.name("foo");
    let zero = t.number("0");
    let program = vec![t.assign(target, zero)];
    let solver = infer(&program);
    assert_eq!(field_of_self(&solver, "foo"), "real");
}

#[test]
fn self_assignment_with_keyword() {
    let mut t = Tree::new();
    let target = t.current("foo");
    let zero = t.number("0");
    let program = vec![t.assign(target, zero)];
    let solver = infer(&program);
    assert_eq!(field_of_self(&solver, "foo"), "real");
}

#[test]
fn function_write_constant_to_self() {
    let mut t = Tree::new();
    let target = t.current("a");
    let zero = t.number("0");
    let first = t.assign(target, zero);
    let target = t.current("a");
    let zero = t.number("0");
    let write = t.assign(target, zero);
    let function = t.function(Some("bar"), vec![], None, vec![write]);
    let program = vec![first, statement(function)];
    let solver = infer(&program);
    assert_eq!(field_of_self(&solver, "bar"), "fn () -> undefined");
}

#[test]
fn function_write_parameter_to_self() {
    let mut t = Tree::new();
    let target = t.current("a");
    let zero = t.number("0");
    let first = t.assign(target, zero);
    let target = t.current("a");
    let x = t.name("x");
    let one = t.number("1");
    let sum = t.plus(x, one);
    let write = t.assign(target, sum);
    let function = t.function(Some("bar"), vec!["x"], None, vec![write]);
    let program = vec![first, statement(function)];
    let solver = infer(&program);
    assert_eq!(field_of_self(&solver, "bar"), "fn (real) -> undefined");
}

#[test]
fn function_extend_self() {
    let mut t = Tree::new();
    let target = t.current("a");
    let zero = t.number("0");
    let write = t.assign(target, zero);
    let function = t.function(Some("foo"), vec![], None, vec![write]);
    let program = vec![statement(function)];
    let solver = infer(&program);
    assert_eq!(field_of_self(&solver, "a"), "real");
}

#[test]
fn function_extend_self_nested() {
    let mut t = Tree::new();
    let target = t.current("a");
    let zero = t.number("0");
    let write = t.assign(target, zero);
    let inner = t.function(Some("bar"), vec![], None, vec![write]);
    let outer = t.function(Some("foo"), vec![], None, vec![statement(inner)]);
    let program = vec![statement(outer)];
    let solver = infer(&program);
    assert_eq!(field_of_self(&solver, "a"), "real");
}

#[test]
fn obj_setter() {
    let mut t = Tree::new();
    let target = t.current("x");
    let zero = t.number("0");
    let first = t.assign(target, zero);
    let target = t.current("y");
    let zero = t.number("0");
    let second = t.assign(target, zero);
    let target = t.current("x");
    let obj = t.name("obj");
    let value = t.dot(obj, "x");
    let set_x = t.assign(target, value);
    let target = t.current("y");
    let obj = t.name("obj");
    let value = t.dot(obj, "y");
    let set_y = t.assign(target, value);
    let function = t.function(Some("set"), vec!["obj"], None, vec![set_x, set_y]);
    let program = vec![first, second, statement(function)];
    let solver = infer(&program);
    assert_eq!(field_of_self(&solver, "set"), "fn ({x: real, y: real}) -> undefined");
}

#[test]
fn constructor() {
    let mut t = Tree::new();
    let target = t.current("a");
    let zero = t.number("0");
    let write = t.assign(target, zero);
    let function = t.function(None, vec![], Some(Constructor(None)), vec![write]);
    let foo = t.name("foo");
    let made = t.construct(foo, vec![]);
    let program = vec![var("foo", function), var("bar", made)];
    let solver = infer(&program);
    assert_eq!(local(&solver, "bar"), "{a: real}");
}

#[test]
fn constructor_with_parameter() {
    let mut t = Tree::new();
    let target = t.current("x");
    let y = t.name("y");
    let write = t.assign(target, y);
    let function = t.function(Some("foo"), vec!["y"], Some(Constructor(None)), vec![write]);
    let foo = t.name("foo");
    let zero = t.number("0");
    let made = t.call(foo, vec![zero]);
    let program = vec![statement(function), var("bar", made)];
    let solver = infer(&program);
    assert_eq!(local(&solver, "bar"), "{x: real}");
}

#[test]
fn constructor_getter() {
    let mut t = Tree::new();
    let target = t.current("a");
    let zero = t.number("0");
    let write = t.assign(target, zero);
    let read = t.current("a");
    let getter = t.function(Some("get_a"), vec![], None, vec![ret(Some(read))]);
    let function =
        t.function(None, vec![], Some(Constructor(None)), vec![write, statement(getter)]);
    let foo = t.name("foo");
    let made = t.construct(foo, vec![]);
    let bar = t.name("bar");
    let callee = t.dot(bar, "get_a");
    let call = t.call(callee, vec![]);
    let program = vec![var("foo", function), var("bar", made), var("fizz", call)];
    let solver = infer(&program);
    assert_eq!(local(&solver, "fizz"), "real");
}

#[test]
fn inheritance_passing_arguments() {
    let mut t = Tree::new();
    let target = t.current("a");
    let x = t.name("x");
    let write = t.assign(target, x);
    let parent = t.function(None, vec!["x"], Some(Constructor(None)), vec![write]);
    let foo = t.name("foo");
    let x = t.name("x");
    let parent_call = t.call(foo, vec![x]);
    let child = t.function(None, vec!["x"], Some(Constructor(Some(parent_call))), vec![]);
    let bar = t.name("bar");
    let zero = t.number("0");
    let made = t.construct(bar, vec![zero]);
    let program = vec![var("foo", parent), var("bar", child), var("fizz", made)];
    let solver = infer(&program);
    assert_eq!(local(&solver, "fizz"), "{a: real}");
}

#[test]
fn multi_inheritance() {
    let mut t = Tree::new();
    let target = t.current("a");
    let zero = t.number("0");
    let write = t.assign(target, zero);
    let foo = t.function(None, vec![], Some(Constructor(None)), vec![write]);
    let callee = t.name("foo");
    let call_foo = t.call(callee, vec![]);
    let target = t.current("b");
    let zero = t.number("0");
    let write = t.assign(target, zero);
    let bar = t.function(None, vec![], Some(Constructor(Some(call_foo))), vec![write]);
    let callee = t.name("bar");
    let call_bar = t.call(callee, vec![]);
    let fizz = t.function(None, vec![], Some(Constructor(Some(call_bar))), vec![]);
    let callee = t.name("fizz");
    let made = t.construct(callee, vec![]);
    let program = vec![var("foo", foo), var("bar", bar), var("fizz", fizz), var("buzz", made)];
    let solver = infer(&program);
    assert_eq!(local(&solver, "buzz"), "{a: real, b: real}");
}

#[test]
fn alias_function() {
    let mut t = Tree::new();
    let target = t.current("x");
    let zero = t.number("0");
    let write = t.assign(target, zero);
    let foo = t.function(Some("foo"), vec![], Some(Constructor(None)), vec![write]);
    let callee = t.name("foo");
    let made = t.construct(callee, vec![]);
    let new_struct = t.name("new_struct");
    let bar =
        t.function(None, vec![], None, vec![var("new_struct", made), ret(Some(new_struct))]);
    let callee = t.name("bar");
    let call = t.call(callee, vec![]);
    let program = vec![statement(foo), var("bar", bar), var("fizz", call)];
    let solver = infer(&program);
    assert_eq!(local(&solver, "fizz"), "{x: real}");
}

#[test]
fn a_constructed_record_is_closed() {
    let mut t = Tree::new();
    let target = t.current("a");
    let zero = t.number("0");
    let write = t.assign(target, zero);
    let function = t.function(None, vec![], Some(Constructor(None)), vec![write]);
    let foo = t.name("foo");
    let made = t.construct(foo, vec![]);
    let bar = t.name("bar");
    let read = t.dot(bar, "missing");
    let program = vec![var("foo", function), var("bar", made), var("fizz", read)];
    let mut solver = Solver::new();
    let errors = solver.process_statements(&program).unwrap_err();
    match &errors[0] {
        TypeError::IllegalExtension { name, state, .. } => {
            assert_eq!(name, "missing");
            assert_eq!(*state, State::Concrete);
        }
        other => panic!("{:?}", other),
    }
}

#[test]
fn inference_goes_on_behind_an_error() {
    let mut t = Tree::new();
    let one = t.number("1");
    let a = t.text("a");
    let bad = t.plus(one, a);
    let truth = t.truth();
    let two = t.number("2");
    let worse = t.logical(truth, two);
    let zero = t.number("0");
    let program = vec![statement(bad), statement(worse), var("fine", zero)];
    let mut solver = Solver::new();
    let errors = solver.process_statements(&program).unwrap_err();
    assert_eq!(errors.len(), 2);
    assert_eq!(local(&solver, "fine"), "real");
}

#[test]
fn two_runs_agree() {
    let build = || {
        let mut t = Tree::new();
        let a = t.name("a");
        let function = t.function(None, vec!["a"], None, vec![ret(Some(a))]);
        let foo = t.name("foo");
        let truth = t.truth();
        let first = t.call(foo, vec![truth]);
        let one = t.number("1");
        let word = t.text("a");
        let bad = t.plus(one, word);
        vec![var("foo", function), var("bar", first), statement(bad)]
    };
    let first_program = build();
    let second_program = build();
    let mut first = Solver::new();
    let mut second = Solver::new();
    let first_errors = first.process_statements(&first_program).unwrap_err();
    let second_errors = second.process_statements(&second_program).unwrap_err();
    assert_eq!(first_errors, second_errors);
    assert_eq!(first.query_local("bar"), second.query_local("bar"));
    assert_eq!(first.query_local("foo"), second.query_local("foo"));
}

#[test]
fn every_literal_kind_gives_its_type_to_a_variable() {
    let kinds = vec![
        (Literal::True, "bool"),
        (Literal::False, "bool"),
        (Literal::Undefined, "undefined"),
        (Literal::Noone, "noone"),
        (Literal::String("quoted".to_string()), "string"),
        (Literal::Real("12.5".to_string()), "real"),
        (Literal::Hex("a0f9a0".to_string()), "real"),
    ];
    for (literal, expected) in kinds {
        let mut t = Tree::new();
        let value = t.literal(literal);
        let program = vec![var("x", value)];
        let solver = infer(&program);
        assert_eq!(local(&solver, "x"), expected);
    }
}

#[test]
fn return_advanced_generic() {
    let mut t = Tree::new();
    let a = t.name("a");
    let b = t.name("b");
    let picked = t.at(a, b);
    let foo = t.function(None, vec!["a", "b"], None, vec![ret(Some(picked))]);
    let x = t.name("x");
    let y = t.name("y");
    let two = t.number("2");
    let product = t.evaluate(y, EvaluationOperator::Star, two);
    let sum = t.plus(x, product);
    let bar = t.function(None, vec!["x", "y"], None, vec![ret(Some(sum))]);
    let callee = t.name("foo");
    let hello = t.text("hello");
    let words = t.list(vec![hello]);
    let zero = t.number("0");
    let fizz = t.call(callee, vec![words, zero]);
    let callee = t.name("foo");
    let truth = t.truth();
    let record = t.structure(vec![("a", truth)]);
    let records = t.list(vec![record]);
    let inner_callee = t.name("bar");
    let one = t.number("1");
    let two = t.number("2");
    let place = t.call(inner_callee, vec![one, two]);
    let buzz = t.call(callee, vec![records, place]);
    let program = vec![var("foo", foo), var("bar", bar), var("fizz", fizz), var("buzz", buzz)];
    let solver = infer(&program);
    assert_eq!(local(&solver, "fizz"), "string");
    assert_eq!(local(&solver, "buzz"), "{a: bool}");
}

#[test]
fn complicted_data_construction() {
    let mut t = Tree::new();
    let x = t.name("x");
    let y = t.name("y");
    let zero = t.number("0");
    let y_of_zero = t.call(y, vec![zero]);
    let z = t.name("z");
    let zero = t.number("0");
    let first = t.at(z, zero);
    let zero = t.number("0");
    let second = t.at(first, zero);
    let a = t.dot(second, "a");
    let b = t.dot(a, "b");
    let c = t.dot(b, "c");
    let built = t.structure(vec![("x", x), ("y", y_of_zero), ("z", c)]);
    let build_data = t.function(None, vec!["x", "y", "z"], None, vec![ret(Some(built))]);
    let x = t.name("x");
    let build_x = t.function(None, vec!["x"], None, vec![ret(Some(x))]);
    let n = t.name("n");
    let y_fn = t.function(None, vec!["n"], None, vec![ret(Some(n))]);
    let zero = t.number("0");
    let c = t.structure(vec![("c", zero)]);
    let b = t.structure(vec![("b", c)]);
    let a = t.structure(vec![("a", b)]);
    let inner = t.list(vec![a]);
    let z_value = t.list(vec![inner]);
    let callee = t.name("build_data");
    let build_x_callee = t.name("build_x");
    let zero = t.number("0");
    let x_value = t.call(build_x_callee, vec![zero]);
    let y_argument = t.name("y_fn");
    let z_argument = t.name("z");
    let data = t.call(callee, vec![x_value, y_argument, z_argument]);
    let d = t.name("data");
    let dx = t.dot(d, "x");
    let d = t.name("data");
    let dy = t.dot(d, "y");
    let d = t.name("data");
    let dz = t.dot(d, "z");
    let partial = t.plus(dx, dy);
    let output = t.plus(partial, dz);
    let program = vec![
        var("build_data", build_data),
        var("build_x", build_x),
        var("y_fn", y_fn),
        var("z", z_value),
        var("data", data),
        var("output", output),
    ];
    let solver = infer(&program);
    assert_eq!(local(&solver, "z"), "[[{a: {b: {c: real}}}]]");
    assert_eq!(local(&solver, "data"), "{x: real, y: real, z: real}");
    assert_eq!(local(&solver, "output"), "real");
}

#[test]
fn vec_2() {
    let mut t = Tree::new();
    let target = t.current("x");
    let x = t.name("_x");
    let write_x = t.assign(target, x);
    let target = t.current("y");
    let y = t.name("_y");
    let write_y = t.assign(target, y);
    let target = t.current("x");
    let o = t.name("o");
    let value = t.dot(o, "x");
    let set_x = t.assign(target, value);
    let target = t.current("y");
    let o = t.name("o");
    let value = t.dot(o, "y");
    let set_y = t.assign(target, value);
    let setter = t.function(None, vec!["o"], None, vec![set_x, set_y]);
    let target = t.name("set");
    let keep = t.assign(target, setter);
    let constructor = t.function(
        Some("Vec2"),
        vec!["_x", "_y"],
        Some(Constructor(None)),
        vec![write_x, write_y, keep],
    );
    let callee = t.name("Vec2");
    let zero = t.number("0");
    let other = t.number("0");
    let made = t.call(callee, vec![zero, other]);
    let program = vec![statement(constructor), var("a", made)];
    let solver = infer(&program);
    assert_eq!(
        local(&solver, "a"),
        "{set: fn ({x: real, y: real}) -> undefined, x: real, y: real}"
    );
}

#[test]
fn a_record_only_grows_as_the_program_goes_on() {
    let mut t = Tree::new();
    let zero = t.number("0");
    let literal = t.structure(vec![("x", zero)]);
    let first = vec![var("foo", literal)];
    let foo = t.name("foo");
    let target = t.dot(foo, "y");
    let value = t.truth();
    let foo = t.name("foo");
    let missing = t.dot(foo, "z");
    let second = vec![t.assign(target, value), var("bad", missing)];
    let mut solver = Solver::new();
    assert!(solver.process_statements(&first).is_ok());
    assert_eq!(local(&solver, "foo"), "{x: real}");
    let errors = solver.process_statements(&second).unwrap_err();
    assert_eq!(errors.len(), 1);
    assert_eq!(local(&solver, "foo"), "{x: real, y: bool}");
    match solver.query_local("foo") {
        Some(Ty::Record(record)) => assert_eq!(record.state, State::Extendable),
        other => panic!("{:?}", other),
    }
}

#[test]
fn the_default_value_of_a_parameter_gives_its_type() {
    let mut t = Tree::new();
    let default_value = t.text("nobody");
    let who = t.name("who");
    let function = t.expr(Expression::FunctionDeclaration(
        None,
        vec![Parameter("who".to_string(), Some(default_value))],
        None,
        Statement::Block(vec![ret(Some(who))]).lazy_box(),
        false,
    ));
    assert_eq!(type_of_expression(function), "fn (string) -> string");
}

#[test]
fn a_function_that_calls_itself_is_elaborated_to_the_depth_given() {
    let mut t = Tree::new();
    let callee = t.name("f");
    let again = t.call(callee, vec![]);
    let function = t.function(Some("f"), vec![], None, vec![ret(Some(again))]);
    let callee = t.name("f");
    let call = t.call(callee, vec![]);
    let zero = t.number("0");
    let program = vec![statement(function), var("r", call), var("fine", zero)];
    let mut solver = Solver::with_depth_limit(4);
    assert_eq!(solver.process_statements(&program), Ok(()));
    assert_eq!(local(&solver, "fine"), "real");
    assert_eq!(local(&solver, "r"), "?");
}

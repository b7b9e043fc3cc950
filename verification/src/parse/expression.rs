use vstd::prelude::*;
use crate::location::{Location, Span};
use crate::parse::operators::{
    AssignmentOperator, EqualityOperator, EvaluationOperator, LogicalOperator, PostfixOperator,
    UnaryOperator,
};
use crate::parse::statement::StatementBox;

verus! {

/// A gml expression.
#[derive(Debug, PartialEq)]
pub enum Expression {
    /// Name, parameters, constructor marker, body, and whether it was declared `static`.
    FunctionDeclaration(Option<String>, Vec<Parameter>, Option<Constructor>, StatementBox, bool),
    Logical(ExpressionBox, LogicalOperator, ExpressionBox),
    Equality(ExpressionBox, EqualityOperator, ExpressionBox),
    Evaluation(ExpressionBox, EvaluationOperator, ExpressionBox),
    NullCoalecence(ExpressionBox, ExpressionBox),
    Ternary(Ternary),
    Assignment(Assignment),
    Unary(UnaryOperator, ExpressionBox),
    Postfix(ExpressionBox, PostfixOperator),
    /// What is reached into, and the member or the collection that is accessed.
    Access(Scope, ExpressionBox),
    /// Callee, arguments, and whether the call stands behind `new`.
    Call(ExpressionBox, Vec<ExpressionBox>, bool),
    Grouping(ExpressionBox),
    Literal(Literal),
    Identifier(String),
}

/// An expression with its place in the source and the number that identifies it.
#[derive(Debug, PartialEq)]
pub struct ExpressionBox(pub Box<Expression>, pub Location, pub u64);

/// Representation of a ternary evaluation in gml.
#[derive(Debug, PartialEq)]
pub struct Ternary {
    /// The left hand side of the evaluation.
    pub condition: ExpressionBox,
    /// The expression yielded if the condition is true.
    pub true_value: ExpressionBox,
    /// The expression yielded if the condition is false.
    pub false_value: ExpressionBox,
}

/// Representation of an assignment expression in gml.
#[derive(Debug, PartialEq)]
pub struct Assignment {
    /// The left hand side of the assignment, aka the target.
    pub left: ExpressionBox,
    /// The operator used in this assignment.
    pub operator: AssignmentOperator,
    /// The right hand side of the assignment, aka the value.
    pub right: ExpressionBox,
}

/// A literal value.
#[derive(Debug, PartialEq)]
pub enum Literal {
    True,
    False,
    PointerNull,
    PointerInvalid,
    Undefined,
    Noone,
    NaN,
    Infinity,
    Pi,
    String(String),
    /// A number, as it was written.
    Real(String),
    Hex(String),
    Array(Vec<ExpressionBox>),
    Struct(Vec<(String, ExpressionBox)>),
}

/// What an access reaches into.
#[derive(Debug, PartialEq)]
pub enum Scope {
    Global,
    Current,
    Dot(ExpressionBox),
    /// The indexes, and whether the accessor `@` was written.
    Array(ExpressionBox, Option<ExpressionBox>, bool),
    DsMap(ExpressionBox),
    Grid(ExpressionBox, ExpressionBox),
    List(ExpressionBox),
    Struct(ExpressionBox),
}

/// Marks a function as a constructor, with the call of the constructor it inherits from.
#[derive(Debug, PartialEq)]
pub struct Constructor(pub Option<ExpressionBox>);

/// A parameter of a function: its name and its default value.
#[derive(Debug, PartialEq)]
pub struct Parameter(pub String, pub Option<ExpressionBox>);

impl Ternary {
    /// Creates a new ternary.
    pub fn new(condition: ExpressionBox, true_value: ExpressionBox, false_value: ExpressionBox) -> (out: Ternary)
        ensures
            out.condition == condition,
            out.true_value == true_value,
            out.false_value == false_value,
    {
        Ternary { condition, true_value, false_value }
    }

    /// The expressions directly below the ternary, in source order.
    pub fn visit_child_expressions(&self) -> (out: Vec<&ExpressionBox>)
        ensures
            pointees(out@) == seq![self.condition, self.true_value, self.false_value],
    {
        let mut out: Vec<&ExpressionBox> = Vec::new();
        assert(pointees(out@) =~= Seq::empty());
        push_ref(&mut out, &self.condition);
        push_ref(&mut out, &self.true_value);
        push_ref(&mut out, &self.false_value);
        assert(pointees(out@) =~= seq![self.condition, self.true_value, self.false_value]);
        out
    }

    /// The statements directly below the ternary: there are none.
    pub fn visit_child_statements(&self) -> (out: Vec<&StatementBox>)
        ensures
            out@.len() == 0,
    {
        Vec::new()
    }
}

impl Assignment {
    /// Creates a new assignment.
    pub fn new(left: ExpressionBox, operator: AssignmentOperator, right: ExpressionBox) -> (out: Assignment)
        ensures
            out.left == left,
            out.operator == operator,
            out.right == right,
    {
        Assignment { left, operator, right }
    }

    /// The expressions directly below the assignment, in source order.
    pub fn visit_child_expressions(&self) -> (out: Vec<&ExpressionBox>)
        ensures
            pointees(out@) == seq![self.left, self.right],
    {
        let mut out: Vec<&ExpressionBox> = Vec::new();
        assert(pointees(out@) =~= Seq::empty());
        push_ref(&mut out, &self.left);
        push_ref(&mut out, &self.right);
        assert(pointees(out@) =~= seq![self.left, self.right]);
        out
    }

    /// The statements directly below the assignment: there are none.
    pub fn visit_child_statements(&self) -> (out: Vec<&StatementBox>)
        ensures
            out@.len() == 0,
    {
        Vec::new()
    }
}

impl Expression {
    /// Boxes the expression with its place and its number.
    pub fn into_box(self, location: Location, id: u64) -> (out: ExpressionBox)
        ensures
            out == ExpressionBox(Box::new(self), location, id),
    {
        ExpressionBox(Box::new(self), location, id)
    }

    /// Boxes the expression with its number and no place.
    pub fn lazy_box(self, id: u64) -> (out: ExpressionBox)
        ensures
            out == ExpressionBox(Box::new(self), Location(0, Span(0, 0)), id),
    {
        ExpressionBox(Box::new(self), Location(0, Span(0, 0)), id)
    }

    /// The statements directly below the expression, in source order.
    pub open spec fn child_statements(self) -> Seq<StatementBox> {
        match self {
            Expression::FunctionDeclaration(_, _, _, body, _) => seq![body],
            _ => Seq::empty(),
        }
    }

    /// The expressions directly below the expression, in source order.
    pub open spec fn child_expressions(self) -> Seq<ExpressionBox> {
        match self {
            Expression::FunctionDeclaration(_, parameters, constructor, _, _) => defaults_of(
                parameters@,
            ) + inheritance_of(constructor),
            Expression::Logical(left, _, right) => seq![left, right],
            Expression::Equality(left, _, right) => seq![left, right],
            Expression::Evaluation(left, _, right) => seq![left, right],
            Expression::NullCoalecence(left, right) => seq![left, right],
            Expression::Assignment(a) => seq![a.left, a.right],
            Expression::Ternary(t) => seq![t.condition, t.true_value, t.false_value],
            Expression::Unary(_, right) => seq![right],
            Expression::Postfix(left, _) => seq![left],
            Expression::Access(scope, expression) => seq![expression] + scope.operands(),
            Expression::Call(left, arguments, _) => seq![left] + arguments@,
            Expression::Grouping(inner) => seq![inner],
            Expression::Literal(literal) => literal.members(),
            Expression::Identifier(_) => Seq::empty(),
        }
    }

    /// The statements directly below the expression, in source order.
    pub fn visit_child_statements(&self) -> (out: Vec<&StatementBox>)
        ensures
            pointees(out@) == self.child_statements(),
    {
        let mut out: Vec<&StatementBox> = Vec::new();
        assert(pointees(out@) =~= Seq::empty());
        if let Expression::FunctionDeclaration(_, _, _, body, _) = self {
            push_ref(&mut out, body);
        }
        assert(pointees(out@) =~= self.child_statements());
        out
    }

    /// The expressions directly below the expression, in source order.
    pub fn visit_child_expressions(&self) -> (out: Vec<&ExpressionBox>)
        ensures
            pointees(out@) == self.child_expressions(),
    {
        let mut out: Vec<&ExpressionBox> = Vec::new();
        assert(pointees(out@) =~= Seq::empty());
        match self {
            Expression::FunctionDeclaration(_, parameters, constructor, _, _) => {
                let mut i: usize = 0;
                assert(parameters@.subrange(0, 0) =~= Seq::empty());
                while i < parameters.len()
                    invariant
                        i <= parameters.len(),
                        pointees(out@) == defaults_of(parameters@.subrange(0, i as int)),
                    decreases parameters.len() - i,
                {
                    proof {
                        lemma_defaults_step(parameters@, i as int);
                    }
                    if let Some(default_value) = &parameters[i].1 {
                        push_ref(&mut out, default_value);
                    }
                    i += 1;
                }
                assert(parameters@.subrange(0, i as int) =~= parameters@);
                if let Some(constructor) = constructor {
                    if let Some(inheritance_call) = &constructor.0 {
                        push_ref(&mut out, inheritance_call);
                    }
                }
            },
            Expression::Logical(left, _, right) => {
                push_ref(&mut out, left);
                push_ref(&mut out, right);
            },
            Expression::Equality(left, _, right) => {
                push_ref(&mut out, left);
                push_ref(&mut out, right);
            },
            Expression::Evaluation(left, _, right) => {
                push_ref(&mut out, left);
                push_ref(&mut out, right);
            },
            Expression::NullCoalecence(left, right) => {
                push_ref(&mut out, left);
                push_ref(&mut out, right);
            },
            Expression::Assignment(a) => {
                out = a.visit_child_expressions();
            },
            Expression::Ternary(t) => {
                out = t.visit_child_expressions();
            },
            Expression::Unary(_, right) => {
                push_ref(&mut out, right);
            },
            Expression::Postfix(left, _) => {
                push_ref(&mut out, left);
            },
            Expression::Access(scope, expression) => {
                push_ref(&mut out, expression);
                match scope {
                    Scope::Dot(other) => {
                        push_ref(&mut out, other);
                    },
                    Scope::Array(x, y, _) => {
                        push_ref(&mut out, x);
                        if let Some(y) = y {
                            push_ref(&mut out, y);
                        }
                    },
                    Scope::DsMap(key) => {
                        push_ref(&mut out, key);
                    },
                    Scope::Grid(x, y) => {
                        push_ref(&mut out, x);
                        push_ref(&mut out, y);
                    },
                    Scope::List(index) => {
                        push_ref(&mut out, index);
                    },
                    Scope::Struct(key) => {
                        push_ref(&mut out, key);
                    },
                    Scope::Global => {},
                    Scope::Current => {},
                }
            },
            Expression::Call(left, arguments, _) => {
                push_ref(&mut out, left);
                let mut i: usize = 0;
                while i < arguments.len()
                    invariant
                        i <= arguments.len(),
                        pointees(out@) == seq![*left] + arguments@.subrange(0, i as int),
                    decreases arguments.len() - i,
                {
                    push_ref(&mut out, &arguments[i]);
                    assert(pointees(out@) =~= seq![*left] + arguments@.subrange(0, i + 1));
                    i += 1;
                }
                assert(arguments@.subrange(0, i as int) =~= arguments@);
            },
            Expression::Grouping(inner) => {
                push_ref(&mut out, inner);
            },
            Expression::Literal(literal) => {
                match literal {
                    Literal::Array(members) => {
                        let mut i: usize = 0;
                        while i < members.len()
                            invariant
                                i <= members.len(),
                                pointees(out@) == members@.subrange(0, i as int),
                            decreases members.len() - i,
                        {
                            push_ref(&mut out, &members[i]);
                            assert(pointees(out@) =~= members@.subrange(0, i + 1));
                            i += 1;
                        }
                        assert(members@.subrange(0, i as int) =~= members@);
                    },
                    Literal::Struct(members) => {
                        let mut i: usize = 0;
                        while i < members.len()
                            invariant
                                i <= members.len(),
                                pointees(out@) == literal.members().subrange(0, i as int),
                                *literal matches Literal::Struct(m) && m == *members,
                            decreases members.len() - i,
                        {
                            push_ref(&mut out, &members[i].1);
                            assert(pointees(out@) =~= literal.members().subrange(0, i + 1));
                            i += 1;
                        }
                        assert(literal.members().subrange(0, i as int) =~= literal.members());
                    },
                    _ => {},
                }
            },
            Expression::Identifier(_) => {},
        }
        assert(pointees(out@) =~= self.child_expressions());
        out
    }
}

impl Scope {
    /// The expressions that the scope holds, in source order.
    pub open spec fn operands(self) -> Seq<ExpressionBox> {
        match self {
            Scope::Global => Seq::empty(),
            Scope::Current => Seq::empty(),
            Scope::Dot(other) => seq![other],
            Scope::Array(x, None, _) => seq![x],
            Scope::Array(x, Some(y), _) => seq![x, y],
            Scope::DsMap(key) => seq![key],
            Scope::Grid(x, y) => seq![x, y],
            Scope::List(index) => seq![index],
            Scope::Struct(key) => seq![key],
        }
    }
}

impl Literal {
    /// The expressions that the literal is made of, in source order.
    pub open spec fn members(self) -> Seq<ExpressionBox> {
        match self {
            Literal::Array(members) => members@,
            Literal::Struct(members) => Seq::new(members@.len(), |i: int| members@[i].1),
            _ => Seq::empty(),
        }
    }
}

/// The values that a list of references points to.
pub open spec fn pointees<T>(refs: Seq<&T>) -> Seq<T> {
    Seq::new(refs.len(), |i: int| *refs[i])
}

/// Adds one reference at the end of a list of references.
pub fn push_ref<'a, T>(out: &mut Vec<&'a T>, item: &'a T)
    ensures
        pointees(final(out)@) == pointees(old(out)@).push(*item),
{
    out.push(item);
    assert(pointees(out@) =~= pointees(old(out)@).push(*item));
}

/// The default values among a list of parameters, in order.
pub open spec fn defaults_of(parameters: Seq<Parameter>) -> Seq<ExpressionBox>
    decreases parameters.len(),
{
    if parameters.len() == 0 {
        Seq::empty()
    } else {
        let front = defaults_of(parameters.drop_last());
        match parameters.last().1 {
            Some(default_value) => front.push(default_value),
            None => front,
        }
    }
}

/// The call of the inherited constructor, if there is one.
pub open spec fn inheritance_of(constructor: Option<Constructor>) -> Seq<ExpressionBox> {
    match constructor {
        Some(Constructor(Some(call))) => seq![call],
        _ => Seq::empty(),
    }
}

proof fn lemma_defaults_step(parameters: Seq<Parameter>, i: int)
    requires
        0 <= i < parameters.len(),
    ensures
        defaults_of(parameters.subrange(0, i + 1)) == match parameters[i].1 {
            Some(default_value) => defaults_of(parameters.subrange(0, i)).push(default_value),
            None => defaults_of(parameters.subrange(0, i)),
        },
{
    let longer = parameters.subrange(0, i + 1);
    assert(longer.drop_last() =~= parameters.subrange(0, i));
    assert(longer.last() == parameters[i]);
}

impl ExpressionBox {
    /// The expression in the box.
    pub fn expression(&self) -> (out: &Expression)
        ensures
            *out == *self.0,
    {
        &*self.0
    }

    /// The bytes that the expression was read from.
    pub fn span(&self) -> (out: Span)
        ensures
            out == self.1.1,
    {
        self.1.1
    }

    /// The place that the expression was read from.
    pub fn location(&self) -> (out: Location)
        ensures
            out == self.1,
    {
        self.1
    }

    /// The number that identifies the expression within its program.
    pub fn id(&self) -> (out: u64)
        ensures
            out == self.2,
    {
        self.2
    }
}


/// Every default value among the parameters is smaller than the list of parameters.
pub proof fn lemma_defaults_within(parameters: Seq<Parameter>, i: int)
    requires
        0 <= i < defaults_of(parameters).len(),
    ensures
        exists|k: int| 0 <= k < parameters.len() && (#[trigger] parameters[k]).1 == Some(defaults_of(parameters)[i]),
    decreases parameters.len(),
{
    if parameters.len() > 0 {
        let front = defaults_of(parameters.drop_last());
        if i < front.len() {
            lemma_defaults_within(parameters.drop_last(), i);
            let k = choose|k: int| 0 <= k < parameters.drop_last().len() && (#[trigger] parameters.drop_last()[k]).1 == Some(front[i]);
            assert(parameters[k] == parameters.drop_last()[k]);
        } else {
            assert(parameters[parameters.len() - 1] == parameters.last());
        }
    }
}

/// Every expression directly below an expression is smaller than it.
pub proof fn lemma_child_expression_decreases(parent: ExpressionBox, i: int)
    requires
        0 <= i < parent.0.child_expressions().len(),
    ensures
        decreases_to!(parent => parent.0.child_expressions()[i]),
{
    let children = parent.0.child_expressions();
    match *parent.0 {
        Expression::FunctionDeclaration(_, parameters, constructor, _, _) => {
            let defaults = defaults_of(parameters@);
            if i < defaults.len() {
                lemma_defaults_within(parameters@, i);
                let k = choose|k: int| 0 <= k < parameters@.len() && (#[trigger] parameters@[k]).1 == Some(defaults[i]);
                assert(decreases_to!(parameters@ => parameters@[k]));
                assert(decreases_to!(parameters@[k] => parameters@[k].1));
                assert(decreases_to!(parameters@[k].1 => parameters@[k].1->0));
            } else {
                assert(children[i] == inheritance_of(constructor)[0]);
            }
        },
        Expression::Call(left, arguments, _) => {
            if i > 0 {
                assert(children[i] == arguments@[i - 1]);
                assert(decreases_to!(arguments@ => arguments@[i - 1]));
            }
        },
        Expression::Literal(literal) => {
            match literal {
                Literal::Array(members) => {
                    assert(decreases_to!(members@ => members@[i]));
                },
                Literal::Struct(members) => {
                    assert(children[i] == members@[i].1);
                    assert(decreases_to!(members@ => members@[i]));
                    assert(decreases_to!(members@[i] => members@[i].1));
                },
                _ => {},
            }
        },
        Expression::Access(scope, expression) => {
            if i > 0 {
                assert(children[i] == scope.operands()[i - 1]);
            }
        },
        _ => {},
    }
}

/// The statement directly below a function declaration is smaller than the declaration.
pub proof fn lemma_child_statement_decreases(parent: ExpressionBox, i: int)
    requires
        0 <= i < parent.0.child_statements().len(),
    ensures
        decreases_to!(parent => parent.0.child_statements()[i]),
{
}


impl From<Ternary> for Expression {
    fn from(ternary: Ternary) -> (out: Expression) {
        Expression::Ternary(ternary)
    }
}

impl vstd::std_specs::convert::FromSpecImpl<Ternary> for Expression {
    open spec fn obeys_from_spec() -> bool {
        true
    }

    open spec fn from_spec(ternary: Ternary) -> Expression {
        Expression::Ternary(ternary)
    }
}

impl From<Assignment> for Expression {
    fn from(assignment: Assignment) -> (out: Expression) {
        Expression::Assignment(assignment)
    }
}

impl vstd::std_specs::convert::FromSpecImpl<Assignment> for Expression {
    open spec fn obeys_from_spec() -> bool {
        true
    }

    open spec fn from_spec(assignment: Assignment) -> Expression {
        Expression::Assignment(assignment)
    }
}

} // verus!

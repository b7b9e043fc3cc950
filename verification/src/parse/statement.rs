use vstd::prelude::*;
use crate::location::{Location, Span};
use crate::parse::expression::{ExpressionBox, pointees, push_ref};

verus! {

/// A singular gml statement.
#[derive(Debug, PartialEq)]
pub enum Statement {
    MacroDeclaration(Macro),
    EnumDeclaration(Enum),
    GlobalvarDeclaration(Globalvar),
    LocalVariableSeries(LocalVariableSeries),
    /// The tried block, the caught value, the handler, and the block that runs at the end.
    TryCatch(StatementBox, ExpressionBox, StatementBox, Option<StatementBox>),
    /// Initializer, condition, tick and body.
    For(StatementBox, ExpressionBox, StatementBox, StatementBox),
    With(ExpressionBox, StatementBox),
    Repeat(RepeatLoop),
    DoUntil(StatementBox, ExpressionBox),
    While(ExpressionBox, StatementBox),
    /// Condition, body, else branch, and whether `then` was written.
    If(ExpressionBox, StatementBox, Option<StatementBox>, bool),
    Switch(Switch),
    Block(Vec<StatementBox>),
    Return(Return),
    Break,
    Continue,
    Exit,
    Expression(ExpressionBox),
}

/// A statement with its place in the source.
#[derive(Debug, PartialEq)]
pub struct StatementBox(pub Box<Statement>, pub Location);

/// A macro declaration: its name, the configuration it belongs to, and its text.
#[derive(Debug, PartialEq)]
pub struct Macro {
    pub name: String,
    pub config: Option<String>,
    pub body: String,
}

/// An enum declaration.
#[derive(Debug, PartialEq)]
pub struct Enum {
    pub name: String,
    pub members: Vec<EnumMember>,
}

/// A member of an enum, with the value it was given.
#[derive(Debug, PartialEq)]
pub struct EnumMember(pub String, pub Option<ExpressionBox>);

/// A `globalvar` declaration.
#[derive(Debug, PartialEq)]
pub struct Globalvar {
    pub name: String,
}

/// A series of local variables declared by one `var`.
#[derive(Debug, PartialEq)]
pub struct LocalVariableSeries {
    pub declarations: Vec<LocalVariable>,
}

/// A local variable, with the value it was declared with.
#[derive(Debug, PartialEq)]
pub struct LocalVariable(pub String, pub Option<ExpressionBox>);

/// Representation of a repeat loop in gml.
#[derive(Debug, PartialEq)]
pub struct RepeatLoop {
    /// The expression dictating the amount of ticks.
    pub tick_counts: ExpressionBox,
    /// The body of the loop.
    pub body: StatementBox,
}

/// A return statement, with an optional return value.
#[derive(Debug, PartialEq)]
pub struct Return {
    /// The value, if any, that this statement returns.
    pub value: Option<ExpressionBox>,
}

/// A switch statement.
#[derive(Debug, PartialEq)]
pub struct Switch {
    pub matching_value: ExpressionBox,
    pub cases: Vec<Case>,
    pub default_case: Option<Vec<StatementBox>>,
}

/// One case of a switch: the value it matches and its body.
#[derive(Debug, PartialEq)]
pub struct Case(pub ExpressionBox, pub Vec<StatementBox>);

impl RepeatLoop {
    /// Creates a new repeat loop.
    pub fn new(tick_counts: ExpressionBox, body: StatementBox) -> (out: RepeatLoop)
        ensures
            out.tick_counts == tick_counts,
            out.body == body,
    {
        RepeatLoop { tick_counts, body }
    }

    /// The expressions directly below the loop: the count of its ticks.
    pub fn visit_child_exprs(&self) -> (out: Vec<&ExpressionBox>)
        ensures
            pointees(out@) == seq![self.tick_counts],
    {
        let mut out: Vec<&ExpressionBox> = Vec::new();
        assert(pointees(out@) =~= Seq::empty());
        push_ref(&mut out, &self.tick_counts);
        assert(pointees(out@) =~= seq![self.tick_counts]);
        out
    }

    /// The statements directly below the loop: its body.
    pub fn visit_child_stmts(&self) -> (out: Vec<&StatementBox>)
        ensures
            pointees(out@) == seq![self.body],
    {
        let mut out: Vec<&StatementBox> = Vec::new();
        assert(pointees(out@) =~= Seq::empty());
        push_ref(&mut out, &self.body);
        assert(pointees(out@) =~= seq![self.body]);
        out
    }
}

impl Return {
    /// Creates a new return statement with an optional value.
    pub fn new(value: Option<ExpressionBox>) -> (out: Return)
        ensures
            out.value == value,
    {
        Return { value }
    }

    /// The expressions directly below the statement: the value, where it returns one.
    pub fn visit_child_expressions(&self) -> (out: Vec<&ExpressionBox>)
        ensures
            pointees(out@) == optional_expression(self.value),
    {
        let mut out: Vec<&ExpressionBox> = Vec::new();
        assert(pointees(out@) =~= Seq::empty());
        if let Some(value) = &self.value {
            push_ref(&mut out, value);
            assert(pointees(out@) =~= seq![*value]);
        }
        out
    }

    /// The statements directly below the statement: there are none.
    pub fn visit_child_statements(&self) -> (out: Vec<&StatementBox>)
        ensures
            out@.len() == 0,
    {
        Vec::new()
    }
}

/// The bodies of a list of cases, one after the other.
pub open spec fn case_bodies(cases: Seq<Case>) -> Seq<StatementBox>
    decreases cases.len(),
{
    if cases.len() == 0 {
        Seq::empty()
    } else {
        case_bodies(cases.drop_last()) + cases.last().1@
    }
}

/// The values given to the members of an enum, in order.
pub open spec fn initializers_of(members: Seq<EnumMember>) -> Seq<ExpressionBox>
    decreases members.len(),
{
    if members.len() == 0 {
        Seq::empty()
    } else {
        let front = initializers_of(members.drop_last());
        match members.last().1 {
            Some(value) => front.push(value),
            None => front,
        }
    }
}

/// The values that a series of local variables is declared with, in order.
pub open spec fn initial_values_of(declarations: Seq<LocalVariable>) -> Seq<ExpressionBox>
    decreases declarations.len(),
{
    if declarations.len() == 0 {
        Seq::empty()
    } else {
        let front = initial_values_of(declarations.drop_last());
        match declarations.last().1 {
            Some(value) => front.push(value),
            None => front,
        }
    }
}

proof fn lemma_case_bodies_step(cases: Seq<Case>, i: int)
    requires
        0 <= i < cases.len(),
    ensures
        case_bodies(cases.subrange(0, i + 1)) == case_bodies(cases.subrange(0, i)) + cases[i].1@,
{
    let longer = cases.subrange(0, i + 1);
    assert(longer.drop_last() =~= cases.subrange(0, i));
    assert(longer.last() == cases[i]);
}

proof fn lemma_initializers_step(members: Seq<EnumMember>, i: int)
    requires
        0 <= i < members.len(),
    ensures
        initializers_of(members.subrange(0, i + 1)) == match members[i].1 {
            Some(value) => initializers_of(members.subrange(0, i)).push(value),
            None => initializers_of(members.subrange(0, i)),
        },
{
    let longer = members.subrange(0, i + 1);
    assert(longer.drop_last() =~= members.subrange(0, i));
    assert(longer.last() == members[i]);
}

proof fn lemma_initial_values_step(declarations: Seq<LocalVariable>, i: int)
    requires
        0 <= i < declarations.len(),
    ensures
        initial_values_of(declarations.subrange(0, i + 1)) == match declarations[i].1 {
            Some(value) => initial_values_of(declarations.subrange(0, i)).push(value),
            None => initial_values_of(declarations.subrange(0, i)),
        },
{
    let longer = declarations.subrange(0, i + 1);
    assert(longer.drop_last() =~= declarations.subrange(0, i));
    assert(longer.last() == declarations[i]);
}

/// The identities of a list of cases, in order.
pub open spec fn case_identities(cases: Seq<Case>) -> Seq<ExpressionBox> {
    Seq::new(cases.len(), |i: int| cases[i].0)
}

/// The statements of an optional list.
pub open spec fn optional_statements(statements: Option<Vec<StatementBox>>) -> Seq<StatementBox> {
    match statements {
        Some(statements) => statements@,
        None => Seq::empty(),
    }
}

/// The statement of an optional branch.
pub open spec fn optional_statement(statement: Option<StatementBox>) -> Seq<StatementBox> {
    match statement {
        Some(statement) => seq![statement],
        None => Seq::empty(),
    }
}

/// The expression of an optional value.
pub open spec fn optional_expression(value: Option<ExpressionBox>) -> Seq<ExpressionBox> {
    match value {
        Some(value) => seq![value],
        None => Seq::empty(),
    }
}

fn push_all<'a>(out: &mut Vec<&'a StatementBox>, statements: &'a Vec<StatementBox>)
    ensures
        pointees(final(out)@) == pointees(old(out)@) + statements@,
{
    let mut i: usize = 0;
    assert(pointees(out@) =~= pointees(old(out)@) + statements@.subrange(0, 0));
    while i < statements.len()
        invariant
            i <= statements.len(),
            pointees(out@) == pointees(old(out)@) + statements@.subrange(0, i as int),
        decreases statements.len() - i,
    {
        push_ref(out, &statements[i]);
        assert(pointees(out@) =~= pointees(old(out)@) + statements@.subrange(0, i + 1));
        i += 1;
    }
    assert(statements@.subrange(0, i as int) =~= statements@);
}

impl Statement {
    /// Boxes the statement with its place.
    pub fn into_box(self, location: Location) -> (out: StatementBox)
        ensures
            out == StatementBox(Box::new(self), location),
    {
        StatementBox(Box::new(self), location)
    }

    /// Boxes the statement with no place.
    pub fn lazy_box(self) -> (out: StatementBox)
        ensures
            out == StatementBox(Box::new(self), Location(0, Span(0, 0))),
    {
        StatementBox(Box::new(self), Location(0, Span(0, 0)))
    }

    /// The statements directly below the statement, in source order.
    pub open spec fn child_statements(self) -> Seq<StatementBox> {
        match self {
            Statement::TryCatch(try_stmt, _, catch_stmt, finally_stmt) => seq![try_stmt, catch_stmt]
                + optional_statement(finally_stmt),
            Statement::For(initializer, _, tick, body) => seq![initializer, tick, body],
            Statement::With(_, body) => seq![body],
            Statement::Repeat(repeat) => seq![repeat.body],
            Statement::DoUntil(body, _) => seq![body],
            Statement::While(_, body) => seq![body],
            Statement::If(_, body, else_branch, _) => seq![body] + optional_statement(else_branch),
            Statement::Switch(switch) => case_bodies(switch.cases@) + optional_statements(
                switch.default_case,
            ),
            Statement::Block(statements) => statements@,
            _ => Seq::empty(),
        }
    }

    /// The expressions directly below the statement, in source order.
    pub open spec fn child_expressions(self) -> Seq<ExpressionBox> {
        match self {
            Statement::EnumDeclaration(gml_enum) => initializers_of(gml_enum.members@),
            Statement::LocalVariableSeries(series) => initial_values_of(series.declarations@),
            Statement::Switch(switch) => seq![switch.matching_value] + case_identities(
                switch.cases@,
            ),
            Statement::Return(ret) => optional_expression(ret.value),
            Statement::TryCatch(_, expression, _, _) => seq![expression],
            Statement::For(_, expression, _, _) => seq![expression],
            Statement::With(expression, _) => seq![expression],
            Statement::Repeat(repeat) => seq![repeat.tick_counts],
            Statement::DoUntil(_, expression) => seq![expression],
            Statement::While(expression, _) => seq![expression],
            Statement::Expression(expression) => seq![expression],
            Statement::If(expression, _, _, _) => seq![expression],
            _ => Seq::empty(),
        }
    }

    /// The statements directly below the statement, in source order.
    pub fn visit_child_statements(&self) -> (out: Vec<&StatementBox>)
        ensures
            pointees(out@) == self.child_statements(),
    {
        let mut out: Vec<&StatementBox> = Vec::new();
        assert(pointees(out@) =~= Seq::empty());
        match self {
            Statement::TryCatch(try_stmt, _, catch_stmt, finally_stmt) => {
                push_ref(&mut out, try_stmt);
                push_ref(&mut out, catch_stmt);
                if let Some(finally_stmt) = finally_stmt {
                    push_ref(&mut out, finally_stmt);
                }
            },
            Statement::For(initializer, _, tick, body) => {
                push_ref(&mut out, initializer);
                push_ref(&mut out, tick);
                push_ref(&mut out, body);
            },
            Statement::With(_, body) => {
                push_ref(&mut out, body);
            },
            Statement::Repeat(repeat) => {
                out = repeat.visit_child_stmts();
            },
            Statement::DoUntil(body, _) => {
                push_ref(&mut out, body);
            },
            Statement::While(_, body) => {
                push_ref(&mut out, body);
            },
            Statement::If(_, body, else_branch, _) => {
                push_ref(&mut out, body);
                if let Some(else_branch) = else_branch {
                    push_ref(&mut out, else_branch);
                }
            },
            Statement::Switch(switch) => {
                let mut i: usize = 0;
                assert(switch.cases@.subrange(0, 0) =~= Seq::empty());
                while i < switch.cases.len()
                    invariant
                        i <= switch.cases.len(),
                        pointees(out@) == case_bodies(switch.cases@.subrange(0, i as int)),
                    decreases switch.cases.len() - i,
                {
                    proof {
                        lemma_case_bodies_step(switch.cases@, i as int);
                    }
                    push_all(&mut out, &switch.cases[i].1);
                    i += 1;
                }
                assert(switch.cases@.subrange(0, i as int) =~= switch.cases@);
                if let Some(default) = &switch.default_case {
                    push_all(&mut out, default);
                }
            },
            Statement::Block(statements) => {
                push_all(&mut out, statements);
            },
            _ => {},
        }
        assert(pointees(out@) =~= self.child_statements());
        out
    }

    /// The expressions directly below the statement, in source order.
    pub fn visit_child_expressions(&self) -> (out: Vec<&ExpressionBox>)
        ensures
            pointees(out@) == self.child_expressions(),
    {
        let mut out: Vec<&ExpressionBox> = Vec::new();
        assert(pointees(out@) =~= Seq::empty());
        match self {
            Statement::EnumDeclaration(gml_enum) => {
                let mut i: usize = 0;
                assert(gml_enum.members@.subrange(0, 0) =~= Seq::empty());
                while i < gml_enum.members.len()
                    invariant
                        i <= gml_enum.members.len(),
                        pointees(out@) == initializers_of(gml_enum.members@.subrange(0, i as int)),
                    decreases gml_enum.members.len() - i,
                {
                    proof {
                        lemma_initializers_step(gml_enum.members@, i as int);
                    }
                    if let Some(value) = &gml_enum.members[i].1 {
                        push_ref(&mut out, value);
                    }
                    i += 1;
                }
                assert(gml_enum.members@.subrange(0, i as int) =~= gml_enum.members@);
            },
            Statement::LocalVariableSeries(series) => {
                let mut i: usize = 0;
                assert(series.declarations@.subrange(0, 0) =~= Seq::empty());
                while i < series.declarations.len()
                    invariant
                        i <= series.declarations.len(),
                        pointees(out@) == initial_values_of(
                            series.declarations@.subrange(0, i as int),
                        ),
                    decreases series.declarations.len() - i,
                {
                    proof {
                        lemma_initial_values_step(series.declarations@, i as int);
                    }
                    if let Some(value) = &series.declarations[i].1 {
                        push_ref(&mut out, value);
                    }
                    i += 1;
                }
                assert(series.declarations@.subrange(0, i as int) =~= series.declarations@);
            },
            Statement::Switch(switch) => {
                push_ref(&mut out, &switch.matching_value);
                let mut i: usize = 0;
                while i < switch.cases.len()
                    invariant
                        i <= switch.cases.len(),
                        pointees(out@) == seq![switch.matching_value] + case_identities(
                            switch.cases@,
                        ).subrange(0, i as int),
                    decreases switch.cases.len() - i,
                {
                    push_ref(&mut out, &switch.cases[i].0);
                    assert(pointees(out@) =~= seq![switch.matching_value] + case_identities(
                        switch.cases@,
                    ).subrange(0, i + 1));
                    i += 1;
                }
                assert(case_identities(switch.cases@).subrange(0, i as int) =~= case_identities(
                    switch.cases@,
                ));
            },
            Statement::Return(ret) => {
                out = ret.visit_child_expressions();
            },
            Statement::TryCatch(_, expression, _, _) => {
                push_ref(&mut out, expression);
            },
            Statement::For(_, expression, _, _) => {
                push_ref(&mut out, expression);
            },
            Statement::With(expression, _) => {
                push_ref(&mut out, expression);
            },
            Statement::Repeat(repeat) => {
                out = repeat.visit_child_exprs();
            },
            Statement::DoUntil(_, expression) => {
                push_ref(&mut out, expression);
            },
            Statement::While(expression, _) => {
                push_ref(&mut out, expression);
            },
            Statement::Expression(expression) => {
                push_ref(&mut out, expression);
            },
            Statement::If(expression, _, _, _) => {
                push_ref(&mut out, expression);
            },
            _ => {},
        }
        assert(pointees(out@) =~= self.child_expressions());
        out
    }
}

impl StatementBox {
    /// The statement in the box.
    pub fn statement(&self) -> (out: &Statement)
        ensures
            *out == *self.0,
    {
        &*self.0
    }

    /// The bytes that the statement was read from.
    pub fn span(&self) -> (out: Span)
        ensures
            out == self.1.1,
    {
        self.1.1
    }

    /// The place that the statement was read from.
    pub fn location(&self) -> (out: Location)
        ensures
            out == self.1,
    {
        self.1
    }
}


/// Every statement among the bodies of a list of cases stands in one of the cases.
pub proof fn lemma_case_bodies_within(cases: Seq<Case>, i: int)
    requires
        0 <= i < case_bodies(cases).len(),
    ensures
        exists|k: int, j: int|
            0 <= k < cases.len() && 0 <= j < cases[k].1@.len() && (#[trigger] cases[k].1@[j])
                == case_bodies(cases)[i],
    decreases cases.len(),
{
    if cases.len() > 0 {
        let front = case_bodies(cases.drop_last());
        if i < front.len() {
            lemma_case_bodies_within(cases.drop_last(), i);
            let (k, j) = choose|k: int, j: int|
                0 <= k < cases.drop_last().len() && 0 <= j < cases.drop_last()[k].1@.len() && (
                #[trigger] cases.drop_last()[k].1@[j]) == front[i];
            assert(cases[k] == cases.drop_last()[k]);
            assert(cases[k].1@[j] == case_bodies(cases)[i]);
        } else {
            let k = cases.len() - 1;
            let j = i - front.len();
            assert(cases[k].1@[j] == case_bodies(cases)[i]);
        }
    }
}

/// Every value given to a member of an enum stands with one of the members.
pub proof fn lemma_initializers_within(members: Seq<EnumMember>, i: int)
    requires
        0 <= i < initializers_of(members).len(),
    ensures
        exists|k: int|
            0 <= k < members.len() && (#[trigger] members[k]).1 == Some(initializers_of(members)[i]),
    decreases members.len(),
{
    if members.len() > 0 {
        let front = initializers_of(members.drop_last());
        if i < front.len() {
            lemma_initializers_within(members.drop_last(), i);
            let k = choose|k: int|
                0 <= k < members.drop_last().len() && (#[trigger] members.drop_last()[k]).1 == Some(
                    front[i],
                );
            assert(members[k] == members.drop_last()[k]);
        } else {
            assert(members[members.len() - 1] == members.last());
        }
    }
}

/// Every value that a local variable is declared with stands with one of the declarations.
pub proof fn lemma_initial_values_within(declarations: Seq<LocalVariable>, i: int)
    requires
        0 <= i < initial_values_of(declarations).len(),
    ensures
        exists|k: int|
            0 <= k < declarations.len() && (#[trigger] declarations[k]).1 == Some(
                initial_values_of(declarations)[i],
            ),
    decreases declarations.len(),
{
    if declarations.len() > 0 {
        let front = initial_values_of(declarations.drop_last());
        if i < front.len() {
            lemma_initial_values_within(declarations.drop_last(), i);
            let k = choose|k: int|
                0 <= k < declarations.drop_last().len() && (
                #[trigger] declarations.drop_last()[k]).1 == Some(front[i]);
            assert(declarations[k] == declarations.drop_last()[k]);
        } else {
            assert(declarations[declarations.len() - 1] == declarations.last());
        }
    }
}

/// Every statement directly below a statement is smaller than it.
pub proof fn lemma_child_statement_decreases(parent: StatementBox, i: int)
    requires
        0 <= i < parent.0.child_statements().len(),
    ensures
        decreases_to!(parent => parent.0.child_statements()[i]),
{
    let children = parent.0.child_statements();
    match *parent.0 {
        Statement::Switch(switch) => {
            let bodies = case_bodies(switch.cases@);
            if i < bodies.len() {
                lemma_case_bodies_within(switch.cases@, i);
                let (k, j) = choose|k: int, j: int|
                    0 <= k < switch.cases@.len() && 0 <= j < switch.cases@[k].1@.len() && (
                    #[trigger] switch.cases@[k].1@[j]) == bodies[i];
                assert(decreases_to!(switch.cases@ => switch.cases@[k]));
                assert(decreases_to!(switch.cases@[k] => switch.cases@[k].1));
                assert(decreases_to!(switch.cases@[k].1@ => switch.cases@[k].1@[j]));
            } else {
                let default = switch.default_case->0;
                assert(children[i] == default@[i - bodies.len()]);
                assert(decreases_to!(default@ => default@[i - bodies.len()]));
            }
        },
        Statement::Block(statements) => {
            assert(decreases_to!(statements@ => statements@[i]));
        },
        Statement::TryCatch(try_stmt, _, catch_stmt, finally_stmt) => {
            if i >= 2 {
                assert(children[i] == finally_stmt->0);
            }
        },
        Statement::If(_, body, else_branch, _) => {
            if i >= 1 {
                assert(children[i] == else_branch->0);
            }
        },
        _ => {},
    }
}

/// Every expression directly below a statement is smaller than it.
pub proof fn lemma_child_expression_decreases(parent: StatementBox, i: int)
    requires
        0 <= i < parent.0.child_expressions().len(),
    ensures
        decreases_to!(parent => parent.0.child_expressions()[i]),
{
    let children = parent.0.child_expressions();
    match *parent.0 {
        Statement::EnumDeclaration(gml_enum) => {
            lemma_initializers_within(gml_enum.members@, i);
            let k = choose|k: int|
                0 <= k < gml_enum.members@.len() && (#[trigger] gml_enum.members@[k]).1 == Some(
                    children[i],
                );
            assert(decreases_to!(gml_enum.members@ => gml_enum.members@[k]));
            assert(decreases_to!(gml_enum.members@[k] => gml_enum.members@[k].1));
            assert(decreases_to!(gml_enum.members@[k].1 => gml_enum.members@[k].1->0));
        },
        Statement::LocalVariableSeries(series) => {
            lemma_initial_values_within(series.declarations@, i);
            let k = choose|k: int|
                0 <= k < series.declarations@.len() && (#[trigger] series.declarations@[k]).1
                    == Some(children[i]);
            assert(decreases_to!(series.declarations@ => series.declarations@[k]));
            assert(decreases_to!(series.declarations@[k] => series.declarations@[k].1));
            assert(decreases_to!(series.declarations@[k].1 => series.declarations@[k].1->0));
        },
        Statement::Switch(switch) => {
            if i > 0 {
                assert(children[i] == switch.cases@[i - 1].0);
                assert(decreases_to!(switch.cases@ => switch.cases@[i - 1]));
            }
        },
        Statement::Return(ret) => {
            assert(children[i] == ret.value->0);
        },
        _ => {},
    }
}


impl From<Return> for Statement {
    fn from(ret: Return) -> (out: Statement) {
        Statement::Return(ret)
    }
}

impl vstd::std_specs::convert::FromSpecImpl<Return> for Statement {
    open spec fn obeys_from_spec() -> bool {
        true
    }

    open spec fn from_spec(ret: Return) -> Statement {
        Statement::Return(ret)
    }
}

impl From<RepeatLoop> for Statement {
    fn from(repeat_loop: RepeatLoop) -> (out: Statement) {
        Statement::Repeat(repeat_loop)
    }
}

impl vstd::std_specs::convert::FromSpecImpl<RepeatLoop> for Statement {
    open spec fn obeys_from_spec() -> bool {
        true
    }

    open spec fn from_spec(repeat_loop: RepeatLoop) -> Statement {
        Statement::Repeat(repeat_loop)
    }
}

/// Gives the kinds of statement a way into a box of their own.
pub trait IntoStatementBox: Sized {
    /// The statement that this is.
    spec fn as_statement(self) -> Statement;

    /// The statement that this is.
    fn into_statement(self) -> (out: Statement)
        ensures
            out == self.as_statement(),
    ;

    /// Converts self into a statement box with a provided place.
    fn into_statement_box(self, location: Location) -> (out: StatementBox)
        ensures
            out == StatementBox(Box::new(self.as_statement()), location),
    {
        StatementBox(Box::new(self.into_statement()), location)
    }

    /// Converts self into a statement box with no place.
    fn into_lazy_box(self) -> (out: StatementBox)
        ensures
            out == StatementBox(Box::new(self.as_statement()), Location(0, Span(0, 0))),
    {
        StatementBox(Box::new(self.into_statement()), Location(0, Span(0, 0)))
    }
}

impl IntoStatementBox for Return {
    open spec fn as_statement(self) -> Statement {
        Statement::Return(self)
    }

    fn into_statement(self) -> (out: Statement) {
        Statement::Return(self)
    }
}

impl IntoStatementBox for RepeatLoop {
    open spec fn as_statement(self) -> Statement {
        Statement::Repeat(self)
    }

    fn into_statement(self) -> (out: Statement) {
        Statement::Repeat(self)
    }
}

} // verus!

use vstd::prelude::*;
use crate::error::{TypeError, TypeErrorV, errors_view};
use crate::location::{Location, Span};
use crate::parse::expression::{
    Assignment, Constructor, Expression, ExpressionBox, Parameter, Scope, pointees,
};
use crate::parse::operators::{AssignmentOperator, UnaryOperator};
use crate::parse::statement::{LocalVariable, Statement, StatementBox};
use crate::solver::{SolverV, TemplateV};
use crate::ty::{BindingV, FieldV, FuncV, RecordOp, Ty, TyV, Var};

verus! {

/// The state of an elaboration: the solver and the errors met so far.
pub ghost struct Run {
    pub solver: SolverV,
    pub errors: Seq<TypeErrorV>,
}

/// The state of a walk over syntax: the solver, the functions met and kept for later, and
/// the errors met so far.
pub ghost struct Walk {
    pub solver: SolverV,
    pub functions: Seq<ExpressionBox>,
    pub errors: Seq<TypeErrorV>,
}

/// The mathematical value of an optional signature or the error in its place.
pub open spec fn signature_view(out: Result<Option<Ty>, TypeError>) -> Result<Option<TyV>, TypeErrorV> {
    match out {
        Ok(Some(ty)) => Ok(Some(ty@)),
        Ok(None) => Ok(None),
        Err(e) => Err(e@),
    }
}

/// The mathematical value of an optional name or the error in its place.
pub open spec fn name_view(out: Result<Option<String>, TypeError>) -> Result<
    Option<Seq<char>>,
    TypeErrorV,
> {
    match out {
        Ok(Some(name)) => Ok(Some(name@)),
        Ok(None) => Ok(None),
        Err(e) => Err(e@),
    }
}

/// The place without a file that stands for what has no place of its own.
pub open spec fn nowhere() -> Location {
    Location(0, Span(0, 0))
}

/// Where the walk over the expressions below an expression starts: behind the member of an
/// access by name, which is no expression of its own.
pub open spec fn first_visited(expr: ExpressionBox) -> nat {
    match *expr.0 {
        Expression::Access(Scope::Dot(_), _) => 1,
        Expression::Access(Scope::Global, _) => 1,
        Expression::Access(Scope::Current, _) => 1,
        _ => 0,
    }
}

/// The local variables that a statement declares.
pub open spec fn declarations_of(stmt: StatementBox) -> Seq<LocalVariable> {
    match *stmt.0 {
        Statement::LocalVariableSeries(series) => series.declarations@,
        _ => Seq::empty(),
    }
}

/// How much of a statement is left to walk before the statement itself is done.
pub open spec fn stmt_steps(stmt: StatementBox) -> nat {
    stmt.0.child_statements().len() + stmt.0.child_expressions().len() + declarations_of(stmt).len()
        + 2
}

/// What an assignment writes to.
pub ghost enum Target {
    /// A bare name.
    Name(Seq<char>),
    /// A member of the self scope.
    Current(Seq<char>),
    /// A member of the global scope.
    Global(Seq<char>),
    /// A member of an object.
    Member(ExpressionBox, Seq<char>),
    /// Anything else.
    Other,
}

impl Assignment {
    /// What the assignment writes to.
    pub open spec fn target(self) -> Target {
        match *self.left.0 {
            Expression::Identifier(name) => Target::Name(name@),
            Expression::Access(Scope::Current, member) => match *member.0 {
                Expression::Identifier(name) => Target::Current(name@),
                _ => Target::Other,
            },
            Expression::Access(Scope::Global, member) => match *member.0 {
                Expression::Identifier(name) => Target::Global(name@),
                _ => Target::Other,
            },
            Expression::Access(Scope::Dot(object), member) => match *member.0 {
                Expression::Identifier(name) => Target::Member(object, name@),
                _ => Target::Other,
            },
            _ => Target::Other,
        }
    }
}

impl Run {
    /// The state with one more error, where `out` is one.
    pub open spec fn note(self, out: Result<(), TypeErrorV>) -> Run {
        match out {
            Err(e) => Run { errors: self.errors.push(e), ..self },
            Ok(()) => self,
        }
    }

    /// The state with another solver.
    pub open spec fn with_solver(self, solver: SolverV) -> Run {
        Run { solver, ..self }
    }

    /// The walk that starts here, with no function met yet.
    pub open spec fn walk(self) -> Walk {
        Walk { solver: self.solver, functions: Seq::empty(), errors: self.errors }
    }
}

impl Walk {
    /// The state with one more error, where `out` is one.
    pub open spec fn note(self, out: Result<(), TypeErrorV>) -> Walk {
        match out {
            Err(e) => Walk { errors: self.errors.push(e), ..self },
            Ok(()) => self,
        }
    }

    /// The state with another solver.
    pub open spec fn with_solver(self, solver: SolverV) -> Walk {
        Walk { solver, ..self }
    }

    /// The state of the elaboration that the walk is part of.
    pub open spec fn run(self) -> Run {
        Run { solver: self.solver, errors: self.errors }
    }

    /// Walks an expression. A function is kept for later under its variable, and applied to
    /// the self scope under its name. An assignment is applied to its target. Any other
    /// expression has the expressions below it walked, then the rule of its kind applied.
    pub open spec fn visit_expr(self, expr: ExpressionBox, fuel: nat) -> (
        Walk,
        Result<(), TypeErrorV>,
    )
        decreases fuel, 2nat, expr, expr.0.child_expressions().len() + 2,
    {
        match *expr.0 {
            Expression::FunctionDeclaration(name, _, _, _, _) => self.keep_function(expr, name),
            Expression::Assignment(_) => self.visit_assignment(expr, fuel),
            _ => {
                let below = self.visit_children(expr, first_visited(expr), fuel);
                let (constrained, out) = below.solver.constrain_expr(expr, fuel);
                (below.with_solver(constrained), out)
            },
        }
    }

    /// Keeps a function for elaboration: it is filed under the variable of its expression with
    /// the scopes in use, written in the self scope under its name where it has one, and put
    /// at the end of the functions met.
    pub open spec fn keep_function(self, expr: ExpressionBox, name: Option<String>) -> (
        Walk,
        Result<(), TypeErrorV>,
    ) {
        let var = self.solver.var_for(expr);
        let kept = self.solver.with_template(
            TemplateV {
                var,
                function: expr,
                self_scope: self.solver.self_var(),
                local_scope: self.solver.local_var(),
            },
        );
        let (named, out) = match name {
            Some(name) => kept.apply_at(
                kept.self_var(),
                name@,
                FieldV { ty: TyV::Var(var), location: expr.1, op: RecordOp::Write },
            ),
            None => (kept, Ok(())),
        };
        match out {
            Err(e) => (self.with_solver(named), Err(e)),
            Ok(()) => (
                Walk { solver: named, functions: self.functions.push(expr), errors: self.errors },
                Ok(()),
            ),
        }
    }

    /// Walks the expressions below `expr` from the place `i` on, and notes their errors.
    pub open spec fn visit_children(self, expr: ExpressionBox, i: nat, fuel: nat) -> Walk
        decreases fuel, 2nat, expr, expr.0.child_expressions().len() - i + 1,
    {
        let children = expr.0.child_expressions();
        if i >= children.len() {
            self
        } else {
            proof {
                crate::parse::expression::lemma_child_expression_decreases(expr, i as int);
            }
            let (after, out) = self.visit_expr(children[i as int], fuel);
            after.note(out).visit_children(expr, i + 1, fuel)
        }
    }

    /// Walks an assignment: the value first, then the target takes its type.
    pub open spec fn visit_assignment(self, expr: ExpressionBox, fuel: nat) -> (
        Walk,
        Result<(), TypeErrorV>,
    )
        decreases fuel, 2nat, expr, 1nat,
    {
        match *expr.0 {
            Expression::Assignment(assignment) => {
                let (valued, first) = self.visit_expr(assignment.right, fuel);
                match first {
                    Err(e) => (valued, Err(e)),
                    Ok(()) => {
                        let (resolved, right_ty) = valued.solver.canonize(assignment.right);
                        let ready = valued.with_solver(resolved);
                        match right_ty {
                            Err(e) => (ready, Err(e)),
                            Ok(right_ty) => if assignment.operator != AssignmentOperator::Equal {
                                ready.visit_expr(assignment.left, fuel)
                            } else {
                                ready.assign_to(
                                    expr,
                                    FieldV { ty: right_ty, location: expr.1, op: RecordOp::Write },
                                    fuel,
                                )
                            },
                        }
                    },
                }
            },
            _ => (self, Ok(())),
        }
    }

    /// Gives the target of an assignment the field that was assigned. A bare name is written
    /// in the local scope where that holds it and in the self scope otherwise; a member of
    /// the self scope or of the global scope is written there; a member of an object
    /// constrains the object, once walked, to be a record that holds it. Any other target is
    /// only walked.
    pub open spec fn assign_to(self, expr: ExpressionBox, field: FieldV, fuel: nat) -> (
        Walk,
        Result<(), TypeErrorV>,
    )
        decreases fuel, 2nat, expr, 0nat,
    {
        match *expr.0 {
            Expression::Assignment(assignment) => match assignment.target() {
                Target::Name(name) => {
                    let (applied, out) = self.solver.apply_at(
                        self.solver.scope_of(name),
                        name,
                        field,
                    );
                    (self.with_solver(applied), out)
                },
                Target::Current(name) => {
                    let (applied, out) = self.solver.apply_at(self.solver.self_var(), name, field);
                    (self.with_solver(applied), out)
                },
                Target::Global(name) => {
                    let (applied, out) = self.solver.apply_global(name, field);
                    (self.with_solver(applied), out)
                },
                Target::Member(object, name) => {
                    proof {
                        assert(decreases_to!(expr => assignment.left));
                        assert(decreases_to!(assignment.left => object));
                    }
                    let (walked, second) = self.visit_expr(object, fuel);
                    match second {
                        Err(e) => (walked, Err(e)),
                        Ok(()) => {
                            let (applied, out) = walked.solver.constrain_field(object, name, field);
                            (walked.with_solver(applied), out)
                        },
                    }
                },
                Target::Other => self.visit_expr(assignment.left, fuel),
            },
            _ => (self, Ok(())),
        }
    }

    /// Walks the expressions of a list from the place `i` on, and notes their errors.
    pub open spec fn visit_each(self, exprs: Seq<ExpressionBox>, i: nat, fuel: nat) -> Walk
        decreases fuel, 2nat, exprs, exprs.len() - i + 1,
    {
        if i >= exprs.len() {
            self
        } else {
            let (after, out) = self.visit_expr(exprs[i as int], fuel);
            after.note(out).visit_each(exprs, i + 1, fuel)
        }
    }

    /// Walks the statements of a list from the place `i` on, and notes their errors.
    pub open spec fn visit_statements(self, stmts: Seq<StatementBox>, i: nat, fuel: nat) -> Walk
        decreases fuel, 2nat, stmts, stmts.len() - i + 1,
    {
        if i >= stmts.len() {
            self
        } else {
            let (after, out) = self.visit_stmt(stmts[i as int], fuel);
            after.note(out).visit_statements(stmts, i + 1, fuel)
        }
    }

    /// Walks a statement. A declaration of local variables walks each value and declares the
    /// variable with its type. A return constrains what the function returns. A declaration of
    /// a global variable declares it. Any other statement has the statements below it walked,
    /// then the expressions below it.
    pub open spec fn visit_stmt(self, stmt: StatementBox, fuel: nat) -> (
        Walk,
        Result<(), TypeErrorV>,
    )
        decreases fuel, 2nat, stmt, stmt_steps(stmt),
    {
        match *stmt.0 {
            Statement::LocalVariableSeries(_) => self.declare_from(stmt, 0, fuel),
            Statement::Return(ret) => match ret.value {
                Some(value) => {
                    let (walked, out) = self.visit_expr(value, fuel);
                    walked.note(out).return_value(value, stmt.1)
                },
                None => {
                    let (constrained, done) = self.solver.constrain_return(
                        TyV::Undefined,
                        stmt.1,
                    );
                    (self.with_solver(constrained), done)
                },
            },
            Statement::GlobalvarDeclaration(globalvar) => {
                let (declared, out) = self.solver.apply_global(
                    globalvar.name@,
                    FieldV { ty: TyV::Uninitialized, location: stmt.1, op: RecordOp::Write },
                );
                (self.with_solver(declared), out)
            },
            _ => (
                self.visit_child_statements(stmt, 0, fuel).visit_child_expressions(stmt, 0, fuel),
                Ok(()),
            ),
        }
    }

    /// Constrains what the function being elaborated returns to the type of `value`.
    pub open spec fn return_value(self, value: ExpressionBox, location: Location) -> (
        Walk,
        Result<(), TypeErrorV>,
    ) {
        let (resolved, ty) = self.solver.canonize(value);
        match ty {
            Err(e) => (self.with_solver(resolved), Err(e)),
            Ok(ty) => {
                let (constrained, done) = resolved.constrain_return(ty, location);
                (self.with_solver(constrained), done)
            },
        }
    }

    /// Declares a local variable with the type `ty`, where there is one.
    pub open spec fn declare(self, name: Seq<char>, ty: Result<TyV, TypeErrorV>, location: Location) -> (
        Walk,
        Result<(), TypeErrorV>,
    ) {
        match ty {
            Err(e) => (self, Err(e)),
            Ok(ty) => {
                let (applied, out) = self.solver.apply_at(
                    self.solver.local_var(),
                    name,
                    FieldV { ty, location, op: RecordOp::Write },
                );
                (self.with_solver(applied), out)
            },
        }
    }

    /// Declares the local variables of a statement from the place `i` on: the value of each
    /// is walked, and the variable is written in the local scope with the type of its value,
    /// or as an unconstrained slot where it has none.
    pub open spec fn declare_from(self, stmt: StatementBox, i: nat, fuel: nat) -> (
        Walk,
        Result<(), TypeErrorV>,
    )
        decreases fuel, 2nat, stmt, declarations_of(stmt).len() - i + 1,
    {
        let declarations = declarations_of(stmt);
        if i >= declarations.len() {
            (self, Ok(()))
        } else {
            let declaration = declarations[i as int];
            let (valued, ty) = match declaration.1 {
                None => (self, Ok(TyV::Uninitialized)),
                Some(value) => {
                    proof {
                        let series = stmt.0->LocalVariableSeries_0;
                        assert(decreases_to!(stmt => series.declarations@));
                        assert(decreases_to!(series.declarations@ => series.declarations@[i as int]));
                        assert(decreases_to!(declaration => declaration.1));
                        assert(decreases_to!(declaration.1 => value));
                    }
                    let (walked, out) = self.visit_expr(value, fuel);
                    let noted = walked.note(out);
                    let (resolved, ty) = noted.solver.canonize(value);
                    (noted.with_solver(resolved), ty)
                },
            };
            let (declared, out) = valued.declare(declaration.0@, ty, stmt.1);
            match out {
                Err(e) => (declared, Err(e)),
                Ok(()) => declared.declare_from(stmt, i + 1, fuel),
            }
        }
    }

    /// Walks the statements below `stmt` from the place `i` on, and notes their errors.
    pub open spec fn visit_child_statements(self, stmt: StatementBox, i: nat, fuel: nat) -> Walk
        decreases fuel, 2nat, stmt, stmt.0.child_statements().len() - i + 1,
    {
        let children = stmt.0.child_statements();
        if i >= children.len() {
            self
        } else {
            proof {
                crate::parse::statement::lemma_child_statement_decreases(stmt, i as int);
            }
            let (after, out) = self.visit_stmt(children[i as int], fuel);
            after.note(out).visit_child_statements(stmt, i + 1, fuel)
        }
    }

    /// Walks the expressions below `stmt` from the place `i` on, and notes their errors.
    pub open spec fn visit_child_expressions(self, stmt: StatementBox, i: nat, fuel: nat) -> Walk
        decreases fuel, 2nat, stmt, stmt.0.child_expressions().len() - i + 1,
    {
        let children = stmt.0.child_expressions();
        if i >= children.len() {
            self
        } else {
            proof {
                crate::parse::statement::lemma_child_expression_decreases(stmt, i as int);
            }
            let (after, out) = self.visit_expr(children[i as int], fuel);
            after.note(out).visit_child_expressions(stmt, i + 1, fuel)
        }
    }
}

impl SolverV {
    /// The terms that stand for the expressions of a list from the place `done.len()` on,
    /// behind `done`.
    pub open spec fn canonize_all(self, exprs: Seq<ExpressionBox>, done: Seq<TyV>) -> (
        SolverV,
        Result<Seq<TyV>, TypeErrorV>,
    )
        decreases exprs.len() - done.len(),
    {
        if done.len() >= exprs.len() {
            (self, Ok(done))
        } else {
            let (after, ty) = self.canonize(exprs[done.len() as int]);
            match ty {
                Err(e) => (after, Err(e)),
                Ok(ty) => after.canonize_all(exprs, done.push(ty)),
            }
        }
    }

    /// Applies the fields of a record from the place `i` on to the record that `scope`
    /// stands for, as fields that were written.
    pub open spec fn adopt_fields(self, scope: Var, fields: Seq<(Seq<char>, FieldV)>, i: nat) -> (
        SolverV,
        Result<(), TypeErrorV>,
    )
        decreases fields.len() - i,
    {
        if i >= fields.len() {
            (self, Ok(()))
        } else {
            let (name, field) = fields[i as int];
            let (after, out) = self.apply_at(
                scope,
                name,
                FieldV { ty: field.ty, location: field.location, op: RecordOp::Write },
            );
            match out {
                Err(e) => (after, Err(e)),
                Ok(()) => after.adopt_fields(scope, fields, i + 1),
            }
        }
    }

    /// The type of the parent of a constructor: that of the local variable of that name where
    /// the child was declared, or else that of the field of that name of the self scope there.
    pub open spec fn find_parent(self, outer_local: Var, outer_self: Var, name: Seq<char>) -> Option<
        TyV,
    > {
        match self.lookup_in(outer_local, name) {
            Some(ty) => Some(ty),
            None => self.lookup_in(outer_self, name),
        }
    }

    /// Types the call of a parent constructor with the variables of its arguments, and
    /// applies each field of the record it returns to the record that `own_self` stands for.
    pub open spec fn adopt_parent(
        self,
        call: ExpressionBox,
        arguments: Seq<ExpressionBox>,
        parent: TyV,
        own_self: Var,
        fuel: nat,
    ) -> (SolverV, Result<(), TypeErrorV>)
        decreases fuel, 1nat, Var::Return, 2nat,
    {
        let result = self.var_for(call);
        let signature = TyV::Func(
            FuncV::Call {
                parameters: Seq::new(arguments.len(), |i: int| TyV::Var(self.var_for(arguments[i]))),
                return_type: Box::new(TyV::Var(result)),
            },
        );
        let (called, out) = self.elaborate_call(parent, signature, call.1, fuel);
        match out {
            Err(e) => (called, Err(e)),
            Ok(()) => match called.record_at(result) {
                Some(reached) => called.adopt_fields(own_self, reached.record.fields, 0),
                None => (called, Ok(())),
            },
        }
    }

    /// The function that a callee stands for, where it stands for one kept for elaboration.
    pub open spec fn kept_callee(self, callee: TyV) -> Option<Var> {
        match self.head(callee) {
            Some(h) => match h.root {
                Some(root) => if self.is_template(root) {
                    Some(root)
                } else {
                    None
                },
                None => None,
            },
            None => None,
        }
    }

    /// Types a call. Where the callee stands for a function kept for elaboration, the function
    /// is elaborated anew, apart from every other call, and its signature is unified with that
    /// of the call. Otherwise the callee itself is unified with the signature of the call.
    pub open spec fn elaborate_call(self, callee: TyV, call: TyV, location: Location, fuel: nat) -> (
        SolverV,
        Result<(), TypeErrorV>,
    )
        decreases fuel, 1nat, Var::Return, 1nat,
    {
        match self.kept_callee(callee) {
            Some(root) => {
                let (run, out) = (Run { solver: self, errors: Seq::empty() }).elaborate(root, fuel);
                match out {
                    Ok(Some(signature)) => run.solver.unify_tys(signature, call, location),
                    Ok(None) => run.solver.unify_tys(callee, call, location),
                    Err(e) => (run.solver, Err(e)),
                }
            },
            None => self.unify_tys(callee, call, location),
        }
    }

    /// The rule of a call: the callee and the arguments are resolved, and the call is typed
    /// with a signature that takes the arguments and returns the call.
    pub open spec fn constrain_call(
        self,
        expr: ExpressionBox,
        left: ExpressionBox,
        arguments: Seq<ExpressionBox>,
        fuel: nat,
    ) -> (SolverV, Result<(), TypeErrorV>)
        decreases fuel, 1nat, Var::Return, 2nat,
    {
        let (first, callee) = self.canonize(left);
        match callee {
            Err(e) => (first, Err(e)),
            Ok(callee) => {
                let (second, parameters) = first.canonize_all(arguments, Seq::empty());
                match parameters {
                    Err(e) => (second, Err(e)),
                    Ok(parameters) => second.elaborate_call(
                        callee,
                        TyV::Func(
                            FuncV::Call {
                                parameters,
                                return_type: Box::new(TyV::Var(second.var_for(expr))),
                            },
                        ),
                        expr.1,
                        fuel,
                    ),
                }
            },
        }
    }

    /// The rule of an expression's kind, applied after the expressions below it were walked.
    pub open spec fn constrain_expr(self, expr: ExpressionBox, fuel: nat) -> (
        SolverV,
        Result<(), TypeErrorV>,
    )
        decreases fuel, 2nat, expr, 0nat,
    {
        match *expr.0 {
            Expression::FunctionDeclaration(_, _, _, _, _) => (self, Ok(())),
            Expression::Assignment(_) => (self, Ok(())),
            Expression::Logical(left, _, right) => self.constrain_logical(expr, left, right),
            Expression::Equality(left, _, right) => self.constrain_equality(expr, left, right),
            Expression::Evaluation(left, _, right) => self.constrain_evaluation(expr, left, right),
            Expression::NullCoalecence(_, right) => self.expr_eq_expr(expr, right),
            Expression::Ternary(ternary) => self.constrain_ternary(
                expr,
                ternary.condition,
                ternary.true_value,
                ternary.false_value,
            ),
            Expression::Unary(op, right) => self.constrain_operand(
                expr,
                right,
                if op == UnaryOperator::Not {
                    TyV::Bool
                } else {
                    TyV::Real
                },
            ),
            Expression::Postfix(left, _) => self.constrain_operand(expr, left, TyV::Real),
            Expression::Access(scope, member) => self.constrain_access(expr, scope, member),
            Expression::Call(left, arguments, _) => self.constrain_call(
                expr,
                left,
                arguments@,
                fuel,
            ),
            Expression::Grouping(inner) => self.expr_eq_expr(expr, inner),
            Expression::Identifier(name) => self.constrain_identifier(expr, name@),
            Expression::Literal(literal) => self.constrain_literal(expr, literal),
        }
    }
}

impl Run {
    /// Elaborates the function kept under `var`, if one is, into a scope of its own: its
    /// signature, or nothing where no function is kept under `var`.
    pub open spec fn elaborate(self, var: Var, fuel: nat) -> (
        Run,
        Result<Option<TyV>, TypeErrorV>,
    )
        decreases fuel, 1nat, Var::Return, 0nat,
    {
        if !self.solver.is_template(var) {
            (self, Ok(None))
        } else {
            let template = self.solver.template_for(var);
            if fuel == 0 {
                (self, Err(TypeErrorV::LimitExceeded(template.function.1)))
            } else {
                let (after, out) = self.process_function(
                    template.function,
                    template.self_scope,
                    template.local_scope,
                    (fuel - 1) as nat,
                );
                match out {
                    Ok(signature) => (after, Ok(Some(signature))),
                    Err(e) => (after, Err(e)),
                }
            }
        }
    }

    /// Elaborates a function that was met and unifies its signature with the variable of its
    /// expression.
    pub open spec fn process_one(self, function: ExpressionBox, fuel: nat) -> Run
        decreases fuel, 1nat, Var::Return, 1nat,
    {
        let var = self.solver.var_for(function);
        let (after, out) = self.elaborate(var, fuel);
        match out {
            Ok(Some(signature)) => {
                let (unified, done) = after.solver.unify_tys(TyV::Var(var), signature, function.1);
                after.with_solver(unified).note(done)
            },
            Ok(None) => after,
            Err(e) => after.note(Err(e)),
        }
    }

    /// Elaborates the functions of a list from the place `i` on, each unified with the
    /// variable of its expression.
    pub open spec fn process_functions(self, functions: Seq<ExpressionBox>, i: nat, fuel: nat) -> Run
        decreases fuel, 1nat, Var::Return, functions.len() - i + 3,
    {
        if i >= functions.len() {
            self
        } else {
            self.process_one(functions[i as int], fuel).process_functions(functions, i + 1, fuel)
        }
    }

    /// Walks a list of statements, then elaborates the functions met on the way.
    pub open spec fn process_statements_in(self, stmts: Seq<StatementBox>, fuel: nat) -> Run
        decreases fuel, 2nat, stmts, stmts.len() + 2,
    {
        let walked = self.walk().visit_statements(stmts, 0, fuel);
        walked.run().process_functions(walked.functions, 0, fuel)
    }

    /// Walks the body of a function, then elaborates the functions met on the way.
    pub open spec fn process_body(self, body: StatementBox, fuel: nat) -> Run
        decreases fuel, 2nat, body, stmt_steps(body) + 2,
    {
        match *body.0 {
            Statement::Block(statements) => self.process_statements_in(statements@, fuel),
            _ => self.process_statement(body, fuel),
        }
    }

    /// Walks one statement, then elaborates the functions met on the way.
    pub open spec fn process_statement(self, stmt: StatementBox, fuel: nat) -> Run
        decreases fuel, 2nat, stmt, stmt_steps(stmt) + 1,
    {
        let (walked, out) = self.walk().visit_stmt(stmt, fuel);
        let noted = walked.note(out);
        noted.run().process_functions(noted.functions, 0, fuel)
    }

    /// Walks one expression, then elaborates the functions met on the way.
    pub open spec fn process_expression(self, expr: ExpressionBox, fuel: nat) -> Run
        decreases fuel, 2nat, expr, expr.0.child_expressions().len() + 3,
    {
        let (walked, out) = self.walk().visit_expr(expr, fuel);
        let noted = walked.note(out);
        noted.run().process_functions(noted.functions, 0, fuel)
    }

    /// The type of a parameter, and the place to file it under: a new variable where the
    /// parameter has no default value, and the type of the default value, which was walked
    /// before, otherwise.
    pub open spec fn type_parameter(self, parameter: Parameter) -> (
        Run,
        Result<TyV, TypeErrorV>,
        Location,
    ) {
        match parameter.1 {
            None => if self.solver.can_mint() {
                (
                    self.with_solver(self.solver.minted()),
                    Ok(TyV::Var(Var::Fresh(self.solver.next_var))),
                    nowhere(),
                )
            } else {
                (self, Err(TypeErrorV::LimitExceeded(nowhere())), nowhere())
            },
            Some(default_value) => {
                let (resolved, ty) = self.solver.canonize(default_value);
                (self.with_solver(resolved), ty, default_value.1)
            },
        }
    }

    /// Declares the parameters of a function from the place `done.len()` on in the record that
    /// `scope` stands for, each with its type. The default value of a parameter is walked, and
    /// the functions met in it are elaborated, before the parameter is typed.
    pub open spec fn bind_parameters(
        self,
        parameters: Seq<Parameter>,
        scope: Var,
        done: Seq<TyV>,
        fuel: nat,
    ) -> (Run, Result<Seq<TyV>, TypeErrorV>)
        decreases fuel, 2nat, parameters, parameters.len() - done.len() + 1,
    {
        if done.len() >= parameters.len() {
            (self, Ok(done))
        } else {
            let parameter = parameters[done.len() as int];
            let prepared = match parameter.1 {
                Some(default_value) => {
                    proof {
                        assert(decreases_to!(parameters => parameter));
                        assert(decreases_to!(parameter => parameter.1));
                        assert(decreases_to!(parameter.1 => default_value));
                    }
                    self.process_expression(default_value, fuel)
                },
                None => self,
            };
            let (typed, ty, location) = prepared.type_parameter(parameter);
            match ty {
                Err(e) => (typed, Err(e)),
                Ok(ty) => {
                    let (applied, out) = typed.solver.apply_at(
                        scope,
                        parameter.0@,
                        FieldV { ty, location, op: RecordOp::Write },
                    );
                    match out {
                        Err(e) => (typed.with_solver(applied), Err(e)),
                        Ok(()) => typed.with_solver(applied).bind_parameters(
                            parameters,
                            scope,
                            done.push(ty),
                            fuel,
                        ),
                    }
                },
            }
        }
    }

    /// Gives a constructor the fields of the constructor it inherits from. The parent is
    /// looked up by name where the child was declared. The arguments of the call are walked,
    /// the functions met in them are elaborated, and the fields of what the parent returns
    /// are adopted. The outcome is the name of the parent.
    pub open spec fn inherit(
        self,
        call: ExpressionBox,
        own_self: Var,
        outer_self: Var,
        outer_local: Var,
        fuel: nat,
    ) -> (Run, Result<Option<Seq<char>>, TypeErrorV>)
        decreases fuel, 2nat, call, 1nat,
    {
        match *call.0 {
            Expression::Call(callee, arguments, _) => match *callee.0 {
                Expression::Identifier(name) => match self.solver.find_parent(
                    outer_local,
                    outer_self,
                    name@,
                ) {
                    None => (self, Ok(Some(name@))),
                    Some(parent) => {
                        let walked = self.walk().visit_each(arguments@, 0, fuel);
                        let elaborated = walked.run().process_functions(walked.functions, 0, fuel);
                        let (adopted, out) = elaborated.solver.adopt_parent(
                            call,
                            arguments@,
                            parent,
                            own_self,
                            fuel,
                        );
                        (
                            elaborated.with_solver(adopted),
                            match out {
                                Err(e) => Err(e),
                                Ok(()) => Ok(Some(name@)),
                            },
                        )
                    },
                },
                _ => (self, Ok(None)),
            },
            _ => (self, Ok(None)),
        }
    }

    /// Elaborates a function into scopes of its own and returns its signature.
    ///
    /// The elaboration gets a number of its own, so that the variables of the expressions of
    /// the body are new. A constructor gets a new self scope, any other function the self
    /// scope it was met in; the local scope is new. The parameters are declared, a constructor
    /// adopts the fields of its parent, and the body is walked. A constructor returns its self
    /// scope, closed; any other function returns what its return statements were constrained
    /// to, or `undefined`. The scopes, the number and the return slot of the surrounding
    /// elaboration are put back whatever the outcome.
    pub open spec fn process_function(
        self,
        function: ExpressionBox,
        self_scope: Var,
        local_scope: Var,
        fuel: nat,
    ) -> (Run, Result<TyV, TypeErrorV>)
        decreases fuel, 3nat, Var::Return, 0nat,
    {
        match *function.0 {
            Expression::FunctionDeclaration(_, parameters, constructor, body, _) => {
                let start = self.solver;
                let (entered, scopes) = start.enter_function(constructor is Some, self_scope);
                match scopes {
                    None => (self.with_solver(entered), Err(TypeErrorV::LimitExceeded(function.1))),
                    Some(scopes) => {
                        let (bound, parameters_out) = self.with_solver(entered).bind_parameters(
                            parameters@,
                            scopes.own_local,
                            Seq::empty(),
                            fuel,
                        );
                        let (inherited, inheritance) = match constructor {
                            Some(Constructor(Some(call))) => bound.inherit(
                                call,
                                scopes.own_self,
                                self_scope,
                                local_scope,
                                fuel,
                            ),
                            _ => (bound, Ok(None)),
                        };
                        let walked = inherited.process_body(body, fuel);
                        let (left, return_type) = walked.solver.leave_function(
                            start.frame,
                            start.return_slot,
                            constructor is Some,
                            scopes.own_self,
                        );
                        (
                            walked.with_solver(left),
                            signature_of(
                                constructor is Some,
                                scopes,
                                parameters_out,
                                inheritance,
                                return_type,
                            ),
                        )
                    },
                }
            },
            _ => (self, Err(TypeErrorV::Mismatch(TyV::Any, TyV::Any, function.1))),
        }
    }
}

/// The scopes that a function is elaborated in.
pub ghost struct Scopes {
    pub own_self: Var,
    pub own_local: Var,
}

/// The signature of an elaborated function, or the first error met while its parameters were
/// declared or its parent adopted.
pub open spec fn signature_of(
    is_constructor: bool,
    scopes: Scopes,
    parameters: Result<Seq<TyV>, TypeErrorV>,
    inheritance: Result<Option<Seq<char>>, TypeErrorV>,
    return_type: TyV,
) -> Result<TyV, TypeErrorV> {
    match parameters {
        Err(e) => Err(e),
        Ok(parameters) => match inheritance {
            Err(e) => Err(e),
            Ok(parent) => Ok(
                TyV::Func(
                    FuncV::Def {
                        binding: Some(
                            if is_constructor {
                                BindingV::Constructor {
                                    local_scope: scopes.own_local,
                                    self_scope: scopes.own_self,
                                    inheritance: parent,
                                }
                            } else {
                                BindingV::Method {
                                    local_scope: scopes.own_local,
                                    self_scope: scopes.own_self,
                                }
                            },
                        ),
                        parameters,
                        return_type: Box::new(return_type),
                    },
                ),
            ),
        },
    }
}

impl SolverV {
    /// Enters the scopes of a function: the elaboration is numbered, a constructor gets a new
    /// self scope and any other function the self scope it was met in, the local scope is new,
    /// and the return slot is emptied. No scopes come back where the solver has run out of
    /// numbers or of variables; the scopes entered until then are left again.
    pub open spec fn enter_function(self, is_constructor: bool, self_scope: Var) -> (
        SolverV,
        Option<Scopes>,
    ) {
        let numbered = self.numbered();
        let own_self = if is_constructor {
            Var::Fresh(numbered.next_var)
        } else {
            self_scope
        };
        let with_self = if is_constructor {
            numbered.with_new_scope().push_self(own_self)
        } else {
            numbered.push_self(self_scope)
        };
        if !self.can_number() {
            (self, None)
        } else if is_constructor && !numbered.can_mint() {
            (numbered, None)
        } else if !with_self.can_mint() {
            (with_self.pop_self(), None)
        } else {
            let own_local = Var::Fresh(with_self.next_var);
            (
                with_self.with_new_scope().push_local(own_local).with_return_slot(None).with_frame(
                    self.next_frame,
                ),
                Some(Scopes { own_self, own_local }),
            )
        }
    }

    /// Leaves the scopes of a function and says what the function returns: a constructor its
    /// self scope, closed; any other function what the return slot holds, or `undefined`. The
    /// return slot and the number of the elaboration become what they were outside.
    pub open spec fn leave_function(
        self,
        outer_frame: u64,
        outer_return: Option<TyV>,
        is_constructor: bool,
        own_self: Var,
    ) -> (SolverV, TyV) {
        let closed = if is_constructor {
            self.seal(own_self)
        } else {
            self
        };
        let return_type = if is_constructor {
            TyV::Var(own_self)
        } else {
            match closed.return_slot {
                Some(ty) => ty,
                None => TyV::Undefined,
            }
        };
        (
            closed.with_return_slot(outer_return).with_frame(outer_frame).pop_local().pop_self(),
            return_type,
        )
    }
}

impl SolverV {
    /// Inference over a list of top-level statements, as deep as the solver goes: the state
    /// afterwards and the errors met, in the order they were met.
    pub open spec fn infer(self, stmts: Seq<StatementBox>) -> Run {
        (Run { solver: self, errors: Seq::empty() }).process_statements_in(
            stmts,
            self.depth_limit as nat,
        )
    }
}


/// The state of a walk, as the solver and the two lists hold it.
pub open spec fn walk_of(solver: SolverV, functions: Seq<&ExpressionBox>, errors: Seq<TypeError>) -> Walk {
    Walk { solver, functions: pointees(functions), errors: errors_view(errors) }
}

/// The state of an elaboration, as the solver and the list of errors hold it.
pub open spec fn run_of(solver: SolverV, errors: Seq<TypeError>) -> Run {
    Run { solver, errors: errors_view(errors) }
}

} // verus!

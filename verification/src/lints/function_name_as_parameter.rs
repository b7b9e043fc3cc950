use vstd::prelude::*;
use crate::lint::{Finding, FindingV, LintLevel, finding_at, findings_view, push_finding};
use crate::location::Span;
use crate::parse::expression::{Expression, Parameter};

verus! {

/// Flags parameters that are named like a global function.
#[derive(Debug, PartialEq)]
pub struct FunctionNameAsParameter;

/// The values of a list of names.
pub open spec fn owned_names_view(names: Seq<String>) -> Seq<Seq<char>> {
    Seq::new(names.len(), |i: int| names[i]@)
}

/// Whether a name is among the names of a list.
pub fn is_listed(name: &String, names: &Vec<String>) -> (yes: bool)
    ensures
        yes == owned_names_view(names@).contains(name@),
{
    let mut i: usize = 0;
    while i < names.len()
        invariant
            i <= names.len(),
            forall|j: int| 0 <= j < i ==> (#[trigger] owned_names_view(names@)[j]) != name@,
        decreases names.len() - i,
    {
        if names[i] == *name {
            assert(owned_names_view(names@)[i as int] == name@);
            return true;
        }
        i += 1;
    }
    false
}

impl FunctionNameAsParameter {
    /// Why the lint exists.
    pub fn explanation() -> (out: &'static str)
        ensures
            out@ == "This pattern leads to runtime bugs in v2024.2.0.163."@,
    {
        "This pattern leads to runtime bugs in v2024.2.0.163."
    }

    /// How the lint is treated unless a project says otherwise.
    pub fn default_level() -> (out: LintLevel)
        ensures
            out == LintLevel::Deny,
    {
        LintLevel::Deny
    }

    /// The name by which a project configures the lint.
    pub fn tag() -> (out: &'static str)
        ensures
            out@ == "fucntion_name_as_parameter"@,
    {
        "fucntion_name_as_parameter"
    }

    /// The finding that the lint makes of a parameter at `span`.
    pub open spec fn finding(span: Span) -> FindingV {
        finding_at(
            "fucntion_name_as_parameter"@,
            LintLevel::Deny,
            "Non constant default parameter"@,
            span,
            "Parameter names cannot be the same as a global function's name"@,
        )
    }

    /// The findings of the first `n` parameters: one for each that is named like a global
    /// function, in order.
    pub open spec fn flagged(
        parameters: Seq<Parameter>,
        global_function_names: Seq<Seq<char>>,
        span: Span,
        n: nat,
    ) -> Seq<FindingV>
        decreases n,
    {
        if n == 0 || n > parameters.len() {
            Seq::empty()
        } else {
            let before = Self::flagged(parameters, global_function_names, span, (n - 1) as nat);
            if global_function_names.contains(parameters[n - 1].0@) {
                before.push(Self::finding(span))
            } else {
                before
            }
        }
    }

    /// What the lint finds in an expression: the flagged parameters of a function.
    pub open spec fn found(
        expression: Expression,
        global_function_names: Seq<Seq<char>>,
        span: Span,
    ) -> Seq<FindingV> {
        match expression {
            Expression::FunctionDeclaration(_, parameters, _, _, _) => Self::flagged(
                parameters@,
                global_function_names,
                span,
                parameters@.len(),
            ),
            _ => Seq::empty(),
        }
    }

    /// Reports every parameter of a function that is named like a global function.
    pub fn visit_expr_late(
        expression: &Expression,
        global_function_names: &Vec<String>,
        span: Span,
        findings: &mut Vec<Finding>,
    )
        ensures
            findings_view(final(findings)@) == findings_view(old(findings)@) + Self::found(
                *expression,
                owned_names_view(global_function_names@),
                span,
            ),
    {
        if let Expression::FunctionDeclaration(_, parameters, _, _, _) = expression {
            let ghost names = owned_names_view(global_function_names@);
            let mut i: usize = 0;
            assert(findings_view(findings@) =~= findings_view(old(findings)@) + Self::flagged(
                parameters@,
                names,
                span,
                0,
            ));
            while i < parameters.len()
                invariant
                    i <= parameters.len(),
                    names == owned_names_view(global_function_names@),
                    findings_view(findings@) == findings_view(old(findings)@) + Self::flagged(
                        parameters@,
                        names,
                        span,
                        i as nat,
                    ),
                decreases parameters.len() - i,
            {
                let ghost before = findings_view(findings@);
                if is_listed(&parameters[i].0, global_function_names) {
                    push_finding(
                        findings,
                        Self::tag(),
                        Self::default_level(),
                        "Non constant default parameter".to_owned(),
                        span,
                        "Parameter names cannot be the same as a global function's name",
                    );
                }
                assert(findings_view(findings@) =~= findings_view(old(findings)@) + Self::flagged(
                    parameters@,
                    names,
                    span,
                    (i + 1) as nat,
                ));
                i += 1;
            }
        } else {
            assert(findings_view(findings@) =~= findings_view(old(findings)@) + Seq::empty());
        }
    }
}

} // verus!

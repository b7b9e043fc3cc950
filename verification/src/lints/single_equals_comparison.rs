use vstd::prelude::*;
use crate::lint::{Finding, LintLevel, finding_at, findings_view, push_finding};
use crate::location::Span;
use crate::parse::expression::Expression;
use crate::parse::operators::EqualityOperator;

verus! {

/// Flags comparisons that are written with a single `=`.
#[derive(Debug, PartialEq)]
pub struct SingleEqualsComparison;

impl SingleEqualsComparison {
    /// Why the lint exists.
    pub fn explanation() -> (out: &'static str)
        ensures
            out@
                == "The single-equals token can be used for both assignments and equalities in gml. This is atypical of most languages, and can lead to inconsistancies or bugs in projects."@,
    {
        "The single-equals token can be used for both assignments and equalities in gml. This is atypical of most languages, and can lead to inconsistancies or bugs in projects."
    }

    /// How the lint is treated unless a project says otherwise.
    pub fn default_level() -> (out: LintLevel)
        ensures
            out == LintLevel::Warn,
    {
        LintLevel::Warn
    }

    /// The name by which a project configures the lint.
    pub fn tag() -> (out: &'static str)
        ensures
            out@ == "single_equals_comparison"@,
    {
        "single_equals_comparison"
    }

    /// Whether the expression compares for equality.
    pub open spec fn is_equality(expression: Expression) -> bool {
        expression matches Expression::Equality(_, EqualityOperator::Equal, _)
    }

    /// Reports a comparison for equality that is spelled with a single `=`.
    pub fn visit_expr_early(
        expression: &Expression,
        spelled_with_one_sign: bool,
        span: Span,
        findings: &mut Vec<Finding>,
    )
        ensures
            findings_view(final(findings)@) == if Self::is_equality(*expression)
                && spelled_with_one_sign {
                findings_view(old(findings)@).push(
                    finding_at(
                        "single_equals_comparison"@,
                        LintLevel::Warn,
                        "Comparison with `=`"@,
                        span,
                        "use `==` instead of `=`"@,
                    ),
                )
            } else {
                findings_view(old(findings)@)
            },
    {
        if let Expression::Equality(_, EqualityOperator::Equal, _) = expression {
            if spelled_with_one_sign {
                push_finding(
                    findings,
                    Self::tag(),
                    Self::default_level(),
                    "Comparison with `=`".to_owned(),
                    span,
                    "use `==` instead of `=`",
                );
            }
        }
    }
}

} // verus!

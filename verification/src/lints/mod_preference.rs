use vstd::prelude::*;
use crate::lint::{Finding, LintLevel, finding_at, findings_view, push_finding};
use crate::location::Span;
use crate::parse::expression::Expression;
use crate::parse::operators::EvaluationOperator;

verus! {

/// Flags the spelling of the modulo operator that a project does not prefer.
#[derive(Debug, PartialEq)]
pub struct ModPreference;

impl ModPreference {
    /// Why the lint exists.
    pub fn explanation() -> (out: &'static str)
        ensures
            out@
                == "GML supports both `mod` and `%` to perform modulo division. Consistent use of one over the other yields cleaner code."@,
    {
        "GML supports both `mod` and `%` to perform modulo division. Consistent use of one over the other yields cleaner code."
    }

    /// How the lint is treated unless a project says otherwise.
    pub fn default_level() -> (out: LintLevel)
        ensures
            out == LintLevel::Allow,
    {
        LintLevel::Allow
    }

    /// The name by which a project configures the lint.
    pub fn tag() -> (out: &'static str)
        ensures
            out@ == "mod_preference"@,
    {
        "mod_preference"
    }

    /// Whether the expression is a modulo division.
    pub open spec fn is_modulo(expression: Expression) -> bool {
        expression matches Expression::Evaluation(_, EvaluationOperator::Modulo, _)
    }

    /// Reports a modulo division that is spelled the way the project does not prefer: `%`
    /// where the keyword is preferred, and the keyword in every other case.
    pub fn visit_expr_early(
        expression: &Expression,
        prefer_mod_keyword: bool,
        spelled_as_keyword: bool,
        span: Span,
        findings: &mut Vec<Finding>,
    )
        ensures
            findings_view(final(findings)@) == if !Self::is_modulo(*expression) {
                findings_view(old(findings)@)
            } else if prefer_mod_keyword && !spelled_as_keyword {
                findings_view(old(findings)@).push(
                    finding_at(
                        "mod_preference"@,
                        LintLevel::Allow,
                        "Use of `%`"@,
                        span,
                        "use the `mod` keyword instead of `%`"@,
                    ),
                )
            } else if spelled_as_keyword {
                findings_view(old(findings)@).push(
                    finding_at(
                        "mod_preference"@,
                        LintLevel::Allow,
                        "Use of `mod`"@,
                        span,
                        "use the `%` operator instead of `mod`"@,
                    ),
                )
            } else {
                findings_view(old(findings)@)
            },
    {
        if let Expression::Evaluation(_, EvaluationOperator::Modulo, _) = expression {
            if prefer_mod_keyword && !spelled_as_keyword {
                push_finding(
                    findings,
                    Self::tag(),
                    Self::default_level(),
                    "Use of `%`".to_owned(),
                    span,
                    "use the `mod` keyword instead of `%`",
                );
            } else if spelled_as_keyword {
                push_finding(
                    findings,
                    Self::tag(),
                    Self::default_level(),
                    "Use of `mod`".to_owned(),
                    span,
                    "use the `%` operator instead of `mod`",
                );
            }
        }
    }
}

} // verus!

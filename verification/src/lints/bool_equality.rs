use vstd::prelude::*;
use crate::lint::{LintCategory, LintReport, LintReportV, no_suggestions, push_report, reports_view, suggestions_of};
use crate::location::Span;
use crate::parse::expression::{Expression, Literal};
use crate::parse::operators::EqualityOperator;

verus! {

/// Flags comparisons of a condition with `true` or `false`.
#[derive(Debug, PartialEq)]
pub struct BoolEquality;

impl BoolEquality {
    /// The name by which a project configures the lint.
    pub open spec fn spec_tag() -> Seq<char> {
        "bool_equality"@
    }

    /// The report that the lint makes of a finding at `span`.
    pub open spec fn report(span: Span) -> LintReportV {
        LintReportV {
            display_name: "Equality check on bool"@,
            tag: "bool_equality"@,
            explanation: "Comparing a bool with a bool literal is more verbose than neccesary."@,
            suggestions: Seq::empty(),
            category: LintCategory::Style,
            span,
        }
    }

    /// The report that the lint makes of a finding at `span`.
    pub fn generate_report(span: Span) -> (out: LintReport)
        ensures
            out@ == Self::report(span),
    {
        LintReport {
            display_name: "Equality check on bool".to_owned(),
            tag: Self::tag(),
            explanation: "Comparing a bool with a bool literal is more verbose than neccesary.",
            suggestions: no_suggestions(),
            category: Self::category(),
            span,
        }
    }

    /// What kind of concern the lint raises.
    pub fn category() -> (out: LintCategory)
        ensures
            out == LintCategory::Style,
    {
        LintCategory::Style
    }

    /// The name by which a project configures the lint.
    pub fn tag() -> (out: &'static str)
        ensures
            out@ == Self::spec_tag(),
    {
        "bool_equality"
    }

    /// The report of a comparison with `true`.
    pub open spec fn report_true(span: Span) -> LintReportV {
        LintReportV {
            display_name: "Equality check with `true`"@,
            suggestions: seq!["Remove the `== true`"@],
            ..Self::report(span)
        }
    }

    /// The report of a comparison with `false`.
    pub open spec fn report_false(span: Span) -> LintReportV {
        LintReportV {
            display_name: "Equality check with `false`"@,
            suggestions: seq!["Remove the `== false` and se `!foo` syntax instead"@],
            ..Self::report(span)
        }
    }

    /// The literal that the expression compares with by `==`, where it does.
    pub open spec fn compared_with(expression: Expression) -> Option<Literal> {
        match expression {
            Expression::Equality(_, EqualityOperator::Equal, right) => match *right.0 {
                Expression::Literal(literal) => Some(literal),
                _ => None,
            },
            _ => None,
        }
    }

    /// Reports the expression if it compares with `true` or with `false` by `==`.
    pub fn visit_expression_early(expression: &Expression, span: Span, reports: &mut Vec<LintReport>)
        ensures
            reports_view(final(reports)@) == match Self::compared_with(*expression) {
                Some(Literal::True) => reports_view(old(reports)@).push(Self::report_true(span)),
                Some(Literal::False) => reports_view(old(reports)@).push(Self::report_false(span)),
                _ => reports_view(old(reports)@),
            },
    {
        if let Expression::Equality(_, EqualityOperator::Equal, right) = expression {
            if let Expression::Literal(literal) = right.expression() {
                match literal {
                    Literal::True => {
                        let mut report = Self::generate_report(span);
                        report.display_name = "Equality check with `true`".to_owned();
                        report.suggestions = suggestions_of("Remove the `== true`", None);
                        push_report(reports, report);
                    },
                    Literal::False => {
                        let mut report = Self::generate_report(span);
                        report.display_name = "Equality check with `false`".to_owned();
                        report.suggestions = suggestions_of(
                            "Remove the `== false` and se `!foo` syntax instead",
                            None,
                        );
                        push_report(reports, report);
                    },
                    _ => {},
                }
            }
        }
    }
}

} // verus!

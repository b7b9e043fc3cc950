use vstd::prelude::*;
use crate::lint::{
    LintCategory,
    LintReport,
    LintReportV,
    no_suggestions,
    push_report,
    reports_view,
};
use crate::location::Span;
use crate::parse::expression::Expression;
use crate::parse::operators::AssignmentOperator;

verus! {

/// Flags assignments with `??=`.
#[derive(Debug, PartialEq)]
pub struct NullCoalescenceEqual;

impl NullCoalescenceEqual {
    /// The name by which a project configures the lint.
    pub open spec fn spec_tag() -> Seq<char> {
        "null_coalescence_equal"@
    }

    /// The report that the lint makes of a finding at `span`.
    pub open spec fn report(span: Span) -> LintReportV {
        LintReportV {
            display_name: "Use of `??=`"@,
            tag: "null_coalescence_equal"@,
            explanation: "Null coalescence assignment is broken in YYC and we no longer trust it."@,
            suggestions: Seq::empty(),
            category: LintCategory::Strict,
            span,
        }
    }

    /// The report that the lint makes of a finding at `span`.
    pub fn generate_report(span: Span) -> (out: LintReport)
        ensures
            out@ == Self::report(span),
    {
        LintReport {
            display_name: "Use of `??=`".to_owned(),
            tag: Self::tag(),
            explanation: "Null coalescence assignment is broken in YYC and we no longer trust it.",
            suggestions: no_suggestions(),
            category: Self::category(),
            span,
        }
    }

    /// What kind of concern the lint raises.
    pub fn category() -> (out: LintCategory)
        ensures
            out == LintCategory::Strict,
    {
        LintCategory::Strict
    }

    /// The name by which a project configures the lint.
    pub fn tag() -> (out: &'static str)
        ensures
            out@ == Self::spec_tag(),
    {
        "null_coalescence_equal"
    }

    /// Whether the expression assigns with `??=`.
    pub open spec fn flags(expression: Expression) -> bool {
        expression matches Expression::Assignment(assignment) && assignment.operator
            == AssignmentOperator::NullCoalecenceEqual
    }

    /// Reports the expression if it assigns with `??=`.
    pub fn visit_stmt_early(expression: &Expression, span: Span, reports: &mut Vec<LintReport>)
        ensures
            reports_view(final(reports)@) == if Self::flags(*expression) {
                reports_view(old(reports)@).push(Self::report(span))
            } else {
                reports_view(old(reports)@)
            },
    {
        if let Expression::Assignment(assignment) = expression {
            if let AssignmentOperator::NullCoalecenceEqual = assignment.operator {
                push_report(reports, Self::generate_report(span));
            }
        }
    }
}

} // verus!

use vstd::prelude::*;
use crate::lint::{
    LintCategory,
    LintReport,
    LintReportV,
    push_report,
    reports_view,
    suggestions_of,
};
use crate::location::Span;
use crate::parse::expression::{Expression, Scope};

verus! {

/// Flags every use of the global scope.
#[derive(Debug, PartialEq)]
pub struct Global;

impl Global {
    /// The name by which a project configures the lint.
    pub open spec fn spec_tag() -> Seq<char> {
        "global"@
    }

    /// The report that the lint makes of a finding at `span`.
    pub open spec fn report(span: Span) -> LintReportV {
        LintReportV {
            display_name: "Use of `global`"@,
            tag: "global"@,
            explanation: "While useful at times, global variables reduce saftey since they can be accessed or mutated anywhere."@,
            suggestions: seq!["Scope this variable to an individual object"@],
            category: LintCategory::Strict,
            span,
        }
    }

    /// The report that the lint makes of a finding at `span`.
    pub fn generate_report(span: Span) -> (out: LintReport)
        ensures
            out@ == Self::report(span),
    {
        LintReport {
            display_name: "Use of `global`".to_owned(),
            tag: Self::tag(),
            explanation: "While useful at times, global variables reduce saftey since they can be accessed or mutated anywhere.",
            suggestions: suggestions_of("Scope this variable to an individual object", None),
            category: Self::category(),
            span,
        }
    }

    /// What kind of concern the lint raises.
    pub fn category() -> (out: LintCategory)
        ensures
            out == LintCategory::Strict,
    {
        LintCategory::Strict
    }

    /// The name by which a project configures the lint.
    pub fn tag() -> (out: &'static str)
        ensures
            out@ == Self::spec_tag(),
    {
        "global"
    }

    /// Whether the expression reaches into the global scope.
    pub open spec fn flags(expression: Expression) -> bool {
        expression matches Expression::Access(Scope::Global, _)
    }

    /// Reports the expression if it reaches into the global scope.
    pub fn visit_expression_early(expression: &Expression, span: Span, reports: &mut Vec<LintReport>)
        ensures
            reports_view(final(reports)@) == if Self::flags(*expression) {
                reports_view(old(reports)@).push(Self::report(span))
            } else {
                reports_view(old(reports)@)
            },
    {
        if let Expression::Access(Scope::Global, _) = expression {
            push_report(reports, Self::generate_report(span));
        }
    }
}

} // verus!

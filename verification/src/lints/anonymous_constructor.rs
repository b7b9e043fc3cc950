use vstd::prelude::*;
use crate::lint::{
    LintCategory,
    LintReport,
    LintReportV,
    push_report,
    reports_view,
    suggestions_of,
};
use crate::location::Span;
use crate::parse::expression::Expression;

verus! {

/// Flags constructors that have no name.
#[derive(Debug, PartialEq)]
pub struct AnonymousConstructor;

impl AnonymousConstructor {
    /// The name by which a project configures the lint.
    pub open spec fn spec_tag() -> Seq<char> {
        "anonymous_constructor"@
    }

    /// The report that the lint makes of a finding at `span`.
    pub open spec fn report(span: Span) -> LintReportV {
        LintReportV {
            display_name: "Use of an anonymous constructor"@,
            tag: "anonymous_constructor"@,
            explanation: "Constructors should be reserved for larger, higher scoped types."@,
            suggestions: seq!["Change this to a named function"@, "Change this to a function that returns a struct literal"@],
            category: LintCategory::Style,
            span,
        }
    }

    /// The report that the lint makes of a finding at `span`.
    pub fn generate_report(span: Span) -> (out: LintReport)
        ensures
            out@ == Self::report(span),
    {
        LintReport {
            display_name: "Use of an anonymous constructor".to_owned(),
            tag: Self::tag(),
            explanation: "Constructors should be reserved for larger, higher scoped types.",
            suggestions: suggestions_of("Change this to a named function", Some("Change this to a function that returns a struct literal")),
            category: Self::category(),
            span,
        }
    }

    /// What kind of concern the lint raises.
    pub fn category() -> (out: LintCategory)
        ensures
            out == LintCategory::Style,
    {
        LintCategory::Style
    }

    /// The name by which a project configures the lint.
    pub fn tag() -> (out: &'static str)
        ensures
            out@ == Self::spec_tag(),
    {
        "anonymous_constructor"
    }

    /// Whether the expression is a constructor without a name.
    pub open spec fn flags(expression: Expression) -> bool {
        expression matches Expression::FunctionDeclaration(None, _, Some(_), _, _)
    }

    /// Reports the expression if it is a constructor without a name.
    pub fn visit_expression(expression: &Expression, span: Span, reports: &mut Vec<LintReport>)
        ensures
            reports_view(final(reports)@) == if Self::flags(*expression) {
                reports_view(old(reports)@).push(Self::report(span))
            } else {
                reports_view(old(reports)@)
            },
    {
        if let Expression::FunctionDeclaration(None, _, Some(_), _, _) = expression {
            push_report(reports, Self::generate_report(span));
        }
    }
}

} // verus!

use vstd::prelude::*;
use crate::lint::{
    LintCategory,
    LintReport,
    LintReportV,
    push_report,
    reports_view,
    suggestions_of,
};
use crate::location::Span;
use crate::parse::expression::Expression;

verus! {

/// Flags calls of `show_debug_message`.
#[derive(Debug, PartialEq)]
pub struct ShowDebugMessage;

impl ShowDebugMessage {
    /// The name by which a project configures the lint.
    pub open spec fn spec_tag() -> Seq<char> {
        "show_debug_message"@
    }

    /// The report that the lint makes of a finding at `span`.
    pub open spec fn report(span: Span) -> LintReportV {
        LintReportV {
            display_name: "Use of `show_debug_message`"@,
            tag: "show_debug_message"@,
            explanation: "Projects often implement their own logging framework and wish to avoid unwrapped prints to the console."@,
            suggestions: seq!["Replace `show_debug_message` with a better logging function"@, "Remove this debug message"@],
            category: LintCategory::Strict,
            span,
        }
    }

    /// The report that the lint makes of a finding at `span`.
    pub fn generate_report(span: Span) -> (out: LintReport)
        ensures
            out@ == Self::report(span),
    {
        LintReport {
            display_name: "Use of `show_debug_message`".to_owned(),
            tag: Self::tag(),
            explanation: "Projects often implement their own logging framework and wish to avoid unwrapped prints to the console.",
            suggestions: suggestions_of("Replace `show_debug_message` with a better logging function", Some("Remove this debug message")),
            category: Self::category(),
            span,
        }
    }

    /// What kind of concern the lint raises.
    pub fn category() -> (out: LintCategory)
        ensures
            out == LintCategory::Strict,
    {
        LintCategory::Strict
    }

    /// The name by which a project configures the lint.
    pub fn tag() -> (out: &'static str)
        ensures
            out@ == Self::spec_tag(),
    {
        "show_debug_message"
    }

    /// Whether the expression is a call of `show_debug_message`.
    pub open spec fn flags(expression: Expression) -> bool {
        expression matches Expression::Call(caller, _, _) && *caller.0 matches Expression::Identifier(
            name,
        ) && name@ == "show_debug_message"@
    }

    /// Reports the expression if it is a call of `show_debug_message`.
    pub fn visit_expression_early(expression: &Expression, span: Span, reports: &mut Vec<LintReport>)
        ensures
            reports_view(final(reports)@) == if Self::flags(*expression) {
                reports_view(old(reports)@).push(Self::report(span))
            } else {
                reports_view(old(reports)@)
            },
    {
        if let Expression::Call(caller, _, _) = expression {
            if let Expression::Identifier(name) = caller.expression() {
                let wanted = "show_debug_message".to_owned();
                if *name == wanted {
                    push_report(reports, Self::generate_report(span));
                }
            }
        }
    }
}

} // verus!

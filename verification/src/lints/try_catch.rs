use vstd::prelude::*;
use crate::lint::{
    LintCategory,
    LintReport,
    LintReportV,
    push_report,
    reports_view,
    suggestions_of,
};
use crate::location::Span;
use crate::parse::statement::Statement;

verus! {

/// Flags every `try` with its `catch`.
#[derive(Debug, PartialEq)]
pub struct TryCatch;

impl TryCatch {
    /// The name by which a project configures the lint.
    pub open spec fn spec_tag() -> Seq<char> {
        "try_catch"@
    }

    /// The report that the lint makes of a finding at `span`.
    pub open spec fn report(span: Span) -> LintReportV {
        LintReportV {
            display_name: "Use of `try` / `catch`"@,
            tag: "try_catch"@,
            explanation: "GML's try/catch will collect all errors as opposed to the precise ones wanted, allowing them to accidently catch errors that should not be surpressed."@,
            suggestions: seq!["Adjust the architecture to inspect for an issue prior to the crash"@],
            category: LintCategory::Strict,
            span,
        }
    }

    /// The report that the lint makes of a finding at `span`.
    pub fn generate_report(span: Span) -> (out: LintReport)
        ensures
            out@ == Self::report(span),
    {
        LintReport {
            display_name: "Use of `try` / `catch`".to_owned(),
            tag: Self::tag(),
            explanation: "GML's try/catch will collect all errors as opposed to the precise ones wanted, allowing them to accidently catch errors that should not be surpressed.",
            suggestions: suggestions_of("Adjust the architecture to inspect for an issue prior to the crash", None),
            category: Self::category(),
            span,
        }
    }

    /// What kind of concern the lint raises.
    pub fn category() -> (out: LintCategory)
        ensures
            out == LintCategory::Strict,
    {
        LintCategory::Strict
    }

    /// The name by which a project configures the lint.
    pub fn tag() -> (out: &'static str)
        ensures
            out@ == Self::spec_tag(),
    {
        "try_catch"
    }

    /// Whether the statement is a `try` with its `catch`.
    pub open spec fn flags(statement: Statement) -> bool {
        statement is TryCatch
    }

    /// Reports the statement if it is a `try` with its `catch`.
    pub fn visit_statement_early(statement: &Statement, span: Span, reports: &mut Vec<LintReport>)
        ensures
            reports_view(final(reports)@) == if Self::flags(*statement) {
                reports_view(old(reports)@).push(Self::report(span))
            } else {
                reports_view(old(reports)@)
            },
    {
        if let Statement::TryCatch(..) = statement {
            push_report(reports, Self::generate_report(span));
        }
    }
}

} // verus!

use vstd::prelude::*;
use crate::lint::{
    LintCategory,
    LintReport,
    LintReportV,
    push_report,
    reports_view,
    suggestions_of,
};
use crate::location::Span;
use crate::parse::statement::Statement;

verus! {

/// Flags every `with` loop.
#[derive(Debug, PartialEq)]
pub struct WithLoop;

impl WithLoop {
    /// The name by which a project configures the lint.
    pub open spec fn spec_tag() -> Seq<char> {
        "with_loop"@
    }

    /// The report that the lint makes of a finding at `span`.
    pub open spec fn report(span: Span) -> LintReportV {
        LintReportV {
            display_name: "Use of `with`"@,
            tag: "with_loop"@,
            explanation: "The `with` loop allows your code's context to suddenly change, both making it more difficult to read (as a given line of code is no longer promised to be executing in the scope expected from the file), but also making it more difficult to track down all of the places an object is modified."@,
            suggestions: seq!["Use `instance_find` if looping over objects"@, "Use direct dot reference `foo.bar` to manipulate single objects"@],
            category: LintCategory::Strict,
            span,
        }
    }

    /// The report that the lint makes of a finding at `span`.
    pub fn generate_report(span: Span) -> (out: LintReport)
        ensures
            out@ == Self::report(span),
    {
        LintReport {
            display_name: "Use of `with`".to_owned(),
            tag: Self::tag(),
            explanation: "The `with` loop allows your code's context to suddenly change, both making it more difficult to read (as a given line of code is no longer promised to be executing in the scope expected from the file), but also making it more difficult to track down all of the places an object is modified.",
            suggestions: suggestions_of("Use `instance_find` if looping over objects", Some("Use direct dot reference `foo.bar` to manipulate single objects")),
            category: Self::category(),
            span,
        }
    }

    /// What kind of concern the lint raises.
    pub fn category() -> (out: LintCategory)
        ensures
            out == LintCategory::Strict,
    {
        LintCategory::Strict
    }

    /// The name by which a project configures the lint.
    pub fn tag() -> (out: &'static str)
        ensures
            out@ == Self::spec_tag(),
    {
        "with_loop"
    }

    /// Whether the statement is a `with` loop.
    pub open spec fn flags(statement: Statement) -> bool {
        statement is With
    }

    /// Reports the statement if it is a `with` loop.
    pub fn visit_statement_early(statement: &Statement, span: Span, reports: &mut Vec<LintReport>)
        ensures
            reports_view(final(reports)@) == if Self::flags(*statement) {
                reports_view(old(reports)@).push(Self::report(span))
            } else {
                reports_view(old(reports)@)
            },
    {
        if let Statement::With(..) = statement {
            push_report(reports, Self::generate_report(span));
        }
    }
}

} // verus!

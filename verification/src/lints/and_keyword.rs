use vstd::prelude::*;
use crate::lint::{LintCategory, LintReport, LintReportV, suggestions_of};
use crate::location::Span;


verus! {

/// Flags the keyword `and` where `&&` could stand.
#[derive(Debug, PartialEq)]
pub struct AndKeyword;

impl AndKeyword {
    /// The name by which a project configures the lint.
    pub open spec fn spec_tag() -> Seq<char> {
        "and_keyword"@
    }

    /// The report that the lint makes of a finding at `span`.
    pub open spec fn report(span: Span) -> LintReportV {
        LintReportV {
            display_name: "Use of `and`"@,
            tag: "and_keyword"@,
            explanation: "GML supports both `and` and `&&` to refer to logical and -- `&&` is more consistent with other languages and is preferred."@,
            suggestions: seq!["Use `&&` instead of `and`"@],
            category: LintCategory::Style,
            span,
        }
    }

    /// The report that the lint makes of a finding at `span`.
    pub fn generate_report(span: Span) -> (out: LintReport)
        ensures
            out@ == Self::report(span),
    {
        LintReport {
            display_name: "Use of `and`".to_owned(),
            tag: Self::tag(),
            explanation: "GML supports both `and` and `&&` to refer to logical and -- `&&` is more consistent with other languages and is preferred.",
            suggestions: suggestions_of("Use `&&` instead of `and`", None),
            category: Self::category(),
            span,
        }
    }

    /// What kind of concern the lint raises.
    pub fn category() -> (out: LintCategory)
        ensures
            out == LintCategory::Style,
    {
        LintCategory::Style
    }

    /// The name by which a project configures the lint.
    pub fn tag() -> (out: &'static str)
        ensures
            out@ == Self::spec_tag(),
    {
        "and_keyword"
    }
}

} // verus!

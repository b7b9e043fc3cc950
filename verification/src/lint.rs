use vstd::prelude::*;
use crate::location::Span;

verus! {

/// What kind of concern a lint raises.
#[derive(Clone, Copy, Debug, PartialEq, Eq, Structural)]
pub enum LintCategory {
    Correctness,
    Suspicious,
    Style,
    Pedantic,
    Strict,
}

/// How a lint is treated unless a project says otherwise.
#[derive(Clone, Copy, Debug, PartialEq, Eq, Structural)]
pub enum LintLevel {
    Allow,
    Warn,
    Deny,
}

/// A finding of a lint.
#[derive(Debug, PartialEq)]
pub struct LintReport {
    pub display_name: String,
    pub tag: &'static str,
    pub explanation: &'static str,
    pub suggestions: Vec<String>,
    pub category: LintCategory,
    pub span: Span,
}

/// The mathematical value of a [`LintReport`].
pub ghost struct LintReportV {
    pub display_name: Seq<char>,
    pub tag: Seq<char>,
    pub explanation: Seq<char>,
    pub suggestions: Seq<Seq<char>>,
    pub category: LintCategory,
    pub span: Span,
}

/// The values of a list of texts.
pub open spec fn texts_view(texts: Seq<String>) -> Seq<Seq<char>> {
    Seq::new(texts.len(), |i: int| texts[i]@)
}

impl View for LintReport {
    type V = LintReportV;

    open spec fn view(&self) -> LintReportV {
        LintReportV {
            display_name: self.display_name@,
            tag: self.tag@,
            explanation: self.explanation@,
            suggestions: texts_view(self.suggestions@),
            category: self.category,
            span: self.span,
        }
    }
}

/// The values of a list of reports.
pub open spec fn reports_view(reports: Seq<LintReport>) -> Seq<LintReportV> {
    Seq::new(reports.len(), |i: int| reports[i]@)
}

/// Adds a report at the end of a list of reports.
pub fn push_report(reports: &mut Vec<LintReport>, report: LintReport)
    ensures
        reports_view(final(reports)@) == reports_view(old(reports)@).push(report@),
{
    reports.push(report);
    assert(reports_view(reports@) =~= reports_view(old(reports)@).push(report@));
}

/// A list of one or two suggestions.
pub fn suggestions_of(first: &str, second: Option<&str>) -> (out: Vec<String>)
    ensures
        texts_view(out@) == match second {
            Some(second) => seq![first@, second@],
            None => seq![first@],
        },
{
    let mut out: Vec<String> = Vec::new();
    out.push(first.to_owned());
    match second {
        Some(second) => {
            out.push(second.to_owned());
        },
        None => {},
    }
    assert(texts_view(out@) =~= match second {
        Some(second) => seq![first@, second@],
        None => seq![first@],
    });
    out
}

/// An empty list of suggestions.
pub fn no_suggestions() -> (out: Vec<String>)
    ensures
        texts_view(out@) == Seq::<Seq<char>>::empty(),
{
    let out: Vec<String> = Vec::new();
    assert(texts_view(out@) =~= Seq::<Seq<char>>::empty());
    out
}


/// A place in the source with what is to be said of it.
#[derive(Debug, PartialEq)]
pub struct Label {
    pub primary: bool,
    pub span: Span,
    pub message: String,
}

/// A finding of a lint that points at places in the source.
#[derive(Debug, PartialEq)]
pub struct Finding {
    pub tag: &'static str,
    pub level: LintLevel,
    pub message: String,
    pub labels: Vec<Label>,
}

/// The mathematical value of a [`Label`].
pub ghost struct LabelV {
    pub primary: bool,
    pub span: Span,
    pub message: Seq<char>,
}

/// The mathematical value of a [`Finding`].
pub ghost struct FindingV {
    pub tag: Seq<char>,
    pub level: LintLevel,
    pub message: Seq<char>,
    pub labels: Seq<LabelV>,
}

impl View for Label {
    type V = LabelV;

    open spec fn view(&self) -> LabelV {
        LabelV { primary: self.primary, span: self.span, message: self.message@ }
    }
}

/// The values of a list of labels.
pub open spec fn labels_view(labels: Seq<Label>) -> Seq<LabelV> {
    Seq::new(labels.len(), |i: int| labels[i]@)
}

impl View for Finding {
    type V = FindingV;

    open spec fn view(&self) -> FindingV {
        FindingV {
            tag: self.tag@,
            level: self.level,
            message: self.message@,
            labels: labels_view(self.labels@),
        }
    }
}

/// The values of a list of findings.
pub open spec fn findings_view(findings: Seq<Finding>) -> Seq<FindingV> {
    Seq::new(findings.len(), |i: int| findings[i]@)
}

/// The finding of a lint with one primary label.
pub open spec fn finding_at(
    tag: Seq<char>,
    level: LintLevel,
    message: Seq<char>,
    span: Span,
    label: Seq<char>,
) -> FindingV {
    FindingV { tag, level, message, labels: seq![LabelV { primary: true, span, message: label }] }
}

/// Adds, at the end of a list of findings, the finding of a lint with one primary label.
pub fn push_finding(
    findings: &mut Vec<Finding>,
    tag: &'static str,
    level: LintLevel,
    message: String,
    span: Span,
    label: &str,
)
    ensures
        findings_view(final(findings)@) == findings_view(old(findings)@).push(
            finding_at(tag@, level, message@, span, label@),
        ),
{
    let mut labels: Vec<Label> = Vec::new();
    labels.push(Label { primary: true, span, message: label.to_owned() });
    let finding = Finding { tag, level, message, labels };
    assert(finding@.labels =~= seq![LabelV { primary: true, span, message: label@ }]);
    findings.push(finding);
    assert(findings_view(findings@) =~= findings_view(old(findings)@).push(finding@));
}

/// The status that a run over a project ends with: failure where there are warnings,
/// denials, or errors in reading or parsing the files, unless what was found is allowed.
pub open spec fn status_of(
    allow_warnings: bool,
    allow_denials: bool,
    allow_errors: bool,
    warnings: usize,
    denials: usize,
    io_errors: usize,
    parse_errors: usize,
) -> i32 {
    if (!allow_warnings && warnings != 0) || (!allow_denials && denials != 0) || (!allow_errors
        && (io_errors != 0 || parse_errors != 0)) {
        1i32
    } else {
        0i32
    }
}

/// The status that a run over a project ends with.
pub fn exit_status(
    allow_warnings: bool,
    allow_denials: bool,
    allow_errors: bool,
    warnings: usize,
    denials: usize,
    io_errors: usize,
    parse_errors: usize,
) -> (code: i32)
    ensures
        code == status_of(
            allow_warnings,
            allow_denials,
            allow_errors,
            warnings,
            denials,
            io_errors,
            parse_errors,
        ),
{
    if (!allow_warnings && warnings != 0) || (!allow_denials && denials != 0) || (!allow_errors
        && (io_errors != 0 || parse_errors != 0)) {
        1
    } else {
        0
    }
}

/// How many findings of each level a list of levels holds: the warnings, then the denials.
pub open spec fn tally(levels: Seq<LintLevel>) -> (nat, nat)
    decreases levels.len(),
{
    if levels.len() == 0 {
        (0, 0)
    } else {
        let (warnings, denials) = tally(levels.drop_last());
        match levels.last() {
            LintLevel::Allow => (warnings, denials),
            LintLevel::Warn => (warnings + 1, denials),
            LintLevel::Deny => (warnings, denials + 1),
        }
    }
}

/// Counts the warnings and the denials among the levels of what was found.
pub fn count_levels(levels: &Vec<LintLevel>) -> (out: (usize, usize))
    ensures
        (out.0 as nat, out.1 as nat) == tally(levels@),
{
    let mut warnings: usize = 0;
    let mut denials: usize = 0;
    let mut i: usize = 0;
    assert(levels@.subrange(0, 0) =~= Seq::empty());
    while i < levels.len()
        invariant
            i <= levels.len(),
            (warnings as nat, denials as nat) == tally(levels@.subrange(0, i as int)),
            warnings <= i,
            denials <= i,
        decreases levels.len() - i,
    {
        assert(levels@.subrange(0, i + 1).drop_last() =~= levels@.subrange(0, i as int));
        match levels[i] {
            LintLevel::Allow => {},
            LintLevel::Warn => {
                warnings += 1;
            },
            LintLevel::Deny => {
                denials += 1;
            },
        }
        i += 1;
    }
    assert(levels@.subrange(0, i as int) =~= levels@);
    (warnings, denials)
}

} // verus!

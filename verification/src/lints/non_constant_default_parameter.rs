use vstd::prelude::*;
use crate::lint::{Finding, LintLevel, findings_view};
use crate::parse::expression::ExpressionBox;

verus! {

/// Flags default values of parameters that are no constants.
#[derive(Debug, PartialEq)]
pub struct NonConstantDefaultParameter;

impl NonConstantDefaultParameter {
    /// Why the lint exists.
    pub fn explanation() -> (out: &'static str)
        ensures
            out@
                == "Expressive default parameters are not supported in most languages due to their instability and tendency to hide important logic execution from the caller."@,
    {
        "Expressive default parameters are not supported in most languages due to their instability and tendency to hide important logic execution from the caller."
    }

    /// How the lint is treated unless a project says otherwise.
    pub fn default_level() -> (out: LintLevel)
        ensures
            out == LintLevel::Warn,
    {
        LintLevel::Warn
    }

    /// The name by which a project configures the lint.
    pub fn tag() -> (out: &'static str)
        ensures
            out@ == "non_constant_default_parameter"@,
    {
        "non_constant_default_parameter"
    }

    /// Whether an expression is a constant. No expression is taken for one yet.
    pub fn _is_constant(_expresion_box: &ExpressionBox) -> (yes: bool)
        ensures
            !yes,
    {
        false
    }

    /// Reports nothing: the lint is switched off until constants can be told apart.
    pub fn visit_expr_late(_expr: &ExpressionBox, findings: &mut Vec<Finding>)
        ensures
            findings_view(final(findings)@) == findings_view(old(findings)@),
    {
    }
}

} // verus!

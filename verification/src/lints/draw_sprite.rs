use vstd::prelude::*;
use crate::lint::{Finding, LintLevel, finding_at, findings_view, push_finding};
use crate::parse::expression::Expression;

verus! {

/// Flags calls of the functions that draw sprites.
#[derive(Debug, PartialEq)]
pub struct DrawSprite;

/// The names of the functions that draw sprites.
pub open spec fn draw_sprite_names() -> Seq<Seq<char>> {
    seq![
        "draw_sprite"@,
        "draw_sprite_ext"@,
        "draw_sprite_general"@,
        "draw_sprite_part"@,
        "draw_sprite_part_ext"@,
        "draw_sprite_pos"@,
        "draw_sprite_stretched"@,
        "draw_sprite_stretched_ext"@,
        "draw_sprite_tiled"@,
        "draw_sprite_tiled_ext"@,
    ]
}

/// The values of a list of names.
pub open spec fn names_view(names: Seq<&'static str>) -> Seq<Seq<char>> {
    Seq::new(names.len(), |i: int| names[i]@)
}

/// The names of the functions that draw sprites.
pub fn gm_draw_sprite_functions() -> (names: Vec<&'static str>)
    ensures
        names_view(names@) == draw_sprite_names(),
{
    let names = vec![
        "draw_sprite",
        "draw_sprite_ext",
        "draw_sprite_general",
        "draw_sprite_part",
        "draw_sprite_part_ext",
        "draw_sprite_pos",
        "draw_sprite_stretched",
        "draw_sprite_stretched_ext",
        "draw_sprite_tiled",
        "draw_sprite_tiled_ext",
    ];
    assert(names_view(names@) =~= draw_sprite_names());
    names
}

/// Whether a name is among the names of a list.
pub fn is_among(name: &str, names: &Vec<&'static str>) -> (yes: bool)
    ensures
        yes == names_view(names@).contains(name@),
{
    let wanted = name.to_owned();
    let mut i: usize = 0;
    while i < names.len()
        invariant
            i <= names.len(),
            wanted@ == name@,
            forall|j: int| 0 <= j < i ==> (#[trigger] names_view(names@)[j]) != name@,
        decreases names.len() - i,
    {
        if names[i].to_owned() == wanted {
            assert(names_view(names@)[i as int] == name@);
            return true;
        }
        i += 1;
    }
    false
}

impl DrawSprite {
    /// Why the lint exists.
    pub fn explanation() -> (out: &'static str)
        ensures
            out@
                == "Projects that implement their own rendering backend may wish to be restrictive around when and where the `draw_sprite` functions are called."@,
    {
        "Projects that implement their own rendering backend may wish to be restrictive around when and where the `draw_sprite` functions are called."
    }

    /// How the lint is treated unless a project says otherwise.
    pub fn default_level() -> (out: LintLevel)
        ensures
            out == LintLevel::Allow,
    {
        LintLevel::Allow
    }

    /// The name by which a project configures the lint.
    pub fn tag() -> (out: &'static str)
        ensures
            out@ == "draw_sprite"@,
    {
        "draw_sprite"
    }

    /// The function that the expression calls by name, where it calls one that draws sprites.
    pub open spec fn drawn_by(expression: Expression) -> Option<Seq<char>> {
        match expression {
            Expression::Call(left, _, _) => match *left.0 {
                Expression::Identifier(name) => if draw_sprite_names().contains(name@) {
                    Some(name@)
                } else {
                    None
                },
                _ => None,
            },
            _ => None,
        }
    }

    /// Reports the expression if it calls a function that draws sprites, at the callee.
    pub fn visit_expr_early(expression: &Expression, findings: &mut Vec<Finding>)
        ensures
            findings_view(final(findings)@) == match Self::drawn_by(*expression) {
                Some(name) => findings_view(old(findings)@).push(
                    finding_at(
                        "draw_sprite"@,
                        LintLevel::Allow,
                        "Use of `"@ + name + "`"@,
                        expression->Call_0.1.1,
                        "replace this call with your API's ideal function"@,
                    ),
                ),
                None => findings_view(old(findings)@),
            },
    {
        if let Expression::Call(left, _, _) = expression {
            if let Expression::Identifier(name) = left.expression() {
                if is_among(name.as_str(), &gm_draw_sprite_functions()) {
                    push_finding(
                        findings,
                        Self::tag(),
                        Self::default_level(),
                        "Use of `".to_owned().concat(name.as_str()).concat("`"),
                        left.span(),
                        "replace this call with your API's ideal function",
                    );
                }
            }
        }
    }
}

} // verus!

use duck::location::{Location, Span};
use duck::printer::{alphabet, written_line, Printer, LETTERS};
use duck::ty::{Call, Def, Field, Func, Record, RecordOp, State, Ty, Var};

fn field(ty: Ty) -> Field {
    Field { ty, location: Location(0, Span(0, 0)), op: RecordOp::Write }
}

fn record(state: State, fields: Vec<(&str, Ty)>) -> Ty {
    Ty::Record(Record {
        fields: fields.into_iter().map(|(name, ty)| (name.to_string(), field(ty))).collect(),
        state,
    })
}

#[test]
fn basic_kinds_are_written_by_name() {
    let mut printer = Printer::new();
    assert_eq!(printer.plain_ty(&Ty::Uninitialized), "<null>");
    assert_eq!(printer.plain_ty(&Ty::Any), "any");
    assert_eq!(printer.plain_ty(&Ty::Undefined), "undefined");
    assert_eq!(printer.plain_ty(&Ty::Noone), "noone");
    assert_eq!(printer.plain_ty(&Ty::Bool), "bool");
    assert_eq!(printer.plain_ty(&Ty::Real), "real");
    assert_eq!(printer.plain_ty(&Ty::Str), "string");
}

#[test]
fn arrays_are_written_in_brackets() {
    let mut printer = Printer::new();
    let nested = Ty::Array(Box::new(Ty::Array(Box::new(Ty::Real))));
    assert_eq!(printer.plain_ty(&nested), "[[real]]");
}

#[test]
fn records_are_written_with_their_state() {
    let mut printer = Printer::new();
    assert_eq!(printer.plain_ty(&record(State::Concrete, vec![])), "{}");
    assert_eq!(printer.plain_ty(&record(State::Inferred, vec![])), "{}");
    assert_eq!(printer.plain_ty(&record(State::Concrete, vec![("x", Ty::Real)])), "{ x: real }");
    assert_eq!(
        printer.plain_ty(&record(State::Inferred, vec![("x", Ty::Real), ("y", Ty::Str)])),
        "?{ x: real, y: string }"
    );
    assert_eq!(
        printer.plain_ty(&record(
            State::Extendable,
            vec![("a", Ty::Bool), ("b", Ty::Noone), ("c", Ty::Any)]
        )),
        "mut { a: bool, b: noone, c: any }"
    );
}

#[test]
fn functions_are_written_with_an_arrow() {
    let mut printer = Printer::new();
    let definition = Ty::Func(Func::Def(Def {
        binding: None,
        parameters: vec![Ty::Real, Ty::Str],
        return_type: Box::new(Ty::Bool),
    }));
    assert_eq!(printer.plain_ty(&definition), "fn (real, string) -> bool");
    let call =
        Ty::Func(Func::Call(Call { parameters: vec![], return_type: Box::new(Ty::Undefined) }));
    assert_eq!(printer.plain_ty(&call), "() -> undefined");
}

#[test]
fn variables_get_letters_in_the_order_they_are_met() {
    let mut printer = Printer::new();
    let first = Var::Fresh(7);
    let second = Var::Expr { frame: 0, id: 7 };
    let signature = Ty::Func(Func::Def(Def {
        binding: None,
        parameters: vec![Ty::Var(first), Ty::Var(second)],
        return_type: Box::new(Ty::Var(first)),
    }));
    assert_eq!(printer.plain_ty(&signature), "fn (A, B) -> A");
    assert_eq!(printer.plain_var(&second), "B");
    assert_eq!(printer.plain_var(&Var::Return), "C");
    printer.flush();
    assert_eq!(printer.plain_var(&second), "A");
}

#[test]
fn letters_start_over_behind_the_last() {
    assert_eq!(LETTERS, 83);
    let letters = alphabet();
    assert_eq!(letters.len(), LETTERS);
    assert_eq!(letters[0], "A");
    assert_eq!(letters[26], "a");
    assert_eq!(letters[51], "z");
    assert_eq!(letters[52], "\u{182}");
    assert_eq!(letters[82], "\u{1bf}");
    let mut printer = Printer::new();
    for n in 0..LETTERS {
        assert_eq!(printer.plain_var(&Var::Fresh(n as u64)), letters[n]);
    }
    assert_eq!(printer.plain_var(&Var::Fresh(LETTERS as u64)), "A");
    assert_eq!(printer.plain_var(&Var::Fresh(3)), "D");
}

#[test]
fn painted_text_holds_the_plain_text() {
    let mut printer = Printer::new();
    let painted = printer.ty(&Ty::Array(Box::new(Ty::Real)));
    assert!(painted.contains("[real]"));
    let letter = printer.var(&Var::Fresh(0));
    assert!(letter.contains("A"));
    let unification = printer.ty_unification(&Ty::Real, &Ty::Str);
    assert!(unification.contains("UNIFY T"));
    assert!(unification.contains("real"));
    assert!(unification.contains("string"));
    let bound = printer.var_unification(&Var::Fresh(0), &Ty::Bool);
    assert!(bound.contains("UNIFY M"));
    assert!(bound.contains("bool"));
    assert!(printer.has_alias(&Var::Fresh(0)));
    assert!(!printer.has_alias(&Var::Fresh(1)));
    let query = printer.query("foo.bar", &Var::Fresh(0));
    assert!(query.contains("QUERY"));
    assert!(query.contains("        foo.bar: "));
    assert!(query.contains("A"));
    let substitution = printer.substitution(&Var::Fresh(1), &Ty::Real);
    assert!(substitution.contains("SUB"));
    assert!(substitution.contains("B"));
    assert!(printer.has_alias(&Var::Fresh(1)));
    printer.flush();
    assert!(!printer.has_alias(&Var::Fresh(1)));
}

#[test]
fn a_line_puts_its_parts_together() {
    assert_eq!(
        written_line("L".to_string(), " ", "left".to_string(), " = ", "right".to_string()),
        "L left = right"
    );
}

#[test]
fn painted_text_is_the_plain_text_between_the_signs_of_its_style() {
    let mut printer = Printer::new();
    colored::control::set_override(false);
    assert_eq!(printer.ty(&Ty::Array(Box::new(Ty::Real))), "[real]");
    assert_eq!(printer.var(&Var::Fresh(0)), "A");
    assert_eq!(
        printer.substitution(&Var::Fresh(0), &Ty::Bool),
        "SUB          A   \u{2192}   bool"
    );
    assert_eq!(
        printer.ty_unification(&Ty::Real, &Ty::Str),
        "UNIFY T      real   \u{225f}   string"
    );
    assert_eq!(
        printer.var_unification(&Var::Fresh(1), &Ty::Real),
        "UNIFY M      B   \u{225f}   real"
    );
    assert_eq!(printer.query("foo", &Var::Fresh(1)), "QUERY        foo: B");
    colored::control::set_override(true);
    let painted = printer.ty(&Ty::Real);
    assert!(painted.starts_with('\u{1b}'));
    assert!(painted.ends_with("\u{1b}[0m"));
    assert!(painted.contains("real"));
    assert_ne!(painted, "real");
    let letter = printer.var(&Var::Fresh(0));
    assert!(letter.starts_with('\u{1b}') && letter.contains('A') && letter.ends_with("\u{1b}[0m"));
    colored::control::unset_override();
}

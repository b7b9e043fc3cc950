use duck::error::TypeError;
use duck::gml::environment::{Environment, GmlEnum};
use duck::location::{Location, Span};
use duck::record::FieldOp;
use duck::ty::{Binding, Field, Record, RecordOp, State, Ty, Var};

fn at(n: usize) -> Location {
    Location(0, Span(n, n + 1))
}

fn written(ty: Ty, n: usize) -> Field {
    Field { ty, location: at(n), op: RecordOp::Write }
}

fn read(ty: Ty, n: usize) -> Field {
    Field { ty, location: at(n), op: RecordOp::Read }
}

#[test]
fn new_records_are_empty() {
    assert_eq!(Record::inferred(), Record { fields: vec![], state: State::Inferred });
    assert_eq!(Record::extendable(), Record { fields: vec![], state: State::Extendable });
    assert_eq!(State::default(), State::Concrete);
}

#[test]
fn an_inferred_record_takes_reads_and_writes() {
    let mut record = Record::inferred();
    assert_eq!(record.apply_field("a", read(Ty::Real, 1)), Ok(FieldOp::NewValue));
    assert_eq!(record.apply_field("b", written(Ty::Str, 2)), Ok(FieldOp::NewValue));
    assert!(record.contains("a"));
    assert!(record.contains("b"));
    assert!(!record.contains("c"));
    assert_eq!(record.find("a"), Some(0));
    assert_eq!(record.find("b"), Some(1));
    assert_eq!(record.find("c"), None);
    assert_eq!(record.get("b"), Some(&written(Ty::Str, 2)));
    assert_eq!(record.get("c"), None);
}

#[test]
fn an_extendable_record_takes_writes_only() {
    let mut record = Record::extendable();
    assert_eq!(record.apply_field("a", written(Ty::Real, 1)), Ok(FieldOp::NewValue));
    assert_eq!(
        record.apply_field("b", read(Ty::Real, 2)),
        Err(TypeError::IllegalExtension {
            name: "b".to_string(),
            state: State::Extendable,
            location: at(2)
        })
    );
    assert_eq!(record.fields.len(), 1);
    assert!(State::Extendable.can_extend(RecordOp::Write));
    assert!(!State::Extendable.can_extend(RecordOp::Read));
    assert!(State::Inferred.can_extend(RecordOp::Read));
    assert!(!State::Concrete.can_extend(RecordOp::Write));
}

#[test]
fn a_concrete_record_takes_nothing_new() {
    let mut record = Record::from(vec![("a".to_string(), written(Ty::Real, 1))]);
    for field in [written(Ty::Real, 2), read(Ty::Real, 2)] {
        assert_eq!(
            record.apply_field("b", field),
            Err(TypeError::IllegalExtension {
                name: "b".to_string(),
                state: State::Concrete,
                location: at(2)
            })
        );
    }
    assert_eq!(
        record.apply_field("a", read(Ty::Str, 3)),
        Ok(FieldOp::Unification { previous: Ty::Real, new: Ty::Str, location: at(3) })
    );
    assert_eq!(record.fields.len(), 1);
}

#[test]
fn an_unconstrained_slot_takes_the_first_type() {
    let mut record = Record::inferred();
    assert_eq!(record.apply_field("a", written(Ty::Uninitialized, 1)), Ok(FieldOp::NewValue));
    assert_eq!(record.apply_field("a", read(Ty::Bool, 2)), Ok(FieldOp::NewValue));
    assert_eq!(record.get("a"), Some(&written(Ty::Bool, 1)));
    assert_eq!(
        record.apply_field("a", written(Ty::Real, 3)),
        Ok(FieldOp::Unification { previous: Ty::Bool, new: Ty::Real, location: at(3) })
    );
    assert_eq!(record.get("a"), Some(&written(Ty::Bool, 1)));
}

#[test]
fn the_state_never_reopens() {
    let mut record = Record::inferred();
    record.set_state(State::Extendable);
    assert_eq!(record.state, State::Extendable);
    record.set_state(State::Inferred);
    assert_eq!(record.state, State::Extendable);
    record.set_state(State::Concrete);
    assert_eq!(record.state, State::Concrete);
    record.set_state(State::Extendable);
    assert_eq!(record.state, State::Concrete);
}

#[test]
fn the_type_of_a_field_can_be_replaced() {
    let mut record = Record::inferred();
    assert_eq!(record.apply_field("a", written(Ty::Real, 1)), Ok(FieldOp::NewValue));
    record.set_field_ty("a", Ty::Str);
    record.set_field_ty("b", Ty::Str);
    assert_eq!(record.get("a"), Some(&written(Ty::Str, 1)));
    assert_eq!(record.fields.len(), 1);
}

#[test]
fn copies_are_deep() {
    let inner = Record { fields: vec![("x".to_string(), written(Ty::Real, 1))], state: State::Extendable };
    let ty = Ty::Array(Box::new(Ty::Record(inner)));
    let copy = ty.duplicate();
    assert_eq!(copy, ty);
    let binding = Binding::Constructor {
        local_scope: Var::Fresh(1),
        self_scope: Var::Fresh(2),
        inheritance: Some("parent".to_string()),
    };
    assert_eq!(binding.duplicate(), binding);
    let method = Binding::Method { local_scope: Var::Fresh(1), self_scope: Var::Expr { frame: 2, id: 3 } };
    assert_eq!(method.duplicate(), method);
    assert!(Ty::Real.is_basic());
    assert!(!Ty::Any.is_basic());
    assert!(Ty::Real.same_basic(&Ty::Real));
    assert!(!Ty::Real.same_basic(&Ty::Str));
}

fn colors() -> GmlEnum {
    let mut colors = GmlEnum::new("Color".to_string());
    colors.add_member("Red".to_string());
    colors.add_member("Green".to_string());
    colors
}

#[test]
fn an_environment_finds_what_was_registered() {
    let mut environment = Environment::new();
    assert_eq!(environment.find_enum("Color"), None);
    environment.register_enum(colors());
    assert_eq!(environment.find_enum("Color"), Some(&colors()));
    assert_eq!(environment.find_enum("Color").unwrap().name(), "Color");
    assert_eq!(environment.find_enum("Shape"), None);
}

#[test]
fn the_last_registration_of_a_name_wins() {
    let mut environment = Environment::default();
    environment.register_enum(colors());
    let mut fewer = GmlEnum::new("Color".to_string());
    fewer.add_member("Blue".to_string());
    environment.register_enum(fewer);
    assert_eq!(environment.find_enum("Color").unwrap().members, vec!["Blue".to_string()]);
}

#[test]
fn copying_an_environment_brings_its_enums() {
    let mut first = Environment::new();
    first.register_enum(colors());
    first.register_enum(GmlEnum::new("Shape".to_string()));
    let mut second = Environment::new();
    let mut other_colors = GmlEnum::new("Color".to_string());
    other_colors.add_member("Cyan".to_string());
    second.register_enum(other_colors.duplicate());
    second.register_enum(GmlEnum::new("Size".to_string()));
    first.copy_from(&second);
    assert_eq!(first.find_enum("Color"), Some(&other_colors));
    assert!(first.find_enum("Shape").is_some());
    assert!(first.find_enum("Size").is_some());
    assert_eq!(second.find_enum("Shape"), None);
}

#[test]
fn no_name_stands_twice_in_a_record() {
    let mut record = Record::extendable();
    for (name, ty) in [("x", Ty::Real), ("y", Ty::Bool), ("x", Ty::Real), ("y", Ty::Str)] {
        let _ = record.apply_field(name, written(ty, 0));
    }
    let names: Vec<&str> = record.fields.iter().map(|(name, _)| name.as_str()).collect();
    assert_eq!(names, vec!["x", "y"]);
}

use duck::error::TypeError;
use duck::location::{Location, Span};
use duck::record::FieldOp;
use duck::solver::{Solver, DEFAULT_DEPTH_LIMIT};
use duck::ty::{Call, Def, Field, Func, Record, RecordOp, State, Ty, Var};

fn here() -> Location {
    Location(7, Span(3, 9))
}

fn fresh(n: u64) -> Var {
    Var::Fresh(100 + n)
}

fn field(ty: Ty, op: RecordOp) -> Field {
    Field { ty, location: here(), op }
}

fn record(state: State, fields: Vec<(&str, Ty, RecordOp)>) -> Record {
    Record {
        fields: fields.into_iter().map(|(name, ty, op)| (name.to_string(), field(ty, op))).collect(),
        state,
    }
}

fn names(record: &Record) -> Vec<String> {
    let mut names: Vec<String> = record.fields.iter().map(|(name, _)| name.clone()).collect();
    names.sort();
    names
}

#[test]
fn a_new_solver_goes_as_deep_as_the_default() {
    let solver = Solver::new();
    assert_eq!(solver.depth_limit(), DEFAULT_DEPTH_LIMIT);
    assert_eq!(DEFAULT_DEPTH_LIMIT, 64);
    assert_eq!(solver.local_var(), Var::Fresh(1));
    assert_eq!(solver.current_self_var(), Var::Fresh(0));
    assert_eq!(solver.local_scope().unwrap().state, State::Inferred);
    assert!(solver.local_scope().unwrap().fields.is_empty());
}

#[test]
fn like_basic_kinds_unify() {
    let mut solver = Solver::new();
    for ty in [Ty::Bool, Ty::Real, Ty::Str, Ty::Undefined, Ty::Noone] {
        let other = ty.duplicate();
        assert_eq!(solver.unify_tys(&ty, &other, here()), Ok(()));
    }
}

#[test]
fn unlike_basic_kinds_are_a_mismatch() {
    let mut solver = Solver::new();
    assert_eq!(
        solver.unify_tys(&Ty::Bool, &Ty::Real, here()),
        Err(TypeError::Mismatch(Ty::Bool, Ty::Real, here()))
    );
    assert_eq!(
        solver.unify_tys(&Ty::Array(Box::new(Ty::Real)), &Ty::Record(Record::inferred()), here()),
        Err(TypeError::Mismatch(
            Ty::Array(Box::new(Ty::Real)),
            Ty::Record(Record::inferred()),
            here()
        ))
    );
}

#[test]
fn any_opts_out_of_checking() {
    let mut solver = Solver::new();
    assert_eq!(solver.unify_tys(&Ty::Any, &Ty::Real, here()), Ok(()));
    assert_eq!(solver.unify_tys(&Ty::Str, &Ty::Any, here()), Ok(()));
    solver.bind_var(fresh(0), Ty::Any);
    assert_eq!(solver.unify_var(&fresh(0), &Ty::Real, here()), Ok(()));
    assert_eq!(solver.unify_var(&fresh(0), &Ty::Str, here()), Ok(()));
    assert_eq!(solver.binding(fresh(0)), Some(Ty::Any));
}

#[test]
fn an_unbound_variable_is_bound_to_the_other_term() {
    let mut solver = Solver::new();
    assert_eq!(solver.binding(fresh(0)), None);
    assert_eq!(solver.unify_var(&fresh(0), &Ty::Real, here()), Ok(()));
    assert_eq!(solver.binding(fresh(0)), Some(Ty::Real));
    assert_eq!(solver.query_var(fresh(0)), Some(Ty::Real));
    assert_eq!(
        solver.unify_var(&fresh(0), &Ty::Bool, here()),
        Err(TypeError::Mismatch(Ty::Real, Ty::Bool, here()))
    );
    assert_eq!(solver.binding(fresh(0)), Some(Ty::Real));
}

#[test]
fn the_placeholder_takes_the_other_type_and_binds_nothing() {
    let mut solver = Solver::new();
    assert_eq!(solver.unify_var(&fresh(0), &Ty::Uninitialized, here()), Ok(()));
    assert_eq!(solver.binding(fresh(0)), None);
    assert_eq!(solver.unify(&Ty::Uninitialized, &Ty::Real, here(), 8), Ok(Ty::Real));
    assert_eq!(solver.unify(&Ty::Str, &Ty::Uninitialized, here(), 8), Ok(Ty::Str));
}

#[test]
fn two_variables_become_one() {
    let mut solver = Solver::new();
    assert_eq!(solver.unify(&Ty::Var(fresh(0)), &Ty::Var(fresh(1)), here(), 8), Ok(Ty::Var(fresh(0))));
    assert_eq!(solver.root_of(fresh(1)), Some(fresh(0)));
    assert_eq!(solver.unify_var(&fresh(1), &Ty::Str, here()), Ok(()));
    assert_eq!(solver.query_var(fresh(0)), Some(Ty::Str));
    assert_eq!(solver.query_var(fresh(1)), Some(Ty::Str));
    assert_eq!(solver.unify(&Ty::Var(fresh(0)), &Ty::Var(fresh(1)), here(), 8), Ok(Ty::Var(fresh(0))));
}

#[test]
fn arrays_unify_by_their_members() {
    let mut solver = Solver::new();
    let open = Ty::Array(Box::new(Ty::Var(fresh(0))));
    let known = Ty::Array(Box::new(Ty::Real));
    assert_eq!(solver.unify_tys(&open, &known, here()), Ok(()));
    assert_eq!(solver.query_var(fresh(0)), Some(Ty::Real));
    let other = Ty::Array(Box::new(Ty::Str));
    assert_eq!(
        solver.unify_tys(&open, &other, here()),
        Err(TypeError::Mismatch(Ty::Real, Ty::Str, here()))
    );
}

#[test]
fn a_variable_cannot_be_bound_to_a_term_it_occurs_in() {
    let mut solver = Solver::new();
    let around = Ty::Array(Box::new(Ty::Var(fresh(0))));
    assert_eq!(
        solver.unify_var(&fresh(0), &around, here()),
        Err(TypeError::Cyclic(fresh(0), Ty::Array(Box::new(Ty::Var(fresh(0)))), here()))
    );
    assert_eq!(solver.binding(fresh(0)), None);
    assert!(solver.occurs(fresh(0), &around, 8));
    assert!(!solver.occurs(fresh(1), &around, 8));
    assert!(solver.occurs(fresh(1), &around, 0));
}

#[test]
fn a_cycle_of_variables_is_found_out() {
    let mut solver = Solver::new();
    solver.bind_var(fresh(0), Ty::Var(fresh(1)));
    solver.bind_var(fresh(1), Ty::Var(fresh(0)));
    assert_eq!(solver.root_of(fresh(0)), None);
    assert_eq!(
        solver.unify_var(&fresh(0), &Ty::Real, here()),
        Err(TypeError::LimitExceeded(here()))
    );
    assert_eq!(solver.query_var(fresh(0)), None);
}

#[test]
fn unification_stops_at_the_depth_it_is_given() {
    let mut solver = Solver::with_depth_limit(2);
    assert_eq!(solver.depth_limit(), 2);
    let shallow = Ty::Array(Box::new(Ty::Real));
    assert_eq!(solver.unify_tys(&shallow, &shallow.duplicate(), here()), Ok(()));
    let deep = Ty::Array(Box::new(Ty::Array(Box::new(Ty::Array(Box::new(Ty::Real))))));
    assert_eq!(
        solver.unify_tys(&deep, &deep.duplicate(), here()),
        Err(TypeError::LimitExceeded(here()))
    );
    assert_eq!(solver.unify(&Ty::Real, &Ty::Real, here(), 0), Err(TypeError::LimitExceeded(here())));
}

#[test]
fn records_merge_their_fields() {
    let mut solver = Solver::new();
    let first = record(State::Extendable, vec![("x", Ty::Real, RecordOp::Write)]);
    let second = record(State::Inferred, vec![("y", Ty::Str, RecordOp::Write)]);
    match solver.unify(&Ty::Record(first), &Ty::Record(second), here(), 8) {
        Ok(Ty::Record(merged)) => {
            assert_eq!(names(&merged), vec!["x".to_string(), "y".to_string()]);
            assert_eq!(merged.state, State::Extendable);
            assert_eq!(merged.get("x").unwrap().ty, Ty::Real);
            assert_eq!(merged.get("y").unwrap().ty, Ty::Str);
        }
        other => panic!("{:?}", other),
    }
}

#[test]
fn records_unify_the_fields_they_share() {
    let mut solver = Solver::new();
    let first = record(State::Inferred, vec![("x", Ty::Var(fresh(0)), RecordOp::Read)]);
    let second = record(State::Inferred, vec![("x", Ty::Bool, RecordOp::Write)]);
    assert_eq!(solver.unify_tys(&Ty::Record(first), &Ty::Record(second), here()), Ok(()));
    assert_eq!(solver.query_var(fresh(0)), Some(Ty::Bool));
    let third = record(State::Inferred, vec![("x", Ty::Real, RecordOp::Write)]);
    let fourth = record(State::Inferred, vec![("x", Ty::Str, RecordOp::Write)]);
    assert_eq!(
        solver.unify_tys(&Ty::Record(third), &Ty::Record(fourth), here()),
        Err(TypeError::Mismatch(Ty::Real, Ty::Str, here()))
    );
}

#[test]
fn a_record_bound_to_a_variable_grows_in_place() {
    let mut solver = Solver::new();
    solver.bind_var(
        fresh(0),
        Ty::Record(record(State::Extendable, vec![("x", Ty::Real, RecordOp::Write)])),
    );
    let more = record(State::Inferred, vec![("y", Ty::Real, RecordOp::Write)]);
    assert_eq!(solver.unify_var(&fresh(0), &Ty::Record(more), here()), Ok(()));
    match solver.query_var(fresh(0)) {
        Some(Ty::Record(grown)) => {
            assert_eq!(names(&grown), vec!["x".to_string(), "y".to_string()])
        }
        other => panic!("{:?}", other),
    }
}

#[test]
fn the_merged_record_is_as_closed_as_the_more_closed_one() {
    let mut solver = Solver::new();
    let closed = record(State::Concrete, vec![("x", Ty::Real, RecordOp::Write)]);
    let open = record(State::Inferred, vec![("x", Ty::Real, RecordOp::Read)]);
    match solver.unify(&Ty::Record(open), &Ty::Record(closed), here(), 8) {
        Ok(Ty::Record(merged)) => assert_eq!(merged.state, State::Concrete),
        other => panic!("{:?}", other),
    }
    assert_eq!(State::Inferred.stricter(State::Extendable), State::Extendable);
    assert_eq!(State::Concrete.stricter(State::Inferred), State::Concrete);
    assert_eq!(State::Extendable.stricter(State::Extendable), State::Extendable);
}

#[test]
fn read_before_declare_is_illegal_on_a_concrete_record() {
    let mut solver = Solver::new();
    let fields = vec![("a".to_string(), field(Ty::Real, RecordOp::Write))];
    let closed = Record::concrete(fields, &mut solver).unwrap();
    assert_eq!(closed.state, State::Concrete);
    let read = record(State::Inferred, vec![("b", Ty::Var(fresh(0)), RecordOp::Read)]);
    assert_eq!(
        solver.unify_tys(&Ty::Record(closed.duplicate()), &Ty::Record(read.duplicate()), here()),
        Err(TypeError::IllegalExtension {
            name: "b".to_string(),
            state: State::Concrete,
            location: here()
        })
    );
    assert_eq!(
        solver.unify_tys(&Ty::Record(read), &Ty::Record(closed), here()),
        Err(TypeError::IllegalExtension {
            name: "b".to_string(),
            state: State::Concrete,
            location: here()
        })
    );
    assert_eq!(solver.binding(fresh(0)), None);
}

#[test]
fn a_concrete_record_unifies_fields_of_one_name() {
    let mut solver = Solver::new();
    let fields = vec![
        ("a".to_string(), field(Ty::Var(fresh(0)), RecordOp::Write)),
        ("a".to_string(), field(Ty::Real, RecordOp::Write)),
    ];
    let closed = Record::concrete(fields, &mut solver).unwrap();
    assert_eq!(closed.fields.len(), 1);
    assert_eq!(solver.query_var(fresh(0)), Some(Ty::Real));
    let clash = vec![
        ("a".to_string(), field(Ty::Bool, RecordOp::Write)),
        ("a".to_string(), field(Ty::Real, RecordOp::Write)),
    ];
    assert_eq!(
        Record::concrete(clash, &mut solver),
        Err(TypeError::Mismatch(Ty::Bool, Ty::Real, here()))
    );
}

#[test]
fn a_record_from_fields_is_closed() {
    let made = Record::from(vec![("a".to_string(), field(Ty::Real, RecordOp::Write))]);
    assert_eq!(made.state, State::Concrete);
    assert!(made.contains("a"));
}

#[test]
fn functions_unify_place_by_place() {
    let mut solver = Solver::new();
    let definition = Ty::Func(Func::Def(Def {
        binding: None,
        parameters: vec![Ty::Var(fresh(0))],
        return_type: Box::new(Ty::Var(fresh(0))),
    }));
    let call = Ty::Func(Func::Call(Call {
        parameters: vec![Ty::Bool],
        return_type: Box::new(Ty::Var(fresh(1))),
    }));
    match solver.unify(&definition, &call, here(), 8) {
        Ok(Ty::Func(Func::Def(merged))) => assert_eq!(merged.parameters.len(), 1),
        other => panic!("{:?}", other),
    }
    assert_eq!(solver.query_var(fresh(0)), Some(Ty::Bool));
    assert_eq!(solver.query_var(fresh(1)), Some(Ty::Bool));
}

#[test]
fn functions_of_unlike_arity_are_a_mismatch() {
    let mut solver = Solver::new();
    let none = Ty::Func(Func::Call(Call { parameters: vec![], return_type: Box::new(Ty::Real) }));
    let one = Ty::Func(Func::Call(Call {
        parameters: vec![Ty::Real],
        return_type: Box::new(Ty::Real),
    }));
    assert!(matches!(solver.unify_tys(&none, &one, here()), Err(TypeError::Mismatch(..))));
    let signature = Func::Call(Call { parameters: vec![Ty::Real, Ty::Str], return_type: Box::new(Ty::Bool) });
    assert_eq!(signature.parameters(), &vec![Ty::Real, Ty::Str]);
    assert_eq!(signature.return_type(), &Ty::Bool);
}

#[test]
fn scopes_are_entered_and_left() {
    let mut solver = Solver::new();
    assert_eq!(solver.depart_local_scope(), None);
    assert_eq!(solver.depart_self_scope(), None);
    let local = solver.enter_new_local_scope().unwrap();
    assert_eq!(local, Var::Fresh(2));
    assert_eq!(solver.local_var(), local);
    let own = solver.enter_new_self_scope().unwrap();
    assert_eq!(own, Var::Fresh(3));
    assert_eq!(solver.current_self_var(), own);
    assert_eq!(solver.apply_at(local, "x", field(Ty::Real, RecordOp::Write)), Ok(()));
    assert!(solver.scope_contains(local, "x"));
    assert!(!solver.scope_contains(own, "x"));
    assert_eq!(solver.scope_of("x"), local);
    assert_eq!(solver.scope_of("y"), own);
    assert_eq!(solver.depart_local_scope(), Some(local));
    assert_eq!(solver.depart_self_scope(), Some(own));
    assert_eq!(solver.local_var(), Var::Fresh(1));
    assert_eq!(solver.query_field(local, "x"), Some(Ty::Real));
    assert_eq!(solver.fresh_var(), Some(Var::Fresh(4)));
}

#[test]
fn applying_a_field_twice_unifies_its_types() {
    let mut solver = Solver::new();
    let scope = solver.local_var();
    assert_eq!(solver.apply_at(scope, "x", field(Ty::Var(fresh(0)), RecordOp::Write)), Ok(()));
    assert_eq!(solver.apply_at(scope, "x", field(Ty::Real, RecordOp::Read)), Ok(()));
    assert_eq!(solver.query_local("x"), Some(Ty::Real));
    assert_eq!(
        solver.apply_at(scope, "x", field(Ty::Str, RecordOp::Write)),
        Err(TypeError::Mismatch(Ty::Real, Ty::Str, here()))
    );
    solver.bind_var(fresh(1), Ty::Real);
    assert_eq!(
        solver.apply_at(fresh(1), "x", field(Ty::Real, RecordOp::Write)),
        Err(TypeError::Mismatch(Ty::Real, Ty::Record(Record::inferred()), here()))
    );
}

#[test]
fn sealing_closes_a_scope() {
    let mut solver = Solver::new();
    let scope = solver.enter_new_self_scope().unwrap();
    assert_eq!(solver.apply_at(scope, "a", field(Ty::Real, RecordOp::Write)), Ok(()));
    solver.seal(scope);
    assert_eq!(solver.self_scope().unwrap().state, State::Concrete);
    assert_eq!(
        solver.apply_at(scope, "b", field(Ty::Real, RecordOp::Write)),
        Err(TypeError::IllegalExtension {
            name: "b".to_string(),
            state: State::Concrete,
            location: here()
        })
    );
}

#[test]
fn globals_are_a_scope_of_their_own() {
    let mut solver = Solver::new();
    assert_eq!(solver.apply_global("score", field(Ty::Uninitialized, RecordOp::Write)), Ok(()));
    assert_eq!(solver.query_global("score"), Some(Ty::Uninitialized));
    assert_eq!(solver.apply_global("score", field(Ty::Real, RecordOp::Write)), Ok(()));
    assert_eq!(solver.query_global("score"), Some(Ty::Real));
    assert_eq!(solver.query_global("lives"), None);
    assert_eq!(solver.query_local("score"), None);
    assert_eq!(solver.global_scope().fields.len(), 1);
}

#[test]
fn the_return_slot_keeps_the_first_type() {
    let mut solver = Solver::new();
    assert_eq!(solver.return_slot(), None);
    assert_eq!(solver.constrain_return(Ty::Real, here()), Ok(()));
    assert_eq!(solver.return_slot(), Some(Ty::Real));
    assert_eq!(solver.constrain_return(Ty::Real, here()), Ok(()));
    assert_eq!(
        solver.constrain_return(Ty::Str, here()),
        Err(TypeError::Mismatch(Ty::Real, Ty::Str, here()))
    );
    assert_eq!(solver.var_eq_ty(fresh(0), Ty::Bool, here()), Ok(()));
    assert_eq!(solver.query_var(fresh(0)), Some(Ty::Bool));
}

#[test]
fn canonizing_shortens_the_chain() {
    let mut solver = Solver::new();
    solver.bind_var(fresh(0), Ty::Var(fresh(1)));
    solver.bind_var(fresh(1), Ty::Var(fresh(2)));
    assert_eq!(solver.canonize_var(fresh(0), here()), Ok(Ty::Var(fresh(2))));
    assert_eq!(solver.binding(fresh(0)), Some(Ty::Var(fresh(2))));
    solver.bind_var(fresh(2), Ty::Real);
    assert_eq!(solver.canonize_var(fresh(0), here()), Ok(Ty::Real));
    solver.bind_var(fresh(3), Ty::Array(Box::new(Ty::Real)));
    assert_eq!(solver.canonize_var(fresh(3), here()), Ok(Ty::Var(fresh(3))));
    assert_eq!(solver.resolve(&Ty::Var(fresh(3)), 8), Some(Ty::Array(Box::new(Ty::Real))));
    assert_eq!(solver.resolve(&Ty::Var(fresh(3)), 1), None);
    assert_eq!(solver.unbind_var(fresh(3)), Some(Ty::Array(Box::new(Ty::Real))));
    assert_eq!(solver.binding(fresh(3)), None);
}

#[test]
fn committing_a_field_operation_unifies() {
    let mut solver = Solver::new();
    assert_eq!(FieldOp::NewValue.commit(&mut solver), Ok(()));
    let operation =
        FieldOp::Unification { previous: Ty::Var(fresh(0)), new: Ty::Str, location: here() };
    assert_eq!(operation.commit(&mut solver), Ok(()));
    assert_eq!(solver.query_var(fresh(0)), Some(Ty::Str));
    let clash = FieldOp::Unification { previous: Ty::Real, new: Ty::Str, location: here() };
    assert_eq!(clash.commit(&mut solver), Err(TypeError::Mismatch(Ty::Real, Ty::Str, here())));
}

#[test]
fn errors_know_their_place() {
    let errors = vec![
        TypeError::Mismatch(Ty::Real, Ty::Str, here()),
        TypeError::IllegalExtension { name: "a".to_string(), state: State::Concrete, location: here() },
        TypeError::Cyclic(fresh(0), Ty::Real, here()),
        TypeError::LimitExceeded(here()),
    ];
    for error in errors {
        assert_eq!(error.location(), here());
        assert_eq!(error.duplicate(), error);
    }
    assert_eq!(here().1.start(), 3);
    assert_eq!(here().1.end(), 9);
    assert_eq!(Location::default(), Location(0, Span(0, 0)));
    assert_eq!(Span::default(), Span(0, 0));
}

#[test]
fn a_binding_that_would_take_fields_away_is_not_made() {
    let mut solver = Solver::new();
    let big = record(State::Extendable, vec![("x", Ty::Real, RecordOp::Write), ("y", Ty::Real, RecordOp::Write)]);
    let small = record(State::Extendable, vec![("x", Ty::Real, RecordOp::Write)]);
    assert!(small.within(&big));
    assert!(!big.within(&small));
    assert!(!record(State::Concrete, vec![]).within(&record(State::Inferred, vec![])));
    assert!(State::Inferred.at_most(State::Concrete));
    assert!(!State::Concrete.at_most(State::Extendable));
    solver.bind_var(fresh(0), Ty::Record(big.duplicate()));
    assert!(!solver.admits_binding(fresh(0), &Ty::Record(small.duplicate())));
    assert!(!solver.admits_binding(fresh(0), &Ty::Real));
    assert!(solver.admits_binding(fresh(0), &Ty::Record(big.duplicate())));
    solver.rebind(fresh(0), Ty::Record(small.duplicate()));
    assert_eq!(solver.binding(fresh(0)), Some(Ty::Record(big.duplicate())));
    solver.bind_var(fresh(1), Ty::Var(fresh(0)));
    assert!(!solver.is_terminal(fresh(1)));
    assert!(solver.is_terminal(fresh(0)));
    assert!(solver.is_terminal(fresh(2)));
    assert!(!solver.admits_binding(fresh(1), &Ty::Real));
    assert!(!solver.admits_binding(fresh(2), &Ty::Var(fresh(1))));
    assert!(!solver.admits_binding(fresh(2), &Ty::Var(fresh(2))));
    assert!(solver.admits_binding(fresh(2), &Ty::Var(fresh(0))));
    solver.bind_var(fresh(3), Ty::Record(small));
    assert!(solver.admits_binding(fresh(3), &Ty::Var(fresh(0))));
    assert!(!solver.admits_binding(fresh(0), &Ty::Var(fresh(3))));
    solver.rebind(fresh(3), Ty::Var(fresh(0)));
    assert_eq!(solver.root_of(fresh(3)), Some(fresh(0)));
}

#[test]
fn a_function_type_is_changed_in_place() {
    let mut call = Func::Call(Call {
        parameters: vec![Ty::Real],
        return_type: Box::new(Ty::Any),
    });
    call.parameters_mut().push(Ty::Bool);
    *call.return_type_mut() = Ty::Str;
    assert_eq!(
        call,
        Func::Call(Call {
            parameters: vec![Ty::Real, Ty::Bool],
            return_type: Box::new(Ty::Str),
        })
    );
    let mut def = Func::Def(Def {
        binding: None,
        parameters: vec![Ty::Any, Ty::Any],
        return_type: Box::new(Ty::Undefined),
    });
    def.parameters_mut()[1] = Ty::Real;
    *def.return_type_mut() = Ty::Array(Box::new(Ty::Real));
    assert_eq!(def.parameters(), &vec![Ty::Any, Ty::Real]);
    assert_eq!(def.return_type(), &Ty::Array(Box::new(Ty::Real)));
}

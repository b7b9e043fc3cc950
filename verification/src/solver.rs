use vstd::prelude::*;
use crate::parse::expression::ExpressionBox;
use crate::table::Table;
use crate::ty::{
    Field, FieldV, Func, FuncV, Record, RecordV, State, Ty, TyV, Var, fields_view, tys_view,
};

verus! {

/// How deep resolution and elaboration go unless the solver is told otherwise.
pub const DEFAULT_DEPTH_LIMIT: usize = 64;

/// A function value kept for elaboration at each of its call sites: the variable of the
/// function expression, the expression itself, and the scopes it was met in.
pub struct Template<'a> {
    pub var: Var,
    pub function: &'a ExpressionBox,
    pub self_scope: Var,
    pub local_scope: Var,
}

/// The mathematical value of a [`Template`].
pub ghost struct TemplateV {
    pub var: Var,
    pub function: ExpressionBox,
    pub self_scope: Var,
    pub local_scope: Var,
}

impl<'a> View for Template<'a> {
    type V = TemplateV;

    open spec fn view(&self) -> TemplateV {
        TemplateV {
            var: self.var,
            function: *self.function,
            self_scope: self.self_scope,
            local_scope: self.local_scope,
        }
    }
}

/// The values of a list of templates, in order.
pub open spec fn templates_view(templates: Seq<Template>) -> Seq<TemplateV> {
    Seq::new(templates.len(), |i: int| templates[i]@)
}

/// The state of one analysis: the substitution table, the scopes, and the templates of the
/// functions met so far.
pub struct Solver<'a> {
    pub(crate) subs: Table,
    pub(crate) top_local: Var,
    pub(crate) top_self: Var,
    pub(crate) local_scopes: Vec<Var>,
    pub(crate) self_scopes: Vec<Var>,
    pub(crate) globals: Record,
    pub(crate) return_slot: Option<Ty>,
    pub(crate) templates: Vec<Template<'a>>,
    pub(crate) next_var: u64,
    pub(crate) frame: u64,
    pub(crate) next_frame: u64,
    pub(crate) chain_limit: usize,
    pub(crate) depth_limit: usize,
}

/// The mathematical value of a [`Solver`].
pub ghost struct SolverV {
    /// The substitution table.
    pub subs: Map<Var, TyV>,
    /// The local scopes, the outermost first: never empty.
    pub locals: Seq<Var>,
    /// The self scopes, the outermost first: never empty.
    pub selves: Seq<Var>,
    /// The global scope.
    pub globals: RecordV,
    /// What the return statements of the function being elaborated were constrained to.
    pub return_slot: Option<TyV>,
    /// The functions met so far.
    pub templates: Seq<TemplateV>,
    /// The number of the next variable to mint.
    pub next_var: u64,
    /// The number of the elaboration in progress.
    pub frame: u64,
    /// The number of the next elaboration.
    pub next_frame: u64,
    /// One more than the number of bindings made: no chain of variables is longer unless it
    /// runs in a cycle.
    pub chain_limit: usize,
    /// How deep resolution and elaboration go.
    pub depth_limit: usize,
}

impl<'a> View for Solver<'a> {
    type V = SolverV;

    closed spec fn view(&self) -> SolverV {
        SolverV {
            subs: self.subs.bindings(),
            locals: seq![self.top_local] + self.local_scopes@,
            selves: seq![self.top_self] + self.self_scopes@,
            globals: self.globals@,
            return_slot: match self.return_slot {
                Some(ty) => Some(ty@),
                None => None,
            },
            templates: templates_view(self.templates@),
            next_var: self.next_var,
            frame: self.frame,
            next_frame: self.next_frame,
            chain_limit: self.chain_limit,
            depth_limit: self.depth_limit,
        }
    }
}

/// The head of a term.
pub ghost struct Head {
    /// The variable that the term is reached through.
    pub root: Option<Var>,
    /// The term, unless the variable is unbound.
    pub term: Option<TyV>,
}

impl Head {
    /// The shortest way to write the term: the variable it is reached through, or else itself.
    pub open spec fn form(self) -> TyV {
        match self.root {
            Some(root) => TyV::Var(root),
            None => self.term.unwrap(),
        }
    }
}

/// The head of a term, as the solver hands it out.
pub struct TermHead {
    pub root: Option<Var>,
    pub term: Option<Ty>,
}

impl View for TermHead {
    type V = Head;

    open spec fn view(&self) -> Head {
        Head {
            root: self.root,
            term: match self.term {
                Some(ty) => Some(ty@),
                None => None,
            },
        }
    }
}

impl TermHead {
    /// The shortest way to write the term: the variable it is reached through, or else itself.
    pub fn form(&self) -> (out: Ty)
        requires
            self.root.is_none() ==> self.term.is_some(),
        ensures
            out@ == self@.form(),
    {
        match self.root {
            Some(root) => Ty::Var(root),
            None => match &self.term {
                Some(ty) => ty.duplicate(),
                None => Ty::Any,
            },
        }
    }
}

/// An empty record inferred from context.
pub open spec fn empty_record() -> RecordV {
    RecordV { fields: Seq::empty(), state: State::Inferred }
}

impl SolverV {
    /// The state of a solver that has seen nothing: the two outermost scopes are bound to empty
    /// records, and nothing else is.
    pub open spec fn initial(depth_limit: usize) -> SolverV {
        SolverV {
            subs: Map::empty().insert(Var::Fresh(0), TyV::Record(empty_record())).insert(
                Var::Fresh(1),
                TyV::Record(empty_record()),
            ),
            locals: seq![Var::Fresh(1)],
            selves: seq![Var::Fresh(0)],
            globals: empty_record(),
            return_slot: None,
            templates: Seq::empty(),
            next_var: 2,
            frame: 0,
            next_frame: 1,
            chain_limit: 3,
            depth_limit,
        }
    }

    /// The state with `var` bound to `ty`.
    pub open spec fn bind(self, var: Var, ty: TyV) -> SolverV {
        SolverV {
            subs: self.subs.insert(var, ty),
            chain_limit: if self.chain_limit < usize::MAX {
                (self.chain_limit + 1) as usize
            } else {
                self.chain_limit
            },
            ..self
        }
    }

    /// The state with one more local scope.
    pub open spec fn push_local(self, var: Var) -> SolverV {
        SolverV { locals: self.locals.push(var), ..self }
    }

    /// The state with one more self scope.
    pub open spec fn push_self(self, var: Var) -> SolverV {
        SolverV { selves: self.selves.push(var), ..self }
    }

    /// The state without the innermost local scope; the outermost one stays.
    pub open spec fn pop_local(self) -> SolverV {
        if self.locals.len() > 1 {
            SolverV { locals: self.locals.drop_last(), ..self }
        } else {
            self
        }
    }

    /// The state without the innermost self scope; the outermost one stays.
    pub open spec fn pop_self(self) -> SolverV {
        if self.selves.len() > 1 {
            SolverV { selves: self.selves.drop_last(), ..self }
        } else {
            self
        }
    }

    /// Whether a variable can still be minted.
    pub open spec fn can_mint(self) -> bool {
        self.next_var < u64::MAX
    }

    /// The state after minting a variable.
    pub open spec fn minted(self) -> SolverV {
        SolverV { next_var: (self.next_var + 1) as u64, ..self }
    }

    /// The state with another return slot.
    pub open spec fn with_return_slot(self, slot: Option<TyV>) -> SolverV {
        SolverV { return_slot: slot, ..self }
    }

    /// Whether no chain goes on behind `var`: `var` is unbound or bound to a term that is no
    /// variable.
    pub open spec fn terminal(self, var: Var) -> bool {
        !(self.subs.contains_key(var) && self.subs[var] is Var)
    }

    /// Whether binding `var` to `ty` takes nothing away from what any variable stands for:
    /// `var` ends a chain, a variable that `ty` is ends a chain too, and where `var` is bound
    /// to a record, the record that it stands for afterwards holds every field of it and is at
    /// least as closed.
    pub open spec fn admits_binding(self, var: Var, ty: TyV) -> bool {
        &&& self.terminal(var)
        &&& match ty {
            TyV::Var(other) => {
                &&& other != var
                &&& self.terminal(other)
                &&& (self.subs.contains_key(var) && self.subs[var] is Record ==> {
                    &&& self.subs.contains_key(other)
                    &&& self.subs[other] matches TyV::Record(stays)
                    &&& self.subs[var]->Record_0.within(stays)
                })
            },
            _ => self.subs.contains_key(var) && self.subs[var] is Record ==> {
                &&& ty matches TyV::Record(bigger)
                &&& self.subs[var]->Record_0.within(bigger)
            },
        }
    }

    /// The state with `var` bound to `ty`, where that takes nothing away from what any
    /// variable stands for; the state as it is otherwise.
    pub open spec fn rebind(self, var: Var, ty: TyV) -> SolverV {
        if self.admits_binding(var, ty) {
            self.bind(var, ty)
        } else {
            self
        }
    }

    /// The state in which another elaboration is in progress.
    pub open spec fn with_frame(self, frame: u64) -> SolverV {
        SolverV { frame, ..self }
    }

    /// Whether another elaboration can still be numbered.
    pub open spec fn can_number(self) -> bool {
        self.next_frame < u64::MAX
    }

    /// The state after numbering an elaboration.
    pub open spec fn numbered(self) -> SolverV {
        SolverV { next_frame: (self.next_frame + 1) as u64, ..self }
    }

    /// The state after meeting a function.
    pub open spec fn with_template(self, template: TemplateV) -> SolverV {
        SolverV { templates: self.templates.push(template), ..self }
    }

    /// The variable of an expression in the elaboration in progress.
    pub open spec fn var_for(self, expr: ExpressionBox) -> Var {
        Var::Expr { frame: self.frame, id: expr.2 }
    }

    /// The state with another global scope.
    pub open spec fn with_globals(self, globals: RecordV) -> SolverV {
        SolverV { globals, ..self }
    }

    /// How many variables a chain may pass before it is taken to run in a cycle.
    pub open spec fn chain_fuel(self) -> nat {
        self.chain_limit as nat
    }

    /// The variable at the end of the chain that starts at `var`, unless the chain runs in a
    /// cycle.
    pub open spec fn root_of(self, var: Var) -> Option<Var> {
        self.root(var, self.chain_fuel())
    }

    /// The head of a term: for a variable, the end of its chain and the term bound there; for
    /// any other term, the term itself. `None` where the chain runs in a cycle.
    pub open spec fn head(self, ty: TyV) -> Option<Head> {
        match ty {
            TyV::Var(var) => match self.root_of(var) {
                Some(root) => Some(
                    Head {
                        root: Some(root),
                        term: if self.subs.contains_key(root) {
                            Some(self.subs[root])
                        } else {
                            None
                        },
                    },
                ),
                None => None,
            },
            _ => Some(Head { root: None, term: Some(ty) }),
        }
    }

    /// The state without a binding of `var`.
    pub open spec fn unbind(self, var: Var) -> SolverV {
        SolverV { subs: self.subs.remove(var), ..self }
    }

    /// The local scope in use.
    pub open spec fn local_var(self) -> Var {
        self.locals.last()
    }

    /// The self scope in use.
    pub open spec fn self_var(self) -> Var {
        self.selves.last()
    }

    /// Whether a function was met under that variable.
    #[verifier::opaque]
    pub open spec fn is_template(self, var: Var) -> bool {
        exists|i: int| 0 <= i < self.templates.len() && (#[trigger] self.templates[i]).var == var
    }

    /// Whether `i` is the place of the first function met under that variable.
    pub open spec fn first_template_at(self, var: Var, i: int) -> bool {
        &&& 0 <= i < self.templates.len()
        &&& self.templates[i].var == var
        &&& forall|j: int| 0 <= j < i ==> (#[trigger] self.templates[j]).var != var
    }

    /// The first function met under that variable, where one was.
    #[verifier::opaque]
    pub open spec fn template_for(self, var: Var) -> TemplateV {
        self.templates[choose|i: int| self.first_template_at(var, i)]
    }

    /// The variable at the end of the chain of variables that starts at `var`, unless the
    /// chain is longer than `fuel`.
    pub open spec fn root(self, var: Var, fuel: nat) -> Option<Var>
        decreases fuel,
    {
        if fuel == 0 {
            None
        } else if self.subs.contains_key(var) && self.subs[var] is Var {
            self.root(self.subs[var]->Var_0, (fuel - 1) as nat)
        } else {
            Some(var)
        }
    }

    /// Whether `var` is reachable from `ty` through the table. Where the search runs out of
    /// `fuel` the answer is yes.
    pub open spec fn occurs(self, var: Var, ty: TyV, fuel: nat) -> bool
        decreases fuel, 0nat,
    {
        if fuel == 0 {
            true
        } else {
            let rest = (fuel - 1) as nat;
            match ty {
                TyV::Var(other) => match self.root_of(other) {
                    None => true,
                    Some(root) => root == var || (self.subs.contains_key(root) && self.occurs(
                        var,
                        self.subs[root],
                        rest,
                    )),
                },
                TyV::Array(inner) => self.occurs(var, *inner, rest),
                TyV::Record(record) => self.occurs_in_fields(
                    var,
                    record.fields,
                    record.fields.len(),
                    rest,
                ),
                TyV::Func(FuncV::Def { parameters, return_type, .. }) => self.occurs(
                    var,
                    *return_type,
                    rest,
                ) || self.occurs_in(var, parameters, parameters.len(), rest),
                TyV::Func(FuncV::Call { parameters, return_type }) => self.occurs(
                    var,
                    *return_type,
                    rest,
                ) || self.occurs_in(var, parameters, parameters.len(), rest),
                _ => false,
            }
        }
    }

    /// Whether `var` is reachable from one of the first `n` terms.
    pub open spec fn occurs_in(self, var: Var, tys: Seq<TyV>, n: nat, fuel: nat) -> bool
        decreases fuel, n + 1,
    {
        if n == 0 || n > tys.len() {
            false
        } else {
            self.occurs_in(var, tys, (n - 1) as nat, fuel) || self.occurs(var, tys[n - 1], fuel)
        }
    }

    /// Whether `var` is reachable from the type of one of the first `n` fields.
    pub open spec fn occurs_in_fields(
        self,
        var: Var,
        fields: Seq<(Seq<char>, FieldV)>,
        n: nat,
        fuel: nat,
    ) -> bool
        decreases fuel, n + 1,
    {
        if n == 0 || n > fields.len() {
            false
        } else {
            self.occurs_in_fields(var, fields, (n - 1) as nat, fuel) || self.occurs(
                var,
                fields[n - 1].1.ty,
                fuel,
            )
        }
    }
}

impl<'a> Solver<'a> {
    /// A solver that has seen nothing.
    pub fn new() -> (solver: Solver<'a>)
        ensures
            solver@ == SolverV::initial(DEFAULT_DEPTH_LIMIT),
    {
        Solver::with_depth_limit(DEFAULT_DEPTH_LIMIT)
    }

    /// A solver that has seen nothing and goes `depth_limit` deep.
    pub fn with_depth_limit(depth_limit: usize) -> (solver: Solver<'a>)
        ensures
            solver@ == SolverV::initial(depth_limit),
    {
        let mut subs = Table::new();
        subs.bind(Var::Fresh(0), Ty::Record(Record::inferred()));
        subs.bind(Var::Fresh(1), Ty::Record(Record::inferred()));
        assert(subs.bindings() == SolverV::initial(depth_limit).subs);
        let solver = Solver {
            subs,
            top_local: Var::Fresh(1),
            top_self: Var::Fresh(0),
            local_scopes: Vec::new(),
            self_scopes: Vec::new(),
            globals: Record::inferred(),
            return_slot: None,
            templates: Vec::new(),
            next_var: 2,
            frame: 0,
            next_frame: 1,
            chain_limit: 3,
            depth_limit,
        };
        assert(solver@.locals =~= seq![Var::Fresh(1)]);
        assert(solver@.selves =~= seq![Var::Fresh(0)]);
        assert(solver@.templates =~= Seq::empty());
        solver
    }

    /// How deep resolution and elaboration go.
    pub fn depth_limit(&self) -> (limit: usize)
        ensures
            limit == self@.depth_limit,
    {
        self.depth_limit
    }

    /// The local scope in use.
    pub fn local_var(&self) -> (var: Var)
        ensures
            var == self@.local_var(),
    {
        if self.local_scopes.len() > 0 {
            self.local_scopes[self.local_scopes.len() - 1]
        } else {
            self.top_local
        }
    }

    /// The self scope in use.
    pub fn current_self_var(&self) -> (var: Var)
        ensures
            var == self@.self_var(),
    {
        if self.self_scopes.len() > 0 {
            self.self_scopes[self.self_scopes.len() - 1]
        } else {
            self.top_self
        }
    }

    /// A copy of the term that the variable is bound to, without following it further.
    pub fn binding(&self, var: Var) -> (found: Option<Ty>)
        ensures
            found.is_some() == self@.subs.contains_key(var),
            found.is_some() ==> found.unwrap()@ == self@.subs[var],
    {
        self.subs.lookup(var)
    }

    /// Whether a function was met under that variable.
    pub fn is_template(&self, var: Var) -> (yes: bool)
        ensures
            yes == self@.is_template(var),
    {
        self.find_template(var).is_some()
    }

    /// The place of the first function that was met under that variable.
    pub fn find_template(&self, var: Var) -> (found: Option<usize>)
        ensures
            found.is_some() == self@.is_template(var),
            match found {
                Some(i) => i < self@.templates.len() && self@.templates[i as int]
                    == self@.template_for(var),
                None => true,
            },
    {
        proof {
            reveal(SolverV::is_template);
            reveal(SolverV::template_for);
        }
        let mut i: usize = 0;
        while i < self.templates.len()
            invariant
                i <= self.templates.len(),
                forall|j: int| 0 <= j < i ==> (#[trigger] self@.templates[j]).var != var,
            decreases self.templates.len() - i,
        {
            if self.templates[i].var == var {
                assert(self@.templates[i as int].var == var);
                proof {
                    lemma_first_template_unique(self@, var, i as int);
                }
                return Some(i);
            }
            assert(self@.templates[i as int].var != var);
            i += 1;
        }
        None
    }

    /// The function that was met at place `i`.
    pub fn template_at(&self, i: usize) -> (template: &Template<'a>)
        requires
            i < self@.templates.len(),
        ensures
            template@ == self@.templates[i as int],
    {
        &self.templates[i]
    }

    /// The variable at the end of the chain of variables that starts at `var`, unless the
    /// chain is longer than `fuel`.
    pub fn find_root(&self, var: Var, fuel: usize) -> (root: Option<Var>)
        ensures
            root == self@.root(var, fuel as nat),
    {
        let mut current = var;
        let mut left = fuel;
        while left > 0
            invariant
                self@.root(current, left as nat) == self@.root(var, fuel as nat),
            decreases left,
        {
            let next = match self.subs.lookup(current) {
                Some(Ty::Var(next)) => Some(next),
                _ => None,
            };
            match next {
                Some(next) => {
                    current = next;
                    left = left - 1;
                },
                None => {
                    return Some(current);
                },
            }
        }
        None
    }

    /// The number of the elaboration in progress.
    pub fn current_frame(&self) -> (frame: u64)
        ensures
            frame == self@.frame,
    {
        self.frame
    }

    /// Makes `frame` the elaboration in progress.
    pub fn set_frame(&mut self, frame: u64)
        ensures
            final(self)@ == old(self)@.with_frame(frame),
    {
        self.frame = frame;
    }

    /// Numbers another elaboration, unless the solver has run out of numbers.
    pub fn number_frame(&mut self) -> (numbered: Option<u64>)
        ensures
            match numbered {
                Some(frame) => old(self)@.can_number() && frame == old(self)@.next_frame
                    && final(self)@ == old(self)@.numbered(),
                None => !old(self)@.can_number() && final(self)@ == old(self)@,
            },
    {
        if self.next_frame < u64::MAX {
            let frame = self.next_frame;
            self.next_frame = self.next_frame + 1;
            Some(frame)
        } else {
            None
        }
    }

    /// Keeps a function for elaboration at its call sites.
    pub fn register_template(&mut self, template: Template<'a>)
        ensures
            final(self)@ == old(self)@.with_template(template@),
    {
        self.templates.push(template);
        assert(self@.templates =~= old(self)@.templates.push(template@));
    }

    /// The variable of an expression in the elaboration in progress.
    pub fn var_for(&self, expr: &ExpressionBox) -> (var: Var)
        ensures
            var == self@.var_for(*expr),
    {
        Var::Expr { frame: self.frame, id: expr.2 }
    }

    /// Mints a variable, unless the solver has run out of them.
    pub fn fresh_var(&mut self) -> (minted: Option<Var>)
        ensures
            match minted {
                Some(var) => old(self)@.can_mint() && var == Var::Fresh(old(self)@.next_var)
                    && final(self)@ == old(self)@.minted(),
                None => !old(self)@.can_mint() && final(self)@ == old(self)@,
            },
    {
        if self.next_var < u64::MAX {
            let var = Var::Fresh(self.next_var);
            self.next_var = self.next_var + 1;
            Some(var)
        } else {
            None
        }
    }

    /// Makes the record that `var` stands for the local scope in use.
    pub fn enter_local_scope(&mut self, var: Var)
        ensures
            final(self)@ == old(self)@.push_local(var),
    {
        self.local_scopes.push(var);
        assert(self@.locals =~= old(self)@.locals.push(var));
    }

    /// Makes the record that `var` stands for the self scope in use.
    pub fn enter_self_scope(&mut self, var: Var)
        ensures
            final(self)@ == old(self)@.push_self(var),
    {
        self.self_scopes.push(var);
        assert(self@.selves =~= old(self)@.selves.push(var));
    }

    /// Leaves the innermost local scope and returns its variable, which stays bound. The
    /// outermost scope is never left.
    pub fn depart_local_scope(&mut self) -> (left: Option<Var>)
        ensures
            final(self)@ == old(self)@.pop_local(),
            left == if old(self)@.locals.len() > 1 {
                Some(old(self)@.locals.last())
            } else {
                None
            },
    {
        let left = self.local_scopes.pop();
        proof {
            if left.is_some() {
                assert(self@.locals =~= old(self)@.locals.drop_last());
            }
        }
        left
    }

    /// Leaves the innermost self scope and returns its variable, which stays bound. The
    /// outermost scope is never left.
    pub fn depart_self_scope(&mut self) -> (left: Option<Var>)
        ensures
            final(self)@ == old(self)@.pop_self(),
            left == if old(self)@.selves.len() > 1 {
                Some(old(self)@.selves.last())
            } else {
                None
            },
    {
        let left = self.self_scopes.pop();
        proof {
            if left.is_some() {
                assert(self@.selves =~= old(self)@.selves.drop_last());
            }
        }
        left
    }

    /// A copy of the global scope.
    pub fn global_scope(&self) -> (record: Record)
        ensures
            record@ == self@.globals,
    {
        self.globals.duplicate()
    }

    /// Replaces the global scope.
    pub fn set_global_scope(&mut self, globals: Record)
        ensures
            final(self)@ == old(self)@.with_globals(globals@),
    {
        self.globals = globals;
    }

    /// Binds the variable to the term, in place of any earlier binding.
    pub fn bind_var(&mut self, var: Var, ty: Ty)
        ensures
            final(self)@ == old(self)@.bind(var, ty@),
    {
        self.subs.bind(var, ty);
        if self.chain_limit < usize::MAX {
            self.chain_limit = self.chain_limit + 1;
        }
    }

    /// Whether no chain goes on behind `var`.
    pub fn is_terminal(&self, var: Var) -> (yes: bool)
        ensures
            yes == self@.terminal(var),
    {
        match self.subs.lookup(var) {
            Some(Ty::Var(_)) => false,
            _ => true,
        }
    }

    /// Whether binding `var` to `ty` takes nothing away from what any variable stands for.
    pub fn admits_binding(&self, var: Var, ty: &Ty) -> (yes: bool)
        ensures
            yes == self@.admits_binding(var, ty@),
    {
        let held = match self.subs.lookup(var) {
            Some(Ty::Var(_)) => {
                return false;
            },
            Some(Ty::Record(record)) => Some(record),
            _ => None,
        };
        match ty {
            Ty::Var(other) => {
                if *other == var || !self.is_terminal(*other) {
                    return false;
                }
                match held {
                    Some(record) => match self.subs.lookup(*other) {
                        Some(Ty::Record(stays)) => record.within(&stays),
                        _ => false,
                    },
                    None => true,
                }
            },
            Ty::Record(bigger) => match held {
                Some(record) => record.within(bigger),
                None => true,
            },
            _ => held.is_none(),
        }
    }

    /// Binds the variable to the term where that takes nothing away from what any variable
    /// stands for, and leaves the solver as it is otherwise.
    pub fn rebind(&mut self, var: Var, ty: Ty)
        ensures
            final(self)@ == old(self)@.rebind(var, ty@),
    {
        if self.admits_binding(var, &ty) {
            self.bind_var(var, ty);
        }
    }

    /// What the return statements of the function being elaborated were constrained to.
    pub fn return_slot(&self) -> (out: Option<Ty>)
        ensures
            match out {
                Some(ty) => self@.return_slot == Some(ty@),
                None => self@.return_slot.is_none(),
            },
    {
        match &self.return_slot {
            Some(ty) => Some(ty.duplicate()),
            None => None,
        }
    }

    /// Replaces what the return slot holds.
    pub fn set_return_slot(&mut self, slot: Option<Ty>)
        ensures
            final(self)@ == old(self)@.with_return_slot(
                match slot {
                    Some(ty) => Some(ty@),
                    None => None,
                },
            ),
    {
        self.return_slot = slot;
    }

    /// Removes the binding of the variable and returns the term it was bound to.
    pub fn unbind_var(&mut self, var: Var) -> (previous: Option<Ty>)
        ensures
            final(self)@ == old(self)@.unbind(var),
            previous.is_some() == old(self)@.subs.contains_key(var),
            previous.is_some() ==> previous.unwrap()@ == old(self)@.subs[var],
    {
        self.subs.unbind(var)
    }

    /// The variable at the end of the chain that starts at `var`, unless the chain runs in a
    /// cycle.
    pub fn root_of(&self, var: Var) -> (root: Option<Var>)
        ensures
            root == self@.root_of(var),
    {
        self.find_root(var, self.chain_limit)
    }

    /// The head of a term.
    pub fn head(&self, ty: &Ty) -> (head: Option<TermHead>)
        ensures
            match head {
                Some(h) => self@.head(ty@) == Some(h@),
                None => self@.head(ty@).is_none(),
            },
    {
        match ty {
            Ty::Var(var) => match self.root_of(*var) {
                Some(root) => Some(TermHead { root: Some(root), term: self.subs.lookup(root) }),
                None => None,
            },
            _ => Some(TermHead { root: None, term: Some(ty.duplicate()) }),
        }
    }

    /// Whether `var` is reachable from `ty` through the table. Where the search runs out of
    /// `fuel` the answer is yes.
    pub fn occurs(&self, var: Var, ty: &Ty, fuel: usize) -> (yes: bool)
        ensures
            yes == self@.occurs(var, ty@, fuel as nat),
        decreases fuel, 0nat,
    {
        if fuel == 0 {
            return true;
        }
        let rest = fuel - 1;
        match ty {
            Ty::Var(other) => match self.root_of(*other) {
                None => true,
                Some(root) => {
                    if root == var {
                        true
                    } else {
                        match self.subs.lookup(root) {
                            Some(bound) => self.occurs(var, &bound, rest),
                            None => false,
                        }
                    }
                },
            },
            Ty::Array(inner) => self.occurs(var, inner, rest),
            Ty::Record(record) => self.occurs_in_fields(var, &record.fields, rest),
            Ty::Func(Func::Def(d)) => {
                if self.occurs(var, &d.return_type, rest) {
                    return true;
                }
                self.occurs_in(var, &d.parameters, rest)
            },
            Ty::Func(Func::Call(c)) => {
                if self.occurs(var, &c.return_type, rest) {
                    return true;
                }
                self.occurs_in(var, &c.parameters, rest)
            },
            _ => false,
        }
    }

    /// Whether `var` is reachable from one of the terms through the table.
    pub fn occurs_in(&self, var: Var, tys: &Vec<Ty>, fuel: usize) -> (yes: bool)
        ensures
            yes == self@.occurs_in(var, tys_view(tys@), tys@.len(), fuel as nat),
        decreases fuel, 1nat,
    {
        let mut i: usize = 0;
        while i < tys.len()
            invariant
                i <= tys.len(),
                !self@.occurs_in(var, tys_view(tys@), i as nat, fuel as nat),
            decreases tys.len() - i,
        {
            if self.occurs(var, &tys[i], fuel) {
                proof {
                    lemma_occurs_in_grows(self@, var, tys_view(tys@), (i + 1) as nat, tys@.len(), fuel as nat);
                }
                return true;
            }
            i += 1;
        }
        false
    }

    /// Whether `var` is reachable from the type of one of the fields through the table.
    pub fn occurs_in_fields(&self, var: Var, fields: &Vec<(String, Field)>, fuel: usize) -> (yes:
        bool)
        ensures
            yes == self@.occurs_in_fields(var, fields_view(fields@), fields@.len(), fuel as nat),
        decreases fuel, 1nat,
    {
        let mut i: usize = 0;
        while i < fields.len()
            invariant
                i <= fields.len(),
                !self@.occurs_in_fields(var, fields_view(fields@), i as nat, fuel as nat),
            decreases fields.len() - i,
        {
            if self.occurs(var, &fields[i].1.ty, fuel) {
                proof {
                    lemma_occurs_in_fields_grows(
                        self@,
                        var,
                        fields_view(fields@),
                        (i + 1) as nat,
                        fields@.len(),
                        fuel as nat,
                    );
                }
                return true;
            }
            i += 1;
        }
        false
    }
}

/// What is found among the first terms is found among more of them.
pub proof fn lemma_occurs_in_grows(s: SolverV, var: Var, tys: Seq<TyV>, n: nat, m: nat, fuel: nat)
    requires
        s.occurs_in(var, tys, n, fuel),
        n <= m <= tys.len(),
    ensures
        s.occurs_in(var, tys, m, fuel),
    decreases m,
{
    if n < m {
        lemma_occurs_in_grows(s, var, tys, n, (m - 1) as nat, fuel);
    }
}

/// What is found among the first fields is found among more of them.
pub proof fn lemma_occurs_in_fields_grows(
    s: SolverV,
    var: Var,
    fields: Seq<(Seq<char>, FieldV)>,
    n: nat,
    m: nat,
    fuel: nat,
)
    requires
        s.occurs_in_fields(var, fields, n, fuel),
        n <= m <= fields.len(),
    ensures
        s.occurs_in_fields(var, fields, m, fuel),
    decreases m,
{
    if n < m {
        lemma_occurs_in_fields_grows(s, var, fields, n, (m - 1) as nat, fuel);
    }
}

/// The first function met under a variable stands at one place only.
pub proof fn lemma_first_template_unique(s: SolverV, var: Var, i: int)
    requires
        s.first_template_at(var, i),
    ensures
        s.is_template(var),
        s.template_for(var) == s.templates[i],
{
    reveal(SolverV::is_template);
    reveal(SolverV::template_for);
    let k = choose|k: int| s.first_template_at(var, k);
    assert(s.first_template_at(var, k));
    if k < i {
        assert(s.templates[k].var != var);
    }
    if i < k {
        assert(s.templates[i].var != var);
    }
}

/// A chain that ends within some fuel ends at the same variable with more.
pub proof fn lemma_root_more_fuel(s: SolverV, var: Var, fuel: nat, more: nat)
    requires
        s.root(var, fuel).is_some(),
        fuel <= more,
    ensures
        s.root(var, more) == s.root(var, fuel),
    decreases fuel,
{
    if fuel > 0 && s.subs.contains_key(var) && s.subs[var] is Var {
        lemma_root_more_fuel(s, s.subs[var]->Var_0, (fuel - 1) as nat, (more - 1) as nat);
    }
}

} // verus!

use vstd::prelude::*;

verus! {

/// An enum declared somewhere in a project.
#[derive(Debug, PartialEq)]
pub struct GmlEnum {
    pub name: String,
    pub members: Vec<String>,
}

/// The mathematical value of a [`GmlEnum`].
pub ghost struct GmlEnumV {
    pub name: Seq<char>,
    pub members: Seq<Seq<char>>,
}

/// The values of a list of names.
pub open spec fn names_view(names: Seq<String>) -> Seq<Seq<char>> {
    Seq::new(names.len(), |i: int| names[i]@)
}

impl View for GmlEnum {
    type V = GmlEnumV;

    open spec fn view(&self) -> GmlEnumV {
        GmlEnumV { name: self.name@, members: names_view(self.members@) }
    }
}

impl GmlEnum {
    /// An enum without members.
    pub fn new(name: String) -> (out: GmlEnum)
        ensures
            out@ == (GmlEnumV { name: name@, members: Seq::empty() }),
    {
        let out = GmlEnum { name, members: Vec::new() };
        assert(out@.members =~= Seq::empty());
        out
    }

    /// Adds a member at the end.
    pub fn add_member(&mut self, member: String)
        ensures
            final(self)@ == (GmlEnumV { name: old(self)@.name, members: old(self)@.members.push(member@) }),
    {
        self.members.push(member);
        assert(self@.members =~= old(self)@.members.push(member@));
    }

    /// The name of the enum.
    pub fn name(&self) -> (name: &str)
        ensures
            name@ == self@.name,
    {
        self.name.as_str()
    }

    /// A deep copy of the enum.
    pub fn duplicate(&self) -> (out: GmlEnum)
        ensures
            out@ == self@,
    {
        let mut members: Vec<String> = Vec::new();
        let mut i: usize = 0;
        while i < self.members.len()
            invariant
                i <= self.members.len(),
                members@.len() == i,
                forall|j: int| 0 <= j < i ==> (#[trigger] members@[j])@ == self.members@[j]@,
            decreases self.members.len() - i,
        {
            members.push(self.members[i].clone());
            i += 1;
        }
        let out = GmlEnum { name: self.name.clone(), members };
        assert(out@.members =~= self@.members);
        out
    }
}

/// The enums of a project, by name.
#[derive(Debug)]
pub struct Environment {
    enums: Vec<GmlEnum>,
}

/// What a list of registrations amounts to: each name with the enum registered last under it.
pub open spec fn registered(enums: Seq<GmlEnum>) -> Map<Seq<char>, GmlEnumV>
    decreases enums.len(),
{
    if enums.len() == 0 {
        Map::empty()
    } else {
        registered(enums.drop_last()).insert(enums.last()@.name, enums.last()@)
    }
}

/// The registrations of `later` made after those of `earlier`.
pub open spec fn merged(earlier: Map<Seq<char>, GmlEnumV>, later: Map<Seq<char>, GmlEnumV>) -> Map<
    Seq<char>,
    GmlEnumV,
> {
    earlier.union_prefer_right(later)
}

/// The environment in which nothing is registered.
pub open spec fn nothing_registered() -> Map<Seq<char>, GmlEnumV> {
    Map::empty()
}

proof fn lemma_registered_push(enums: Seq<GmlEnum>, gml_enum: GmlEnum)
    ensures
        registered(enums.push(gml_enum)) == registered(enums).insert(gml_enum@.name, gml_enum@),
{
    assert(enums.push(gml_enum).drop_last() =~= enums);
}

proof fn lemma_registered_append(earlier: Seq<GmlEnum>, later: Seq<GmlEnum>)
    ensures
        registered(earlier + later) == merged(registered(earlier), registered(later)),
    decreases later.len(),
{
    if later.len() == 0 {
        assert(earlier + later =~= earlier);
        assert(merged(registered(earlier), registered(later)) =~= registered(earlier));
    } else {
        let front = later.drop_last();
        lemma_registered_append(earlier, front);
        assert((earlier + later).drop_last() =~= earlier + front);
        assert((earlier + later).last() == later.last());
        assert(registered(earlier + later) =~= merged(registered(earlier), registered(later)));
    }
}

impl View for Environment {
    type V = Map<Seq<char>, GmlEnumV>;

    closed spec fn view(&self) -> Map<Seq<char>, GmlEnumV> {
        registered(self.enums@)
    }
}

impl Environment {
    /// An environment in which nothing is registered.
    pub fn new() -> (out: Environment)
        ensures
            out@ == nothing_registered(),
    {
        Environment { enums: Vec::new() }
    }

    /// Registers an enum under its name, in place of any enum registered under it before.
    pub fn register_enum(&mut self, gml_enum: GmlEnum)
        ensures
            final(self)@ == old(self)@.insert(gml_enum@.name, gml_enum@),
    {
        proof {
            lemma_registered_push(self.enums@, gml_enum);
        }
        self.enums.push(gml_enum);
    }

    /// The enum registered under that name.
    pub fn find_enum(&self, name: &str) -> (found: Option<&GmlEnum>)
        ensures
            found.is_some() == self@.contains_key(name@),
            found.is_some() ==> found.unwrap()@ == self@[name@],
    {
        let key = name.to_owned();
        let mut i: usize = self.enums.len();
        assert(self.enums@.subrange(0, i as int) =~= self.enums@);
        while i > 0
            invariant
                i <= self.enums.len(),
                key@ == name@,
                registered(self.enums@).contains_key(name@) == registered(
                    self.enums@.subrange(0, i as int),
                ).contains_key(name@),
                registered(self.enums@).contains_key(name@) ==> registered(self.enums@)[name@]
                    == registered(self.enums@.subrange(0, i as int))[name@],
            decreases i,
        {
            let ghost prefix = self.enums@.subrange(0, i as int);
            assert(prefix.drop_last() =~= self.enums@.subrange(0, i - 1));
            assert(prefix.last() == self.enums@[i - 1]);
            i -= 1;
            if self.enums[i].name == key {
                return Some(&self.enums[i]);
            }
        }
        None
    }

    /// Registers every enum of `other`, in place of the enums registered here under the same
    /// names.
    pub fn copy_from(&mut self, other: &Environment)
        ensures
            final(self)@ == merged(old(self)@, other@),
    {
        let mut i: usize = 0;
        assert(other.enums@.subrange(0, 0) =~= Seq::empty());
        assert(merged(self@, nothing_registered()) =~= self@);
        while i < other.enums.len()
            invariant
                i <= other.enums.len(),
                self@ == merged(old(self)@, registered(other.enums@.subrange(0, i as int))),
            decreases other.enums.len() - i,
        {
            let copy = other.enums[i].duplicate();
            proof {
                let shorter = other.enums@.subrange(0, i as int);
                let longer = other.enums@.subrange(0, i + 1);
                assert(longer.drop_last() =~= shorter);
                assert(longer.last() == other.enums@[i as int]);
                lemma_registered_push(self.enums@, copy);
                assert(merged(old(self)@, registered(shorter)).insert(copy@.name, copy@) =~= merged(
                    old(self)@,
                    registered(longer),
                ));
            }
            self.enums.push(copy);
            i += 1;
        }
        assert(other.enums@.subrange(0, i as int) =~= other.enums@);
    }
}

impl Default for Environment {
    fn default() -> (out: Environment)
        ensures
            out@ == nothing_registered(),
    {
        Environment::new()
    }
}

} // verus!

use vstd::prelude::*;

verus! {

/// A macro declared somewhere in a project.
#[derive(Debug, PartialEq)]
pub struct GmlMacro {
    pub name: String,
    pub resource_path: String,
}

/// The mathematical value of a [`GmlMacro`].
pub ghost struct GmlMacroV {
    pub name: Seq<char>,
    pub resource_path: Seq<char>,
}

impl View for GmlMacro {
    type V = GmlMacroV;

    open spec fn view(&self) -> GmlMacroV {
        GmlMacroV { name: self.name@, resource_path: self.resource_path@ }
    }
}

impl GmlMacro {
    /// The macro of that name, found in that file.
    pub fn new(name: String, resource_path: String) -> (out: GmlMacro)
        ensures
            out@ == (GmlMacroV { name: name@, resource_path: resource_path@ }),
    {
        GmlMacro { name, resource_path }
    }
}

/// A constructor declared somewhere in a project; one without a name is anonymous.
#[derive(Debug, PartialEq)]
pub struct GmlConstructor {
    pub name: Option<String>,
    pub resource_path: String,
}

/// The mathematical value of a [`GmlConstructor`].
pub ghost struct GmlConstructorV {
    pub name: Option<Seq<char>>,
    pub resource_path: Seq<char>,
}

/// The value of a name that may be missing.
pub open spec fn name_view(name: Option<String>) -> Option<Seq<char>> {
    match name {
        Some(name) => Some(name@),
        None => None,
    }
}

impl View for GmlConstructor {
    type V = GmlConstructorV;

    open spec fn view(&self) -> GmlConstructorV {
        GmlConstructorV { name: name_view(self.name), resource_path: self.resource_path@ }
    }
}

impl GmlConstructor {
    /// The constructor of that name, found in that file.
    pub fn new(name: Option<String>, resource_path: String) -> (out: GmlConstructor)
        ensures
            out@ == (GmlConstructorV { name: name_view(name), resource_path: resource_path@ }),
    {
        GmlConstructor { name, resource_path }
    }
}

/// A use of a keyword that has a sign of the same meaning, with the file it stands in.
#[derive(Debug, PartialEq)]
pub enum GmlKeywords {
    And(String),
    Or(String),
}

/// The mathematical value of a [`GmlKeywords`].
pub ghost enum GmlKeywordsV {
    And(Seq<char>),
    Or(Seq<char>),
}

impl View for GmlKeywords {
    type V = GmlKeywordsV;

    open spec fn view(&self) -> GmlKeywordsV {
        match *self {
            GmlKeywords::And(path) => GmlKeywordsV::And(path@),
            GmlKeywords::Or(path) => GmlKeywordsV::Or(path@),
        }
    }
}

/// What a switch statement does with a value that no case names.
#[derive(Debug, PartialEq)]
pub enum GmlSwitchStatementDefault {
    /// It has no default case.
    Missing,
    /// It has a default case.
    Present,
    /// Its default case reports a value of the named type that was not expected.
    TypeAssert(String),
}

/// The mathematical value of a [`GmlSwitchStatementDefault`].
pub ghost enum GmlSwitchStatementDefaultV {
    Missing,
    Present,
    TypeAssert(Seq<char>),
}

impl View for GmlSwitchStatementDefault {
    type V = GmlSwitchStatementDefaultV;

    open spec fn view(&self) -> GmlSwitchStatementDefaultV {
        match *self {
            GmlSwitchStatementDefault::Missing => GmlSwitchStatementDefaultV::Missing,
            GmlSwitchStatementDefault::Present => GmlSwitchStatementDefaultV::Present,
            GmlSwitchStatementDefault::TypeAssert(name) => GmlSwitchStatementDefaultV::TypeAssert(
                name@,
            ),
        }
    }
}

/// A switch statement found somewhere in a project.
#[derive(Debug, PartialEq)]
pub struct GmlSwitchStatement {
    pub default_case: GmlSwitchStatementDefault,
    pub resource_path: String,
    pub cases: Vec<String>,
}

/// The mathematical value of a [`GmlSwitchStatement`].
pub ghost struct GmlSwitchStatementV {
    pub default_case: GmlSwitchStatementDefaultV,
    pub resource_path: Seq<char>,
    pub cases: Seq<Seq<char>>,
}

/// The values of a list of texts.
pub open spec fn texts_view(texts: Seq<String>) -> Seq<Seq<char>> {
    Seq::new(texts.len(), |i: int| texts[i]@)
}

impl View for GmlSwitchStatement {
    type V = GmlSwitchStatementV;

    open spec fn view(&self) -> GmlSwitchStatementV {
        GmlSwitchStatementV {
            default_case: self.default_case@,
            resource_path: self.resource_path@,
            cases: texts_view(self.cases@),
        }
    }
}

impl GmlSwitchStatement {
    /// The switch statement with that default case and those cases, found in that file.
    pub fn new(
        default_case: GmlSwitchStatementDefault,
        resource_path: String,
        cases: Vec<String>,
    ) -> (out: GmlSwitchStatement)
        ensures
            out@ == (GmlSwitchStatementV {
                default_case: default_case@,
                resource_path: resource_path@,
                cases: texts_view(cases@),
            }),
    {
        GmlSwitchStatement { default_case, resource_path, cases }
    }
}

} // verus!

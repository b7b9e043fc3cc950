use vstd::prelude::*;
use crate::paint::{
    AliasMap, alias_contents, alias_get, alias_insert, alias_new, holds_escape, join_texts,
    joined_text, paint_blue_bold, paint_green, paint_grey_bold, paint_red, paint_yellow, shows,
    texts_of,
};
use crate::table::{key_of, lemma_key_injective, var_key};
use crate::ty::{Field, FieldV, Func, FuncV, Record, State, Ty, TyV, Var, fields_view, tys_view};

verus! {

/// How many letters stand for variables before the first is used again.
pub const LETTERS: usize = 83;

/// Writes types and variables for people to read. Every variable gets a letter the first
/// time it is written and keeps it.
pub struct Printer {
    aliases: AliasMap,
    letters: Vec<&'static str>,
    iter: usize,
}

/// The mathematical value of a [`Printer`].
pub ghost struct PrinterV {
    /// The place of the letter of each variable that was written.
    pub aliases: Map<Var, usize>,
    /// The letters, in the order they are given out.
    pub letters: Seq<Seq<char>>,
    /// The place of the letter that is given out next.
    pub iter: usize,
}

/// The values of a list of letters.
pub open spec fn letters_view(letters: Seq<&'static str>) -> Seq<Seq<char>> {
    Seq::new(letters.len(), |i: int| letters[i]@)
}

impl View for Printer {
    type V = PrinterV;

    closed spec fn view(&self) -> PrinterV {
        PrinterV {
            aliases: Map::new(
                |var: Var| alias_contents(self.aliases).contains_key(key_of(var)),
                |var: Var| alias_contents(self.aliases)[key_of(var)],
            ),
            letters: letters_view(self.letters@),
            iter: self.iter,
        }
    }
}

/// The letters that stand for variables, in the order they are given out: the alphabet,
/// capitals first, and behind it letters with hooks and bars.
pub open spec fn letter_texts() -> Seq<Seq<char>> {
    seq![
        "A"@,
        "B"@,
        "C"@,
        "D"@,
        "E"@,
        "F"@,
        "G"@,
        "H"@,
        "I"@,
        "J"@,
        "K"@,
        "L"@,
        "M"@,
        "N"@,
        "O"@,
        "P"@,
        "Q"@,
        "R"@,
        "S"@,
        "T"@,
        "U"@,
        "V"@,
        "W"@,
        "X"@,
        "Y"@,
        "Z"@,
        "a"@,
        "b"@,
        "c"@,
        "d"@,
        "e"@,
        "f"@,
        "g"@,
        "h"@,
        "i"@,
        "j"@,
        "k"@,
        "l"@,
        "m"@,
        "n"@,
        "o"@,
        "p"@,
        "q"@,
        "r"@,
        "s"@,
        "t"@,
        "u"@,
        "v"@,
        "w"@,
        "x"@,
        "y"@,
        "z"@,
        "\u{182}"@,
        "\u{186}"@,
        "\u{188}"@,
        "\u{189}"@,
        "\u{18b}"@,
        "\u{18e}"@,
        "\u{18f}"@,
        "\u{190}"@,
        "\u{194}"@,
        "\u{195}"@,
        "\u{196}"@,
        "\u{197}"@,
        "\u{19a}"@,
        "\u{19b}"@,
        "\u{19c}"@,
        "\u{19e}"@,
        "\u{19f}"@,
        "\u{1a1}"@,
        "\u{1a2}"@,
        "\u{1a4}"@,
        "\u{1a5}"@,
        "\u{1a8}"@,
        "\u{1a9}"@,
        "\u{1ab}"@,
        "\u{1ac}"@,
        "\u{1b1}"@,
        "\u{1b2}"@,
        "\u{1b6}"@,
        "\u{1b9}"@,
        "\u{1be}"@,
        "\u{1bf}"@,
    ]
}

/// The letters that stand for variables, in the order they are given out.
pub fn alphabet() -> (out: Vec<&'static str>)
    ensures
        out@.len() == LETTERS,
        letters_view(out@) == letter_texts(),
{
    let out = vec![
        "A",
        "B",
        "C",
        "D",
        "E",
        "F",
        "G",
        "H",
        "I",
        "J",
        "K",
        "L",
        "M",
        "N",
        "O",
        "P",
        "Q",
        "R",
        "S",
        "T",
        "U",
        "V",
        "W",
        "X",
        "Y",
        "Z",
        "a",
        "b",
        "c",
        "d",
        "e",
        "f",
        "g",
        "h",
        "i",
        "j",
        "k",
        "l",
        "m",
        "n",
        "o",
        "p",
        "q",
        "r",
        "s",
        "t",
        "u",
        "v",
        "w",
        "x",
        "y",
        "z",
        "\u{182}",
        "\u{186}",
        "\u{188}",
        "\u{189}",
        "\u{18b}",
        "\u{18e}",
        "\u{18f}",
        "\u{190}",
        "\u{194}",
        "\u{195}",
        "\u{196}",
        "\u{197}",
        "\u{19a}",
        "\u{19b}",
        "\u{19c}",
        "\u{19e}",
        "\u{19f}",
        "\u{1a1}",
        "\u{1a2}",
        "\u{1a4}",
        "\u{1a5}",
        "\u{1a8}",
        "\u{1a9}",
        "\u{1ab}",
        "\u{1ac}",
        "\u{1b1}",
        "\u{1b2}",
        "\u{1b6}",
        "\u{1b9}",
        "\u{1be}",
        "\u{1bf}",
    ];
    assert(letters_view(out@) =~= letter_texts());
    out
}

impl PrinterV {
    /// Whether the printer can give out letters.
    pub open spec fn wf(self) -> bool {
        &&& self.letters.len() > 0
        &&& self.iter < self.letters.len()
        &&& forall|var: Var| #[trigger]
            self.aliases.contains_key(var) ==> self.aliases[var] < self.letters.len()
    }

    /// The printer after `var` was written, and the place of its letter: the letter it has,
    /// or else the next letter, after which the letter behind it comes next, or the first
    /// letter again behind the last.
    pub open spec fn alias(self, var: Var) -> (PrinterV, usize) {
        if self.aliases.contains_key(var) {
            (self, self.aliases[var])
        } else {
            (
                PrinterV {
                    aliases: self.aliases.insert(var, self.iter),
                    iter: if self.iter + 1 >= self.letters.len() {
                        0
                    } else {
                        (self.iter + 1) as usize
                    },
                    ..self
                },
                self.iter,
            )
        }
    }

    /// The letter that `var` is written as.
    pub open spec fn letter_of(self, var: Var) -> Seq<char> {
        self.letters[self.alias(var).1 as int]
    }

    /// The printer after a type was written, and the text of the type. The parts of a type
    /// are written in order, and a variable is written as its letter.
    pub open spec fn render(self, ty: TyV) -> (PrinterV, Seq<char>)
        decreases ty, 0nat,
    {
        match ty {
            TyV::Uninitialized => (self, "<null>"@),
            TyV::Any => (self, "any"@),
            TyV::Undefined => (self, "undefined"@),
            TyV::Noone => (self, "noone"@),
            TyV::Bool => (self, "bool"@),
            TyV::Real => (self, "real"@),
            TyV::Str => (self, "string"@),
            TyV::Array(inner) => {
                let (after, text) = self.render(*inner);
                (after, "["@ + text + "]"@)
            },
            TyV::Var(var) => {
                let (after, place) = self.alias(var);
                (after, self.letters[place as int])
            },
            TyV::Record(record) => if record.fields.len() == 0 {
                (self, "{}"@)
            } else {
                let (after, texts) = self.render_fields(record.fields, Seq::empty());
                (after, state_mark(record.state) + "{ "@ + joined_text(texts, ", "@) + " }"@)
            },
            TyV::Func(FuncV::Def { parameters, return_type, .. }) => {
                let (after, texts) = self.render_all(parameters, Seq::empty());
                let (last, text) = after.render(*return_type);
                (last, "fn ("@ + joined_text(texts, ", "@) + ") -> "@ + text)
            },
            TyV::Func(FuncV::Call { parameters, return_type }) => {
                let (after, texts) = self.render_all(parameters, Seq::empty());
                let (last, text) = after.render(*return_type);
                (last, "("@ + joined_text(texts, ", "@) + ") -> "@ + text)
            },
        }
    }

    /// The texts of the types of a list from the place `done.len()` on, behind `done`.
    pub open spec fn render_all(self, tys: Seq<TyV>, done: Seq<Seq<char>>) -> (
        PrinterV,
        Seq<Seq<char>>,
    )
        decreases tys, tys.len() - done.len(),
    {
        if done.len() >= tys.len() {
            (self, done)
        } else {
            let (after, text) = self.render(tys[done.len() as int]);
            after.render_all(tys, done.push(text))
        }
    }

    /// The texts of the fields of a list from the place `done.len()` on, behind `done`: the
    /// name of each field, a colon, and its type.
    pub open spec fn render_fields(
        self,
        fields: Seq<(Seq<char>, FieldV)>,
        done: Seq<Seq<char>>,
    ) -> (PrinterV, Seq<Seq<char>>)
        decreases fields, fields.len() - done.len(),
    {
        if done.len() >= fields.len() {
            (self, done)
        } else {
            let (name, field) = fields[done.len() as int];
            let (after, text) = self.render(field.ty);
            after.render_fields(fields, done.push(name + ": "@ + text))
        }
    }
}

/// The mark that tells how open a record is.
pub open spec fn state_mark(state: State) -> Seq<char> {
    match state {
        State::Inferred => "?"@,
        State::Extendable => "mut "@,
        State::Concrete => ""@,
    }
}

impl Printer {
    #[verifier::type_invariant]
    spec fn can_give_letters(self) -> bool {
        self@.wf()
    }

    /// A printer that has written nothing.
    pub fn new() -> (printer: Printer)
        ensures
            printer@.wf(),
            printer@.iter == 0,
            printer@.letters == letter_texts(),
            forall|var: Var| !printer@.aliases.contains_key(var),
    {
        Printer { aliases: alias_new(), letters: alphabet(), iter: 0 }
    }

    /// Forgets the letters given out so far.
    pub fn flush(&mut self)
        ensures
            final(self)@.wf(),
            final(self)@.iter == 0,
            final(self)@.letters == old(self)@.letters,
            forall|var: Var| !final(self)@.aliases.contains_key(var),
    {
        proof {
            use_type_invariant(&*self);
        }
        self.aliases = alias_new();
        self.iter = 0;
    }

    /// Whether the variable was given a letter.
    pub fn has_alias(&self, var: &Var) -> (yes: bool)
        ensures
            yes == self@.aliases.contains_key(*var),
    {
        alias_get(&self.aliases, var_key(*var)).is_some()
    }

    /// The letter of a variable, as plain text.
    pub fn plain_var(&mut self, var: &Var) -> (text: String)
        ensures
            final(self)@.wf(),
            final(self)@ == old(self)@.alias(*var).0,
            text@ == old(self)@.letters[old(self)@.alias(*var).1 as int],
    {
        proof {
            use_type_invariant(&*self);
        }
        assert(self.iter < self.letters@.len());
        let place = match alias_get(&self.aliases, var_key(*var)) {
            Some(place) => {
                assert(self@.aliases.contains_key(*var));
                place
            },
            None => {
                let place = self.iter;
                let count = self.letters.len();
                self.iter = if place >= count - 1 {
                    0
                } else {
                    place + 1
                };
                let mut aliases = alias_new();
                std::mem::swap(&mut self.aliases, &mut aliases);
                alias_insert(&mut aliases, var_key(*var), place);
                proof {
                    assert forall|other: Var|
                        alias_contents(aliases).contains_key(
                            #[trigger] key_of(other),
                        ) implies alias_contents(aliases)[key_of(other)] < self.letters@.len() by {
                        if key_of(other) != key_of(*var) {
                            assert(old(self)@.aliases.contains_key(other));
                        }
                    }
                }
                std::mem::swap(&mut self.aliases, &mut aliases);
                proof {
                    assert forall|other: Var| #[trigger] key_of(other) == key_of(*var) implies other
                        == *var by {
                        lemma_key_injective(other, *var);
                    }
                    assert(self@.aliases =~= old(self)@.aliases.insert(*var, place));
                }
                place
            },
        };
        self.letters[place].to_owned()
    }

    /// The text of a type, as plain text.
    pub fn plain_ty(&mut self, ty: &Ty) -> (text: String)
        ensures
            final(self)@.wf(),
            (final(self)@, text@) == old(self)@.render(ty@),
        decreases ty, 0nat,
    {
        proof {
            use_type_invariant(&*self);
        }
        match ty {
            Ty::Uninitialized => "<null>".to_owned(),
            Ty::Any => "any".to_owned(),
            Ty::Undefined => "undefined".to_owned(),
            Ty::Noone => "noone".to_owned(),
            Ty::Bool => "bool".to_owned(),
            Ty::Real => "real".to_owned(),
            Ty::Str => "string".to_owned(),
            Ty::Array(inner) => {
                let text = self.plain_ty(inner);
                let out = "[".to_owned().concat(text.as_str()).concat("]");
                assert((self@, out@) == old(self)@.render(ty@));
                out
            },
            Ty::Var(var) => {
                let out = self.plain_var(var);
                assert((self@, out@) == old(self)@.render(ty@));
                out
            },
            Ty::Record(record) => {
                if record.fields.len() == 0 {
                    let out = "{}".to_owned();
                    assert(fields_view(record.fields@).len() == 0);
                    assert((self@, out@) == old(self)@.render(ty@));
                    out
                } else {
                    let texts = self.plain_fields(&record.fields);
                    let mark = match record.state {
                        State::Inferred => "?",
                        State::Extendable => "mut ",
                        State::Concrete => "",
                    };
                    assert(mark@ == state_mark(record.state));
                    let out = mark.to_owned().concat("{ ").concat(
                        join_texts(&texts, ", ").as_str(),
                    ).concat(" }");
                    assert((self@, out@) == old(self)@.render(ty@));
                    out
                }
            },
            Ty::Func(Func::Def(d)) => {
                let texts = self.plain_all(&d.parameters);
                let text = self.plain_ty(&d.return_type);
                let out = "fn (".to_owned().concat(join_texts(&texts, ", ").as_str()).concat(
                    ") -> ",
                ).concat(text.as_str());
                assert((self@, out@) == old(self)@.render(ty@));
                out
            },
            Ty::Func(Func::Call(c)) => {
                let texts = self.plain_all(&c.parameters);
                let text = self.plain_ty(&c.return_type);
                let out = "(".to_owned().concat(join_texts(&texts, ", ").as_str()).concat(
                    ") -> ",
                ).concat(text.as_str());
                assert((self@, out@) == old(self)@.render(ty@));
                out
            },
        }
    }

    /// The texts of the types of a list.
    pub fn plain_all(&mut self, tys: &Vec<Ty>) -> (texts: Vec<String>)
        ensures
            final(self)@.wf(),
            (final(self)@, texts_of(texts@)) == old(self)@.render_all(tys_view(tys@), Seq::empty()),
        decreases tys, 1nat,
    {
        proof {
            use_type_invariant(&*self);
        }
        let mut texts: Vec<String> = Vec::new();
        assert(texts_of(texts@) =~= Seq::empty());
        let mut i: usize = 0;
        while i < tys.len()
            invariant
                i <= tys.len(),
                texts@.len() == i,
                self@.wf(),
                self@.render_all(tys_view(tys@), texts_of(texts@)) == old(self)@.render_all(
                    tys_view(tys@),
                    Seq::empty(),
                ),
            decreases tys.len() - i,
        {
            let ghost before = texts_of(texts@);
            let text = self.plain_ty(&tys[i]);
            texts.push(text);
            assert(texts_of(texts@) =~= before.push(text@));
            i += 1;
        }
        texts
    }

    /// The texts of the fields of a list.
    pub fn plain_fields(&mut self, fields: &Vec<(String, Field)>) -> (texts: Vec<String>)
        ensures
            final(self)@.wf(),
            (final(self)@, texts_of(texts@)) == old(self)@.render_fields(
                fields_view(fields@),
                Seq::empty(),
            ),
        decreases fields, 1nat,
    {
        proof {
            use_type_invariant(&*self);
        }
        let mut texts: Vec<String> = Vec::new();
        assert(texts_of(texts@) =~= Seq::empty());
        let mut i: usize = 0;
        while i < fields.len()
            invariant
                i <= fields.len(),
                texts@.len() == i,
                self@.wf(),
                self@.render_fields(fields_view(fields@), texts_of(texts@)) == old(
                    self,
                )@.render_fields(fields_view(fields@), Seq::empty()),
            decreases fields.len() - i,
        {
            let ghost before = texts_of(texts@);
            let entry = &fields[i];
            assert(fields_view(fields@)[i as int] == (entry.0@, entry.1@));
            let ty = self.plain_ty(&entry.1.ty);
            let text = entry.0.clone().concat(": ").concat(ty.as_str());
            texts.push(text);
            assert(texts_of(texts@) =~= before.push(text@));
            i += 1;
        }
        texts
    }

    /// The letter of a variable, as a terminal shows it in bold grey: the letter itself, or the
    /// letter between what switches the style on and off.
    pub fn var(&mut self, var: &Var) -> (text: String)
        ensures
            final(self)@.wf(),
            final(self)@ == old(self)@.alias(*var).0,
            !holds_escape(old(self)@.letter_of(*var)) ==> shows(text@, old(self)@.letter_of(*var)),
    {
        paint_grey_bold(self.plain_var(var))
    }

    /// The text of a type, as a terminal shows it in bold blue: the plain text itself, or the
    /// plain text between what switches the style on and off.
    pub fn ty(&mut self, ty: &Ty) -> (text: String)
        ensures
            final(self)@.wf(),
            final(self)@ == old(self)@.render(ty@).0,
            !holds_escape(old(self)@.render(ty@).1) ==> shows(text@, old(self)@.render(ty@).1),
    {
        paint_blue_bold(self.plain_ty(ty))
    }

    /// The line that tells of a query for the type of an expression, which is named by its
    /// text.
    pub fn query(&mut self, expression: &str, var: &Var) -> (text: String)
        ensures
            final(self)@.wf(),
            final(self)@ == old(self)@.alias(*var).0,
            !holds_escape(old(self)@.letter_of(*var)) ==> shows_line(
                text@,
                "QUERY"@,
                "        "@,
                expression@,
                ": "@,
                old(self)@.letter_of(*var),
            ),
    {
        let ghost letter = self@.letter_of(*var);
        let right = self.var(var);
        let label = paint_red("QUERY");
        proof {
            lemma_labels_are_plain();
            lemma_shows_itself(expression@);
            if !holds_escape(letter) {
                lemma_line_is_shown(label@, "        "@, expression@, ": "@, right@, "QUERY"@, expression@, letter);
            }
        }
        written_line(label, "        ", expression.to_owned(), ": ", right)
    }

    /// The line that tells of the unification of two types.
    pub fn ty_unification(&mut self, a: &Ty, b: &Ty) -> (text: String)
        ensures
            final(self)@.wf(),
            final(self)@ == old(self)@.render(a@).0.render(b@).0,
            !holds_escape(old(self)@.render(a@).1) && !holds_escape(
                old(self)@.render(a@).0.render(b@).1,
            ) ==> shows_line(
                text@,
                "UNIFY T"@,
                "      "@,
                old(self)@.render(a@).1,
                "   \u{225f}   "@,
                old(self)@.render(a@).0.render(b@).1,
            ),
    {
        let ghost first = self@.render(a@).1;
        let ghost second = self@.render(a@).0.render(b@).1;
        let left = self.ty(a);
        let right = self.ty(b);
        let label = paint_yellow("UNIFY T");
        proof {
            lemma_labels_are_plain();
            if !holds_escape(first) && !holds_escape(second) {
                lemma_line_is_shown(label@, "      "@, left@, "   \u{225f}   "@, right@, "UNIFY T"@, first, second);
            }
        }
        written_line(label, "      ", left, "   \u{225f}   ", right)
    }

    /// The line that tells of the unification of a variable with a type.
    pub fn var_unification(&mut self, var: &Var, ty: &Ty) -> (text: String)
        ensures
            final(self)@.wf(),
            final(self)@ == old(self)@.alias(*var).0.render(ty@).0,
            !holds_escape(old(self)@.letter_of(*var)) && !holds_escape(
                old(self)@.alias(*var).0.render(ty@).1,
            ) ==> shows_line(
                text@,
                "UNIFY M"@,
                "      "@,
                old(self)@.letter_of(*var),
                "   \u{225f}   "@,
                old(self)@.alias(*var).0.render(ty@).1,
            ),
    {
        let ghost first = self@.letter_of(*var);
        let ghost second = self@.alias(*var).0.render(ty@).1;
        let left = self.var(var);
        let right = self.ty(ty);
        let label = paint_yellow("UNIFY M");
        proof {
            lemma_labels_are_plain();
            if !holds_escape(first) && !holds_escape(second) {
                lemma_line_is_shown(label@, "      "@, left@, "   \u{225f}   "@, right@, "UNIFY M"@, first, second);
            }
        }
        written_line(label, "      ", left, "   \u{225f}   ", right)
    }

    /// The line that tells of the substitution of a type for a variable.
    pub fn substitution(&mut self, var: &Var, ty: &Ty) -> (text: String)
        ensures
            final(self)@.wf(),
            final(self)@ == old(self)@.alias(*var).0.render(ty@).0,
            !holds_escape(old(self)@.letter_of(*var)) && !holds_escape(
                old(self)@.alias(*var).0.render(ty@).1,
            ) ==> shows_line(
                text@,
                "SUB"@,
                "          "@,
                old(self)@.letter_of(*var),
                "   \u{2192}   "@,
                old(self)@.alias(*var).0.render(ty@).1,
            ),
    {
        let ghost first = self@.letter_of(*var);
        let ghost second = self@.alias(*var).0.render(ty@).1;
        let left = self.var(var);
        let right = self.ty(ty);
        let label = paint_green("SUB");
        proof {
            lemma_labels_are_plain();
            if !holds_escape(first) && !holds_escape(second) {
                lemma_line_is_shown(label@, "          "@, left@, "   \u{2192}   "@, right@, "SUB"@, first, second);
            }
        }
        written_line(label, "          ", left, "   \u{2192}   ", right)
    }
}

/// Whether a text is a line of a painted label, a gap, a painted left side, a sign and a
/// painted right side.
pub open spec fn shows_line(
    text: Seq<char>,
    label: Seq<char>,
    gap: Seq<char>,
    left: Seq<char>,
    sign: Seq<char>,
    right: Seq<char>,
) -> bool {
    exists|l: Seq<char>, a: Seq<char>, b: Seq<char>|
        shows(l, label) && shows(a, left) && shows(b, right) && text == #[trigger] line_of(
            l,
            gap,
            a,
            sign,
            b,
        )
}

/// A label, a gap, a left side, a sign and a right side, one after the other.
pub open spec fn line_of(
    label: Seq<char>,
    gap: Seq<char>,
    left: Seq<char>,
    sign: Seq<char>,
    right: Seq<char>,
) -> Seq<char> {
    label + gap + left + sign + right
}

/// A text shows itself.
pub proof fn lemma_shows_itself(text: Seq<char>)
    ensures
        shows(text, text),
{
    assert(text =~= Seq::<char>::empty() + text + Seq::<char>::empty());
}

/// The labels of the lines hold no escape character.
proof fn lemma_labels_are_plain()
    ensures
        !holds_escape("QUERY"@),
        !holds_escape("UNIFY T"@),
        !holds_escape("UNIFY M"@),
        !holds_escape("SUB"@),
{
    reveal_strlit("QUERY");
    reveal_strlit("UNIFY T");
    reveal_strlit("UNIFY M");
    reveal_strlit("SUB");
}

/// A line of parts that show a label, a left side and a right side shows the line.
proof fn lemma_line_is_shown(
    l: Seq<char>,
    gap: Seq<char>,
    a: Seq<char>,
    sign: Seq<char>,
    b: Seq<char>,
    label: Seq<char>,
    left: Seq<char>,
    right: Seq<char>,
)
    requires
        shows(l, label),
        shows(a, left),
        shows(b, right),
    ensures
        shows_line(line_of(l, gap, a, sign, b), label, gap, left, sign, right),
{
}

/// A line of a label, a gap, a left side, a sign and a right side.
pub fn written_line(label: String, gap: &str, left: String, sign: &str, right: String) -> (text: String)
    ensures
        text@ == line_of(label@, gap@, left@, sign@, right@),
{
    label.concat(gap).concat(left.as_str()).concat(sign).concat(right.as_str())
}

} // verus!

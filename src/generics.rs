//! Type parameters with their bounds, and lists of them.

use vstd::prelude::*;

use crate::text::{
    join, lemma_literals, lemma_subrange_within, lemma_terminated_in_order, newline, push_joined_strings, push_strs, push_terminated,
    sources, strs, terminated, terminated_offset, texts,
};
use crate::traits::SrcCode;

verus! {

/// The model of a [`Generic`].
pub ghost struct GenericView {
    /// The parameter's name, such as `T`.
    pub name: Seq<char>,
    /// The names of its bounds, in the order they were added; repeats kept.
    pub bounds: Seq<Seq<char>>,
}

impl GenericView {
    /// The constraint line: `name: bound1 + bound2,`, with an empty
    /// right-hand side (`name: ,`) when there is no bound.
    pub open spec fn constraint(self) -> Seq<char> {
        self.name + seq![':', ' '] + join(self.bounds, seq![' ', '+', ' ']) + seq![',']
    }
}

/// A type parameter and the bounds it must satisfy.
#[derive(Debug, Clone)]
pub struct Generic {
    name: String,
    traits: Vec<String>,
}

impl View for Generic {
    type V = GenericView;

    closed spec fn view(&self) -> GenericView {
        GenericView { name: self.name@, bounds: texts(self.traits@) }
    }
}

impl Generic {
    /// A parameter named `name` with no bounds.
    pub fn new(name: &str) -> (r: Generic)
        ensures
            r@ == (GenericView { name: name@, bounds: seq![] }),
    {
        let r = Generic { name: String::from_str(name), traits: Vec::new() };
        assert(texts(r.traits@) =~= seq![]);
        r
    }

    /// Adds the bounds of `traits`, in order, after those already held.
    pub fn add_trait_bounds(&mut self, traits: Vec<&str>) -> (r: &mut Self)
        ensures
            (*r)@ == (GenericView { bounds: old(self)@.bounds + strs(traits@), ..old(self)@ }),
            *final(self) == *final(r),
    {
        push_strs(&mut self.traits, &traits);
        self
    }
}

impl SrcCode for Generic {
    open spec fn source(&self) -> Seq<char> {
        self@.constraint()
    }

    fn generate(&self) -> (r: String) {
        let mut out = self.name.clone();
        proof {
            lemma_literals();
        }
        out.append(": ");
        push_joined_strings(&mut out, &self.traits, " + ");
        out.append(",");
        assert(out@ =~= self@.constraint());
        out
    }
}

/// The names of the parameters of `gs`.
pub open spec fn generic_names(gs: Seq<GenericView>) -> Seq<Seq<char>> {
    gs.map_values(|g: GenericView| g.name)
}

/// The bracketed parameter list `<T, S>`, or nothing when `gs` is empty.
pub open spec fn params_source(gs: Seq<GenericView>) -> Seq<char> {
    if gs.len() == 0 {
        Seq::empty()
    } else {
        seq!['<'] + join(generic_names(gs), seq![',', ' ']) + seq!['>']
    }
}

/// The constraint clause: a line break, `where`, then one constraint line
/// per parameter, each ended by a line break; nothing when `gs` is empty.
pub open spec fn where_source(gs: Seq<GenericView>) -> Seq<char> {
    if gs.len() == 0 {
        Seq::empty()
    } else {
        newline() + seq!['w', 'h', 'e', 'r', 'e'] + newline() + terminated(
            constraint_lines(gs),
            newline(),
        )
    }
}

/// The rendering of a list of parameters: the parameter list followed by the
/// constraint clause, or nothing when `gs` is empty.
pub open spec fn generics_source(gs: Seq<GenericView>) -> Seq<char> {
    params_source(gs) + where_source(gs)
}

/// The constraint lines of `gs`, in order.
pub open spec fn constraint_lines(gs: Seq<GenericView>) -> Seq<Seq<char>> {
    gs.map_values(|g: GenericView| g.constraint())
}

/// Where the constraint line of the parameter at `i` starts in
/// `generics_source(gs)`.
pub open spec fn constraint_offset(gs: Seq<GenericView>, i: int) -> int {
    params_source(gs).len() + 7 + terminated_offset(constraint_lines(gs), newline(), i)
}

/// A list without parameters renders as nothing at all: no brackets and no
/// constraint clause.
pub proof fn lemma_empty_generics_render_nothing(gs: Seq<GenericView>)
    requires
        gs.len() == 0,
    ensures
        generics_source(gs) == Seq::<char>::empty(),
{
    assert(generics_source(gs) =~= Seq::<char>::empty());
}

/// A non-empty list renders one constraint line per parameter, in the order
/// the parameters were added: the line of the parameter at `i` stands at its
/// offset, ends in `,` and is followed by a line break, and it ends before
/// the line of any later parameter `j` starts.
pub proof fn lemma_generics_constraints_in_order(gs: Seq<GenericView>, i: int, j: int)
    requires
        0 <= i <= j < gs.len(),
    ensures
        ({
            let src = generics_source(gs);
            let line = gs[i].constraint();
            let start = constraint_offset(gs, i);
            &&& src.subrange(start, start + line.len()) == line
            &&& line.last() == ','
            &&& src.subrange(start + line.len(), start + line.len() + 1) == newline()
            &&& i < j ==> start + line.len() < constraint_offset(gs, j)
        }),
{
    let lines = constraint_lines(gs);
    let body = terminated(lines, newline());
    let head = params_source(gs) + newline() + seq!['w', 'h', 'e', 'r', 'e'] + newline();
    assert(generics_source(gs) =~= head + body + Seq::<char>::empty());
    let si = terminated_offset(lines, newline(), i);
    let line = gs[i].constraint();
    assert(lines[i] == line);
    lemma_terminated_in_order(lines, newline(), i, j);
    lemma_subrange_within(head, body, Seq::<char>::empty(), si, si + line.len());
    lemma_subrange_within(head, body, Seq::<char>::empty(), si + line.len(), si + line.len() + 1);
}

/// An ordered list of type parameters.
#[derive(Debug, Clone)]
pub struct Generics {
    generics: Vec<Generic>,
}

impl View for Generics {
    type V = Seq<GenericView>;

    closed spec fn view(&self) -> Seq<GenericView> {
        self.generics@.map_values(|g: Generic| g@)
    }
}

impl Generics {
    /// A list holding `generics`, in order.
    pub fn new(generics: Vec<Generic>) -> (r: Generics)
        ensures
            r@ == generics@.map_values(|g: Generic| g@),
    {
        Generics { generics }
    }

    /// Adds `generic` after the parameters already held.
    pub fn add_generic(&mut self, generic: Generic) -> (r: &mut Self)
        ensures
            (*r)@ == old(self)@.push(generic@),
            *final(self) == *final(r),
    {
        self.generics.push(generic);
        assert(self@ =~= old(self)@.push(generic@));
        self
    }

    /// The number of parameters held.
    pub fn len(&self) -> (r: usize)
        ensures
            r == self@.len(),
    {
        self.generics.len()
    }

    /// Whether no parameter is held.
    pub fn is_empty(&self) -> (r: bool)
        ensures
            r == (self@.len() == 0),
    {
        self.len() == 0
    }

    /// Appends the parameter list of these generics to `out`.
    pub fn push_params(&self, out: &mut String)
        ensures
            final(out)@ == old(out)@ + params_source(self@),
    {
        if self.generics.len() > 0 {
            let ghost start = out@;
            let ghost names = generic_names(self@);
            proof {
                lemma_literals();
            }
            out.append("<");
            let mut i: usize = 0;
            while i < self.generics.len()
                invariant
                    i <= self.generics.len(),
                    names == generic_names(self@),
                    ", "@ == seq![',', ' '],
                    out@ == start + seq!['<'] + join(names.subrange(0, i as int), seq![',', ' ']),
                decreases self.generics.len() - i,
            {
                assert(names.subrange(0, i + 1).drop_last() =~= names.subrange(0, i as int));
                assert(names[i as int] == self.generics@[i as int].name@);
                if i > 0 {
                    out.append(", ");
                }
                out.append(self.generics[i].name.as_str());
                i = i + 1;
            }
            assert(names.subrange(0, names.len() as int) =~= names);
            out.append(">");
        }
    }

    /// Appends the constraint clause of these generics to `out`.
    pub fn push_where(&self, out: &mut String)
        ensures
            final(out)@ == old(out)@ + where_source(self@),
    {
        if self.generics.len() > 0 {
            proof {
                lemma_literals();
            }
            out.append("\nwhere\n");
            push_terminated(out, &self.generics, "\n");
            assert(sources(self.generics@) =~= constraint_lines(self@));
        }
    }
}

impl SrcCode for Generics {
    open spec fn source(&self) -> Seq<char> {
        generics_source(self@)
    }

    fn generate(&self) -> (r: String) {
        let mut out = String::new();
        self.push_params(&mut out);
        self.push_where(&mut out);
        out
    }
}

} // verus!

//! Impl blocks: functions bound to a type, optionally as the implementation
//! of a trait.

use vstd::prelude::*;

use crate::function::{Function, FunctionView};
use crate::generics::{params_source, where_source, Generic, GenericView, Generics};
use crate::item_trait::{Trait, TraitView};
use crate::text::{lemma_literals, newline, push_terminated, sources, terminated};
use crate::traits::SrcCode;

verus! {

/// The model of an [`Impl`].
pub ghost struct ImplView {
    /// The name of the type the functions are bound to.
    pub target: Seq<char>,
    /// The trait implemented, if any.
    pub implemented: Option<TraitView>,
    /// The functions, in the order they were added.
    pub functions: Seq<FunctionView>,
    pub generics: Seq<GenericView>,
}

impl ImplView {
    /// The rendered functions, in order.
    pub open spec fn function_sources(self) -> Seq<Seq<char>> {
        self.functions.map_values(|f: FunctionView| f.source())
    }

    /// `Trait for ` when a trait is implemented, else nothing.
    pub open spec fn trait_part(self) -> Seq<char> {
        match self.implemented {
            Some(t) => t.name + seq![' ', 'f', 'o', 'r', ' '],
            None => Seq::empty(),
        }
    }

    /// The rendering: `impl`, the generic parameter list, a space, then
    /// `Trait for Target` or `Target`, the constraint clause, and between
    /// braces every function on a line of its own.
    pub open spec fn source(self) -> Seq<char> {
        seq!['i', 'm', 'p', 'l'] + params_source(self.generics) + seq![' '] + self.trait_part()
            + self.target + where_source(self.generics) + newline() + seq!['{'] + newline()
            + terminated(self.function_sources(), newline()) + seq!['}']
    }
}

/// An impl block.
#[derive(Debug, Clone)]
pub struct Impl {
    generics: Generics,
    impl_trait: Option<Trait>,
    functions: Vec<Function>,
    obj_name: String,
}

/// The model of an optional trait.
pub open spec fn opt_trait_view(t: Option<Trait>) -> Option<TraitView> {
    match t {
        Some(t) => Some(t@),
        None => None,
    }
}

impl View for Impl {
    type V = ImplView;

    closed spec fn view(&self) -> ImplView {
        ImplView {
            target: self.obj_name@,
            implemented: opt_trait_view(self.impl_trait),
            functions: self.functions@.map_values(|f: Function| f@),
            generics: self.generics@,
        }
    }
}

impl Impl {
    /// An impl block for the type named `obj_name`, implementing `tr8t` when
    /// one is given, with no function and no generics.
    pub fn new(obj_name: &str, tr8t: Option<Trait>) -> (r: Impl)
        ensures
            r@ == (ImplView {
                target: obj_name@,
                implemented: opt_trait_view(tr8t),
                functions: seq![],
                generics: seq![],
            }),
    {
        let r = Impl {
            generics: Generics::new(Vec::new()),
            impl_trait: tr8t,
            functions: Vec::new(),
            obj_name: String::from_str(obj_name),
        };
        assert(r@.generics =~= seq![]);
        assert(r@.functions =~= seq![]);
        r
    }

    /// Adds `function` after the functions already held.
    pub fn add_function(&mut self, function: Function) -> (r: &mut Self)
        ensures
            (*r)@ == (ImplView { functions: old(self)@.functions.push(function@), ..old(self)@ }),
            *final(self) == *final(r),
    {
        self.functions.push(function);
        assert(self@.functions =~= old(self)@.functions.push(function@));
        self
    }

    /// Adds `generic` after the generic parameters already held.
    pub fn add_generic(&mut self, generic: Generic) -> (r: &mut Self)
        ensures
            (*r)@ == (ImplView { generics: old(self)@.generics.push(generic@), ..old(self)@ }),
            *final(self) == *final(r),
    {
        self.generics.add_generic(generic);
        self
    }
}

impl SrcCode for Impl {
    open spec fn source(&self) -> Seq<char> {
        self@.source()
    }

    fn generate(&self) -> (r: String) {
        proof {
            lemma_literals();
        }
        let mut out = String::new();
        out.append("impl");
        self.generics.push_params(&mut out);
        out.append(" ");
        match &self.impl_trait {
            Some(t) => {
                out.append(t.name());
                out.append(" for ");
            },
            None => {},
        }
        out.append(self.obj_name.as_str());
        self.generics.push_where(&mut out);
        out.append("\n{\n");
        push_terminated(&mut out, &self.functions, "\n");
        out.append("}");
        assert(sources(self.functions@) =~= self@.function_sources());
        assert(out@ =~= self@.source());
        out
    }
}

} // verus!

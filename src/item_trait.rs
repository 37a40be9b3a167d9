//! Traits: a named list of function signatures with generics.

use vstd::prelude::*;

use crate::function::{FunctionSignature, FunctionSignatureView};
use crate::generics::{generics_source, Generic, GenericView, Generics};
use crate::text::{lemma_literals, newline, pub_prefix, push_terminated, sources, terminated};
use crate::traits::SrcCode;

verus! {

/// The model of a [`Trait`].
pub ghost struct TraitView {
    pub name: Seq<char>,
    pub is_pub: bool,
    pub generics: Seq<GenericView>,
    /// The signatures, in the order they were added.
    pub signatures: Seq<FunctionSignatureView>,
}

impl TraitView {
    /// The rendered signatures, in order.
    pub open spec fn signature_sources(self) -> Seq<Seq<char>> {
        self.signatures.map_values(|s: FunctionSignatureView| s.source())
    }

    /// The rendering: `pub ` if public, `trait name`, the generics, then
    /// between braces, each on a line of its own, every signature followed
    /// by `;` in place of a body.
    pub open spec fn source(self) -> Seq<char> {
        pub_prefix(self.is_pub) + seq!['t', 'r', 'a', 'i', 't', ' '] + self.name + generics_source(
            self.generics,
        ) + newline() + seq!['{'] + newline() + terminated(
            self.signature_sources(),
            seq![';'] + newline(),
        ) + seq!['}']
    }
}

/// A trait: signatures without bodies.
#[derive(Debug, Clone)]
pub struct Trait {
    name: String,
    is_pub: bool,
    generics: Generics,
    signatures: Vec<FunctionSignature>,
}

impl View for Trait {
    type V = TraitView;

    closed spec fn view(&self) -> TraitView {
        TraitView {
            name: self.name@,
            is_pub: self.is_pub,
            generics: self.generics@,
            signatures: self.signatures@.map_values(|s: FunctionSignature| s@),
        }
    }
}

impl Trait {
    /// A private trait named `name` with no generics and no signature.
    pub fn new(name: &str) -> (r: Trait)
        ensures
            r@ == (TraitView { name: name@, is_pub: false, generics: seq![], signatures: seq![] }),
    {
        let r = Trait {
            name: String::from_str(name),
            is_pub: false,
            generics: Generics::new(Vec::new()),
            signatures: Vec::new(),
        };
        assert(r@.generics =~= seq![]);
        assert(r@.signatures =~= seq![]);
        r
    }

    /// Sets whether the trait is public.
    pub fn set_is_pub(&mut self, is_pub: bool) -> (r: &mut Self)
        ensures
            (*r)@ == (TraitView { is_pub, ..old(self)@ }),
            *final(self) == *final(r),
    {
        self.is_pub = is_pub;
        self
    }

    /// Adds `signature` after the signatures already held.
    pub fn add_signature(&mut self, signature: FunctionSignature) -> (r: &mut Self)
        ensures
            (*r)@ == (TraitView {
                signatures: old(self)@.signatures.push(signature@),
                ..old(self)@
            }),
            *final(self) == *final(r),
    {
        self.signatures.push(signature);
        assert(self@.signatures =~= old(self)@.signatures.push(signature@));
        self
    }

    /// Adds `generic` after the generic parameters already held.
    pub fn add_generic(&mut self, generic: Generic) -> (r: &mut Self)
        ensures
            (*r)@ == (TraitView { generics: old(self)@.generics.push(generic@), ..old(self)@ }),
            *final(self) == *final(r),
    {
        self.generics.add_generic(generic);
        self
    }

    /// The name of the trait.
    pub fn name(&self) -> (r: &str)
        ensures
            r@ == self@.name,
    {
        self.name.as_str()
    }
}

impl SrcCode for Trait {
    open spec fn source(&self) -> Seq<char> {
        self@.source()
    }

    fn generate(&self) -> (r: String) {
        proof {
            lemma_literals();
        }
        let mut out = String::new();
        if self.is_pub {
            out.append("pub ");
        }
        out.append("trait ");
        out.append(self.name.as_str());
        let generics = self.generics.generate();
        out.append(generics.as_str());
        out.append("\n{\n");
        push_terminated(&mut out, &self.signatures, ";\n");
        out.append("}");
        assert(sources(self.signatures@) =~= self@.signature_sources());
        assert(out@ =~= self@.source());
        out
    }
}

} // verus!

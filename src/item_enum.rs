//! Enums: a named list of variants with generics.

use vstd::prelude::*;

use crate::generics::{generics_source, Generic, GenericView, Generics};
use crate::function::opt_text;
use crate::text::{lemma_literals, newline, pub_prefix, push_terminated, sources, terminated};
use crate::traits::SrcCode;

verus! {

/// The model of a [`Variant`].
pub ghost struct VariantView {
    pub name: Seq<char>,
    /// The payload, written as it follows the name, delimiters included
    /// (`(T)`, `{ x: T }`); none for a variant without payload.
    pub inner: Option<Seq<char>>,
}

impl VariantView {
    /// The rendering: the name, the payload if any, then `,`.
    pub open spec fn source(self) -> Seq<char> {
        self.name + match self.inner {
            Some(p) => p,
            None => Seq::empty(),
        } + seq![',']
    }
}

/// A variant of an enum.
#[derive(Debug, Clone)]
pub struct Variant {
    name: String,
    inner: Option<String>,
}

impl View for Variant {
    type V = VariantView;

    closed spec fn view(&self) -> VariantView {
        VariantView { name: self.name@, inner: opt_text(self.inner) }
    }
}

impl Variant {
    /// A variant named `name` without payload.
    pub fn new(name: &str) -> (r: Variant)
        ensures
            r@ == (VariantView { name: name@, inner: None }),
    {
        Variant { name: String::from_str(name), inner: None }
    }

    /// Sets the payload, delimiters included; `None` removes it.
    pub fn set_inner(&mut self, inner: Option<&str>) -> (r: &mut Self)
        ensures
            (*r)@ == (VariantView {
                inner: match inner {
                    Some(p) => Some(p@),
                    None => None,
                },
                ..old(self)@
            }),
            *final(self) == *final(r),
    {
        self.inner = match inner {
            Some(p) => Some(String::from_str(p)),
            None => None,
        };
        self
    }
}

impl SrcCode for Variant {
    open spec fn source(&self) -> Seq<char> {
        self@.source()
    }

    fn generate(&self) -> (r: String) {
        proof {
            lemma_literals();
        }
        let mut out = self.name.clone();
        match &self.inner {
            Some(p) => out.append(p.as_str()),
            None => {},
        }
        out.append(",");
        assert(out@ =~= self@.source());
        out
    }
}

/// The model of an [`Enum`].
pub ghost struct EnumView {
    pub name: Seq<char>,
    pub is_pub: bool,
    pub generics: Seq<GenericView>,
    /// The variants, in the order they were added.
    pub variants: Seq<VariantView>,
}

impl EnumView {
    /// The rendered variants, in order.
    pub open spec fn variant_sources(self) -> Seq<Seq<char>> {
        self.variants.map_values(|v: VariantView| v.source())
    }

    /// The rendering: `pub ` if public, `enum name`, the generics, then
    /// between braces every variant on a line of its own.
    pub open spec fn source(self) -> Seq<char> {
        pub_prefix(self.is_pub) + seq!['e', 'n', 'u', 'm', ' '] + self.name + generics_source(
            self.generics,
        ) + newline() + seq!['{'] + newline() + terminated(self.variant_sources(), newline())
            + seq!['}']
    }
}

/// An enum.
#[derive(Debug, Clone)]
pub struct Enum {
    name: String,
    is_pub: bool,
    generics: Generics,
    variants: Vec<Variant>,
}

impl View for Enum {
    type V = EnumView;

    closed spec fn view(&self) -> EnumView {
        EnumView {
            name: self.name@,
            is_pub: self.is_pub,
            generics: self.generics@,
            variants: self.variants@.map_values(|v: Variant| v@),
        }
    }
}

impl Enum {
    /// A private enum named `name` with no generics and no variant.
    pub fn new(name: &str) -> (r: Enum)
        ensures
            r@ == (EnumView { name: name@, is_pub: false, generics: seq![], variants: seq![] }),
    {
        let r = Enum {
            name: String::from_str(name),
            is_pub: false,
            generics: Generics::new(Vec::new()),
            variants: Vec::new(),
        };
        assert(r@.generics =~= seq![]);
        assert(r@.variants =~= seq![]);
        r
    }

    /// Sets whether the enum is public.
    pub fn set_is_pub(&mut self, is_pub: bool) -> (r: &mut Self)
        ensures
            (*r)@ == (EnumView { is_pub, ..old(self)@ }),
            *final(self) == *final(r),
    {
        self.is_pub = is_pub;
        self
    }

    /// Adds `variant` after the variants already held.
    pub fn add_variant(&mut self, variant: Variant) -> (r: &mut Self)
        ensures
            (*r)@ == (EnumView { variants: old(self)@.variants.push(variant@), ..old(self)@ }),
            *final(self) == *final(r),
    {
        self.variants.push(variant);
        assert(self@.variants =~= old(self)@.variants.push(variant@));
        self
    }

    /// Adds `generic` after the generic parameters already held.
    pub fn add_generic(&mut self, generic: Generic) -> (r: &mut Self)
        ensures
            (*r)@ == (EnumView { generics: old(self)@.generics.push(generic@), ..old(self)@ }),
            *final(self) == *final(r),
    {
        self.generics.add_generic(generic);
        self
    }
}

impl SrcCode for Enum {
    open spec fn source(&self) -> Seq<char> {
        self@.source()
    }

    fn generate(&self) -> (r: String) {
        proof {
            lemma_literals();
        }
        let mut out = String::new();
        if self.is_pub {
            out.append("pub ");
        }
        out.append("enum ");
        out.append(self.name.as_str());
        let generics = self.generics.generate();
        out.append(generics.as_str());
        out.append("\n{\n");
        push_terminated(&mut out, &self.variants, "\n");
        out.append("}");
        assert(sources(self.variants@) =~= self@.variant_sources());
        assert(out@ =~= self@.source());
        out
    }
}

} // verus!

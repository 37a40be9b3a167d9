//! Associated types: declared in a trait, defined in an impl block.

use vstd::prelude::*;

use crate::annotation::Annotation;
use crate::text::{
    join, lemma_literals, newline, push_annotations, push_joined_strings, push_strs,
    push_terminated, sources, strs, terminated, texts,
};
use crate::traits::{AnnotationExt, SrcCode};

verus! {

/// The model of an [`AssociatedTypeDeclaration`].
pub ghost struct AssociatedTypeDeclarationView {
    pub name: Seq<char>,
    /// The bounds, in the order they were added.
    pub bounds: Seq<Seq<char>>,
    /// Attribute and comment lines, in order.
    pub annotations: Seq<Seq<char>>,
}

impl AssociatedTypeDeclarationView {
    /// `: bound1 + bound2` when there is a bound, else nothing.
    pub open spec fn bounds_part(self) -> Seq<char> {
        if self.bounds.len() == 0 {
            Seq::empty()
        } else {
            seq![':', ' '] + join(self.bounds, seq![' ', '+', ' '])
        }
    }

    /// The rendering: each annotation on a line of its own, then
    /// `type Name: Bound1 + Bound2;`, or `type Name;` without bounds.
    pub open spec fn source(self) -> Seq<char> {
        terminated(self.annotations, newline()) + seq!['t', 'y', 'p', 'e', ' '] + self.name
            + self.bounds_part() + seq![';']
    }
}

/// The declaration of an associated type in a trait.
#[derive(Debug, Clone)]
pub struct AssociatedTypeDeclaration {
    name: String,
    traits: Vec<String>,
    annotations: Vec<Annotation>,
}

impl View for AssociatedTypeDeclaration {
    type V = AssociatedTypeDeclarationView;

    closed spec fn view(&self) -> AssociatedTypeDeclarationView {
        AssociatedTypeDeclarationView {
            name: self.name@,
            bounds: texts(self.traits@),
            annotations: sources(self.annotations@),
        }
    }
}

impl AssociatedTypeDeclaration {
    /// The declaration of an associated type named `name`, with no bound
    /// and no annotation.
    pub fn new(name: &str) -> (r: AssociatedTypeDeclaration)
        ensures
            r@ == (AssociatedTypeDeclarationView {
                name: name@,
                bounds: seq![],
                annotations: seq![],
            }),
    {
        let r = AssociatedTypeDeclaration {
            name: String::from_str(name),
            traits: Vec::new(),
            annotations: Vec::new(),
        };
        assert(r@.bounds =~= seq![]);
        assert(r@.annotations =~= seq![]);
        r
    }

    /// Adds the bounds of `traits`, in order, after those already held.
    pub fn add_trait_bounds(&mut self, traits: Vec<&str>) -> (r: &mut Self)
        ensures
            (*r)@ == (AssociatedTypeDeclarationView {
                bounds: old(self)@.bounds + strs(traits@),
                ..old(self)@
            }),
            *final(self) == *final(r),
    {
        push_strs(&mut self.traits, &traits);
        self
    }
}

impl AnnotationExt for AssociatedTypeDeclaration {
    open spec fn annotation_lines(v: AssociatedTypeDeclarationView) -> Seq<Seq<char>> {
        v.annotations
    }

    open spec fn with_annotation_lines(
        v: AssociatedTypeDeclarationView,
        lines: Seq<Seq<char>>,
    ) -> AssociatedTypeDeclarationView {
        AssociatedTypeDeclarationView { annotations: lines, ..v }
    }

    fn add_annotation(&mut self, annotation: &str) -> (r: &mut Self) {
        self.annotations.push(Annotation::from(annotation));
        assert(sources(self.annotations@) =~= sources(old(self).annotations@).push(annotation@));
        self
    }

    fn add_annotations(&mut self, annotations: Vec<&str>) -> (r: &mut Self) {
        push_annotations(&mut self.annotations, &annotations);
        self
    }
}

impl SrcCode for AssociatedTypeDeclaration {
    open spec fn source(&self) -> Seq<char> {
        self@.source()
    }

    fn generate(&self) -> (r: String) {
        proof {
            lemma_literals();
        }
        let mut out = String::new();
        push_terminated(&mut out, &self.annotations, "\n");
        out.append("type ");
        out.append(self.name.as_str());
        if self.traits.len() > 0 {
            out.append(": ");
            push_joined_strings(&mut out, &self.traits, " + ");
        }
        out.append(";");
        assert(out@ =~= self@.source());
        out
    }
}

/// The model of an [`AssociatedTypeDefinition`].
pub ghost struct AssociatedTypeDefinitionView {
    pub name: Seq<char>,
    /// The concrete type assigned.
    pub implementer: Seq<char>,
    /// Attribute and comment lines, in order.
    pub annotations: Seq<Seq<char>>,
}

impl AssociatedTypeDefinitionView {
    /// The rendering: each annotation on a line of its own, then
    /// `type Name = Implementer;`.
    pub open spec fn source(self) -> Seq<char> {
        terminated(self.annotations, newline()) + seq!['t', 'y', 'p', 'e', ' '] + self.name
            + seq![' ', '=', ' '] + self.implementer + seq![';']
    }
}

/// The definition of an associated type in an impl block.
#[derive(Debug, Clone)]
pub struct AssociatedTypeDefinition {
    name: String,
    implementer: String,
    annotations: Vec<Annotation>,
}

impl View for AssociatedTypeDefinition {
    type V = AssociatedTypeDefinitionView;

    closed spec fn view(&self) -> AssociatedTypeDefinitionView {
        AssociatedTypeDefinitionView {
            name: self.name@,
            implementer: self.implementer@,
            annotations: sources(self.annotations@),
        }
    }
}

impl AssociatedTypeDefinition {
    /// The definition of the associated type `name` as `implementer`, with
    /// no annotation.
    pub fn new(name: &str, implementer: &str) -> (r: AssociatedTypeDefinition)
        ensures
            r@ == (AssociatedTypeDefinitionView {
                name: name@,
                implementer: implementer@,
                annotations: seq![],
            }),
    {
        let r = AssociatedTypeDefinition {
            name: String::from_str(name),
            implementer: String::from_str(implementer),
            annotations: Vec::new(),
        };
        assert(r@.annotations =~= seq![]);
        r
    }
}

impl AnnotationExt for AssociatedTypeDefinition {
    open spec fn annotation_lines(v: AssociatedTypeDefinitionView) -> Seq<Seq<char>> {
        v.annotations
    }

    open spec fn with_annotation_lines(
        v: AssociatedTypeDefinitionView,
        lines: Seq<Seq<char>>,
    ) -> AssociatedTypeDefinitionView {
        AssociatedTypeDefinitionView { annotations: lines, ..v }
    }

    fn add_annotation(&mut self, annotation: &str) -> (r: &mut Self) {
        self.annotations.push(Annotation::from(annotation));
        assert(sources(self.annotations@) =~= sources(old(self).annotations@).push(annotation@));
        self
    }

    fn add_annotations(&mut self, annotations: Vec<&str>) -> (r: &mut Self) {
        push_annotations(&mut self.annotations, &annotations);
        self
    }
}

impl SrcCode for AssociatedTypeDefinition {
    open spec fn source(&self) -> Seq<char> {
        self@.source()
    }

    fn generate(&self) -> (r: String) {
        proof {
            lemma_literals();
        }
        let mut out = String::new();
        push_terminated(&mut out, &self.annotations, "\n");
        out.append("type ");
        out.append(self.name.as_str());
        out.append(" = ");
        out.append(self.implementer.as_str());
        out.append(";");
        assert(out@ =~= self@.source());
        out
    }
}

} // verus!

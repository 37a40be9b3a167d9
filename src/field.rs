//! Fields: the named, typed members of a struct.

use vstd::prelude::*;

use crate::annotation::Annotation;
use crate::text::{
    lemma_literals, newline, pub_prefix, push_annotations, push_terminated, sources, terminated,
};
use crate::traits::{AnnotationExt, DocExt, SrcCode};

verus! {

/// The model of a [`Field`].
pub ghost struct FieldView {
    pub name: Seq<char>,
    pub ty: Seq<char>,
    pub is_pub: bool,
    /// Attribute and comment lines, in the order they were added.
    pub annotations: Seq<Seq<char>>,
    /// Documentation lines, in the order they were added.
    pub docs: Seq<Seq<char>>,
}

impl FieldView {
    /// The declaration line: `pub name: ty,` or `name: ty,`.
    pub open spec fn declaration(self) -> Seq<char> {
        pub_prefix(self.is_pub) + self.name + seq![':', ' '] + self.ty + seq![',']
    }

    /// The rendering: each documentation line, then each annotation line,
    /// then the declaration line, each ended by a line break.
    pub open spec fn source(self) -> Seq<char> {
        terminated(self.docs, newline()) + terminated(self.annotations, newline())
            + self.declaration() + newline()
    }
}

/// A field without documentation or annotation renders as its declaration
/// line alone, `pub name: ty,` or `name: ty,`, with nothing before it and
/// only the line break that ends it after it.
pub proof fn lemma_bare_field_source(f: FieldView)
    requires
        f.docs.len() == 0,
        f.annotations.len() == 0,
    ensures
        f.source() == pub_prefix(f.is_pub) + f.name + seq![':', ' '] + f.ty + seq![','] + newline(),
{
    assert(terminated(f.docs, newline()) =~= Seq::<char>::empty());
    assert(terminated(f.annotations, newline()) =~= Seq::<char>::empty());
    assert(f.source() =~= f.declaration() + newline());
}

/// A field of a struct.
#[derive(Debug, Clone)]
pub struct Field {
    name: String,
    is_pub: bool,
    ty: String,
    annotations: Vec<Annotation>,
    docs: Vec<Annotation>,
}

impl View for Field {
    type V = FieldView;

    closed spec fn view(&self) -> FieldView {
        FieldView {
            name: self.name@,
            ty: self.ty@,
            is_pub: self.is_pub,
            annotations: sources(self.annotations@),
            docs: sources(self.docs@),
        }
    }
}

impl Field {
    /// A private field named `name` of type `ty`, with no annotation and no
    /// documentation.
    pub fn new(name: &str, ty: &str) -> (r: Field)
        ensures
            r@ == (FieldView {
                name: name@,
                ty: ty@,
                is_pub: false,
                annotations: seq![],
                docs: seq![],
            }),
    {
        let r = Field {
            name: String::from_str(name),
            is_pub: false,
            ty: String::from_str(ty),
            annotations: Vec::new(),
            docs: Vec::new(),
        };
        assert(sources(r.annotations@) =~= seq![]);
        assert(sources(r.docs@) =~= seq![]);
        r
    }

    /// Sets whether the field is public.
    pub fn set_is_pub(&mut self, is_pub: bool) -> (r: &mut Self)
        ensures
            (*r)@ == (FieldView { is_pub, ..old(self)@ }),
            *final(self) == *final(r),
    {
        self.is_pub = is_pub;
        self
    }
}

impl AnnotationExt for Field {
    open spec fn annotation_lines(v: FieldView) -> Seq<Seq<char>> {
        v.annotations
    }

    open spec fn with_annotation_lines(v: FieldView, lines: Seq<Seq<char>>) -> FieldView {
        FieldView { annotations: lines, ..v }
    }

    fn add_annotation(&mut self, annotation: &str) -> (r: &mut Self) {
        let a = Annotation::from(annotation);
        self.annotations.push(a);
        assert(sources(self.annotations@) =~= sources(old(self).annotations@).push(annotation@));
        self
    }

    fn add_annotations(&mut self, annotations: Vec<&str>) -> (r: &mut Self) {
        push_annotations(&mut self.annotations, &annotations);
        self
    }
}

impl DocExt for Field {
    open spec fn doc_lines(v: FieldView) -> Seq<Seq<char>> {
        v.docs
    }

    open spec fn with_doc_lines(v: FieldView, lines: Seq<Seq<char>>) -> FieldView {
        FieldView { docs: lines, ..v }
    }

    fn add_doc(&mut self, doc: &str) -> (r: &mut Self) {
        let a = Annotation::from(doc);
        self.docs.push(a);
        assert(sources(self.docs@) =~= sources(old(self).docs@).push(doc@));
        self
    }

    fn add_docs(&mut self, docs: Vec<&str>) -> (r: &mut Self) {
        push_annotations(&mut self.docs, &docs);
        self
    }
}

impl SrcCode for Field {
    open spec fn source(&self) -> Seq<char> {
        self@.source()
    }

    fn generate(&self) -> (r: String) {
        proof {
            lemma_literals();
        }
        let mut out = String::new();
        push_terminated(&mut out, &self.docs, "\n");
        push_terminated(&mut out, &self.annotations, "\n");
        if self.is_pub {
            out.append("pub ");
        }
        out.append(self.name.as_str());
        out.append(": ");
        out.append(self.ty.as_str());
        out.append(",\n");
        assert(out@ =~= self@.source());
        out
    }
}

} // verus!

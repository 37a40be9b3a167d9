//! The traits shared by the entities of this crate.

use vstd::prelude::*;

use crate::annotation::is_annotation_text;
use crate::field::{Field, FieldView};
use crate::text::strs;

verus! {

/// An entity that renders itself as source text.
pub trait SrcCode {
    /// The text that `generate` returns for this entity.
    spec fn source(&self) -> Seq<char>;

    /// Renders this entity. The text is a function of the entity's value
    /// alone, so calls on an unchanged entity return the same text.
    fn generate(&self) -> (r: String)
        ensures
            r@ == self.source(),
    ;
}

/// An entity that carries annotation lines (attributes and comments).
pub trait AnnotationExt: View + Sized {
    /// The annotation lines of the model `v`, in the order they were added.
    spec fn annotation_lines(v: Self::V) -> Seq<Seq<char>>;

    /// The model `v` with its annotation lines replaced by `lines`.
    spec fn with_annotation_lines(v: Self::V, lines: Seq<Seq<char>>) -> Self::V;

    /// Adds one annotation line after those already held.
    fn add_annotation(&mut self, annotation: &str) -> (r: &mut Self)
        requires
            is_annotation_text(annotation@),
        ensures
            (*r)@ == Self::with_annotation_lines(
                old(self)@,
                Self::annotation_lines(old(self)@).push(annotation@),
            ),
            *final(self) == *final(r),
    ;

    /// Adds the annotation lines of `annotations`, in order, after those
    /// already held.
    fn add_annotations(&mut self, annotations: Vec<&str>) -> (r: &mut Self)
        requires
            forall|i: int| 0 <= i < annotations@.len() ==> is_annotation_text(#[trigger] annotations@[i]@),
        ensures
            (*r)@ == Self::with_annotation_lines(
                old(self)@,
                Self::annotation_lines(old(self)@) + strs(annotations@),
            ),
            *final(self) == *final(r),
    ;
}

/// An entity that carries documentation lines.
pub trait DocExt: View + Sized {
    /// The documentation lines of the model `v`, in the order they were added.
    spec fn doc_lines(v: Self::V) -> Seq<Seq<char>>;

    /// The model `v` with its documentation lines replaced by `lines`.
    spec fn with_doc_lines(v: Self::V, lines: Seq<Seq<char>>) -> Self::V;

    /// Adds one documentation line after those already held.
    fn add_doc(&mut self, doc: &str) -> (r: &mut Self)
        requires
            is_annotation_text(doc@),
        ensures
            (*r)@ == Self::with_doc_lines(old(self)@, Self::doc_lines(old(self)@).push(doc@)),
            *final(self) == *final(r),
    ;

    /// Adds the documentation lines of `docs`, in order, after those already
    /// held.
    fn add_docs(&mut self, docs: Vec<&str>) -> (r: &mut Self)
        requires
            forall|i: int| 0 <= i < docs@.len() ==> is_annotation_text(#[trigger] docs@[i]@),
        ensures
            (*r)@ == Self::with_doc_lines(old(self)@, Self::doc_lines(old(self)@) + strs(docs@)),
            *final(self) == *final(r),
    ;
}

/// An entity that holds fields.
pub trait FieldExt: View + Sized {
    /// The fields of the model `v`, in the order they were added.
    spec fn field_views(v: Self::V) -> Seq<FieldView>;

    /// The model `v` with its fields replaced by `fields`.
    spec fn with_field_views(v: Self::V, fields: Seq<FieldView>) -> Self::V;

    /// Adds `field` after the fields already held.
    fn add_field(&mut self, field: Field) -> (r: &mut Self)
        ensures
            (*r)@ == Self::with_field_views(old(self)@, Self::field_views(old(self)@).push(field@)),
            *final(self) == *final(r),
    ;

    /// Adds the fields of `fields`, in order, after those already held.
    fn add_fields(&mut self, fields: Vec<Field>) -> (r: &mut Self)
        ensures
            (*r)@ == Self::with_field_views(
                old(self)@,
                Self::field_views(old(self)@) + fields@.map_values(|f: Field| f@),
            ),
            *final(self) == *final(r),
    ;
}

} // verus!

//! Structs: a named list of fields with generics and documentation.

use vstd::prelude::*;

use crate::annotation::Annotation;
use crate::field::{Field, FieldView};
use crate::generics::{generics_source, Generic, GenericView, Generics};
use crate::text::{
    concat, lemma_literals, lemma_subrange_within, lemma_terminated_in_order,
    lemma_terminated_layout, newline, pub_prefix, push_annotations, push_terminated, sources,
    terminated, terminated_offset,
};
use crate::traits::{DocExt, FieldExt, SrcCode};

verus! {

/// The model of a [`Struct`].
pub ghost struct StructView {
    pub name: Seq<char>,
    pub is_pub: bool,
    /// The fields, in the order they were added.
    pub fields: Seq<FieldView>,
    pub generics: Seq<GenericView>,
    /// Documentation lines, in the order they were added.
    pub docs: Seq<Seq<char>>,
}

impl StructView {
    /// The rendered fields, in order.
    pub open spec fn field_sources(self) -> Seq<Seq<char>> {
        self.fields.map_values(|f: FieldView| f.source())
    }

    /// Everything before the first field: each documentation line on a line
    /// of its own, `pub ` if public, `struct name`, the generics, then ` {`
    /// and a line break.
    pub open spec fn head(self) -> Seq<char> {
        terminated(self.docs, newline()) + pub_prefix(self.is_pub) + seq![
            's',
            't',
            'r',
            'u',
            'c',
            't',
            ' ',
        ] + self.name + generics_source(self.generics) + seq![' ', '{'] + newline()
    }

    /// The rendering: the head, the rendered fields concatenated in the
    /// order they were added with nothing between them (each field's own
    /// text ends in its line break), then `}`.
    pub open spec fn source(self) -> Seq<char> {
        self.head() + concat(self.field_sources()) + seq!['}']
    }

    /// Where the rendering of the field at `i` starts in the rendering of
    /// the struct.
    pub open spec fn field_offset(self, i: int) -> int {
        self.head().len() + terminated_offset(self.field_sources(), Seq::empty(), i)
    }
}

/// A struct.
#[derive(Debug, Clone)]
pub struct Struct {
    is_pub: bool,
    name: String,
    fields: Vec<Field>,
    generics: Generics,
    docs: Vec<Annotation>,
}

impl View for Struct {
    type V = StructView;

    closed spec fn view(&self) -> StructView {
        StructView {
            name: self.name@,
            is_pub: self.is_pub,
            fields: self.fields@.map_values(|f: Field| f@),
            generics: self.generics@,
            docs: sources(self.docs@),
        }
    }
}

impl Struct {
    /// A private struct named `name` with no field, no generics and no
    /// documentation.
    pub fn new(name: &str) -> (r: Struct)
        ensures
            r@ == (StructView {
                name: name@,
                is_pub: false,
                fields: seq![],
                generics: seq![],
                docs: seq![],
            }),
    {
        let r = Struct {
            is_pub: false,
            name: String::from_str(name),
            fields: Vec::new(),
            generics: Generics::new(Vec::new()),
            docs: Vec::new(),
        };
        assert(r@.fields =~= seq![]);
        assert(r@.generics =~= seq![]);
        assert(r@.docs =~= seq![]);
        r
    }

    /// Sets whether the struct is public.
    pub fn set_is_pub(&mut self, is_pub: bool) -> (r: &mut Self)
        ensures
            (*r)@ == (StructView { is_pub, ..old(self)@ }),
            *final(self) == *final(r),
    {
        self.is_pub = is_pub;
        self
    }

    /// Adds `generic` after the generic parameters already held.
    pub fn add_generic(&mut self, generic: Generic) -> (r: &mut Self)
        ensures
            (*r)@ == (StructView { generics: old(self)@.generics.push(generic@), ..old(self)@ }),
            *final(self) == *final(r),
    {
        self.generics.add_generic(generic);
        self
    }
}

impl FieldExt for Struct {
    open spec fn field_views(v: StructView) -> Seq<FieldView> {
        v.fields
    }

    open spec fn with_field_views(v: StructView, fields: Seq<FieldView>) -> StructView {
        StructView { fields, ..v }
    }

    fn add_field(&mut self, field: Field) -> (r: &mut Self) {
        self.fields.push(field);
        assert(self@.fields =~= old(self)@.fields.push(field@));
        self
    }

    fn add_fields(&mut self, fields: Vec<Field>) -> (r: &mut Self) {
        let ghost added = fields@;
        let mut fields = fields;
        self.fields.append(&mut fields);
        assert(self@.fields =~= old(self)@.fields + added.map_values(|f: Field| f@));
        self
    }
}

impl DocExt for Struct {
    open spec fn doc_lines(v: StructView) -> Seq<Seq<char>> {
        v.docs
    }

    open spec fn with_doc_lines(v: StructView, lines: Seq<Seq<char>>) -> StructView {
        StructView { docs: lines, ..v }
    }

    fn add_doc(&mut self, doc: &str) -> (r: &mut Self) {
        self.docs.push(Annotation::from(doc));
        assert(sources(self.docs@) =~= sources(old(self).docs@).push(doc@));
        self
    }

    fn add_docs(&mut self, docs: Vec<&str>) -> (r: &mut Self) {
        push_annotations(&mut self.docs, &docs);
        self
    }
}

impl SrcCode for Struct {
    open spec fn source(&self) -> Seq<char> {
        self@.source()
    }

    fn generate(&self) -> (r: String) {
        proof {
            lemma_literals();
        }
        let mut out = String::new();
        push_terminated(&mut out, &self.docs, "\n");
        if self.is_pub {
            out.append("pub ");
        }
        out.append("struct ");
        out.append(self.name.as_str());
        let generics = self.generics.generate();
        out.append(generics.as_str());
        out.append(" {\n");
        push_terminated(&mut out, &self.fields, "");
        out.append("}");
        assert(sources(self.fields@) =~= self@.field_sources());
        assert(out@ =~= self@.source());
        out
    }
}

/// Fields render in the order they were added and back to back: the
/// rendered fields stand, concatenated, right after the head; the rendering
/// of the field at `i` stands at its offset, the next field starts right
/// where it ends, and no later field `j` starts before that.
pub proof fn lemma_struct_fields_in_order(s: StructView, i: int, j: int)
    requires
        0 <= i <= j < s.fields.len(),
    ensures
        ({
            let src = s.source();
            let body = concat(s.field_sources());
            let block = s.fields[i].source();
            let start = s.field_offset(i);
            &&& src.subrange(s.head().len() as int, (s.head().len() + body.len()) as int) == body
            &&& src.subrange(start, start + block.len()) == block
            &&& start + block.len() == s.field_offset(i + 1)
            &&& i < j ==> start + block.len() <= s.field_offset(j)
        }),
{
    let parts = s.field_sources();
    let body = concat(parts);
    let si = terminated_offset(parts, Seq::empty(), i);
    let block = s.fields[i].source();
    assert(parts[i] == block);
    lemma_terminated_in_order(parts, Seq::empty(), i, j);
    lemma_terminated_layout(parts, Seq::empty(), i);
    lemma_subrange_within(s.head(), body, seq!['}'], 0, body.len() as int);
    assert(body.subrange(0, body.len() as int) =~= body);
    lemma_subrange_within(s.head(), body, seq!['}'], si, si + block.len());
}

} // verus!

//! Functions: a signature (name, visibility, parameters, generics, return
//! type) and a body.

use vstd::prelude::*;

use crate::annotation::{is_annotation_text, Annotation};
use crate::generics::{params_source, where_source, Generic, GenericView, Generics};
use crate::text::{join, lemma_literals, newline, pub_prefix, push_annotations, push_joined, push_terminated, sources, terminated};
use crate::traits::{AnnotationExt, SrcCode};

verus! {

/// The model of a [`Parameter`].
pub ghost struct ParameterView {
    pub name: Seq<char>,
    pub ty: Seq<char>,
    /// Attribute lines, in the order they were added.
    pub annotations: Seq<Seq<char>>,
}

impl ParameterView {
    /// The rendering: each annotation followed by a space, then `name: ty`.
    pub open spec fn source(self) -> Seq<char> {
        terminated(self.annotations, seq![' ']) + self.name + seq![':', ' '] + self.ty
    }
}

/// A parameter of a function.
#[derive(Debug, Clone)]
pub struct Parameter {
    name: String,
    ty: String,
    annotations: Vec<Annotation>,
}

impl View for Parameter {
    type V = ParameterView;

    closed spec fn view(&self) -> ParameterView {
        ParameterView { name: self.name@, ty: self.ty@, annotations: sources(self.annotations@) }
    }
}

impl Parameter {
    /// A parameter named `name` of type `ty`, with no annotation.
    pub fn new(name: &str, ty: &str) -> (r: Parameter)
        ensures
            r@ == (ParameterView { name: name@, ty: ty@, annotations: seq![] }),
    {
        let r = Parameter {
            name: String::from_str(name),
            ty: String::from_str(ty),
            annotations: Vec::new(),
        };
        assert(sources(r.annotations@) =~= seq![]);
        r
    }
}

impl AnnotationExt for Parameter {
    open spec fn annotation_lines(v: ParameterView) -> Seq<Seq<char>> {
        v.annotations
    }

    open spec fn with_annotation_lines(v: ParameterView, lines: Seq<Seq<char>>) -> ParameterView {
        ParameterView { annotations: lines, ..v }
    }

    fn add_annotation(&mut self, annotation: &str) -> (r: &mut Self) {
        self.annotations.push(Annotation::from(annotation));
        assert(sources(self.annotations@) =~= sources(old(self).annotations@).push(annotation@));
        self
    }

    fn add_annotations(&mut self, annotations: Vec<&str>) -> (r: &mut Self) {
        push_annotations(&mut self.annotations, &annotations);
        self
    }
}

impl SrcCode for Parameter {
    open spec fn source(&self) -> Seq<char> {
        self@.source()
    }

    fn generate(&self) -> (r: String) {
        proof {
            lemma_literals();
        }
        let mut out = String::new();
        push_terminated(&mut out, &self.annotations, " ");
        out.append(self.name.as_str());
        out.append(": ");
        out.append(self.ty.as_str());
        assert(out@ =~= self@.source());
        out
    }
}

/// The model of a [`FunctionSignature`].
pub ghost struct FunctionSignatureView {
    pub name: Seq<char>,
    pub is_pub: bool,
    pub is_async: bool,
    /// The parameters, in the order they were added.
    pub parameters: Seq<ParameterView>,
    pub generics: Seq<GenericView>,
    /// The return type; none stands for `()`.
    pub return_ty: Option<Seq<char>>,
    /// Attribute and comment lines above the signature, in order.
    pub annotations: Seq<Seq<char>>,
}

/// The keyword `async` and its space when `is_async` holds, else nothing.
pub open spec fn async_prefix(is_async: bool) -> Seq<char> {
    if is_async {
        seq!['a', 's', 'y', 'n', 'c', ' ']
    } else {
        Seq::empty()
    }
}

/// The return type written out: the type when set, else `()`.
pub open spec fn return_source(return_ty: Option<Seq<char>>) -> Seq<char> {
    match return_ty {
        Some(t) => t,
        None => seq!['(', ')'],
    }
}

impl FunctionSignatureView {
    /// The rendered parameters, in order.
    pub open spec fn parameter_sources(self) -> Seq<Seq<char>> {
        self.parameters.map_values(|p: ParameterView| p.source())
    }

    /// The rendering: each annotation on a line of its own; then `pub ` if
    /// public, `async ` if async, `fn name`, the generic parameter list, the
    /// parameters between parentheses joined by `, `, ` -> ` and the return
    /// type; then the constraint clause of the generics.
    pub open spec fn source(self) -> Seq<char> {
        terminated(self.annotations, newline()) + pub_prefix(self.is_pub) + async_prefix(
            self.is_async,
        ) + seq!['f', 'n', ' '] + self.name + params_source(self.generics) + seq!['('] + join(
            self.parameter_sources(),
            seq![',', ' '],
        ) + seq![')', ' ', '-', '>', ' '] + return_source(self.return_ty) + where_source(
            self.generics,
        )
    }
}

/// The head of a function: everything but its body.
#[derive(Debug, Clone)]
pub struct FunctionSignature {
    name: String,
    is_pub: bool,
    is_async: bool,
    parameters: Vec<Parameter>,
    generics: Generics,
    return_ty: Option<String>,
    annotations: Vec<Annotation>,
}

/// The characters of an optional string.
pub open spec fn opt_text(o: Option<String>) -> Option<Seq<char>> {
    match o {
        Some(s) => Some(s@),
        None => None,
    }
}

impl View for FunctionSignature {
    type V = FunctionSignatureView;

    closed spec fn view(&self) -> FunctionSignatureView {
        FunctionSignatureView {
            name: self.name@,
            is_pub: self.is_pub,
            is_async: self.is_async,
            parameters: self.parameters@.map_values(|p: Parameter| p@),
            generics: self.generics@,
            return_ty: opt_text(self.return_ty),
            annotations: sources(self.annotations@),
        }
    }
}

impl FunctionSignature {
    /// A private, synchronous signature named `name`, with no parameter, no
    /// generics, no return type and no annotation.
    pub fn new(name: &str) -> (r: FunctionSignature)
        ensures
            r@ == (FunctionSignatureView {
                name: name@,
                is_pub: false,
                is_async: false,
                parameters: seq![],
                generics: seq![],
                return_ty: None,
                annotations: seq![],
            }),
    {
        let r = FunctionSignature {
            name: String::from_str(name),
            is_pub: false,
            is_async: false,
            parameters: Vec::new(),
            generics: Generics::new(Vec::new()),
            return_ty: None,
            annotations: Vec::new(),
        };
        assert(r@.parameters =~= seq![]);
        assert(r@.generics =~= seq![]);
        assert(r@.annotations =~= seq![]);
        r
    }

    /// Sets whether the function is `async`.
    pub fn set_is_async(&mut self, is_async: bool) -> (r: &mut Self)
        ensures
            (*r)@ == (FunctionSignatureView { is_async, ..old(self)@ }),
            *final(self) == *final(r),
    {
        self.is_async = is_async;
        self
    }

    /// Adds `param` after the parameters already held.
    pub fn add_parameter(&mut self, param: Parameter) -> (r: &mut Self)
        ensures
            (*r)@ == (FunctionSignatureView {
                parameters: old(self)@.parameters.push(param@),
                ..old(self)@
            }),
            *final(self) == *final(r),
    {
        self.parameters.push(param);
        assert(self@.parameters =~= old(self)@.parameters.push(param@));
        self
    }

    /// Adds `generic` after the generic parameters already held.
    pub fn add_generic(&mut self, generic: Generic) -> (r: &mut Self)
        ensures
            (*r)@ == (FunctionSignatureView {
                generics: old(self)@.generics.push(generic@),
                ..old(self)@
            }),
            *final(self) == *final(r),
    {
        self.generics.add_generic(generic);
        self
    }

    /// Sets the return type; `None` renders as `()`.
    pub fn set_return_ty(&mut self, ty: Option<&str>) -> (r: &mut Self)
        ensures
            (*r)@ == (FunctionSignatureView {
                return_ty: match ty {
                    Some(t) => Some(t@),
                    None => None,
                },
                ..old(self)@
            }),
            *final(self) == *final(r),
    {
        self.return_ty = match ty {
            Some(t) => Some(String::from_str(t)),
            None => None,
        };
        self
    }

    /// Sets whether the function is public.
    pub fn set_is_pub(&mut self, is_pub: bool) -> (r: &mut Self)
        ensures
            (*r)@ == (FunctionSignatureView { is_pub, ..old(self)@ }),
            *final(self) == *final(r),
    {
        self.is_pub = is_pub;
        self
    }

    /// Sets the name of the function.
    pub fn set_name(&mut self, name: &str) -> (r: &mut Self)
        ensures
            (*r)@ == (FunctionSignatureView { name: name@, ..old(self)@ }),
            *final(self) == *final(r),
    {
        self.name = String::from_str(name);
        self
    }
}

impl AnnotationExt for FunctionSignature {
    open spec fn annotation_lines(v: FunctionSignatureView) -> Seq<Seq<char>> {
        v.annotations
    }

    open spec fn with_annotation_lines(
        v: FunctionSignatureView,
        lines: Seq<Seq<char>>,
    ) -> FunctionSignatureView {
        FunctionSignatureView { annotations: lines, ..v }
    }

    fn add_annotation(&mut self, annotation: &str) -> (r: &mut Self) {
        self.annotations.push(Annotation::from(annotation));
        assert(sources(self.annotations@) =~= sources(old(self).annotations@).push(annotation@));
        self
    }

    fn add_annotations(&mut self, annotations: Vec<&str>) -> (r: &mut Self) {
        push_annotations(&mut self.annotations, &annotations);
        self
    }
}

impl SrcCode for FunctionSignature {
    open spec fn source(&self) -> Seq<char> {
        self@.source()
    }

    fn generate(&self) -> (r: String) {
        proof {
            lemma_literals();
        }
        let mut out = String::new();
        push_terminated(&mut out, &self.annotations, "\n");
        if self.is_pub {
            out.append("pub ");
        }
        if self.is_async {
            out.append("async ");
        }
        out.append("fn ");
        out.append(self.name.as_str());
        self.generics.push_params(&mut out);
        out.append("(");
        push_joined(&mut out, &self.parameters, ", ");
        out.append(") -> ");
        match &self.return_ty {
            Some(t) => out.append(t.as_str()),
            None => out.append("()"),
        }
        self.generics.push_where(&mut out);
        assert(sources(self.parameters@) =~= self@.parameter_sources());
        assert(out@ =~= self@.source());
        out
    }
}

/// The model of a [`FunctionBody`].
pub ghost struct FunctionBodyView {
    /// The body text, kept verbatim.
    pub body: Seq<char>,
    /// Attribute and comment lines above the body text, in order.
    pub annotations: Seq<Seq<char>>,
}

impl FunctionBodyView {
    /// The rendering: each annotation on a line of its own, then the body
    /// text.
    pub open spec fn source(self) -> Seq<char> {
        terminated(self.annotations, newline()) + self.body
    }
}

/// The statements of a function, as text.
#[derive(Debug, Clone)]
pub struct FunctionBody {
    body: String,
    annotations: Vec<Annotation>,
}

impl View for FunctionBody {
    type V = FunctionBodyView;

    closed spec fn view(&self) -> FunctionBodyView {
        FunctionBodyView { body: self.body@, annotations: sources(self.annotations@) }
    }
}

impl FunctionBody {
    /// A body holding the text `body`, with no annotation.
    pub fn new(body: &str) -> (r: FunctionBody)
        ensures
            r@ == (FunctionBodyView { body: body@, annotations: seq![] }),
    {
        let r = FunctionBody { body: String::from_str(body), annotations: Vec::new() };
        assert(sources(r.annotations@) =~= seq![]);
        r
    }
}

impl AnnotationExt for FunctionBody {
    open spec fn annotation_lines(v: FunctionBodyView) -> Seq<Seq<char>> {
        v.annotations
    }

    open spec fn with_annotation_lines(v: FunctionBodyView, lines: Seq<Seq<char>>) -> FunctionBodyView {
        FunctionBodyView { annotations: lines, ..v }
    }

    fn add_annotation(&mut self, annotation: &str) -> (r: &mut Self) {
        self.annotations.push(Annotation::from(annotation));
        assert(sources(self.annotations@) =~= sources(old(self).annotations@).push(annotation@));
        self
    }

    fn add_annotations(&mut self, annotations: Vec<&str>) -> (r: &mut Self) {
        push_annotations(&mut self.annotations, &annotations);
        self
    }
}

impl SrcCode for FunctionBody {
    open spec fn source(&self) -> Seq<char> {
        self@.source()
    }

    fn generate(&self) -> (r: String) {
        proof {
            lemma_literals();
        }
        let mut out = String::new();
        push_terminated(&mut out, &self.annotations, "\n");
        out.append(self.body.as_str());
        out
    }
}

/// The model of a [`Function`].
pub ghost struct FunctionView {
    pub signature: FunctionSignatureView,
    pub body: FunctionBodyView,
}

impl FunctionView {
    /// The rendering: the signature, then the body between braces, each
    /// brace on a line of its own.
    pub open spec fn source(self) -> Seq<char> {
        self.signature.source() + newline() + seq!['{'] + newline() + self.body.source()
            + newline() + seq!['}']
    }
}

/// A function or method: a signature and a body. A method is a function
/// whose first parameter is `self` in some form.
#[derive(Debug, Clone)]
pub struct Function {
    signature: FunctionSignature,
    body: FunctionBody,
}

impl View for Function {
    type V = FunctionView;

    closed spec fn view(&self) -> FunctionView {
        FunctionView { signature: self.signature@, body: self.body@ }
    }
}

impl Function {
    /// A function named `name` with the signature of
    /// [`FunctionSignature::new`] and an empty body.
    pub fn new(name: &str) -> (r: Function)
        ensures
            r@ == (FunctionView {
                signature: FunctionSignatureView {
                    name: name@,
                    is_pub: false,
                    is_async: false,
                    parameters: seq![],
                    generics: seq![],
                    return_ty: None,
                    annotations: seq![],
                },
                body: FunctionBodyView { body: seq![], annotations: seq![] },
            }),
    {
        let body = FunctionBody { body: String::new(), annotations: Vec::new() };
        assert(body@.annotations =~= seq![]);
        Function { signature: FunctionSignature::new(name), body }
    }

    /// Adds `param` after the parameters already held.
    pub fn add_parameter(&mut self, param: Parameter) -> (r: &mut Self)
        ensures
            (*r)@ == (FunctionView {
                signature: FunctionSignatureView {
                    parameters: old(self)@.signature.parameters.push(param@),
                    ..old(self)@.signature
                },
                ..old(self)@
            }),
            *final(self) == *final(r),
    {
        self.signature.add_parameter(param);
        self
    }

    /// Adds `generic` after the generic parameters already held.
    pub fn add_generic(&mut self, generic: Generic) -> (r: &mut Self)
        ensures
            (*r)@ == (FunctionView {
                signature: FunctionSignatureView {
                    generics: old(self)@.signature.generics.push(generic@),
                    ..old(self)@.signature
                },
                ..old(self)@
            }),
            *final(self) == *final(r),
    {
        self.signature.add_generic(generic);
        self
    }

    /// Sets the return type.
    pub fn set_return_ty(&mut self, ty: &str) -> (r: &mut Self)
        ensures
            (*r)@ == (FunctionView {
                signature: FunctionSignatureView { return_ty: Some(ty@), ..old(self)@.signature },
                ..old(self)@
            }),
            *final(self) == *final(r),
    {
        self.signature.set_return_ty(Some(ty));
        self
    }

    /// Sets whether the function is public.
    pub fn set_is_pub(&mut self, is_pub: bool) -> (r: &mut Self)
        ensures
            (*r)@ == (FunctionView {
                signature: FunctionSignatureView { is_pub, ..old(self)@.signature },
                ..old(self)@
            }),
            *final(self) == *final(r),
    {
        self.signature.set_is_pub(is_pub);
        self
    }

    /// Sets whether the function is `async`.
    pub fn set_is_async(&mut self, is_async: bool) -> (r: &mut Self)
        ensures
            (*r)@ == (FunctionView {
                signature: FunctionSignatureView { is_async, ..old(self)@.signature },
                ..old(self)@
            }),
            *final(self) == *final(r),
    {
        self.signature.set_is_async(is_async);
        self
    }

    /// Sets the body text, which is kept verbatim.
    pub fn set_body(&mut self, body: &str) -> (r: &mut Self)
        ensures
            (*r)@ == (FunctionView {
                body: FunctionBodyView { body: body@, ..old(self)@.body },
                ..old(self)@
            }),
            *final(self) == *final(r),
    {
        self.body.body = String::from_str(body);
        self
    }

    /// Adds an annotation line above the body text, after those already
    /// held there.
    pub fn add_body_annotation(&mut self, annotation: &str) -> (r: &mut Self)
        requires
            is_annotation_text(annotation@),
        ensures
            (*r)@ == (FunctionView {
                body: FunctionBodyView {
                    annotations: old(self)@.body.annotations.push(annotation@),
                    ..old(self)@.body
                },
                ..old(self)@
            }),
            *final(self) == *final(r),
    {
        self.body.add_annotation(annotation);
        self
    }
}

impl AnnotationExt for Function {
    open spec fn annotation_lines(v: FunctionView) -> Seq<Seq<char>> {
        v.signature.annotations
    }

    open spec fn with_annotation_lines(v: FunctionView, lines: Seq<Seq<char>>) -> FunctionView {
        FunctionView {
            signature: FunctionSignatureView { annotations: lines, ..v.signature },
            ..v
        }
    }

    fn add_annotation(&mut self, annotation: &str) -> (r: &mut Self) {
        self.signature.add_annotation(annotation);
        self
    }

    fn add_annotations(&mut self, annotations: Vec<&str>) -> (r: &mut Self) {
        self.signature.add_annotations(annotations);
        self
    }
}

impl SrcCode for Function {
    open spec fn source(&self) -> Seq<char> {
        self@.source()
    }

    fn generate(&self) -> (r: String) {
        proof {
            lemma_literals();
        }
        let mut out = self.signature.generate();
        out.append("\n{\n");
        let body = self.body.generate();
        out.append(body.as_str());
        out.append("\n}");
        assert(out@ =~= self@.source());
        out
    }
}

} // verus!

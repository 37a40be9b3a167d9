//! Annotations: single lines of attributes, comments and documentation that
//! stand above or beside an item.

use vstd::prelude::*;

use crate::text::has_prefix;
use crate::traits::SrcCode;

verus! {

/// A single annotation line, tagged by what its leading characters make it.
#[derive(Debug, Clone)]
pub enum Annotation {
    /// An attribute of the item that follows, such as `#[derive(Debug)]`.
    ItemAttr(String),
    /// An attribute of the enclosing scope, such as `#![allow(unused)]`.
    ScopeAttr(String),
    /// A line comment, such as `// note`.
    Comment(String),
    /// A documentation line of the item that follows, such as `/// Does x`.
    Doc(String),
    /// A documentation line of the enclosing module, such as `//! About`.
    ModuleDoc(String),
}

/// Why a line could not be made an annotation.
#[derive(Debug, Clone)]
pub enum ClassificationError {
    /// The line, which starts with neither `#` nor `//`.
    UnrecognizedAnnotation(String),
}

/// `s` starts with `#` or with `//`, so that it can be an annotation.
pub open spec fn is_annotation_text(s: Seq<char>) -> bool {
    has_prefix(s, seq!['#']) || has_prefix(s, seq!['/', '/'])
}

impl Annotation {
    /// The line that this annotation holds.
    pub open spec fn text(&self) -> Seq<char> {
        match self {
            Annotation::ItemAttr(s) => s@,
            Annotation::ScopeAttr(s) => s@,
            Annotation::Comment(s) => s@,
            Annotation::Doc(s) => s@,
            Annotation::ModuleDoc(s) => s@,
        }
    }

    /// This annotation holds `s` under the variant that the leading
    /// characters of `s` select. They are tried in this order: `//!`,
    /// `///`, `//`, `#!`, `#`.
    pub open spec fn classifies(&self, s: Seq<char>) -> bool {
        &&& self.text() == s
        &&& match self {
            Annotation::ModuleDoc(_) => has_prefix(s, seq!['/', '/', '!']),
            Annotation::Doc(_) => has_prefix(s, seq!['/', '/', '/']),
            Annotation::Comment(_) => has_prefix(s, seq!['/', '/']) && !has_prefix(
                s,
                seq!['/', '/', '!'],
            ) && !has_prefix(s, seq!['/', '/', '/']),
            Annotation::ScopeAttr(_) => has_prefix(s, seq!['#', '!']),
            Annotation::ItemAttr(_) => has_prefix(s, seq!['#']) && !has_prefix(s, seq!['#', '!']),
        }
    }

    /// Classifies `text` by its leading characters, or reports that no
    /// variant fits it.
    pub fn classify(text: &str) -> (r: Result<Annotation, ClassificationError>)
        ensures
            r is Ok <==> is_annotation_text(text@),
            r matches Ok(a) ==> a.classifies(text@),
            r matches Err(ClassificationError::UnrecognizedAnnotation(t)) ==> t@ == text@,
    {
        let n = text.unicode_len();
        let hash0 = char_is(text, n, 0, '#');
        let slash0 = char_is(text, n, 0, '/');
        let slash1 = char_is(text, n, 1, '/');
        proof {
            lemma_prefix_chars(text@);
        }
        if hash0 || (slash0 && slash1) {
            Ok(Annotation::from(text))
        } else {
            Err(ClassificationError::UnrecognizedAnnotation(String::from_str(text)))
        }
    }

    /// Classifies `text`, which must start with `#` or `//`.
    pub fn from(text: &str) -> (r: Annotation)
        requires
            is_annotation_text(text@),
        ensures
            r.classifies(text@),
    {
        let n = text.unicode_len();
        let owned = String::from_str(text);
        let slash0 = char_is(text, n, 0, '/');
        let slash1 = char_is(text, n, 1, '/');
        let slash2 = char_is(text, n, 2, '/');
        let bang1 = char_is(text, n, 1, '!');
        let bang2 = char_is(text, n, 2, '!');
        proof {
            lemma_prefix_chars(text@);
        }
        if slash0 && slash1 && bang2 {
            Annotation::ModuleDoc(owned)
        } else if slash0 && slash1 && slash2 {
            Annotation::Doc(owned)
        } else if slash0 && slash1 {
            Annotation::Comment(owned)
        } else if bang1 {
            Annotation::ScopeAttr(owned)
        } else {
            Annotation::ItemAttr(owned)
        }
    }
}

/// Rendering a classified annotation gives back the line it was classified
/// from.
pub proof fn lemma_annotation_round_trip(s: Seq<char>, a: Annotation)
    requires
        a.classifies(s),
    ensures
        a.source() == s,
{
}

/// The prefixes that classification tests, spelled out character by
/// character.
proof fn lemma_prefix_chars(s: Seq<char>)
    ensures
        has_prefix(s, seq!['#']) <==> (s.len() >= 1 && s[0] == '#'),
        has_prefix(s, seq!['#', '!']) <==> (s.len() >= 2 && s[0] == '#' && s[1] == '!'),
        has_prefix(s, seq!['/', '/']) <==> (s.len() >= 2 && s[0] == '/' && s[1] == '/'),
        has_prefix(s, seq!['/', '/', '/']) <==> (s.len() >= 3 && s[0] == '/' && s[1] == '/'
            && s[2] == '/'),
        has_prefix(s, seq!['/', '/', '!']) <==> (s.len() >= 3 && s[0] == '/' && s[1] == '/'
            && s[2] == '!'),
{
}

/// `text`, whose length is `n`, holds `c` at position `i`.
fn char_is(text: &str, n: usize, i: usize, c: char) -> (r: bool)
    requires
        n == text@.len(),
    ensures
        r == (i < text@.len() && text@[i as int] == c),
{
    i < n && text.get_char(i) == c
}

impl SrcCode for Annotation {
    open spec fn source(&self) -> Seq<char> {
        self.text()
    }

    fn generate(&self) -> (r: String) {
        match self {
            Annotation::ItemAttr(s) => s.clone(),
            Annotation::ScopeAttr(s) => s.clone(),
            Annotation::Comment(s) => s.clone(),
            Annotation::Doc(s) => s.clone(),
            Annotation::ModuleDoc(s) => s.clone(),
        }
    }
}

} // verus!

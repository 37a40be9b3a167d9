//! Sequences of characters and the ways the renderers put them together.

use vstd::prelude::*;

use crate::annotation::{is_annotation_text, Annotation};
use crate::traits::SrcCode;

verus! {

/// The characters of `parts`, each followed by `term`.
pub open spec fn terminated(parts: Seq<Seq<char>>, term: Seq<char>) -> Seq<char>
    decreases parts.len(),
{
    if parts.len() == 0 {
        Seq::empty()
    } else {
        terminated(parts.drop_last(), term) + parts.last() + term
    }
}

/// The characters of `parts` with `sep` between each two neighbours.
pub open spec fn join(parts: Seq<Seq<char>>, sep: Seq<char>) -> Seq<char>
    decreases parts.len(),
{
    if parts.len() == 0 {
        Seq::empty()
    } else if parts.len() == 1 {
        parts[0]
    } else {
        join(parts.drop_last(), sep) + sep + parts.last()
    }
}

/// The characters of `parts`, one after the other, with nothing between.
pub open spec fn concat(parts: Seq<Seq<char>>) -> Seq<char> {
    terminated(parts, Seq::empty())
}

/// The characters held by each string of `v`.
pub open spec fn texts(v: Seq<String>) -> Seq<Seq<char>> {
    v.map_values(|s: String| s@)
}

/// The characters of each string slice of `v`.
pub open spec fn strs(v: Seq<&str>) -> Seq<Seq<char>> {
    v.map_values(|s: &str| s@)
}

/// The rendered text of each item of `items`.
pub open spec fn sources<T: SrcCode>(items: Seq<T>) -> Seq<Seq<char>> {
    items.map_values(|x: T| x.source())
}

/// The characters of a line break.
pub open spec fn newline() -> Seq<char> {
    seq!['\n']
}

/// Where the part at `i` starts in `terminated(parts, term)`.
pub open spec fn terminated_offset(parts: Seq<Seq<char>>, term: Seq<char>, i: int) -> int {
    terminated(parts.take(i), term).len() as int
}

/// Terminating the parts of two sequences one after the other terminates
/// the parts of their concatenation.
pub proof fn lemma_terminated_append(a: Seq<Seq<char>>, b: Seq<Seq<char>>, term: Seq<char>)
    ensures
        terminated(a + b, term) == terminated(a, term) + terminated(b, term),
    decreases b.len(),
{
    if b.len() == 0 {
        assert(a + b =~= a);
        assert(terminated(b, term) =~= Seq::<char>::empty());
        assert(terminated(a, term) + terminated(b, term) =~= terminated(a, term));
    } else {
        lemma_terminated_append(a, b.drop_last(), term);
        assert((a + b).drop_last() =~= a + b.drop_last());
        assert((a + b).last() == b.last());
        assert(terminated(a + b, term) =~= terminated(a, term) + terminated(b, term));
    }
}

/// The parts of `terminated(parts, term)` stand in their order: the part at
/// `i` starts at its offset, `term` follows it, and the next part starts
/// right after that.
pub proof fn lemma_terminated_layout(parts: Seq<Seq<char>>, term: Seq<char>, i: int)
    requires
        0 <= i < parts.len(),
    ensures
        ({
            let all = terminated(parts, term);
            let start = terminated_offset(parts, term, i);
            let end = start + parts[i].len();
            &&& 0 <= start
            &&& end + term.len() == terminated_offset(parts, term, i + 1)
            &&& terminated_offset(parts, term, i + 1) <= all.len()
            &&& all.subrange(start, end) == parts[i]
            &&& all.subrange(end, end + term.len()) == term
        }),
{
    let head = parts.take(i + 1);
    let tail = parts.skip(i + 1);
    assert(parts =~= head + tail);
    lemma_terminated_append(head, tail, term);
    assert(head.drop_last() =~= parts.take(i));
    let all = terminated(parts, term);
    let start = terminated_offset(parts, term, i);
    let end = start + parts[i].len();
    let before = terminated(parts.take(i), term);
    assert(terminated(head, term) == before + parts[i] + term);
    assert(all == before + parts[i] + term + terminated(tail, term));
    assert(all.subrange(start, end) =~= parts[i]);
    assert(all.subrange(end, end + term.len()) =~= term);
}

/// Offsets grow with the index: the parts before `a` are a prefix of the
/// parts before `b`.
pub proof fn lemma_terminated_offset_grows(parts: Seq<Seq<char>>, term: Seq<char>, a: int, b: int)
    requires
        0 <= a <= b <= parts.len(),
    ensures
        terminated_offset(parts, term, a) <= terminated_offset(parts, term, b),
{
    let pre = parts.take(b);
    assert(pre =~= parts.take(a) + pre.skip(a));
    lemma_terminated_append(parts.take(a), pre.skip(a), term);
}

/// The parts of `terminated(parts, term)` stand in their order: the part at
/// `i` starts at its offset and is followed by `term`, and the part at any
/// later `j` starts after that.
pub proof fn lemma_terminated_in_order(parts: Seq<Seq<char>>, term: Seq<char>, i: int, j: int)
    requires
        0 <= i <= j < parts.len(),
    ensures
        ({
            let all = terminated(parts, term);
            let start = terminated_offset(parts, term, i);
            let end = start + parts[i].len();
            &&& 0 <= start
            &&& end + term.len() <= all.len()
            &&& all.subrange(start, end) == parts[i]
            &&& all.subrange(end, end + term.len()) == term
            &&& i < j ==> end + term.len() <= terminated_offset(parts, term, j)
        }),
{
    lemma_terminated_layout(parts, term, i);
    if i < j {
        lemma_terminated_offset_grows(parts, term, i + 1, j);
    }
}

/// A range of `mid` is the same range, shifted, of `head + mid + tail`.
pub proof fn lemma_subrange_within(head: Seq<char>, mid: Seq<char>, tail: Seq<char>, a: int, b: int)
    requires
        0 <= a <= b <= mid.len(),
    ensures
        (head + mid + tail).subrange(head.len() + a, head.len() + b) == mid.subrange(a, b),
{
    assert((head + mid + tail).subrange(head.len() + a, head.len() + b) =~= mid.subrange(a, b));
}

/// The characters of the string literals that the renderers write.
pub proof fn lemma_literals()
    ensures
        "\n"@ == newline(),
        ": "@ == seq![':', ' '],
        ","@ == seq![','],
        ",\n"@ == seq![','] + newline(),
        ";"@ == seq![';'],
        " "@ == seq![' '],
        "pub "@ == seq!['p', 'u', 'b', ' '],
        "async "@ == seq!['a', 's', 'y', 'n', 'c', ' '],
        "fn "@ == seq!['f', 'n', ' '],
        "("@ == seq!['('],
        ", "@ == seq![',', ' '],
        ") -> "@ == seq![')', ' ', '-', '>', ' '],
        "()"@ == seq!['(', ')'],
        "\n{\n"@ == newline() + seq!['{'] + newline(),
        "\n}"@ == newline() + seq!['}'],
        ";\n"@ == seq![';'] + newline(),
        "struct "@ == seq!['s', 't', 'r', 'u', 'c', 't', ' '],
        " {\n"@ == seq![' ', '{'] + newline(),
        "}"@ == seq!['}'],
        "trait "@ == seq!['t', 'r', 'a', 'i', 't', ' '],
        "impl"@ == seq!['i', 'm', 'p', 'l'],
        " for "@ == seq![' ', 'f', 'o', 'r', ' '],
        "enum "@ == seq!['e', 'n', 'u', 'm', ' '],
        "type "@ == seq!['t', 'y', 'p', 'e', ' '],
        " = "@ == seq![' ', '=', ' '],
        " + "@ == seq![' ', '+', ' '],
        "<"@ == seq!['<'],
        ">"@ == seq!['>'],
        "\nwhere\n"@ == newline() + seq!['w', 'h', 'e', 'r', 'e'] + newline(),
        ""@ == Seq::<char>::empty(),
{
    reveal_strlit("\n");
    reveal_strlit(": ");
    reveal_strlit(",");
    reveal_strlit(",\n");
    reveal_strlit(";");
    reveal_strlit(" ");
    reveal_strlit("pub ");
    reveal_strlit("async ");
    reveal_strlit("fn ");
    reveal_strlit("(");
    reveal_strlit(", ");
    reveal_strlit(") -> ");
    reveal_strlit("()");
    reveal_strlit("\n{\n");
    reveal_strlit("\n}");
    reveal_strlit(";\n");
    reveal_strlit("struct ");
    reveal_strlit(" {\n");
    reveal_strlit("}");
    reveal_strlit("trait ");
    reveal_strlit("impl");
    reveal_strlit(" for ");
    reveal_strlit("enum ");
    reveal_strlit("type ");
    reveal_strlit(" = ");
    reveal_strlit(" + ");
    reveal_strlit("<");
    reveal_strlit(">");
    reveal_strlit("\nwhere\n");
    reveal_strlit("");
    assert("\n"@ =~= newline());
    assert(": "@ =~= seq![':', ' ']);
    assert(","@ =~= seq![',']);
    assert(",\n"@ =~= seq![','] + newline());
    assert(";"@ =~= seq![';']);
    assert(" "@ =~= seq![' ']);
    assert("pub "@ =~= seq!['p', 'u', 'b', ' ']);
    assert("async "@ =~= seq!['a', 's', 'y', 'n', 'c', ' ']);
    assert("fn "@ =~= seq!['f', 'n', ' ']);
    assert("("@ =~= seq!['(']);
    assert(", "@ =~= seq![',', ' ']);
    assert(") -> "@ =~= seq![')', ' ', '-', '>', ' ']);
    assert("()"@ =~= seq!['(', ')']);
    assert("\n{\n"@ =~= newline() + seq!['{'] + newline());
    assert("\n}"@ =~= newline() + seq!['}']);
    assert(";\n"@ =~= seq![';'] + newline());
    assert("struct "@ =~= seq!['s', 't', 'r', 'u', 'c', 't', ' ']);
    assert(" {\n"@ =~= seq![' ', '{'] + newline());
    assert("}"@ =~= seq!['}']);
    assert("trait "@ =~= seq!['t', 'r', 'a', 'i', 't', ' ']);
    assert("impl"@ =~= seq!['i', 'm', 'p', 'l']);
    assert(" for "@ =~= seq![' ', 'f', 'o', 'r', ' ']);
    assert("enum "@ =~= seq!['e', 'n', 'u', 'm', ' ']);
    assert("type "@ =~= seq!['t', 'y', 'p', 'e', ' ']);
    assert(" = "@ =~= seq![' ', '=', ' ']);
    assert(" + "@ =~= seq![' ', '+', ' ']);
    assert("<"@ =~= seq!['<']);
    assert(">"@ =~= seq!['>']);
    assert("\nwhere\n"@ =~= newline() + seq!['w', 'h', 'e', 'r', 'e'] + newline());
    assert(""@ =~= Seq::<char>::empty());
}

/// The keyword `pub` and its space when `is_pub` holds, else nothing.
pub open spec fn pub_prefix(is_pub: bool) -> Seq<char> {
    if is_pub {
        seq!['p', 'u', 'b', ' ']
    } else {
        Seq::empty()
    }
}

/// `s` starts with `p`.
pub open spec fn has_prefix(s: Seq<char>, p: Seq<char>) -> bool {
    p.len() <= s.len() && forall|k: int| 0 <= k < p.len() ==> s[k] == p[k]
}

/// Appends the rendered text of each item of `items` to `out`, each followed
/// by `term`.
pub fn push_terminated<T: SrcCode>(out: &mut String, items: &Vec<T>, term: &str)
    ensures
        final(out)@ == old(out)@ + terminated(sources(items@), term@),
{
    let ghost start = out@;
    let mut i: usize = 0;
    while i < items.len()
        invariant
            i <= items.len(),
            out@ == start + terminated(sources(items@.subrange(0, i as int)), term@),
        decreases items.len() - i,
    {
        let s = items[i].generate();
        out.append(s.as_str());
        out.append(term);
        proof {
            let prev = sources(items@.subrange(0, i as int));
            let next = sources(items@.subrange(0, i + 1));
            assert(next.drop_last() =~= prev);
            assert(next.last() == items@[i as int].source());
        }
        i = i + 1;
    }
    assert(items@.subrange(0, items@.len() as int) =~= items@);
}

/// Appends the rendered text of the items of `items` to `out`, with `sep`
/// between each two neighbours.
pub fn push_joined<T: SrcCode>(out: &mut String, items: &Vec<T>, sep: &str)
    ensures
        final(out)@ == old(out)@ + join(sources(items@), sep@),
{
    let ghost start = out@;
    let mut i: usize = 0;
    while i < items.len()
        invariant
            i <= items.len(),
            out@ == start + join(sources(items@.subrange(0, i as int)), sep@),
        decreases items.len() - i,
    {
        let s = items[i].generate();
        proof {
            let prev = sources(items@.subrange(0, i as int));
            let next = sources(items@.subrange(0, i + 1));
            assert(next.drop_last() =~= prev);
            assert(next.last() == items@[i as int].source());
        }
        if i > 0 {
            out.append(sep);
        }
        out.append(s.as_str());
        i = i + 1;
    }
    assert(items@.subrange(0, items@.len() as int) =~= items@);
}

/// Appends the strings of `parts` to `out`, with `sep` between each two
/// neighbours.
pub fn push_joined_strings(out: &mut String, parts: &Vec<String>, sep: &str)
    ensures
        final(out)@ == old(out)@ + join(texts(parts@), sep@),
{
    let ghost start = out@;
    let mut i: usize = 0;
    while i < parts.len()
        invariant
            i <= parts.len(),
            out@ == start + join(texts(parts@.subrange(0, i as int)), sep@),
        decreases parts.len() - i,
    {
        proof {
            let prev = texts(parts@.subrange(0, i as int));
            let next = texts(parts@.subrange(0, i + 1));
            assert(next.drop_last() =~= prev);
        }
        if i > 0 {
            out.append(sep);
        }
        out.append(parts[i].as_str());
        i = i + 1;
    }
    assert(parts@.subrange(0, parts@.len() as int) =~= parts@);
}

/// Classifies each line of `lines` and appends the annotations, in order,
/// to `dst`.
pub fn push_annotations(dst: &mut Vec<Annotation>, lines: &Vec<&str>)
    requires
        forall|i: int| 0 <= i < lines@.len() ==> is_annotation_text(#[trigger] lines@[i]@),
    ensures
        sources(final(dst)@) == sources(old(dst)@) + strs(lines@),
{
    let ghost start = sources(dst@);
    let mut i: usize = 0;
    while i < lines.len()
        invariant
            i <= lines.len(),
            forall|j: int| 0 <= j < lines@.len() ==> is_annotation_text(#[trigger] lines@[j]@),
            sources(dst@) == start + strs(lines@.subrange(0, i as int)),
        decreases lines.len() - i,
    {
        let a = Annotation::from(lines[i]);
        let ghost before = dst@;
        dst.push(a);
        assert(sources(dst@) =~= sources(before).push(lines@[i as int]@));
        assert(strs(lines@.subrange(0, i + 1)) =~= strs(lines@.subrange(0, i as int)).push(
            lines@[i as int]@,
        ));
        i = i + 1;
    }
    assert(lines@.subrange(0, lines@.len() as int) =~= lines@);
}

/// Appends a copy of each string slice of `parts`, in order, to `dst`.
pub fn push_strs(dst: &mut Vec<String>, parts: &Vec<&str>)
    ensures
        texts(final(dst)@) == texts(old(dst)@) + strs(parts@),
{
    let ghost start = texts(dst@);
    let mut i: usize = 0;
    while i < parts.len()
        invariant
            i <= parts.len(),
            texts(dst@) == start + strs(parts@.subrange(0, i as int)),
        decreases parts.len() - i,
    {
        let s = String::from_str(parts[i]);
        let ghost before = dst@;
        dst.push(s);
        assert(texts(dst@) =~= texts(before).push(parts@[i as int]@));
        assert(strs(parts@.subrange(0, i + 1)) =~= strs(parts@.subrange(0, i as int)).push(
            parts@[i as int]@,
        ));
        i = i + 1;
    }
    assert(parts@.subrange(0, parts@.len() as int) =~= parts@);
}

} // verus!

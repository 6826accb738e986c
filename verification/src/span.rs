//! Source locations: byte-offset spans, identifiers, and call paths.

use vstd::prelude::*;

verus! {

/// A region of source text, identified by byte offsets into one source unit.
#[derive(Clone, Copy, Debug, PartialEq, Eq, Structural)]
pub struct Span {
    pub start: usize,
    pub end: usize,
}

impl Span {
    /// A span used for nodes that are synthesized rather than read from input.
    pub fn empty() -> (s: Span)
        ensures
            s.start == 0,
            s.end == 0,
    {
        Span { start: 0, end: 0 }
    }
}

/// The span covering two spans: it begins at the start of whichever span
/// comes first and ends at the end of the other.
pub fn join_spans(s1: Span, s2: Span) -> (r: Span)
    ensures
        s1.start < s2.end ==> r == (Span { start: s1.start, end: s2.end }),
        s1.start >= s2.end ==> r == (Span { start: s2.start, end: s1.end }),
{
    if s1.start < s2.end {
        Span { start: s1.start, end: s2.end }
    } else {
        Span { start: s2.start, end: s1.end }
    }
}

/// A name as written in the source, together with where it was written.
#[derive(Clone, Debug)]
pub struct Ident {
    pub name: String,
    pub span: Span,
}

impl Ident {
    pub fn new(name: String, span: Span) -> (id: Ident)
        ensures
            id.name@ == name@,
            id.span == span,
    {
        Ident { name, span }
    }

    pub fn as_str(&self) -> (r: &str)
        ensures
            r@ == self.name@,
    {
        self.name.as_str()
    }

    pub fn clone_ident(&self) -> (r: Ident)
        ensures
            r.name@ == self.name@,
            r.span == self.span,
    {
        Ident { name: self.name.clone(), span: self.span }
    }
}

/// Two identifiers name the same thing when their characters agree.
pub open spec fn ident_eq(a: Ident, b: Ident) -> bool {
    a.name@ == b.name@ && a.span == b.span
}

/// A possibly-qualified path to a declaration: the prefixes are the modules
/// leading to the `suffix`, the name itself.
#[derive(Clone, Debug)]
pub struct CallPath {
    pub prefixes: Vec<Ident>,
    pub suffix: Ident,
}

/// Two call paths are the same when all their parts agree.
pub open spec fn call_path_eq(a: CallPath, b: CallPath) -> bool {
    &&& a.prefixes@.len() == b.prefixes@.len()
    &&& forall|i: int|
        0 <= i < a.prefixes@.len() ==> ident_eq(#[trigger] a.prefixes@[i], b.prefixes@[i])
    &&& ident_eq(a.suffix, b.suffix)
}

impl CallPath {
    pub fn clone_path(&self) -> (r: CallPath)
        ensures
            call_path_eq(r, *self),
    {
        let mut prefixes: Vec<Ident> = Vec::new();
        let mut i: usize = 0;
        while i < self.prefixes.len()
            invariant
                i <= self.prefixes.len(),
                prefixes@.len() == i as int,
                forall|j: int| 0 <= j < i as int ==> ident_eq(#[trigger] prefixes@[j], self.prefixes@[j]),
            decreases self.prefixes.len() - i,
        {
            prefixes.push(self.prefixes[i].clone_ident());
            i = i + 1;
        }
        CallPath { prefixes, suffix: self.suffix.clone_ident() }
    }
}

} // verus!

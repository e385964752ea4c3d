//! A wrapper that grants the error capability — display plus debug
//! rendering — to any value that can render itself both ways.
//!
//! The [`Dispair`] adapter holds one value. Its display text is the
//! contained value's display text, verbatim; its debug text names the
//! wrapper and shows the contained value's debug text in parentheses.
//! Equality and ordering delegate to the contained value, so the wrapper
//! adds no identity of its own.

use vstd::prelude::*;

pub mod decimal;

verus! {

use core::cmp::Ordering;
use vstd::std_specs::cmp::PartialEqSpec;
use vstd::std_specs::cmp::PartialOrdSpec;

/// The display capability: a value that renders itself as human-readable
/// text. `display_spec` is the mathematical statement of that text;
/// `display_text` produces it.
pub trait Displayable {
    /// The display text, as a sequence of characters.
    spec fn display_spec(&self) -> Seq<char>;

    /// Renders the value as its display text.
    fn display_text(&self) -> (r: String)
        ensures
            r@ == self.display_spec(),
    ;
}

/// The debug capability: a value that renders itself as diagnostic text.
/// `debug_spec` is the mathematical statement of that text; `debug_text`
/// produces it.
pub trait Debuggable {
    /// The debug text, as a sequence of characters.
    spec fn debug_spec(&self) -> Seq<char>;

    /// Renders the value as its debug text.
    fn debug_text(&self) -> (r: String)
        ensures
            r@ == self.debug_spec(),
    ;
}

/// Wraps a value that has the display and debug capabilities, and is
/// thereby itself error-capable: it has both capabilities too. Display
/// passes through to the contained value; debug shows the wrapper's name
/// around the contained value's debug text.
#[derive(Clone, Copy, Debug, Hash)]
pub struct Dispair<E: Displayable + Debuggable>(pub E);

impl Displayable for String {
    /// A string displays as the text it holds.
    open spec fn display_spec(&self) -> Seq<char> {
        self@
    }

    fn display_text(&self) -> (r: String) {
        self.clone()
    }
}

impl Debuggable for String {
    /// A string's debug text is the text it holds, unchanged: the
    /// capability renders text, and a string is already text.
    open spec fn debug_spec(&self) -> Seq<char> {
        self@
    }

    fn debug_text(&self) -> (r: String) {
        self.clone()
    }
}

/// The error capability: what a value must have to serve as a generic,
/// polymorphic error object. In this library that is exactly the display
/// and debug capabilities — the contract asks for nothing further, so a
/// conforming value can stand behind a `Box<dyn ErrorCapable>` handle.
pub trait ErrorCapable: Displayable + Debuggable {

}

/// The wrapper is error-capable by definition: it has both capabilities,
/// and the error capability asks for nothing more.
impl<E: Displayable + Debuggable> ErrorCapable for Dispair<E> {

}

impl<E: Displayable + Debuggable> Displayable for Dispair<E> {
    /// The wrapper is invisible in display output: its display text is
    /// exactly the contained value's.
    open spec fn display_spec(&self) -> Seq<char> {
        self.0.display_spec()
    }

    fn display_text(&self) -> (r: String) {
        self.0.display_text()
    }
}

impl<E: Displayable + Debuggable> Debuggable for Dispair<E> {
    /// The wrapper is visible in debug output: its own name, then the
    /// contained value's debug text in parentheses.
    open spec fn debug_spec(&self) -> Seq<char> {
        "Dispair("@ + self.0.debug_spec() + ")"@
    }

    fn debug_text(&self) -> (r: String) {
        let mut s = String::from_str("Dispair(");
        let inner = self.0.debug_text();
        s.append(inner.as_str());
        s.append(")");
        proof {
            assert(s@ =~= self.debug_spec());
        }
        s
    }
}

impl<E: Displayable + Debuggable + PartialEqSpec> PartialEq for Dispair<E> {
    /// Two wrappers are equal exactly when their contained values are.
    fn eq(&self, other: &Self) -> (r: bool) {
        self.0 == other.0
    }
}

impl<E: Displayable + Debuggable + PartialEqSpec> vstd::std_specs::cmp::PartialEqSpecImpl for Dispair<E> {
    open spec fn obeys_eq_spec() -> bool {
        E::obeys_eq_spec()
    }

    open spec fn eq_spec(&self, other: &Self) -> bool {
        self.0.eq_spec(&other.0)
    }
}

/// Equality of wrappers is total whenever equality of contained values
/// is.
impl<E: Displayable + Debuggable + PartialEqSpec + Eq> Eq for Dispair<E> {

}

impl<E: Displayable + Debuggable + PartialEqSpec + PartialOrdSpec> PartialOrd for Dispair<E> {
    /// Two wrappers order exactly as their contained values do.
    fn partial_cmp(&self, other: &Self) -> (r: Option<Ordering>) {
        self.0.partial_cmp(&other.0)
    }
}

impl<E: Displayable + Debuggable + PartialEqSpec + PartialOrdSpec> vstd::std_specs::cmp::PartialOrdSpecImpl for Dispair<E> {
    open spec fn obeys_partial_cmp_spec() -> bool {
        E::obeys_partial_cmp_spec()
    }

    open spec fn partial_cmp_spec(&self, other: &Self) -> Option<Ordering> {
        self.0.partial_cmp_spec(&other.0)
    }
}

/// Whether `needle` occurs somewhere in `hay` as a contiguous run of
/// characters.
pub open spec fn contains_text(hay: Seq<char>, needle: Seq<char>) -> bool {
    exists|i: int|
        0 <= i && i + needle.len() <= hay.len() && #[trigger] hay.subrange(
            i,
            i + needle.len() as int,
        ) == needle
}

/// `needle` stands in `hay` at position `i`, so `hay` contains it.
proof fn lemma_contains_at(hay: Seq<char>, needle: Seq<char>, i: int)
    requires
        0 <= i,
        i + needle.len() <= hay.len(),
        hay.subrange(i, i + needle.len() as int) == needle,
    ensures
        contains_text(hay, needle),
{
}

/// Display is a pure passthrough: the wrapper's display text is exactly
/// the contained value's display text, with nothing added.
pub proof fn lemma_display_passthrough<E: Displayable + Debuggable>(a: Dispair<E>)
    ensures
        a.display_spec() == a.0.display_spec(),
{
}

/// Debug shows the wrapper: its debug text is the wrapper's name, then
/// the contained value's full debug text enclosed in parentheses; in
/// particular it contains both the name and the inner debug text.
pub proof fn lemma_debug_wraps<E: Displayable + Debuggable>(a: Dispair<E>)
    ensures
        a.debug_spec() == "Dispair("@ + a.0.debug_spec() + ")"@,
        contains_text(a.debug_spec(), "Dispair"@),
        contains_text(a.debug_spec(), a.0.debug_spec()),
{
    reveal_strlit("Dispair(");
    reveal_strlit(")");
    reveal_strlit("Dispair");
    let d = a.debug_spec();
    let inner = a.0.debug_spec();
    assert(d.subrange(0, 7) =~= "Dispair"@);
    lemma_contains_at(d, "Dispair"@, 0);
    assert(d.subrange(8, 8 + inner.len() as int) =~= inner);
    lemma_contains_at(d, inner, 8);
}

/// Equality delegates to the contained values: the wrappers obey the
/// equality specification exactly when the contained type does, and two
/// wrappers are equal exactly when their contained values are.
pub proof fn lemma_eq_delegates<E: Displayable + Debuggable + PartialEqSpec>(v1: E, v2: E)
    ensures
        Dispair::<E>::obeys_eq_spec() == E::obeys_eq_spec(),
        Dispair(v1).eq_spec(&Dispair(v2)) == v1.eq_spec(&v2),
{
}

/// Ordering delegates to the contained values: the wrappers obey the
/// ordering specification exactly when the contained type does, and two
/// wrappers compare exactly as their contained values do.
pub proof fn lemma_ord_delegates<E: Displayable + Debuggable + PartialEqSpec + PartialOrdSpec>(
    v1: E,
    v2: E,
)
    ensures
        Dispair::<E>::obeys_partial_cmp_spec() == E::obeys_partial_cmp_spec(),
        Dispair(v1).partial_cmp_spec(&Dispair(v2)) == v1.partial_cmp_spec(&v2),
{
}

} // verus!

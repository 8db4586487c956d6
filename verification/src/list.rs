//! The persistent singly linked list.

use vstd::prelude::*;

use crate::render::decimal_digits;
use crate::render::u32_to_decimal;

verus! {

/// The textual rendering of a list whose elements, front to back, are
/// `elems`: each element in decimal followed by `", "`, then the marker
/// `"Nil"` for the empty tail.
pub open spec fn render(elems: Seq<u32>) -> Seq<char>
    decreases elems.len(),
{
    if elems.len() == 0 {
        "Nil"@
    } else {
        decimal_digits(elems[0] as nat) + ", "@ + render(elems.drop_first())
    }
}

/// A finite, immutable singly linked list of `u32` values.
///
/// Each `Cons` node holds one element and exclusively owns the rest of the
/// list, so every list is a finite chain ending in exactly one `Nil` and no
/// cycle can form. Existing nodes are never mutated: the only way to grow a
/// list is `prepend`, which consumes the old list whole.
pub enum List {
    /// One element followed by the rest of the list, which this node owns.
    Cons(u32, Box<List>),
    /// The end of the list.
    Nil,
}

impl List {
    /// The elements of the list, front to back.
    pub open spec fn elems(self) -> Seq<u32>
        decreases self,
    {
        match self {
            List::Cons(v, tail) => seq![v] + tail.elems(),
            List::Nil => Seq::empty(),
        }
    }

    /// The empty list.
    pub fn new() -> (l: List)
        ensures
            l@ == Seq::<u32>::empty(),
    {
        List::Nil
    }

    /// Consumes the list and returns a new one with `elem` at the front.
    pub fn prepend(self, elem: u32) -> (l: List)
        ensures
            l@ == seq![elem] + self@,
    {
        List::Cons(elem, Box::new(self))
    }

    /// The number of elements in the list. Borrows the list and leaves it
    /// unchanged; the result is a `u32`, so the precondition asks that the
    /// count fit one.
    pub fn len(&self) -> (n: u32)
        requires
            self@.len() <= u32::MAX,
        ensures
            n == self@.len(),
        decreases *self,
    {
        match self {
            List::Cons(_, tail) => 1 + tail.len(),
            List::Nil => 0,
        }
    }

    /// Renders the list as text, exactly as `render` describes: each element
    /// in decimal, front to back, separated by `", "` and ending in `"Nil"`.
    /// Borrows the list and leaves it unchanged.
    pub fn stringify(&self) -> (s: String)
        ensures
            s@ == render(self@),
        decreases *self,
    {
        match self {
            List::Cons(v, tail) => {
                let mut s = u32_to_decimal(*v);
                s.append(", ");
                let t = tail.stringify();
                s.append(t.as_str());
                proof {
                    assert(self@.drop_first() =~= tail@);
                    assert(s@ =~= render(self@));
                }
                s
            },
            List::Nil => "Nil".to_owned(),
        }
    }
}

/// The view of the list built by starting from the empty list and prepending
/// each element of `vals` in order: `prepend` puts its element at the front,
/// so the result holds `vals` back to front.
pub open spec fn prepended(vals: Seq<u32>) -> Seq<u32>
    decreases vals.len(),
{
    if vals.len() == 0 {
        Seq::empty()
    } else {
        seq![vals.last()] + prepended(vals.drop_last())
    }
}

/// Law: for every sequence of `prepend` calls, the list built by applying
/// them in order to the empty list has exactly one element per call, so
/// `len` after `n` prepends returns `n`.
pub proof fn lemma_len_after_prepends(vals: Seq<u32>)
    ensures
        prepended(vals).len() == vals.len(),
    decreases vals.len(),
{
    if vals.len() > 0 {
        lemma_len_after_prepends(vals.drop_last());
    }
}

impl View for List {
    type V = Seq<u32>;

    open spec fn view(&self) -> Seq<u32> {
        self.elems()
    }
}

} // verus!

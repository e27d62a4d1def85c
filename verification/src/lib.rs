//! A lightweight, ergonomic wrapper around `Vec<T>`.
//!
//! `Veclite<T>` owns exactly one growable vector and adds list-style
//! conveniences on top of it: `add` for back insertion, `prepend` for front
//! insertion, checked `remove` and `get` that report an out-of-range index as
//! an absent value rather than a fault, adoption of an existing vector,
//! delegation to the full `Vec` surface through explicit accessors, and a
//! space-separated single-line text rendering. Every operation carries a
//! contract relating the wrapper's view, a `Seq<T>`, before and after the
//! call.

use vstd::prelude::*;

pub mod laws;
pub mod render;

use crate::render::{dec_chars, join_spaces, lemma_join_spaces_push, render_u64};

verus! {

/// A lightweight wrapper that owns one growable vector of `T`.
///
/// Its view is the mathematical sequence of its elements, in order.
#[derive(Debug, PartialEq)]
pub struct Veclite<T>(pub Vec<T>);

/// Short alias for [`Veclite<T>`], for ergonomic use.
pub type Vel<T> = Veclite<T>;

impl<T> View for Veclite<T> {
    type V = Seq<T>;

    open spec fn view(&self) -> Seq<T> {
        self.0@
    }
}

impl<T> Veclite<T> {
    /// Creates a new, empty wrapper.
    pub fn new() -> (v: Self)
        ensures
            v@ == Seq::<T>::empty(),
    {
        Veclite(Vec::new())
    }

    /// Appends `value` as the new last element.
    pub fn add(&mut self, value: T)
        ensures
            final(self)@ == old(self)@.push(value),
    {
        self.0.push(value);
    }

    /// Inserts `value` as the new first element; every element already
    /// present moves one position later, order otherwise preserved.
    pub fn prepend(&mut self, value: T)
        ensures
            final(self)@ == old(self)@.insert(0, value),
            final(self)@ == seq![value] + old(self)@,
    {
        self.0.insert(0, value);
        proof {
            assert(self@ =~= seq![value] + old(self)@);
        }
    }

    /// Number of elements currently held.
    pub fn len(&self) -> (n: usize)
        ensures
            n == self@.len(),
    {
        self.0.len()
    }

    /// True exactly when the wrapper holds no element.
    pub fn is_empty(&self) -> (b: bool)
        ensures
            b <==> self@.len() == 0,
    {
        self.0.is_empty()
    }

    /// Adopts an existing vector: the wrapper takes ownership of it,
    /// keeping its elements and their order, copying nothing.
    pub fn from_vec(elements: Vec<T>) -> (v: Self)
        ensures
            v@ == elements@,
    {
        Veclite(elements)
    }

    /// Removes and returns the element at `index` where there is one,
    /// moving every later element one position earlier. An out-of-range
    /// index is not a fault: the result is absent and the wrapper is
    /// left completely unchanged.
    pub fn remove(&mut self, index: usize) -> (r: Option<T>)
        ensures
            index < old(self)@.len() ==> {
                &&& r == Some(old(self)@[index as int])
                &&& final(self)@ == old(self)@.remove(index as int)
            },
            index >= old(self)@.len() ==> {
                &&& r is None
                &&& final(self)@ == old(self)@
            },
    {
        if index < self.0.len() {
            Some(self.0.remove(index))
        } else {
            None
        }
    }

    /// Read-only lookup: a reference to the element at `index` where there
    /// is one, absent otherwise, the wrapper unchanged either way.
    pub fn get(&self, index: usize) -> (r: Option<&T>)
        ensures
            index < self@.len() ==> (r matches Some(e) && *e == self@[index as int]),
            index >= self@.len() ==> r is None,
    {
        if index < self.0.len() {
            Some(&self.0[index])
        } else {
            None
        }
    }

    /// Mutable access to the element at an in-range `index`: afterwards the
    /// wrapper holds whatever the caller wrote through the reference, at
    /// that position, with every other element untouched.
    pub fn get_mut(&mut self, index: usize) -> (r: &mut T)
        requires
            index < old(self)@.len(),
        ensures
            *r == old(self)@[index as int],
            final(self)@ == old(self)@.update(index as int, *final(r)),
    {
        &mut self.0[index]
    }

    /// Borrows the backing vector, so callers can reach the whole read-only
    /// `Vec` surface without the wrapper re-declaring it.
    pub fn as_vec(&self) -> (r: &Vec<T>)
        ensures
            r@ == self@,
    {
        &self.0
    }

    /// Mutably borrows the backing vector, so callers can reach the whole
    /// mutating `Vec` surface; the wrapper afterwards holds exactly what the
    /// caller left in the vector.
    pub fn as_mut_vec(&mut self) -> (r: &mut Vec<T>)
        ensures
            r@ == old(self)@,
            final(self)@ == final(r)@,
    {
        &mut self.0
    }

    /// Consumes the wrapper and hands its backing vector back, elements and
    /// order intact: ownership transfer, and the way to an owning walk over
    /// the elements.
    pub fn into_vec(self) -> (r: Vec<T>)
        ensures
            r@ == self@,
    {
        self.0
    }
}

impl Veclite<u64> {
    /// The single-line rendering: each element's decimal text in order, one
    /// space between neighbours, no leading or trailing separator, no
    /// trailing newline; the empty wrapper renders as the empty string.
    pub fn to_text(&self) -> (r: String)
        ensures
            r@ == join_spaces(self@.map_values(|x: u64| dec_chars(x as nat))),
            self@.len() == 0 ==> r@ == Seq::<char>::empty(),
    {
        let ghost parts = self@.map_values(|x: u64| dec_chars(x as nat));
        let mut out = String::new();
        let mut i: usize = 0;
        proof {
            assert(parts.subrange(0, 0) =~= Seq::<Seq<char>>::empty());
        }
        while i < self.0.len()
            invariant
                i <= self@.len(),
                parts == self@.map_values(|x: u64| dec_chars(x as nat)),
                out@ == join_spaces(parts.subrange(0, i as int)),
            decreases self@.len() - i,
        {
            if i > 0 {
                out.append(" ");
                proof {
                    reveal_strlit(" ");
                    assert(" "@ =~= seq![' ']);
                }
            }
            let piece = render_u64(self.0[i]);
            out.append(piece.as_str());
            proof {
                lemma_join_spaces_push(parts.subrange(0, i as int), parts[i as int]);
                assert(parts.subrange(0, i as int).push(parts[i as int]) =~= parts.subrange(
                    0,
                    i as int + 1,
                ));
                if i == 0 {
                    assert(out@ =~= parts[0]);
                }
            }
            i = i + 1;
        }
        proof {
            assert(parts.subrange(0, self@.len() as int) =~= parts);
        }
        out
    }
}

impl Veclite<String> {
    /// The single-line rendering of the elements' own text: in order, one
    /// space between neighbours, no leading or trailing separator, no
    /// trailing newline; the empty wrapper renders as the empty string.
    pub fn to_text(&self) -> (r: String)
        ensures
            r@ == join_spaces(self@.map_values(|s: String| s@)),
            self@.len() == 0 ==> r@ == Seq::<char>::empty(),
    {
        let ghost parts = self@.map_values(|s: String| s@);
        let mut out = String::new();
        let mut i: usize = 0;
        proof {
            assert(parts.subrange(0, 0) =~= Seq::<Seq<char>>::empty());
        }
        while i < self.0.len()
            invariant
                i <= self@.len(),
                parts == self@.map_values(|s: String| s@),
                out@ == join_spaces(parts.subrange(0, i as int)),
            decreases self@.len() - i,
        {
            if i > 0 {
                out.append(" ");
                proof {
                    reveal_strlit(" ");
                    assert(" "@ =~= seq![' ']);
                }
            }
            let piece: &String = &self.0[i];
            out.append(piece.as_str());
            proof {
                lemma_join_spaces_push(parts.subrange(0, i as int), parts[i as int]);
                assert(parts.subrange(0, i as int).push(parts[i as int]) =~= parts.subrange(
                    0,
                    i as int + 1,
                ));
                if i == 0 {
                    assert(out@ =~= parts[0]);
                }
            }
            i = i + 1;
        }
        proof {
            assert(parts.subrange(0, self@.len() as int) =~= parts);
        }
        out
    }
}

impl<T: Clone> Clone for Veclite<T> {
    /// An element-for-element copy, each element through its own `clone`.
    fn clone(&self) -> (res: Self)
        ensures
            res@.len() == self@.len(),
            forall|i: int| #![all_triggers] 0 <= i < self@.len() ==> cloned::<T>(self@[i], res@[i]),
    {
        Veclite(self.0.clone())
    }
}

impl<T> From<Vec<T>> for Veclite<T> {
    /// Converts a `Vec<T>` into a `Veclite<T>` by adoption: the wrapper takes
    /// ownership of the vector, keeping its elements and their order.
    fn from(elements: Vec<T>) -> (v: Self) {
        Veclite(elements)
    }
}

impl<T> vstd::std_specs::convert::FromSpecImpl<Vec<T>> for Veclite<T> {
    open spec fn obeys_from_spec() -> bool {
        true
    }

    open spec fn from_spec(elements: Vec<T>) -> Self {
        Veclite(elements)
    }
}

impl<T> Default for Veclite<T> {
    /// The default wrapper is empty.
    fn default() -> (v: Self)
        ensures
            v@ == Seq::<T>::empty(),
    {
        Veclite(Vec::new())
    }
}

} // verus!

//! The wrapper's laws, stated over its model.
//!
//! Each operation's contract already pins the sequence after the call; the
//! proof functions here state the consequences a caller cares about — length
//! bookkeeping over whole runs of operations, what lands where after an
//! insertion, and how elements shift on removal — over the same `Seq` model
//! the contracts use.

use vstd::prelude::*;
use crate::render::join_spaces;

verus! {

/// One mutation of a wrapper: the model of `add`, `prepend` and `remove`.
pub enum Op<T> {
    Add(T),
    Prepend(T),
    Remove(usize),
}

/// The sequence after one operation, exactly as the operations' contracts
/// state it: `Remove` with an out-of-range index changes nothing.
pub open spec fn apply_op<T>(s: Seq<T>, op: Op<T>) -> Seq<T> {
    match op {
        Op::Add(x) => s.push(x),
        Op::Prepend(x) => s.insert(0, x),
        Op::Remove(i) => if i < s.len() {
            s.remove(i as int)
        } else {
            s
        },
    }
}

/// The sequence after a whole run of operations, first operation first.
pub open spec fn apply_ops<T>(s: Seq<T>, ops: Seq<Op<T>>) -> Seq<T>
    decreases ops.len(),
{
    if ops.len() == 0 {
        s
    } else {
        apply_ops(apply_op(s, ops[0]), ops.drop_first())
    }
}

/// How many of the operations insert an element.
pub open spec fn insertions<T>(ops: Seq<Op<T>>) -> nat
    decreases ops.len(),
{
    if ops.len() == 0 {
        0
    } else {
        (match ops[0] {
            Op::Add(_) => 1nat,
            Op::Prepend(_) => 1nat,
            Op::Remove(_) => 0nat,
        }) + insertions(ops.drop_first())
    }
}

/// How many of the operations remove an element, each counted against the
/// state it runs in: a `Remove` counts only where its index is in range.
pub open spec fn successful_removes<T>(s: Seq<T>, ops: Seq<Op<T>>) -> nat
    decreases ops.len(),
{
    if ops.len() == 0 {
        0
    } else {
        (match ops[0] {
            Op::Remove(i) => if i < s.len() {
                1nat
            } else {
                0nat
            },
            Op::Add(_) => 0nat,
            Op::Prepend(_) => 0nat,
        }) + successful_removes(apply_op(s, ops[0]), ops.drop_first())
    }
}

/// Length bookkeeping: after any run of operations the length is the starting
/// length, plus the insertions, minus the removes that found their index in
/// range.
pub proof fn lemma_len_bookkeeping<T>(s: Seq<T>, ops: Seq<Op<T>>)
    ensures
        apply_ops(s, ops).len() == s.len() + insertions(ops) - successful_removes(s, ops),
    decreases ops.len(),
{
    if ops.len() > 0 {
        let stepped = apply_op(s, ops[0]);
        match ops[0] {
            Op::Add(_) => {
                assert(stepped.len() == s.len() + 1);
            },
            Op::Prepend(_) => {
                assert(stepped.len() == s.len() + 1);
            },
            Op::Remove(i) => {
                if i < s.len() {
                    assert(stepped.len() == s.len() - 1);
                }
            },
        }
        lemma_len_bookkeeping(stepped, ops.drop_first());
    }
}

/// Appending `x` grows the length by one and puts `x` at the new last
/// position; nothing else moves.
pub proof fn lemma_add_at_tail<T>(s: Seq<T>, x: T)
    ensures
        s.push(x).len() == s.len() + 1,
        s.push(x)[s.len() as int] == x,
        forall|i: int| 0 <= i < s.len() ==> s.push(x)[i] == s[i],
{
}

/// Prepending `x` grows the length by one, puts `x` at position zero, and
/// moves every element already present one position later, order otherwise
/// preserved.
pub proof fn lemma_prepend_shifts<T>(s: Seq<T>, x: T)
    ensures
        s.insert(0, x).len() == s.len() + 1,
        s.insert(0, x)[0] == x,
        forall|i: int| 0 <= i < s.len() ==> s.insert(0, x)[i + 1] == s[i],
{
    s.insert_ensures(0, x);
}

/// Removing at an in-range index shrinks the length by exactly one, leaves
/// every earlier element where it was, and moves every later element one
/// position earlier.
pub proof fn lemma_remove_shifts<T>(s: Seq<T>, i: int)
    requires
        0 <= i < s.len(),
    ensures
        s.remove(i).len() == s.len() - 1,
        forall|j: int| 0 <= j < i ==> s.remove(i)[j] == s[j],
        forall|j: int| i <= j < s.len() - 1 ==> s.remove(i)[j] == s[j + 1],
{
    s.remove_ensures(i);
}

/// Rendering nothing yields the empty text.
pub proof fn lemma_render_empty()
    ensures
        join_spaces(Seq::<Seq<char>>::empty()) == Seq::<char>::empty(),
{
}

} // verus!

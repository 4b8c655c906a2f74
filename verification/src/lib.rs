//! Build-first iteration.
//!
//! This library reframes pull-based iteration around a one-shot *builder*: a
//! value that can be consumed exactly once to produce a stateful cursor. The
//! [`Iterator`] trait is the cursor half: it yields one item per call of
//! `next`, and its contract is stated over the ghost sequence of items it has
//! still to produce. The [`Iterate`] trait is the builder half: `iterate`
//! consumes the builder and hands back the cursor it stands for, and the
//! combinator methods (`map`, `collect`) live on the builder, so that
//! composing them defers all work until a cursor is finally built. The
//! [`Collect`] trait is the sink half: it drains a builder to completion and
//! accumulates the drained items into one value.
//!
//! Every cursor is automatically a builder whose build step is the identity,
//! so cursor-style and builder-style operations chain uniformly; the
//! [`lemma_blanket_identity`] law pins that relationship down.

use vstd::prelude::*;

pub mod map;
pub mod vecs;

verus! {

use crate::map::IntoMap;

/// A stateful iterator returned by [`Iterate::iterate`].
///
/// The ghost sequence [`Iterator::remaining`] holds the items the cursor has
/// yet to yield, in order: `next` either yields the head of that sequence and
/// drops it, or reports that the sequence is empty and leaves it empty, so a
/// well-formed cursor yields exactly its remaining items and then `None`
/// forever.
pub trait Iterator {
    /// The type of the elements being iterated over.
    type Item;

    /// Is the cursor's internal state consistent, so that `next` may be
    /// called and its contract holds?
    spec fn wf(&self) -> bool;

    /// The items this cursor has still to yield, in order.
    spec fn remaining(&self) -> Seq<Self::Item>;

    /// Advances the iterator and returns the next value.
    fn next(&mut self) -> (r: Option<Self::Item>)
        requires
            old(self).wf(),
        ensures
            final(self).wf(),
            match r {
                Some(x) => {
                    &&& old(self).remaining().len() > 0
                    &&& x == old(self).remaining()[0]
                    &&& final(self).remaining() == old(self).remaining().drop_first()
                },
                None => {
                    &&& old(self).remaining().len() == 0
                    &&& final(self).remaining() == old(self).remaining()
                },
            },
    ;

    /// How many items do we expect to yield?
    ///
    /// A best-effort hint of the form (lower bound, optional upper bound);
    /// nothing ties it to [`Iterator::remaining`], and no caller may rely on
    /// it for correctness.
    fn size_hint(&self) -> (r: (usize, Option<usize>)) {
        (0, None)
    }
}

/// Provide sequential, iterated access to items.
///
/// A value of an implementing type is a one-shot builder: [`Iterate::iterate`]
/// consumes it and produces the cursor [`Iterate::built`] that the value
/// stands for. Combinators ([`Iterate::map`]) wrap the builder without
/// building anything, so no iteration work happens until `iterate` is called.
pub trait Iterate {
    /// The type of the elements being iterated over.
    type Item;

    /// Which kind of iterator are we turning this into?
    type Iterator: Iterator<Item = Self::Item>;

    /// Does consuming this builder yield a well-formed cursor?
    spec fn builds_wf(&self) -> bool;

    /// The cursor this builder produces when consumed.
    spec fn built(&self) -> Self::Iterator;

    /// Begin iteration and obtain a stateful [`Iterator`].
    fn iterate(self) -> (r: Self::Iterator)
        ensures
            r == self.built(),
            self.builds_wf() ==> r.wf(),
    ;

    /// Maps the values of iter with f.
    ///
    /// Lazy: no cursor is built and `f` is not invoked; the result is a new,
    /// still-unconsumed builder wrapping `self` and `f` unchanged.
    fn map<F, B>(self, f: F) -> (r: IntoMap<Self, F>)
        where
            F: Fn(Self::Item) -> B,
            Self: Sized,
        ensures
            r.inner() == self,
            r.func() == f,
    {
        IntoMap::new(self, f)
    }

    /// Transforms this iterator into a collection.
    fn collect<B: Collect<Self::Item>>(self) -> (r: B)
        where
            Self: Sized,
        requires
            self.builds_wf(),
        ensures
            B::collected_from(r, self.built().remaining()),
    {
        Collect::collect(self.iterate())
    }
}

impl<T> Iterate for T where T: Iterator {
    type Item = T::Item;

    type Iterator = T;

    open spec fn builds_wf(&self) -> bool {
        self.wf()
    }

    open spec fn built(&self) -> T {
        *self
    }

    fn iterate(self) -> (r: T) {
        self
    }
}

/// Iterate over items and collect them into a value.
pub trait Collect<A>: Sized {
    /// Which collected values may arise from draining a given sequence of
    /// items. Each implementation fixes what its collected value holds.
    spec fn collected_from(r: Self, items: Seq<A>) -> bool;

    /// Creates a value by draining a cursor to exhaustion. To collect from a
    /// builder, build its cursor first, or call [`Iterate::collect`], which
    /// does so.
    fn collect<T: Iterator<Item = A>>(cursor: T) -> (r: Self)
        requires
            cursor.wf(),
        ensures
            Self::collected_from(r, cursor.remaining()),
    ;
}

/// Blanket-identity law: a cursor used as a builder builds to itself,
/// unchanged — the blanket [`Iterate`] implementation for cursors makes the
/// build step the identity, consuming and producing no items.
pub proof fn lemma_blanket_identity<T: Iterator>(t: T)
    ensures
        Iterate::built(&t) == t,
        Iterate::builds_wf(&t) == t.wf(),
{
}

} // verus!

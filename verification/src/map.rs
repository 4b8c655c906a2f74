//! Helper types for the `map` operation

use vstd::prelude::*;

verus! {

use crate::{Iterate, Iterator};

/// The specification of transform `f` admits at most one output for input
/// `x`: any two results it allows on `x` are equal.
pub open spec fn single_valued<F, A, B>(f: F, x: A) -> bool where F: Fn(A) -> B {
    forall|y1: B, y2: B|
        #[trigger] call_ensures(f, (x,), y1) && #[trigger] call_ensures(f, (x,), y2) ==> y1 == y2
}

/// Transform `f` may be invoked on `x`, and its specification pins the
/// result down to a single value.
pub open spec fn accepts<F, A, B>(f: F, x: A) -> bool where F: Fn(A) -> B {
    &&& call_requires(f, (x,))
    &&& single_valued::<F, A, B>(f, x)
}

/// The one value the specification of transform `f` assigns to input `x`.
/// Meaningful where `f` is single-valued on `x` and a call on `x` returns.
pub open spec fn applied<F, A, B>(f: F, x: A) -> B where F: Fn(A) -> B {
    choose|y: B| call_ensures(f, (x,), y)
}

/// A value actually returned by a transform that is single-valued on its
/// input is the assigned value [`applied`].
pub proof fn lemma_applied_agrees<F, A, B>(f: F, x: A, y: B) where F: Fn(A) -> B
    requires
        single_valued::<F, A, B>(f, x),
        call_ensures(f, (x,), y),
    ensures
        applied::<F, A, B>(f, x) == y,
{
    assert(exists|z: B| call_ensures(f, (x,), z));
    assert(call_ensures(f, (x,), applied::<F, A, B>(f, x)));
}

/// An iterator which maps items from one type to another
pub struct MapCursor<I, F> {
    iter: I,
    f: F,
}

impl<I, F> MapCursor<I, F> {
    /// The wrapped inner cursor.
    pub closed spec fn inner(&self) -> I {
        self.iter
    }

    /// The transform the cursor applies to each item.
    pub closed spec fn func(&self) -> F {
        self.f
    }

    /// Wrap `iter` and `f` into a mapping cursor.
    pub fn new(iter: I, f: F) -> (r: MapCursor<I, F>)
        ensures
            r.inner() == iter,
            r.func() == f,
    {
        MapCursor { iter, f }
    }
}

impl<A, B, I, F> Iterator for MapCursor<I, F> where I: Iterator<Item = A>, F: Fn(A) -> B {
    type Item = B;

    open spec fn wf(&self) -> bool {
        &&& self.inner().wf()
        &&& forall|i: int|
            0 <= i < self.inner().remaining().len() ==> accepts::<F, A, B>(
                self.func(),
                #[trigger] self.inner().remaining()[i],
            )
    }

    open spec fn remaining(&self) -> Seq<B> {
        self.inner().remaining().map_values(|x: A| applied::<F, A, B>(self.func(), x))
    }

    fn next(&mut self) -> (r: Option<B>)
        // Beyond the trait contract: the yielded value is an actual output of
        // the transform on the inner cursor's head, the transform itself is
        // kept, and the inner cursor advances by exactly one item.
        ensures
            final(self).func() == old(self).func(),
            r is Some ==> old(self).inner().remaining().len() > 0,
            r is Some ==> call_ensures(
                old(self).func(),
                (old(self).inner().remaining()[0],),
                r->Some_0,
            ),
            r is Some ==> final(self).inner().remaining() == old(
                self,
            ).inner().remaining().drop_first(),
            r is None ==> old(self).inner().remaining().len() == 0,
            r is None ==> final(self).inner().remaining() == old(self).inner().remaining(),
    {
        match self.iter.next() {
            Some(x) => {
                proof {
                    assert(x == old(self).inner().remaining()[0]);
                    assert(accepts::<F, A, B>(self.func(), x));
                }
                let y = (self.f)(x);
                proof {
                    lemma_applied_agrees::<F, A, B>(self.f, x, y);
                    assert(self.remaining() =~= old(self).remaining().drop_first());
                    assert forall|i: int| 0 <= i < self.inner().remaining().len() implies accepts::<
                        F,
                        A,
                        B,
                    >(self.func(), self.inner().remaining()[i]) by {
                        assert(self.inner().remaining()[i] == old(self).inner().remaining()[i + 1]);
                    }
                }
                Some(y)
            },
            None => None,
        }
    }
}

/// A type that can be converted into a map iterator.
pub struct IntoMap<I, F> {
    iter: I,
    f: F,
}

impl<I, F> IntoMap<I, F> {
    /// The wrapped inner builder.
    pub closed spec fn inner(&self) -> I {
        self.iter
    }

    /// The transform the built cursor will apply to each item.
    pub closed spec fn func(&self) -> F {
        self.f
    }

    /// Wrap `iter` and `f` into a mapping builder.
    pub fn new(iter: I, f: F) -> (r: IntoMap<I, F>)
        ensures
            r.inner() == iter,
            r.func() == f,
    {
        IntoMap { iter, f }
    }
}

impl<A, B, I, F> Iterate for IntoMap<I, F> where I: Iterate<Item = A>, F: Fn(A) -> B {
    type Item = B;

    type Iterator = MapCursor<I::Iterator, F>;

    open spec fn builds_wf(&self) -> bool {
        &&& self.inner().builds_wf()
        &&& forall|i: int|
            0 <= i < self.inner().built().remaining().len() ==> accepts::<F, A, B>(
                self.func(),
                #[trigger] self.inner().built().remaining()[i],
            )
    }

    closed spec fn built(&self) -> MapCursor<I::Iterator, F> {
        MapCursor { iter: self.inner().built(), f: self.func() }
    }

    fn iterate(self) -> (r: MapCursor<I::Iterator, F>) {
        let ghost s = self;
        let r = MapCursor::new(self.iter.iterate(), self.f);
        proof {
            if s.builds_wf() {
                assert forall|i: int| 0 <= i < r.inner().remaining().len() implies accepts::<
                    F,
                    A,
                    B,
                >(r.func(), r.inner().remaining()[i]) by {
                    assert(accepts::<F, A, B>(s.func(), s.inner().built().remaining()[i]));
                }
                assert(r.wf());
            }
        }
        r
    }
}

/// What well-formed building demands of an [`IntoMap`]: a well-building inner
/// builder, and a transform that [`accepts`] every item the inner cursor will
/// yield. Stated here so that callers holding a concrete builder can move
/// between `builds_wf` and these two facts.
pub proof fn lemma_into_map_builds_wf<B, I, F>(m: IntoMap<I, F>)
    where
        I: Iterate,
        F: Fn(I::Item) -> B,
    ensures
        m.builds_wf() == ({
            &&& m.inner().builds_wf()
            &&& forall|i: int|
                0 <= i < m.inner().built().remaining().len() ==> accepts::<F, I::Item, B>(
                    m.func(),
                    #[trigger] m.inner().built().remaining()[i],
                )
        }),
{
}

/// What building an [`IntoMap`] produces: the inner builder's own cursor,
/// wrapped with the transform unchanged.
pub proof fn lemma_into_map_built<B, I, F>(m: IntoMap<I, F>)
    where
        I: Iterate,
        F: Fn(I::Item) -> B,
    ensures
        m.built().inner() == m.inner().built(),
        m.built().func() == m.func(),
{
}

/// The sequence a mapped builder's cursor will yield: the inner builder's
/// own sequence with the transform applied to every item.
pub proof fn lemma_into_map_remaining<B, I, F>(m: IntoMap<I, F>)
    where
        I: Iterate,
        F: Fn(I::Item) -> B,
    ensures
        m.built().remaining() == m.inner().built().remaining().map_values(
            (|x: I::Item| applied::<F, I::Item, B>(m.func(), x)),
        ),
{
    assert(m.built().remaining() =~= m.inner().built().remaining().map_values(
        (|x: I::Item| applied::<F, I::Item, B>(m.func(), x)),
    ));
}

/// Map identity law: a transform whose specification applies as the identity
/// leaves the built cursor's sequence exactly the inner builder's sequence.
pub proof fn lemma_map_identity<I, F>(m: IntoMap<I, F>)
    where
        I: Iterate,
        F: Fn(I::Item) -> I::Item,
    requires
        forall|x: I::Item| #[trigger] applied::<F, I::Item, I::Item>(m.func(), x) == x,
    ensures
        m.built().remaining() == m.inner().built().remaining(),
{
    assert(m.built().remaining() =~= m.inner().built().remaining());
}

/// Map composition law: mapping with `f` and then with `g` yields the same
/// sequence as mapping once with a transform that applies as `g` after `f`.
pub proof fn lemma_map_composition<B1, B2, I, F, G, H>(
    outer: IntoMap<IntoMap<I, F>, G>,
    fused: IntoMap<I, H>,
)
    where
        I: Iterate,
        F: Fn(I::Item) -> B1,
        G: Fn(B1) -> B2,
        H: Fn(I::Item) -> B2,
    requires
        fused.inner() == outer.inner().inner(),
        forall|x: I::Item| #[trigger] applied::<H, I::Item, B2>(fused.func(), x)
            == applied::<G, B1, B2>(
            outer.func(),
            applied::<F, I::Item, B1>(outer.inner().func(), x),
        ),
    ensures
        outer.built().remaining() == fused.built().remaining(),
{
    assert(outer.built().remaining() =~= fused.built().remaining());
}

/// Short-circuit law: once the inner cursor is exhausted, a [`MapCursor`] is
/// well-formed whatever its transform — nothing at all is demanded of the
/// transform, so `next` cannot invoke it — and the cursor's own remaining
/// sequence is empty, forcing `next` to yield `None`.
pub proof fn lemma_map_short_circuit<B, I, F>(m: MapCursor<I, F>)
    where
        I: Iterator,
        F: Fn(I::Item) -> B,
    requires
        m.inner().wf(),
        m.inner().remaining().len() == 0,
    ensures
        m.wf(),
        m.remaining().len() == 0,
{
}

} // verus!

//! A `Vec`-backed cursor source and sink.
//!
//! The core abstractions are extension points; this module plugs the one
//! ordinary container in, so that a builder can be made from a `Vec` and a
//! builder can be drained back into one.

use vstd::prelude::*;

verus! {

use crate::{Collect, Iterator};

/// A cursor yielding the elements of a `Vec` front to back.
pub struct VecCursor<T> {
    items: Vec<T>,
}

impl<T> VecCursor<T> {
    /// A cursor that will yield the elements of `items` in order.
    pub fn new(items: Vec<T>) -> (r: VecCursor<T>)
        ensures
            r.wf(),
            r.remaining() == items@,
    {
        VecCursor { items }
    }
}

impl<T> Iterator for VecCursor<T> {
    type Item = T;

    open spec fn wf(&self) -> bool {
        true
    }

    closed spec fn remaining(&self) -> Seq<T> {
        self.items@
    }

    fn next(&mut self) -> (r: Option<T>) {
        if self.items.len() == 0 {
            None
        } else {
            let x = self.items.remove(0);
            proof {
                assert(self.items@ =~= old(self).items@.drop_first());
            }
            Some(x)
        }
    }
}

impl<A> Collect<A> for Vec<A> {
    open spec fn collected_from(r: Self, items: Seq<A>) -> bool {
        r@ == items
    }

    fn collect<T: Iterator<Item = A>>(cursor: T) -> (r: Vec<A>) {
        let ghost full: Seq<A> = cursor.remaining();
        let mut c = cursor;
        let mut out: Vec<A> = Vec::new();
        proof {
            assert(out@ + c.remaining() =~= full);
        }
        loop
            invariant
                c.wf(),
                out@ + c.remaining() == full,
            ensures
                out@ + c.remaining() == full,
                c.remaining().len() == 0,
            decreases c.remaining().len(),
        {
            match c.next() {
                Some(x) => {
                    out.push(x);
                    proof {
                        assert(out@ + c.remaining() =~= full);
                    }
                },
                None => {
                    break;
                },
            }
        }
        proof {
            assert(out@ =~= full);
        }
        out
    }
}

} // verus!

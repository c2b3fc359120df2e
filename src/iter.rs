//! Iterators over a container that present a single value as a one-element
//! sequence, with an exact count of what is left at every step.
use crate::VecOrObject;
use std::collections::VecDeque;
use vstd::prelude::*;
use vstd::std_specs::iter::IteratorSpec;

verus! {

/// One step of iteration over the remaining elements `s`: the element handed
/// out, if any, and what remains after it.
pub open spec fn step<T>(s: Seq<T>) -> (Option<T>, Seq<T>) {
    if s.len() > 0 {
        (Some(s[0]), s.drop_first())
    } else {
        (None, s)
    }
}

/// Borrowing iterator: walks the rest of a list, or hands out a reference to
/// a single value once.
#[derive(Debug)]
pub enum SliceIterOrSingle<'a, T> {
    /// The part of the list not yet visited.
    Vec(&'a [T]),
    /// A single value not yet handed out.
    Single(&'a T),
    /// Nothing left.
    Empty,
}

impl<'a, T> SliceIterOrSingle<'a, T> {
    /// The elements still to come, in order.
    pub open spec fn view(&self) -> Seq<T> {
        match self {
            SliceIterOrSingle::Vec(s) => s@,
            SliceIterOrSingle::Single(x) => seq![**x],
            SliceIterOrSingle::Empty => Seq::empty(),
        }
    }

    /// An iterator over the elements of `v`, borrowing them.
    pub fn new(v: &'a VecOrObject<T>) -> (r: Self)
        ensures
            r@ == v@,
            v is Object ==> r is Single,
    {
        match v {
            VecOrObject::Array(items) => SliceIterOrSingle::Vec(items.as_slice()),
            VecOrObject::Object(x) => SliceIterOrSingle::Single(x),
        }
    }

    /// Number of elements still to come.
    pub fn len(&self) -> (r: usize)
        ensures
            r == self@.len(),
    {
        match self {
            SliceIterOrSingle::Vec(s) => s.len(),
            SliceIterOrSingle::Single(_) => 1,
            SliceIterOrSingle::Empty => 0,
        }
    }

    /// Hands out the next element, if any.
    pub fn next(&mut self) -> (r: Option<&'a T>)
        ensures
            step(old(self)@).0 is None ==> r is None,
            step(old(self)@).0 matches Some(x) ==> (r matches Some(y) && *y == x),
            final(self)@ == step(old(self)@).1,
            *old(self) is Single ==> *final(self) is Empty,
            *old(self) is Empty ==> *final(self) is Empty,
    {
        match *self {
            SliceIterOrSingle::Vec(s) => {
                if s.len() == 0 {
                    None
                } else {
                    let (head, rest) = s.split_at(1);
                    *self = SliceIterOrSingle::Vec(rest);
                    proof {
                        assert(rest@ =~= s@.drop_first());
                    }
                    Some(&head[0])
                }
            },
            SliceIterOrSingle::Single(x) => {
                *self = SliceIterOrSingle::Empty;
                proof {
                    assert(step(old(self)@).1 =~= Seq::<T>::empty());
                }
                Some(x)
            },
            SliceIterOrSingle::Empty => None,
        }
    }
}

/// Relies on std's `From<Vec<T>> for VecDeque<T>`: the queue holds the
/// vector's elements in the same order (the buffer is taken over as it is).
#[verifier::external_body]
fn deque_from_vec<T>(v: Vec<T>) -> (r: VecDeque<T>)
    ensures
        r@ == v@,
{
    VecDeque::from(v)
}

/// Owning iterator: walks a list, or hands out a single value once.
#[derive(Debug)]
pub enum IntoSliceIterOrSingle<T> {
    /// The elements of the list not yet handed out.
    Vec(VecDeque<T>),
    /// A single value not yet handed out.
    Single(T),
    /// What a `Single` becomes once its value has been handed out.
    Empty,
}

impl<T> IntoSliceIterOrSingle<T> {
    /// The elements still to come, in order.
    pub open spec fn view(&self) -> Seq<T> {
        match self {
            IntoSliceIterOrSingle::Vec(d) => d@,
            IntoSliceIterOrSingle::Single(x) => seq![*x],
            IntoSliceIterOrSingle::Empty => Seq::empty(),
        }
    }

    /// An iterator over the elements of `v`, taking them over.
    pub fn new(v: VecOrObject<T>) -> (r: Self)
        ensures
            r@ == v@,
            v is Object ==> r is Single,
    {
        match v {
            VecOrObject::Array(items) => IntoSliceIterOrSingle::Vec(deque_from_vec(items)),
            VecOrObject::Object(x) => IntoSliceIterOrSingle::Single(x),
        }
    }

    /// Number of elements still to come.
    pub fn len(&self) -> (r: usize)
        ensures
            r == self@.len(),
    {
        match self {
            IntoSliceIterOrSingle::Vec(d) => d.len(),
            IntoSliceIterOrSingle::Single(_) => 1,
            IntoSliceIterOrSingle::Empty => 0,
        }
    }

    /// Hands out the next element, if any, moving it out of the iterator.
    pub fn next(&mut self) -> (r: Option<T>)
        ensures
            (r, final(self)@) == step(old(self)@),
            *old(self) is Single ==> *final(self) is Empty,
            *old(self) is Empty ==> *final(self) is Empty,
    {
        match self {
            IntoSliceIterOrSingle::Vec(d) => {
                let r = d.pop_front();
                proof {
                    if old(self)@.len() > 0 {
                        assert(d@ =~= old(self)@.drop_first());
                    }
                }
                r
            },
            IntoSliceIterOrSingle::Empty => None,
            IntoSliceIterOrSingle::Single(_) => {
                let mut taken = IntoSliceIterOrSingle::Empty;
                std::mem::swap(self, &mut taken);
                proof {
                    assert(step(old(self)@).1 =~= Seq::<T>::empty());
                }
                match taken {
                    IntoSliceIterOrSingle::Single(x) => Some(x),
                    _ => None,
                }
            },
        }
    }

    /// The elements still to come, as a plain list.
    pub fn into_vec(self) -> (r: Vec<T>)
        ensures
            r@ == self@,
    {
        match self {
            IntoSliceIterOrSingle::Vec(mut d) => {
                let mut out: Vec<T> = Vec::with_capacity(d.len());
                let ghost all = d@;
                while d.len() > 0
                    invariant
                        out@ + d@ == all,
                    decreases d@.len(),
                {
                    if let Some(x) = d.pop_front() {
                        out.push(x);
                    }
                    proof {
                        assert(out@ + d@ =~= all);
                    }
                }
                proof {
                    assert(out@ =~= all);
                }
                out
            },
            IntoSliceIterOrSingle::Single(x) => {
                let mut out = Vec::with_capacity(1);
                out.push(x);
                proof {
                    assert(out@ =~= seq![x]);
                }
                out
            },
            IntoSliceIterOrSingle::Empty => Vec::new(),
        }
    }

    /// The elements still to come, as a plain vector iterator.
    pub fn into_vec_iter(self) -> (r: std::vec::IntoIter<T>)
        ensures
            IteratorSpec::remaining(&r) == self@,
    {
        self.into_vec().into_iter()
    }
}

/// Iterating a single value hands it out exactly once: one element is left at
/// the start, none after the first step, and every later step yields nothing.
pub proof fn lemma_single_iterates_once<T>(x: T)
    ensures
        VecOrObject::Object(x)@.len() == 1,
        step(VecOrObject::Object(x)@).0 == Some(x),
        step(VecOrObject::Object(x)@).1.len() == 0,
        step(step(VecOrObject::Object(x)@).1) == (None::<T>, Seq::<T>::empty()),
{
    assert(step(VecOrObject::Object(x)@).1 =~= Seq::<T>::empty());
}

/// Iterating an empty list yields nothing, and nothing is ever left.
pub proof fn lemma_empty_list_iterates_nothing<T>(c: VecOrObject<T>)
    requires
        c.shape() == crate::Shape::<T>::List(Seq::empty()),
    ensures
        c@.len() == 0,
        step(c@) == (None::<T>, c@),
{
}

} // verus!

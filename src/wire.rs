//! The collapsing rule between a container and an external encoding, in which
//! a one-element array and a bare value are the same thing.
//!
//! An encoder asks `to_wire` which shape to write; a decoder hands what it
//! read to `from_wire`, or fills an existing container in place.
use crate::{Shape, VecOrObject};
use vstd::prelude::*;

verus! {

/// How a field appears in an external encoding.
pub enum Encoding<T> {
    /// The field is missing.
    Absent,
    /// A bare value (a scalar or an object).
    Bare(T),
    /// An array of values.
    Array(Seq<T>),
}

/// The encoding of a container: a list of one element is written bare, like a
/// single value; any other list is written as an array.
pub open spec fn encode<T>(s: Shape<T>) -> Encoding<T> {
    match s {
        Shape::List(items) => if items.len() == 1 {
            Encoding::Bare(items[0])
        } else {
            Encoding::Array(items)
        },
        Shape::Single(x) => Encoding::Bare(x),
    }
}

/// The container read from an encoding: a missing field is an empty list, a
/// bare value or an array of one is a single value, any other array is a list.
pub open spec fn decode<T>(e: Encoding<T>) -> Shape<T> {
    match e {
        Encoding::Absent => Shape::List(Seq::empty()),
        Encoding::Bare(x) => Shape::Single(x),
        Encoding::Array(items) => if items.len() == 1 {
            Shape::Single(items[0])
        } else {
            Shape::List(items)
        },
    }
}

/// A field as a decoder has read it, with its values.
pub enum Wire<T> {
    Absent,
    Bare(T),
    Array(Vec<T>),
}

impl<T> Wire<T> {
    pub open spec fn view(&self) -> Encoding<T> {
        match self {
            Wire::Absent => Encoding::Absent,
            Wire::Bare(x) => Encoding::Bare(*x),
            Wire::Array(v) => Encoding::Array(v@),
        }
    }
}

/// What an encoder writes for a container, borrowed from it.
pub enum WireRef<'a, T> {
    Bare(&'a T),
    Array(&'a [T]),
}

impl<'a, T> WireRef<'a, T> {
    pub open spec fn view(&self) -> Encoding<T> {
        match self {
            WireRef::Bare(x) => Encoding::Bare(**x),
            WireRef::Array(s) => Encoding::Array(s@),
        }
    }
}

impl<T> VecOrObject<T> {
    /// The shape to write this container in, borrowing its elements.
    pub fn to_wire(&self) -> (r: WireRef<'_, T>)
        ensures
            r@ == encode(self.shape()),
    {
        match self {
            VecOrObject::Array(v) => {
                if v.len() == 1 {
                    WireRef::Bare(&v[0])
                } else {
                    WireRef::Array(v.as_slice())
                }
            },
            VecOrObject::Object(x) => WireRef::Bare(x),
        }
    }

    /// The shape to write this container in, taking its elements.
    pub fn into_wire(self) -> (r: Wire<T>)
        ensures
            r@ == encode(self.shape()),
    {
        match self {
            VecOrObject::Array(mut v) => {
                if v.len() == 1 {
                    Wire::Bare(v.remove(0))
                } else {
                    Wire::Array(v)
                }
            },
            VecOrObject::Object(x) => Wire::Bare(x),
        }
    }

    /// The container that a field read from an encoding stands for.
    pub fn from_wire(w: Wire<T>) -> (r: Self)
        ensures
            r.shape() == decode(w@),
    {
        match w {
            Wire::Absent => VecOrObject::Array(Vec::new()),
            Wire::Bare(x) => VecOrObject::Object(x),
            Wire::Array(mut v) => {
                if v.len() == 1 {
                    VecOrObject::Object(v.remove(0))
                } else {
                    VecOrObject::Array(v)
                }
            },
        }
    }

    /// Readies this container to receive an array's elements in place: a list
    /// is emptied and keeps its storage; a single value gives way to an empty
    /// list.
    pub fn start_array_in_place(&mut self)
        ensures
            final(self).shape() == Shape::<T>::List(Seq::empty()),
    {
        if let VecOrObject::Array(v) = self {
            v.clear();
        } else {
            *self = VecOrObject::Array(Vec::new());
        }
    }

    /// Appends one element read from an array, in place.
    pub fn push_in_place(&mut self, x: T)
        requires
            *old(self) is Array,
        ensures
            final(self).shape() == Shape::List(old(self)@.push(x)),
    {
        if let VecOrObject::Array(v) = self {
            v.push(x);
        }
    }

    /// Ends an array read in place: a list of one element collapses into a
    /// single value; any other list stays as it is.
    pub fn finish_array_in_place(&mut self)
        requires
            *old(self) is Array,
        ensures
            final(self).shape() == decode(Encoding::Array(old(self)@)),
    {
        let mut taken = VecOrObject::Array(Vec::new());
        std::mem::swap(self, &mut taken);
        if let VecOrObject::Array(mut v) = taken {
            if v.len() == 1 {
                *self = VecOrObject::Object(v.remove(0));
            } else {
                *self = VecOrObject::Array(v);
            }
        }
    }

    /// Replaces this container with what a field read from an encoding stands
    /// for, reusing the list's storage where the new content is an array.
    pub fn decode_in_place(&mut self, w: Wire<T>)
        ensures
            final(self).shape() == decode(w@),
    {
        match w {
            Wire::Absent => self.start_array_in_place(),
            Wire::Bare(x) => {
                *self = VecOrObject::Object(x);
            },
            Wire::Array(mut items) => {
                self.start_array_in_place();
                if let VecOrObject::Array(v) = self {
                    v.append(&mut items);
                }
                proof {
                    assert(self@ =~= w@->Array_0);
                }
                self.finish_array_in_place();
            },
        }
    }
}

/// A list of two or more elements comes back unchanged from its encoding.
pub proof fn lemma_list_round_trip<T>(s: Seq<T>)
    requires
        s.len() >= 2,
    ensures
        decode(encode(Shape::List(s))) == Shape::List(s),
{
}

/// A single value comes back unchanged from its encoding.
pub proof fn lemma_single_round_trip<T>(v: T)
    ensures
        decode(encode(Shape::Single(v))) == Shape::Single(v),
{
}

/// A list of one element is encoded exactly as a single value is, and so comes
/// back as a single value.
pub proof fn lemma_one_element_list_collapses<T>(v: T)
    ensures
        encode(Shape::List(seq![v])) == encode(Shape::Single(v)),
        decode(encode(Shape::List(seq![v]))) == Shape::Single(v),
{
}

/// A missing field reads as an empty list: its size is zero and it is empty.
pub proof fn lemma_absent_is_empty_list<T>(c: VecOrObject<T>)
    requires
        c.shape() == decode(Encoding::<T>::Absent),
    ensures
        c is Array,
        c@.len() == 0,
{
}

} // verus!

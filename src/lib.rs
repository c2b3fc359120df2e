//! A container that holds either one value or a list of values, and treats
//! both shapes alike under indexing, iteration and size queries.
pub mod iter;
pub mod wire;

use vstd::prelude::*;

verus! {

/// Either a list of values or a single bare value.
///
/// A list of one element and a single value are different states: they are
/// never equal, though most operations treat them alike.
#[derive(Clone, Debug, PartialEq, Eq, Hash)]
pub enum VecOrObject<T> {
    Array(Vec<T>),
    Object(T),
}

/// The logical content of a container, with its tag.
pub enum Shape<T> {
    List(Seq<T>),
    Single(T),
}

/// What positional access reports when the position is past the last element.
#[derive(Clone, Copy, Debug, PartialEq, Eq, Hash)]
pub struct IndexOutOfBounds {
    pub index: usize,
    pub size: usize,
}

/// The shape after turning a single value into a one-element list.
pub open spec fn listed<T>(s: Shape<T>) -> Shape<T> {
    match s {
        Shape::List(items) => Shape::List(items),
        Shape::Single(x) => Shape::List(seq![x]),
    }
}

/// The elements of a shape, in order.
pub open spec fn items_of<T>(s: Shape<T>) -> Seq<T> {
    match s {
        Shape::List(items) => items,
        Shape::Single(x) => seq![x],
    }
}

impl<T> VecOrObject<T> {
    /// The elements held, in order: the whole list, or the one value.
    pub open spec fn view(&self) -> Seq<T> {
        match self {
            VecOrObject::Array(v) => v@,
            VecOrObject::Object(x) => seq![*x],
        }
    }

    /// The container's tag and content.
    pub open spec fn shape(&self) -> Shape<T> {
        match self {
            VecOrObject::Array(v) => Shape::List(v@),
            VecOrObject::Object(x) => Shape::Single(*x),
        }
    }

    /// Element at position `i`.
    pub fn index(&self, i: usize) -> (r: &T)
        requires
            i < self@.len(),
        ensures
            *r == self@[i as int],
    {
        match self {
            VecOrObject::Array(v) => &v[i],
            VecOrObject::Object(x) => x,
        }
    }

    /// Element at position `i`, or `IndexOutOfBounds` when `i` is not below `size()`.
    pub fn get(&self, i: usize) -> (r: Result<&T, IndexOutOfBounds>)
        ensures
            i < self@.len() ==> (r matches Ok(x) && *x == self@[i as int]),
            i >= self@.len() ==> r == Err::<&T, IndexOutOfBounds>(
                IndexOutOfBounds { index: i, size: self@.len() as usize },
            ),
    {
        let size = self.size();
        if i < size {
            Ok(self.index(i))
        } else {
            Err(IndexOutOfBounds { index: i, size })
        }
    }

    /// A borrowing iterator over the elements.
    pub fn iter(&self) -> (r: crate::iter::SliceIterOrSingle<'_, T>)
        ensures
            r@ == self@,
    {
        crate::iter::SliceIterOrSingle::new(self)
    }

    /// An owning iterator over the elements.
    pub fn into_iter(self) -> (r: crate::iter::IntoSliceIterOrSingle<T>)
        ensures
            r@ == self@,
    {
        crate::iter::IntoSliceIterOrSingle::new(self)
    }

    /// The first element, if any, taking the container apart.
    pub fn first(self) -> (r: Option<T>)
        ensures
            self@.len() == 0 ==> r is None,
            self@.len() > 0 ==> r == Some(self@[0]),
    {
        match self {
            VecOrObject::Array(mut v) => {
                if v.len() == 0 {
                    None
                } else {
                    Some(v.remove(0))
                }
            },
            VecOrObject::Object(x) => Some(x),
        }
    }

    /// A reference to the first element, if any.
    pub fn first_ref(&self) -> (r: Option<&T>)
        ensures
            self@.len() == 0 ==> r is None,
            self@.len() > 0 ==> (r matches Some(x) && *x == self@[0]),
    {
        match self {
            VecOrObject::Array(v) => {
                if v.len() == 0 {
                    None
                } else {
                    Some(&v[0])
                }
            },
            VecOrObject::Object(x) => Some(x),
        }
    }

    /// Whether the content is one element, whichever the tag.
    pub fn is_single(&self) -> (r: bool)
        ensures
            r == (self@.len() == 1),
            self is Object ==> r,
    {
        match self {
            VecOrObject::Array(v) => v.len() == 1,
            VecOrObject::Object(_) => true,
        }
    }

    /// Number of elements: the list's length, or one for a single value.
    pub fn size(&self) -> (r: usize)
        ensures
            r == self@.len(),
            self is Object ==> r == 1,
    {
        match self {
            VecOrObject::Array(v) => v.len(),
            VecOrObject::Object(_) => 1,
        }
    }

    /// Whether this is a list with no elements; a single value is never empty.
    pub fn is_empty(&self) -> (r: bool)
        ensures
            r == (self@.len() == 0),
            r ==> self is Array,
    {
        match self {
            VecOrObject::Array(v) => v.len() == 0,
            VecOrObject::Object(_) => false,
        }
    }

    /// Turns a single value into a one-element list, in place. Returns whether
    /// anything changed; a list is left as it is.
    pub fn make_vec(&mut self) -> (changed: bool)
        ensures
            final(self).shape() == listed(old(self).shape()),
            *final(self) is Array,
            final(self)@ == old(self)@,
            changed == (old(self).shape() is Single),
            *old(self) is Array ==> *final(self) == *old(self),
    {
        if let VecOrObject::Array(_) = self {
            false
        } else {
            let mut taken = VecOrObject::Array(Vec::new());
            std::mem::swap(self, &mut taken);
            if let VecOrObject::Object(x) = taken {
                let mut items = Vec::with_capacity(1);
                items.push(x);
                *self = VecOrObject::Array(items);
            }
            proof {
                assert(self@ =~= old(self)@);
            }
            true
        }
    }

    /// Makes room for `additional` more elements without moving any; a single
    /// value becomes a one-element list first.
    pub fn increase_capacity(&mut self, additional: usize)
        ensures
            final(self).shape() == listed(old(self).shape()),
            *final(self) is Array,
            final(self)@ == old(self)@,
    {
        if let VecOrObject::Array(v) = self {
            v.reserve(additional);
        } else {
            let mut taken = VecOrObject::Array(Vec::new());
            std::mem::swap(self, &mut taken);
            if let VecOrObject::Object(x) = taken {
                let mut items = Vec::with_capacity(additional.saturating_add(1));
                items.push(x);
                *self = VecOrObject::Array(items);
            }
            proof {
                assert(self@ =~= old(self)@);
            }
        }
    }

    /// A list holding the given elements, as they are, whatever their number.
    pub fn from_vec(v: Vec<T>) -> (r: Self)
        ensures
            r.shape() == Shape::List(v@),
    {
        VecOrObject::Array(v)
    }

    /// A single value.
    pub fn from_value(x: T) -> (r: Self)
        ensures
            r.shape() == Shape::Single(x),
    {
        VecOrObject::Object(x)
    }

    /// The elements as a plain list.
    pub fn into_vec(self) -> (r: Vec<T>)
        ensures
            r@ == self@,
    {
        match self {
            VecOrObject::Array(v) => v,
            VecOrObject::Object(x) => {
                let mut v = Vec::with_capacity(1);
                v.push(x);
                proof {
                    assert(v@ =~= seq![x]);
                }
                v
            },
        }
    }
}

/// The default container is a single default value, not an empty list.
impl<T: Default> Default for VecOrObject<T> {
    fn default() -> (r: Self)
        ensures
            r is Object,
            r@.len() == 1,
    {
        VecOrObject::Object(T::default())
    }
}

impl<T> From<Vec<T>> for VecOrObject<T> {
    fn from(v: Vec<T>) -> (r: Self) {
        VecOrObject::Array(v)
    }
}

impl<T> vstd::std_specs::convert::FromSpecImpl<Vec<T>> for VecOrObject<T> {
    open spec fn obeys_from_spec() -> bool {
        true
    }

    open spec fn from_spec(v: Vec<T>) -> Self {
        VecOrObject::Array(v)
    }
}

impl<T> From<T> for VecOrObject<T> {
    fn from(x: T) -> (r: Self) {
        VecOrObject::Object(x)
    }
}

impl<T> vstd::std_specs::convert::FromSpecImpl<T> for VecOrObject<T> {
    open spec fn obeys_from_spec() -> bool {
        true
    }

    open spec fn from_spec(x: T) -> Self {
        VecOrObject::Object(x)
    }
}

/// Turning a container into a list a second time changes nothing: the first
/// time yields a list (for a single value `v`, the list `[v]`), which the
/// second leaves as it is and reports as unchanged.
pub proof fn lemma_make_vec_idempotent<T>(s: Shape<T>)
    ensures
        listed(s) is List,
        !(listed(s) is Single),
        listed(listed(s)) == listed(s),
        s matches Shape::Single(v) ==> listed(s) == Shape::List(seq![v]),
        items_of(listed(s)) == items_of(s),
{
}

} // verus!

//! Append-only arenas addressed by opaque references, and the labels kept in one.

use std::cmp::Ordering;
use std::fmt::Debug;
use std::hash::Hash;
use std::marker::PhantomData;
use vstd::prelude::*;
use vstd::std_specs::cmp::PartialOrdSpec;

verus! {

/// An opaque reference to an entity.
///
/// Entity references are intended to be created *only internally*, by the list that issues
/// them.  A reference built by hand with [`EntityRef::new`] is unchecked: it need not denote
/// a slot of any list.
pub trait EntityRef: Clone + Copy + Debug + Hash + PartialEq + PartialOrd {
    /// The slot that this reference denotes.
    spec fn index(&self) -> u32;

    /// The reference that [`EntityRef::new`] makes of `value`.
    spec fn from_index(value: usize) -> Self;

    /// A reference made of a value that fits in 32 bits denotes that very slot.
    proof fn index_of_from_index(value: usize)
        requires
            value <= u32::MAX,
        ensures
            Self::from_index(value).index() == value,
    ;

    /// Creates an opaque reference to an entity.
    fn new(value: usize) -> (r: Self)
        ensures
            r == Self::from_index(value),
    ;

    /// Returns the raw ID of this entity reference.
    fn as_u32(&self) -> (r: u32)
        ensures
            r == self.index(),
    ;

    /// Returns the raw ID of this entity reference, as a `usize`.
    fn as_usize(&self) -> (r: usize)
        ensures
            r == self.index(),
    ;
}

/// A list of entities: a growable, dense store that hands out a `Ref` for each item pushed.
///
/// Since it is indexed by [`EntityRef`]s, it can only index [`u32::MAX`]` + 1` items.  It can
/// hold more items than this, but the items past the limit cannot be reached by a reference.
#[derive(Debug, PartialEq)]
pub struct EntityList<T, Ref: EntityRef> {
    /// The raw [`Vec`] that this list wraps.
    private: Vec<T>,
    /// Ties the list to the kind of reference that it issues.
    phantom: PhantomData<Ref>,
}

impl<T, Ref: EntityRef> View for EntityList<T, Ref> {
    type V = Seq<T>;

    /// The items of the list, in the order in which they were pushed.
    closed spec fn view(&self) -> Seq<T> {
        self.private@
    }
}

impl<T: Clone, Ref: EntityRef> Clone for EntityList<T, Ref> {
    /// Clones the list item by item, in order.
    fn clone(&self) -> (r: Self)
        ensures
            r@.len() == self@.len(),
            forall|i: int| 0 <= i < self@.len() ==> cloned::<T>(#[trigger] self@[i], r@[i]),
    {
        Self { private: self.private.clone(), phantom: PhantomData }
    }
}

impl<T, Ref: EntityRef> EntityList<T, Ref> {
    /// Creates a new empty entity list.
    #[inline(always)]
    pub fn new() -> (r: Self)
        ensures
            r@ == Seq::<T>::empty(),
    {
        Self { private: Vec::new(), phantom: PhantomData }
    }

    /// Pushes an item onto the end of the entity list, and returns a reference to it.
    pub fn push(&mut self, item: T) -> (r: Ref)
        ensures
            final(self)@ == old(self)@.push(item),
            r == Ref::from_index(old(self)@.len() as usize),
            old(self)@.len() <= u32::MAX ==> r.index() == old(self)@.len(),
    {
        let r = Ref::new(self.private.len());
        proof {
            if self.private.len() <= u32::MAX {
                Ref::index_of_from_index(self.private.len());
            }
        }
        self.private.push(item);
        r
    }

    /// Returns the item associated with the given reference.
    pub fn get(&self, item: Ref) -> (r: &T)
        requires
            item.index() < self@.len(),
        ensures
            *r == self@[item.index() as int],
    {
        &self.private[item.as_usize()]
    }

    /// Returns a mutable reference to the provided item.
    pub fn get_mut(&mut self, item: Ref) -> (r: &mut T)
        requires
            item.index() < old(self)@.len(),
        ensures
            *r == old(self)@[item.index() as int],
            final(self)@ == old(self)@.update(item.index() as int, *final(r)),
    {
        &mut self.private[item.as_usize()]
    }

    /// Returns the amount of items in the entity list.
    pub fn len(&self) -> (r: usize)
        ensures
            r == self@.len(),
    {
        self.private.len()
    }

    /// Returns the entities which are currently stored in this entity list.
    pub fn entities(&self) -> (r: &Vec<T>)
        ensures
            r@ == self@,
    {
        &self.private
    }

    /// Returns a mutable reference to the entities which are stored in this entity list.
    pub fn entities_mut(&mut self) -> (r: &mut Vec<T>)
        ensures
            r@ == old(self)@,
            final(self)@ == final(r)@,
    {
        &mut self.private
    }
}

/// The items of a list that started empty and into which `items` were pushed one after another.
pub open spec fn pushed_in_order<T>(items: Seq<T>) -> Seq<T>
    decreases items.len(),
{
    if items.len() == 0 {
        Seq::empty()
    } else {
        pushed_in_order(items.drop_last()).push(items.last())
    }
}

/// A list that started empty holds the items pushed into it, in the order of the pushes.
pub proof fn lemma_pushed_in_order<T>(items: Seq<T>)
    ensures
        pushed_in_order(items) == items,
    decreases items.len(),
{
    if items.len() > 0 {
        lemma_pushed_in_order(items.drop_last());
    }
    assert(pushed_in_order(items) =~= items);
}

/// After any number of pushes into an empty list, the list holds as many items as were
/// pushed, and the reference that push number `i` returned reads back the item that it
/// pushed.  Push number `i` found `i` items in the list, so it returned the reference made
/// of `i`; that reference denotes slot `i` as long as `i` fits in 32 bits.
pub proof fn lemma_push_then_get<T, Ref: EntityRef>(items: Seq<T>, i: int)
    requires
        0 <= i < items.len(),
        i <= u32::MAX,
    ensures
        pushed_in_order(items).len() == items.len(),
        pushed_in_order(items.take(i)).len() == i,
        Ref::from_index(i as usize).index() == i,
        pushed_in_order(items)[Ref::from_index(i as usize).index() as int] == items[i],
{
    lemma_pushed_in_order(items);
    lemma_pushed_in_order(items.take(i));
    Ref::index_of_from_index(i as usize);
}

/// An opaque reference to a [`Label`] in an instruction stream.
///
/// Two label references are equal when they denote the same slot, and they are ordered as
/// their slots are: a reference issued earlier by a list is less than one issued later.
#[derive(Clone, Copy, Debug, Hash, PartialEq, Eq, Structural)]
pub struct LabelRef(u32);

impl vstd::std_specs::cmp::PartialOrdSpecImpl for LabelRef {
    open spec fn obeys_partial_cmp_spec() -> bool {
        true
    }

    /// Label references compare as the slots that they denote.
    open spec fn partial_cmp_spec(&self, other: &Self) -> Option<Ordering> {
        if self.index() < other.index() {
            Some(Ordering::Less)
        } else if self.index() == other.index() {
            Some(Ordering::Equal)
        } else {
            Some(Ordering::Greater)
        }
    }
}

impl PartialOrd for LabelRef {
    fn partial_cmp(&self, other: &Self) -> (r: Option<Ordering>) {
        if self.0 < other.0 {
            Some(Ordering::Less)
        } else if self.0 == other.0 {
            Some(Ordering::Equal)
        } else {
            Some(Ordering::Greater)
        }
    }
}

/// Label references are ordered as they were issued: of two references made of values that
/// fit in 32 bits, the one made of the lesser value is the lesser.
pub proof fn lemma_label_refs_in_issue_order(earlier: usize, later: usize)
    requires
        earlier < later <= u32::MAX,
    ensures
        LabelRef::from_index(earlier).partial_cmp_spec(&LabelRef::from_index(later)) == Some(
            Ordering::Less,
        ),
{
}

/// A label reference carries nothing but its slot: two of them are equal exactly when they
/// denote the same slot.
pub proof fn lemma_label_ref_equality(a: LabelRef, b: LabelRef)
    ensures
        a == b <==> a.index() == b.index(),
{
}

impl EntityRef for LabelRef {
    closed spec fn index(&self) -> u32 {
        self.0
    }

    /// Only the low 32 bits of `value` are kept: the cast truncates.
    closed spec fn from_index(value: usize) -> Self {
        LabelRef(value as u32)
    }

    proof fn index_of_from_index(value: usize) {
    }

    #[inline(always)]
    fn new(value: usize) -> (r: Self)
        ensures
            r.index() == value as u32,
    {
        Self(
            #[verifier::truncate]
            (value as u32),
        )
    }

    #[inline(always)]
    fn as_u32(&self) -> (r: u32) {
        self.0
    }

    #[inline(always)]
    fn as_usize(&self) -> (r: usize) {
        self.0 as usize
    }
}

/// A label in an instruction stream.
#[derive(Clone, Copy, Debug, PartialEq, Eq, Structural)]
pub enum Label {
    /// A label attached to the provided index.
    Attached(usize),
    /// A label attached to no index yet.
    Unattached,
}

} // verus!

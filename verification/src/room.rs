//! Memory that is asked of the allocator beforehand.
//!
//! Copies of what a caller hands over can be large. Their memory is asked for
//! first, in the amount that they take, so that a refusal can be reported; what
//! is then written stays within that amount.

use vstd::prelude::*;

verus! {

/// Items, and the number of items for which memory was asked. An item is added
/// only where there is room for it, so that no further memory is taken.
#[derive(Debug)]
pub struct Room<T> {
    items: Vec<T>,
    asked: usize,
}

impl<T> View for Room<T> {
    type V = Seq<T>;

    closed spec fn view(&self) -> Seq<T> {
        self.items@
    }
}

/// `Vec::try_reserve_exact` on an empty vector: asks the allocator for room for
/// `n` items. Where it is given, the vector is handed on, still empty, with the
/// amount that was asked for. No room is always given. Otherwise the answer is
/// the allocator's choice and not stated.
#[verifier::external_body]
fn reserve<T>(n: usize) -> (r: Option<Room<T>>)
    ensures
        r matches Some(room) ==> room.asked() == n && room@ == Seq::<T>::empty(),
        n == 0 ==> r is Some,
{
    let mut items: Vec<T> = Vec::new();
    match items.try_reserve_exact(n) {
        Ok(()) => Some(Room { items, asked: n }),
        Err(_) => None,
    }
}

/// Whether the allocator, asked for room for `n` items of type `T`, may answer with a
/// refusal. Nothing shows it but a refusal that came back, so that whoever owes it
/// has asked for that amount. More items than can be counted are never given room.
pub closed spec fn refused<T>(n: nat) -> bool {
    n > usize::MAX || call_ensures(reserve::<T>, (n as usize,), None::<Room<T>>)
}

/// Puts a question, and gives the answer back.
fn put<T, F: Fn(usize) -> Option<Room<T>>>(question: F, n: usize) -> (r: Option<Room<T>>)
    requires
        call_requires(question, (n,)),
    ensures
        call_ensures(question, (n,), r),
{
    question(n)
}

/// Asks the allocator for room for `n` items; `None` where it refuses, and only
/// there.
pub fn with_room<T>(n: usize) -> (r: Option<Room<T>>)
    ensures
        r matches Some(room) ==> room.asked() == n && room@ == Seq::<T>::empty(),
        r is None ==> refused::<T>(n as nat),
        n == 0 ==> r is Some,
{
    put(reserve::<T>, n)
}

/// Room that can be counted is refused by the allocator alone.
proof fn law_only_the_allocator_refuses<T>(n: usize)
    ensures
        refused::<T>(n as nat) <==> call_ensures(reserve::<T>, (n,), None::<Room<T>>),
{
}

/// Room that cannot be counted is always refused.
pub proof fn law_uncountable_room_is_refused<T>(n: nat)
    requires
        n > usize::MAX,
    ensures
        refused::<T>(n),
{
}

/// Room is given in the amount that was asked for, and empty. What it holds can be read
/// and written over, which does not change the amount.
pub proof fn law_room_is_given_as_asked_for<T>(
    n: usize,
    r: Option<Room<T>>,
    room: &Room<T>,
    asked: usize,
    items: &[T],
    changed: &mut Room<T>,
    view: &mut [T],
)
    requires
        call_ensures(with_room::<T>, (n,), r),
        call_ensures(Room::<T>::asked_for, (room,), asked),
        call_ensures(Room::<T>::as_slice, (room,), items),
        call_ensures(Room::<T>::as_mut_slice, (changed,), view),
    ensures
        r is None ==> n > 0 && refused::<T>(n as nat),
        r matches Some(given) ==> given.asked() == n && given@.len() == 0,
        asked == room.asked(),
        items@ == room@,
        old(view)@ == old(changed)@,
        final(view)@ == final(changed)@,
        final(changed).asked() == old(changed).asked(),
{
}

/// No room is never refused.
pub proof fn law_no_room_is_always_given<T>()
    ensures
        !refused::<T>(0),
{
}

impl<T> Room<T> {
    /// The number of items for which memory was asked.
    pub closed spec fn asked(self) -> nat {
        self.asked as nat
    }

    /// The number of items for which memory was asked.
    pub fn asked_for(&self) -> (r: usize)
        ensures
            r == self.asked(),
    {
        self.asked
    }

    /// The items.
    pub fn as_slice(&self) -> (r: &[T])
        ensures
            r@ == self@,
    {
        self.items.as_slice()
    }

    /// The items, to be written over.
    pub fn as_mut_slice(&mut self) -> (r: &mut [T])
        ensures
            r@ == old(self)@,
            final(self)@ == final(r)@,
            final(self).asked() == old(self).asked(),
    {
        self.items.as_mut_slice()
    }

    /// The items, as a vector.
    pub(crate) fn into_items(self) -> (r: Vec<T>)
        ensures
            r@ == self@,
    {
        self.items
    }

    /// Takes the items away.
    pub(crate) fn clear(&mut self)
        ensures
            final(self)@ == Seq::<T>::empty(),
            final(self).asked() == old(self).asked(),
    {
        self.items.clear();
    }

    /// Adds an item.
    pub(crate) fn push(&mut self, item: T)
        requires
            old(self)@.len() < old(self).asked(),
        ensures
            final(self)@ == old(self)@.push(item),
            final(self).asked() == old(self).asked(),
    {
        self.items.push(item);
    }

    /// Adds copies of items.
    pub(crate) fn extend(&mut self, items: &[T]) where T: Copy
        requires
            old(self)@.len() + items@.len() <= old(self).asked(),
        ensures
            final(self)@ == old(self)@ + items@,
            final(self).asked() == old(self).asked(),
    {
        let mut i: usize = 0;
        assert(self@ =~= old(self)@ + items@.take(0));
        while i < items.len()
            invariant
                i <= items@.len(),
                self@ == old(self)@ + items@.take(i as int),
                self.asked() == old(self).asked(),
                old(self)@.len() + items@.len() <= old(self).asked(),
            decreases items@.len() - i,
        {
            self.push(items[i]);
            assert(items@.take(i + 1) =~= items@.take(i as int).push(items@[i as int]));
            i += 1;
        }
        assert(items@.take(i as int) =~= items@);
    }
}

} // verus!

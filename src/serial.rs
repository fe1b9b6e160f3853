//! The last bytes written to the serial data register, kept in a bounded
//! deque of the `heapless` crate; test programs report success there.

use vstd::prelude::*;

verus! {

/// Bytes that the log keeps.
pub const LOG_LEN: usize = 6;

#[verifier::external_type_specification]
#[verifier::external_body]
#[verifier::reject_recursive_types(T)]
pub struct ExDeque<T, const N: usize>(heapless::Deque<T, N>);

/// What the deque holds, front first.
pub uninterp spec fn deque_bytes(d: heapless::Deque<u8, 6>) -> Seq<u8>;

/// Relies on heapless::Deque::new: a new deque is empty.
#[verifier::external_body]
pub(crate) fn deque_new() -> (r: heapless::Deque<u8, 6>)
    ensures
        deque_bytes(r) == Seq::<u8>::empty(),
{
    heapless::Deque::new()
}

/// Relies on heapless::Deque::is_full: true when the deque holds its
/// capacity.
#[verifier::external_body]
pub(crate) fn deque_is_full(d: &heapless::Deque<u8, 6>) -> (r: bool)
    ensures
        r == (deque_bytes(*d).len() == LOG_LEN),
{
    d.is_full()
}

/// Relies on heapless::Deque::pop_front: removes and returns the front
/// item, or `None` when empty.
#[verifier::external_body]
pub(crate) fn deque_pop_front(d: &mut heapless::Deque<u8, 6>) -> (r: Option<u8>)
    ensures
        r == (if deque_bytes(*old(d)).len() == 0 { None } else { Some(deque_bytes(*old(d))[0]) }),
        deque_bytes(*final(d)) == (if deque_bytes(*old(d)).len() == 0 { deque_bytes(*old(d)) } else { deque_bytes(*old(d)).drop_first() }),
{
    d.pop_front()
}

/// Relies on heapless::Deque::push_back: appends at the back unless the
/// deque is full, and then hands the item back.
#[verifier::external_body]
pub(crate) fn deque_push_back(d: &mut heapless::Deque<u8, 6>, item: u8) -> (r: Result<(), u8>)
    ensures
        r == (if deque_bytes(*old(d)).len() < LOG_LEN { Ok::<(), u8>(()) } else { Err::<(),
            u8>(item) }),
        deque_bytes(*final(d)) == (if deque_bytes(*old(d)).len() < LOG_LEN { deque_bytes(*old(d)).push(item) } else { deque_bytes(*old(d)) }),
        deque_bytes(*final(d)).len() <= LOG_LEN,
{
    d.push_back(item)
}

/// Relies on heapless::Deque::iter: yields the items front to back.
#[verifier::external_body]
pub(crate) fn deque_to_vec(d: &heapless::Deque<u8, 6>) -> (r: Vec<u8>)
    ensures
        r@ == deque_bytes(*d),
{
    d.iter().copied().collect()
}

} // verus!

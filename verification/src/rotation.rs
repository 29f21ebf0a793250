//! Selection by rotation.
//!
//! A panel's rows live in a circular list whose front element is the
//! selected one: moving the selection rotates the whole list by one
//! position instead of tracking a separate cursor.
use crate::navigation::HeadTo;
use std::collections::VecDeque;
use vstd::prelude::*;

verus! {

/// The list rotated one position forward: the old front moves to the
/// back and the second element becomes the new front.
pub open spec fn rotated_next<T>(s: Seq<T>) -> Seq<T>
    recommends
        s.len() > 0,
{
    s.subrange(1, s.len() as int) + s.subrange(0, 1)
}

/// The list rotated one position backward: the old back becomes the
/// new front.
pub open spec fn rotated_prev<T>(s: Seq<T>) -> Seq<T>
    recommends
        s.len() > 0,
{
    s.subrange(s.len() - 1, s.len() as int) + s.subrange(0, s.len() - 1)
}

/// Moves the selection of a circular row list one step by rotating it;
/// reports whether the list changed (so observers must be notified).
pub fn advance_list<T>(list: &mut VecDeque<T>, direction: HeadTo) -> (changed: bool)
    ensures
        changed == (old(list)@.len() > 0 && direction != HeadTo::Initial),
        !changed ==> final(list)@ == old(list)@,
        (changed && direction == HeadTo::Next) ==> final(list)@ == rotated_next(old(list)@),
        (changed && direction == HeadTo::Prev) ==> final(list)@ == rotated_prev(old(list)@),
{
    if list.len() == 0 {
        return false;
    }
    match direction {
        HeadTo::Next => {
            match list.pop_front() {
                Some(front) => list.push_back(front),
                None => (),
            }
            assert(final(list)@ =~= rotated_next(old(list)@));
            true
        },
        HeadTo::Prev => {
            match list.pop_back() {
                Some(back) => list.push_front(back),
                None => (),
            }
            assert(final(list)@ =~= rotated_prev(old(list)@));
            true
        },
        HeadTo::Initial => false,
    }
}

/// Rotating forward and then backward (or backward and then forward)
/// restores a non-empty list exactly.
pub proof fn lemma_rotation_round_trip<T>(s: Seq<T>)
    requires
        s.len() > 0,
    ensures
        rotated_prev(rotated_next(s)) == s,
        rotated_next(rotated_prev(s)) == s,
{
    assert(rotated_prev(rotated_next(s)) =~= s);
    assert(rotated_next(rotated_prev(s)) =~= s);
}

} // verus!

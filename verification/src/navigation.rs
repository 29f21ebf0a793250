//! Circular index arithmetic and page-number computation.
//!
//! `advance_index` moves a cursor through a fixed-size circular list;
//! `get_page` turns the last fetched page of a panel plus a navigation
//! direction into the next page to request, never going negative.
use vstd::prelude::*;

verus! {

/// Which way a navigation step moves: forward, backward, or the
/// initial (identity / first-request) step.
#[derive(Clone, Copy, Debug, PartialEq, Eq, Structural)]
pub enum HeadTo {
    Initial,
    Next,
    Prev,
}

/// The circular successor (`Next`), predecessor (`Prev`), or the index
/// itself (`Initial`), inside a list of `limit` slots.
pub open spec fn index_after(current: usize, limit: usize, direction: HeadTo) -> int
    recommends
        0 < limit,
{
    match direction {
        HeadTo::Initial => current as int,
        HeadTo::Next => (current + 1) % (limit as int),
        HeadTo::Prev => if current == 0 {
            limit - 1
        } else {
            (current - 1) % (limit as int)
        },
    }
}

/// Moves a cursor one step through a circular list of `limit` slots.
pub fn advance_index(current: usize, limit: usize, direction: HeadTo) -> (idx: usize)
    requires
        0 < limit,
        current < limit,
    ensures
        idx == index_after(current, limit, direction),
        idx < limit,
{
    match direction {
        HeadTo::Next => (current + 1) % limit,
        HeadTo::Prev => if current == 0 {
            limit - 1
        } else {
            (current - 1) % limit
        },
        HeadTo::Initial => current,
    }
}

/// Stepping forward and then backward lands on the starting index.
pub proof fn lemma_advance_index_round_trip(current: usize, limit: usize)
    requires
        0 < limit,
        current < limit,
    ensures
        index_after(
            index_after(current, limit, HeadTo::Next) as usize,
            limit,
            HeadTo::Prev,
        ) == current,
{
    if current + 1 == limit {
        assert((limit as int) % (limit as int) == 0) by (nonlinear_arith)
            requires 0 < limit;
    } else {
        assert((current + 1) % (limit as int) == current + 1) by (nonlinear_arith)
            requires 0 <= current + 1 < limit;
        assert((current as int) % (limit as int) == current) by (nonlinear_arith)
            requires 0 <= current < limit;
    }
}

/// The page to request next: `0` when nothing was fetched yet or for an
/// initial request, the successor for `Next`, and the predecessor for
/// `Prev`, saturating at `0`.
pub open spec fn page_for(last_page: Option<usize>, direction: HeadTo) -> int {
    match last_page {
        None => 0,
        Some(prev) => match direction {
            HeadTo::Initial => 0,
            HeadTo::Next => prev + 1,
            HeadTo::Prev => if prev == 0 {
                0
            } else {
                prev - 1
            },
        },
    }
}

/// Computes the next page to request for a panel whose last fetched
/// page was `current`.
pub fn get_page(current: &Option<usize>, direction: HeadTo) -> (page: usize)
    requires
        *current matches Some(p) ==> (direction != HeadTo::Next || p < usize::MAX),
    ensures
        page == page_for(*current, direction),
{
    match current {
        None => 0,
        Some(prev) => match direction {
            HeadTo::Initial => 0,
            HeadTo::Next => *prev + 1,
            HeadTo::Prev => if *prev == 0 {
                0
            } else {
                *prev - 1
            },
        },
    }
}

/// A panel that has never been fetched always starts at page `0`,
/// whatever direction the request travels.
pub proof fn lemma_page_for_unfetched(direction: HeadTo)
    ensures
        page_for(None, direction) == 0,
{
}

} // verus!

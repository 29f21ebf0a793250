//! Character-sequence helpers for the search query.
//!
//! Committing a search trims the live query: leading and trailing
//! blank characters (space, tab, carriage return, line feed) are
//! removed and the middle is kept as typed.
use vstd::prelude::*;

verus! {

/// A blank character for the purpose of query trimming.
pub open spec fn is_blank(c: char) -> bool {
    c == ' ' || c == '\t' || c == '\n' || c == '\r'
}

/// Decides whether a character is blank.
pub fn is_blank_char(c: char) -> (blank: bool)
    ensures
        blank == is_blank(c),
{
    c == ' ' || c == '\t' || c == '\n' || c == '\r'
}

/// The sequence with its leading blanks removed.
pub open spec fn trim_front(s: Seq<char>) -> Seq<char>
    decreases s.len(),
{
    if s.len() > 0 && is_blank(s[0]) {
        trim_front(s.drop_first())
    } else {
        s
    }
}

/// The sequence with its trailing blanks removed.
pub open spec fn trim_back(s: Seq<char>) -> Seq<char>
    decreases s.len(),
{
    if s.len() > 0 && is_blank(s.last()) {
        trim_back(s.drop_last())
    } else {
        s
    }
}

/// The sequence with leading and trailing blanks removed.
pub open spec fn trimmed(s: Seq<char>) -> Seq<char> {
    trim_back(trim_front(s))
}

proof fn lemma_trim_front_at(s: Seq<char>, i: int)
    requires
        0 <= i <= s.len(),
        forall|j: int| 0 <= j < i ==> is_blank(s[j]),
        i < s.len() ==> !is_blank(s[i]),
    ensures
        trim_front(s) == s.subrange(i, s.len() as int),
    decreases i,
{
    if i == 0 {
        assert(s.subrange(0, s.len() as int) =~= s);
    } else {
        assert(is_blank(s[0]));
        lemma_trim_front_at(s.drop_first(), i - 1);
        assert(s.drop_first().subrange(i - 1, s.len() - 1) =~= s.subrange(i, s.len() as int));
    }
}

proof fn lemma_trim_back_at(s: Seq<char>, k: int)
    requires
        0 <= k <= s.len(),
        forall|j: int| k <= j < s.len() ==> is_blank(s[j]),
        k > 0 ==> !is_blank(s[k - 1]),
    ensures
        trim_back(s) == s.subrange(0, k),
    decreases s.len() - k,
{
    if k == s.len() {
        if k == 0 {
            assert(s.subrange(0, 0) =~= s);
        } else {
            assert(s.subrange(0, k) =~= s);
        }
    } else {
        assert(is_blank(s.last()));
        lemma_trim_back_at(s.drop_last(), k);
        assert(s.drop_last().subrange(0, k) =~= s.subrange(0, k));
    }
}

/// Copies a character sequence.
pub fn copy_chars(source: &Vec<char>) -> (r: Vec<char>)
    ensures
        r@ == source@,
{
    let mut r: Vec<char> = Vec::new();
    let mut i: usize = 0;
    while i < source.len()
        invariant
            i <= source@.len(),
            r@ == source@.subrange(0, i as int),
        decreases source@.len() - i,
    {
        r.push(source[i]);
        assert(r@ =~= source@.subrange(0, i + 1));
        i = i + 1;
    }
    assert(r@ =~= source@);
    r
}

/// Removes leading and trailing blanks from a character sequence.
pub fn trim_chars(source: &Vec<char>) -> (r: Vec<char>)
    ensures
        r@ == trimmed(source@),
{
    let n = source.len();
    let mut start: usize = 0;
    while start < n && is_blank_char(source[start])
        invariant
            n == source@.len(),
            start <= n,
            forall|j: int| 0 <= j < start ==> is_blank(source@[j]),
        decreases n - start,
    {
        start = start + 1;
    }
    let mut stop: usize = n;
    while stop > start && is_blank_char(source[stop - 1])
        invariant
            n == source@.len(),
            start <= stop <= n,
            forall|j: int| stop <= j < n ==> is_blank(source@[j]),
        decreases stop,
    {
        stop = stop - 1;
    }
    let mut r: Vec<char> = Vec::new();
    let mut i: usize = start;
    while i < stop
        invariant
            n == source@.len(),
            start <= i <= stop <= n,
            r@ == source@.subrange(start as int, i as int),
        decreases stop - i,
    {
        r.push(source[i]);
        assert(r@ =~= source@.subrange(start as int, i + 1));
        i = i + 1;
    }
    proof {
        lemma_trim_front_at(source@, start as int);
        let front = source@.subrange(start as int, n as int);
        assert forall|j: int| stop - start <= j < front.len() implies is_blank(front[j]) by {
            assert(front[j] == source@[start + j]);
        }
        lemma_trim_back_at(front, stop - start);
        assert(front.subrange(0, stop - start) =~= source@.subrange(start as int, stop as int));
        assert(r@ == trimmed(source@));
    }
    r
}

} // verus!

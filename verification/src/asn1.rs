//! How deep the values of a DER document nest.
//!
//! A DER document is a run of values. A value is a tag byte, a length and a
//! content of that length; the content of some values is again a run of
//! values. A reader that descends into such content needs stack for every
//! level, so the engine hands a key document to a reader only after it has
//! found that the document is well formed and nests no deeper than
//! `MAX_NESTING`.

use vstd::prelude::*;

verus! {

/// The deepest nesting of values in a key document that the engine takes.
/// Keys and certificates nest a handful of levels deep.
pub const MAX_NESTING: usize = 16;

/// The tag continues in further bytes. No key holds such a tag, and a
/// document that does is not taken.
pub open spec fn is_long_tag(tag: u8) -> bool {
    tag % 32 == 31
}

/// A reader descends into the content of a value with this tag: a sequence
/// or a set of the universal class, or a constructed value of another class.
pub open spec fn descends(tag: u8) -> bool {
    if tag < 0x40 {
        tag % 32 == 16 || tag % 32 == 17
    } else {
        (tag / 32) % 2 == 1
    }
}

/// The number that up to four length bytes from `at` on stand for, the first
/// byte counting most.
pub open spec fn length_value(s: Seq<u8>, at: int, count: int) -> int {
    if count == 1 {
        s[at] as int
    } else if count == 2 {
        s[at] * 0x100 + s[at + 1]
    } else if count == 3 {
        s[at] * 0x1_0000 + s[at + 1] * 0x100 + s[at + 2]
    } else {
        s[at] * 0x100_0000 + s[at + 1] * 0x1_0000 + s[at + 2] * 0x100 + s[at + 3]
    }
}

/// Where the content of the value that starts at `at` begins and ends,
/// inside a run that ends at `end`. `None` where the value is cut short,
/// reaches past `end`, has a tag of several bytes, or writes its length in
/// no byte or in more than four.
pub open spec fn content_bounds(s: Seq<u8>, at: int, end: int) -> Option<(int, int)> {
    if end - at < 2 || is_long_tag(s[at]) {
        None
    } else if s[at + 1] < 0x80 {
        if s[at + 1] <= end - (at + 2) {
            Some((at + 2, at + 2 + s[at + 1]))
        } else {
            None
        }
    } else {
        let count = s[at + 1] - 0x80;
        if count == 0 || count > 4 || count > end - (at + 2) {
            None
        } else if length_value(s, at + 2, count) <= end - (at + 2 + count) {
            Some((at + 2 + count, at + 2 + count + length_value(s, at + 2, count)))
        } else {
            None
        }
    }
}

/// The run of values from `at` to `end` is well formed, and so is all
/// content that a reader descends into, down to at most `budget` levels.
pub open spec fn nests_within(s: Seq<u8>, at: int, end: int, budget: nat) -> bool
    decreases budget, end - at,
{
    if at >= end {
        true
    } else {
        match content_bounds(s, at, end) {
            None => false,
            Some((from, to)) => {
                &&& descends(s[at]) ==> budget > 0 && nests_within(
                    s,
                    from,
                    to,
                    (budget - 1) as nat,
                )
                &&& at < to <= end && nests_within(s, to, end, budget)
            },
        }
    }
}

/// The whole of `document` is a well-formed run of values that nests no
/// deeper than `MAX_NESTING`.
pub open spec fn is_shallow(document: Seq<u8>) -> bool {
    nests_within(document, 0, document.len() as int, MAX_NESTING as nat)
}

/// The content of a value lies behind its tag and length, inside the run.
pub proof fn lemma_content_bounds(s: Seq<u8>, at: int, end: int)
    ensures
        content_bounds(s, at, end) matches Some((from, to)) ==> at + 2 <= from <= to <= end,
{
}

/// Whether a reader descends into the content of a value with this tag.
fn descends_into(tag: u8) -> (r: bool)
    ensures
        r == descends(tag),
{
    if tag < 0x40 {
        tag % 32 == 16 || tag % 32 == 17
    } else {
        (tag / 32) % 2 == 1
    }
}

/// Finds the content of the value that starts at `at`.
fn find_content(s: &[u8], at: usize, end: usize) -> (r: Option<(usize, usize)>)
    requires
        at < end <= s@.len(),
    ensures
        r matches Some((from, to)) ==> content_bounds(s@, at as int, end as int) == Some(
            (from as int, to as int),
        ),
        r is None ==> content_bounds(s@, at as int, end as int) is None,
{
    if end - at < 2 || s[at] % 32 == 31 {
        return None;
    }
    let first: u8 = s[at + 1];
    let from: usize = at + 2;
    if first < 0x80 {
        if first as usize <= end - from {
            Some((from, from + first as usize))
        } else {
            None
        }
    } else {
        let count: usize = (first - 0x80) as usize;
        if count == 0 || count > 4 || count > end - from {
            return None;
        }
        let mut value: u64 = 0;
        let mut i: usize = 0;
        while i < count
            invariant
                i <= count <= 4,
                from + count <= end <= s@.len(),
                i == 0 ==> value == 0,
                i == 1 ==> value == s@[from as int],
                i == 2 ==> value == s@[from as int] * 0x100 + s@[from + 1],
                i == 3 ==> value == s@[from as int] * 0x1_0000 + s@[from + 1] * 0x100 + s@[from
                    + 2],
                i == 4 ==> value == s@[from as int] * 0x100_0000 + s@[from + 1] * 0x1_0000 + s@[from
                    + 2] * 0x100 + s@[from + 3],
            decreases count - i,
        {
            value = value * 0x100 + s[from + i] as u64;
            i = i + 1;
        }
        let start: usize = from + count;
        if value <= (end - start) as u64 {
            Some((start, start + value as usize))
        } else {
            None
        }
    }
}

/// Whether the run of values from `at` to `end` is well formed and nests at
/// most `budget` levels deep. It descends no deeper than `budget` itself.
fn nesting_within(s: &[u8], at: usize, end: usize, budget: usize) -> (ok: bool)
    requires
        at <= end <= s@.len(),
    ensures
        ok == nests_within(s@, at as int, end as int, budget as nat),
    decreases budget, end - at,
{
    let mut next: usize = at;
    while next < end
        invariant
            at <= next <= end <= s@.len(),
            nests_within(s@, at as int, end as int, budget as nat) == nests_within(
                s@,
                next as int,
                end as int,
                budget as nat,
            ),
        decreases end - next,
    {
        match find_content(s, next, end) {
            None => {
                return false;
            },
            Some((from, to)) => {
                proof {
                    lemma_content_bounds(s@, next as int, end as int);
                }
                if descends_into(s[next]) {
                    if budget == 0 {
                        return false;
                    }
                    if !nesting_within(s, from, to, budget - 1) {
                        return false;
                    }
                }
                next = to;
            },
        }
    }
    true
}

/// Whether the whole of `document` is a well-formed run of values that
/// nests no deeper than `MAX_NESTING`.
pub fn shallow(document: &[u8]) -> (ok: bool)
    ensures
        ok == is_shallow(document@),
{
    nesting_within(document, 0, document.len(), MAX_NESTING)
}

} // verus!

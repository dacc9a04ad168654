//! Orderings for the front end's sorted lists, where a value may be missing.

use std::cmp::Ordering;
use vstd::prelude::*;
use vstd::std_specs::cmp::OrdSpec;
use crate::text::{chars_of, lowercase, to_lowercase};

verus! {

/// How one item stands to another in a sorted list.
#[derive(Clone, Copy, Debug, PartialEq, Eq, Structural)]
pub enum Sorting {
    Smaller,
    Equal,
    Larger,
}

impl Sorting {
    /// The sorting that an order of two values gives.
    pub open spec fn of(order: Ordering) -> Sorting {
        match order {
            Ordering::Less => Sorting::Smaller,
            Ordering::Equal => Sorting::Equal,
            Ordering::Greater => Sorting::Larger,
        }
    }

    /// The sorting of a missing value against one that is there.
    pub open spec fn of_missing(nulls_first: bool) -> Sorting {
        if nulls_first {
            Sorting::Larger
        } else {
            Sorting::Smaller
        }
    }

    /// The sorting of a value that is there against a missing one.
    pub open spec fn of_present(nulls_first: bool) -> Sorting {
        if nulls_first {
            Sorting::Smaller
        } else {
            Sorting::Larger
        }
    }

    /// The sorting the other way round.
    pub open spec fn reversed(self) -> Sorting {
        match self {
            Sorting::Smaller => Sorting::Larger,
            Sorting::Equal => Sorting::Equal,
            Sorting::Larger => Sorting::Smaller,
        }
    }
}

/// How two values that may be missing sort. Two missing values are equal; a
/// missing one stands against one that is there as `nulls_first` says; two
/// that are there sort by their own order, or against it where `asc` is off.
pub open spec fn sorted_options<T: Ord>(
    s1: Option<&T>,
    s2: Option<&T>,
    nulls_first: bool,
    asc: bool,
) -> Sorting {
    match (s1, s2) {
        (None, None) => Sorting::Equal,
        (None, Some(_)) => Sorting::of_missing(nulls_first),
        (Some(_), None) => Sorting::of_present(nulls_first),
        (Some(a), Some(b)) => if asc {
            Sorting::of(a.cmp_spec(b))
        } else {
            Sorting::of(b.cmp_spec(a))
        },
    }
}

/// Sorts two values that may be missing.
pub fn g_cmp_options<T: Ord>(s1: Option<&T>, s2: Option<&T>, nulls_first: bool, asc: bool) -> (sorting:
    Sorting)
    ensures
        T::obeys_cmp_spec() || s1 is None || s2 is None ==> sorting == sorted_options(
            s1,
            s2,
            nulls_first,
            asc,
        ),
{
    match (s1, s2) {
        (None, None) => Sorting::Equal,
        (None, Some(_)) => if nulls_first {
            Sorting::Larger
        } else {
            Sorting::Smaller
        },
        (Some(_), None) => if nulls_first {
            Sorting::Smaller
        } else {
            Sorting::Larger
        },
        (Some(a), Some(b)) => {
            let order = if asc {
                a.cmp(b)
            } else {
                b.cmp(a)
            };
            match order {
                Ordering::Less => Sorting::Smaller,
                Ordering::Equal => Sorting::Equal,
                Ordering::Greater => Sorting::Larger,
            }
        },
    }
}

/// How two strings sort: by the first character in which they differ, a
/// character with the lower code point first; a string sorts before each one
/// that it begins.
pub open spec fn text_sorting(a: Seq<char>, b: Seq<char>) -> Sorting
    decreases a.len(),
{
    if a.len() == 0 && b.len() == 0 {
        Sorting::Equal
    } else if a.len() == 0 {
        Sorting::Smaller
    } else if b.len() == 0 {
        Sorting::Larger
    } else if a[0] < b[0] {
        Sorting::Smaller
    } else if a[0] > b[0] {
        Sorting::Larger
    } else {
        text_sorting(a.skip(1), b.skip(1))
    }
}

/// Sorts two strings by their characters.
pub fn sort_text(a: &str, b: &str) -> (sorting: Sorting)
    ensures
        sorting == text_sorting(a@, b@),
{
    let left = chars_of(a);
    let right = chars_of(b);
    let mut i: usize = 0;
    assert(a@.skip(0) =~= a@);
    assert(b@.skip(0) =~= b@);
    while i < left.len() && i < right.len()
        invariant
            left@ == a@,
            right@ == b@,
            i <= left.len(),
            i <= right.len(),
            text_sorting(a@, b@) == text_sorting(a@.skip(i as int), b@.skip(i as int)),
        decreases left.len() - i,
    {
        proof {
            assert(a@.skip(i as int)[0] == left@[i as int]);
            assert(b@.skip(i as int)[0] == right@[i as int]);
            assert(a@.skip(i as int).skip(1) =~= a@.skip(i + 1));
            assert(b@.skip(i as int).skip(1) =~= b@.skip(i + 1));
        }
        if left[i] < right[i] {
            return Sorting::Smaller;
        }
        if left[i] > right[i] {
            return Sorting::Larger;
        }
        i += 1;
    }
    if i < right.len() {
        Sorting::Smaller
    } else if i < left.len() {
        Sorting::Larger
    } else {
        Sorting::Equal
    }
}

/// What counts of a string when it is sorted: the string itself, or its
/// lower-case form where case does not count.
pub open spec fn sort_key(s: Seq<char>, case_sensitive: bool) -> Seq<char> {
    if case_sensitive {
        s
    } else {
        lowercase(s)
    }
}

/// How two strings that may be missing sort. Two missing strings are equal;
/// a missing one stands against one that is there as `nulls_first` says; two
/// that are there sort by their characters, or against that order where
/// `asc` is off, without regard to case where `case_sensitive` is off.
pub open spec fn sorted_texts(
    s1: Option<Seq<char>>,
    s2: Option<Seq<char>>,
    nulls_first: bool,
    asc: bool,
    case_sensitive: bool,
) -> Sorting {
    match (s1, s2) {
        (None, None) => Sorting::Equal,
        (None, Some(_)) => Sorting::of_missing(nulls_first),
        (Some(_), None) => Sorting::of_present(nulls_first),
        (Some(a), Some(b)) => if asc {
            text_sorting(sort_key(a, case_sensitive), sort_key(b, case_sensitive))
        } else {
            text_sorting(sort_key(b, case_sensitive), sort_key(a, case_sensitive))
        },
    }
}

/// Sorts two strings that may be missing.
pub fn g_cmp_str_options(
    s1: Option<&str>,
    s2: Option<&str>,
    nulls_first: bool,
    asc: bool,
    case_sensitive: bool,
) -> (sorting: Sorting)
    ensures
        sorting == sorted_texts(
            match s1 {
                Some(a) => Some(a@),
                None => None,
            },
            match s2 {
                Some(b) => Some(b@),
                None => None,
            },
            nulls_first,
            asc,
            case_sensitive,
        ),
{
    match (s1, s2) {
        (None, None) => Sorting::Equal,
        (None, Some(_)) => if nulls_first {
            Sorting::Larger
        } else {
            Sorting::Smaller
        },
        (Some(_), None) => if nulls_first {
            Sorting::Smaller
        } else {
            Sorting::Larger
        },
        (Some(a), Some(b)) => {
            if case_sensitive {
                if asc {
                    sort_text(a, b)
                } else {
                    sort_text(b, a)
                }
            } else {
                let a = to_lowercase(a);
                let b = to_lowercase(b);
                if asc {
                    sort_text(a.as_str(), b.as_str())
                } else {
                    sort_text(b.as_str(), a.as_str())
                }
            }
        },
    }
}

/// Strings sort the other way round when they change places.
proof fn lemma_text_sorting_reverses(a: Seq<char>, b: Seq<char>)
    ensures
        text_sorting(b, a) == text_sorting(a, b).reversed(),
    decreases a.len(),
{
    if a.len() > 0 && b.len() > 0 && a[0] == b[0] {
        lemma_text_sorting_reverses(a.skip(1), b.skip(1));
    }
}

/// The sorting of strings is the same from both sides: how the second string
/// stands to the first is the reverse of how the first stands to the second,
/// whatever is missing and whichever way the list is sorted. A list sorted
/// by it is therefore sorted whichever way two items are held against each
/// other.
pub proof fn lemma_sorted_texts_reverses(
    s1: Option<Seq<char>>,
    s2: Option<Seq<char>>,
    nulls_first: bool,
    asc: bool,
    case_sensitive: bool,
)
    ensures
        sorted_texts(s2, s1, nulls_first, asc, case_sensitive) == sorted_texts(
            s1,
            s2,
            nulls_first,
            asc,
            case_sensitive,
        ).reversed(),
{
    match (s1, s2) {
        (Some(a), Some(b)) => {
            let a = sort_key(a, case_sensitive);
            let b = sort_key(b, case_sensitive);
            lemma_text_sorting_reverses(a, b);
            lemma_text_sorting_reverses(b, a);
        },
        _ => {},
    }
}

} // verus!

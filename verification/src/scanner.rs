//! Byte-pattern scanner: finds the leftmost occurrence of a byte needle
//! inside a bounded view of a code region.

use vstd::prelude::*;

verus! {

/// The needle matches the region bytes starting at offset `k`.
pub open spec fn matches_at(mem: Seq<u8>, needle: Seq<u8>, k: int) -> bool {
    &&& 0 <= k
    &&& k + needle.len() <= mem.len()
    &&& forall|j: int| 0 <= j < needle.len() ==> mem[k + j] == needle[j]
}

/// Offset of the leftmost occurrence of `needle` at or after offset `k`,
/// if there is one.
pub open spec fn first_match_from(mem: Seq<u8>, needle: Seq<u8>, k: int) -> Option<int>
    decreases mem.len() - k,
{
    if k < 0 || k + needle.len() > mem.len() {
        None
    } else if matches_at(mem, needle, k) {
        Some(k)
    } else {
        first_match_from(mem, needle, k + 1)
    }
}

/// Offset of the leftmost occurrence of `needle` in `mem`, if there is one.
pub open spec fn first_match(mem: Seq<u8>, needle: Seq<u8>) -> Option<int> {
    first_match_from(mem, needle, 0)
}

/// What `first_match_from` returns is a match, is the leftmost one at or
/// after `k`, and is absent exactly when no match lies at or after `k`.
pub proof fn lemma_first_match_from_correct(mem: Seq<u8>, needle: Seq<u8>, k: int)
    requires
        0 <= k,
    ensures
        match first_match_from(mem, needle, k) {
            Some(m) => {
                &&& k <= m
                &&& matches_at(mem, needle, m)
                &&& forall|j: int| k <= j < m ==> !matches_at(mem, needle, j)
            },
            None => forall|j: int| k <= j ==> !matches_at(mem, needle, j),
        },
    decreases mem.len() - k,
{
    if k + needle.len() > mem.len() {
        assert forall|j: int| k <= j implies !matches_at(mem, needle, j) by {
            assert(j + needle.len() > mem.len());
        }
    } else if matches_at(mem, needle, k) {
    } else {
        lemma_first_match_from_correct(mem, needle, k + 1);
    }
}

/// Law: if the needle occurs at offset `k` and at no earlier offset, the
/// scan finds exactly `k` — the leftmost occurrence.
pub proof fn lemma_scan_finds_leftmost(mem: Seq<u8>, needle: Seq<u8>, k: int)
    requires
        matches_at(mem, needle, k),
        forall|j: int| 0 <= j < k ==> !matches_at(mem, needle, j),
    ensures
        first_match(mem, needle) == Some(k),
{
    lemma_first_match_from_correct(mem, needle, 0);
    match first_match(mem, needle) {
        Some(m) => {
            if m < k {
                assert(!matches_at(mem, needle, m));
            }
            if k < m {
                assert(!matches_at(mem, needle, k));
            }
        },
        None => {
            assert(!matches_at(mem, needle, k));
        },
    }
}

/// Law: if the needle occurs nowhere in the region, the scan reports the
/// not-found outcome.
pub proof fn lemma_scan_miss(mem: Seq<u8>, needle: Seq<u8>)
    requires
        forall|k: int| !matches_at(mem, needle, k),
    ensures
        first_match(mem, needle) is None,
{
    lemma_first_match_from_correct(mem, needle, 0);
    match first_match(mem, needle) {
        Some(m) => {
            assert(!matches_at(mem, needle, m));
        },
        None => {},
    }
}

/// Whether the needle matches the region bytes starting at index `i`.
fn is_match_at(mem: &[u8], needle: &[u8], i: usize) -> (b: bool)
    requires
        i + needle@.len() <= mem@.len(),
    ensures
        b == matches_at(mem@, needle@, i as int),
{
    let n = needle.len();
    let m = mem.len();
    let mut j: usize = 0;
    while j < n
        invariant
            j <= n,
            n == needle@.len(),
            m == mem@.len(),
            i + n <= m,
            forall|t: int| 0 <= t < j ==> mem@[i + t] == needle@[t],
        decreases n - j,
    {
        if mem[i + j] != needle[j] {
            return false;
        }
        j += 1;
    }
    true
}

/// Sliding-window scan: returns the offset of the leftmost occurrence of
/// `needle` in `mem`, or `None` when the needle occurs nowhere.
pub fn find_needle(mem: &[u8], needle: &[u8]) -> (r: Option<usize>)
    requires
        needle@.len() >= 1,
    ensures
        match r {
            Some(k) => {
                &&& first_match(mem@, needle@) == Some(k as int)
                &&& matches_at(mem@, needle@, k as int)
                &&& forall|j: int| 0 <= j < k ==> !matches_at(mem@, needle@, j)
            },
            None => {
                &&& first_match(mem@, needle@) is None
                &&& forall|j: int| !matches_at(mem@, needle@, j)
            },
        },
{
    let n = needle.len();
    let m = mem.len();
    if n > m {
        proof {
            assert forall|k: int| !matches_at(mem@, needle@, k) by {
                if 0 <= k {
                    assert(k + needle@.len() > mem@.len());
                }
            }
            lemma_scan_miss(mem@, needle@);
        }
        return None;
    }
    let mut i: usize = 0;
    while i <= m - n
        invariant
            n == needle@.len() >= 1,
            m == mem@.len(),
            n <= m,
            i <= m,
            forall|j: int| 0 <= j < i ==> !matches_at(mem@, needle@, j),
        decreases m - i,
    {
        if is_match_at(mem, needle, i) {
            proof {
                lemma_scan_finds_leftmost(mem@, needle@, i as int);
            }
            return Some(i);
        }
        i += 1;
    }
    proof {
        assert forall|k: int| !matches_at(mem@, needle@, k) by {
            if 0 <= k < i {
            } else if k >= i {
                assert(k + needle@.len() > mem@.len());
            }
        }
        lemma_scan_miss(mem@, needle@);
    }
    None
}

} // verus!

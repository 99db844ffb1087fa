//! Small executable string helpers with exact specifications.

use vstd::prelude::*;
use vstd::string::StrSliceExecFns;

verus! {

/// Character-wise equality of two string slices.
pub fn str_eq(a: &str, b: &str) -> (r: bool)
    ensures
        r == (a@ == b@),
{
    let alen = a.unicode_len();
    let blen = b.unicode_len();
    if alen != blen {
        proof {
            assert(a@ != b@) by {
                if a@ == b@ {
                    assert(a@.len() == b@.len());
                }
            }
        }
        return false;
    }
    let mut i: usize = 0;
    while i < alen
        invariant
            alen == a@.len(),
            alen == b@.len(),
            i <= alen,
            forall|j: int| 0 <= j < i ==> a@[j] == b@[j],
        decreases alen - i,
    {
        if a.get_char(i) != b.get_char(i) {
            proof {
                assert(a@ != b@) by {
                    if a@ == b@ {
                        assert(a@[i as int] == b@[i as int]);
                    }
                }
            }
            return false;
        }
        i = i + 1;
    }
    proof {
        assert(a@ =~= b@);
    }
    true
}

/// UTF-8 byte length of a character sequence, as `str::len` reports it.
pub open spec fn byte_len(s: Seq<char>) -> usize {
    vstd::utf8::encode_utf8(s).len() as usize
}

/// View of an optional string.
pub open spec fn opt_view(o: Option<String>) -> Option<Seq<char>> {
    match o {
        Some(s) => Some(s@),
        None => None,
    }
}

/// Clone an optional string, preserving the value.
pub fn clone_opt_string(o: &Option<String>) -> (r: Option<String>)
    ensures
        r == *o,
{
    match o {
        Some(s) => Some(s.clone()),
        None => None,
    }
}

/// Index of the first occurrence of `target` in `b`, if any.
pub fn find_byte(b: &Vec<u8>, target: u8) -> (r: Option<usize>)
    ensures
        match r {
            Some(i) => i < b@.len() && b@[i as int] == target && forall|j: int|
                0 <= j < i ==> b@[j] != target,
            None => forall|j: int| 0 <= j < b@.len() ==> b@[j] != target,
        },
{
    let mut i: usize = 0;
    while i < b.len()
        invariant
            i <= b@.len(),
            forall|j: int| 0 <= j < i ==> b@[j] != target,
        decreases b@.len() - i,
    {
        if b[i] == target {
            return Some(i);
        }
        i = i + 1;
    }
    None
}

/// Index of the first occurrence of `target` at or after `from`, if any.
pub fn find_byte_from(b: &Vec<u8>, target: u8, from: usize) -> (r: Option<usize>)
    requires
        from <= b@.len(),
    ensures
        match r {
            Some(i) => from <= i < b@.len() && b@[i as int] == target && forall|j: int|
                from <= j < i ==> b@[j] != target,
            None => forall|j: int| from <= j < b@.len() ==> b@[j] != target,
        },
{
    let mut i: usize = from;
    while i < b.len()
        invariant
            from <= i <= b@.len(),
            forall|j: int| from <= j < i ==> b@[j] != target,
        decreases b@.len() - i,
    {
        if b[i] == target {
            return Some(i);
        }
        i = i + 1;
    }
    None
}

/// Does `b` hold `target` anywhere in the index range `[from, b.len())`?
pub fn contains_byte_from(b: &Vec<u8>, target: u8, from: usize) -> (r: bool)
    requires
        from <= b@.len(),
    ensures
        r == exists|j: int| from <= j < b@.len() && b@[j] == target,
{
    let mut i: usize = from;
    while i < b.len()
        invariant
            from <= i <= b@.len(),
            forall|j: int| from <= j < i ==> b@[j] != target,
        decreases b@.len() - i,
    {
        if b[i] == target {
            return true;
        }
        i = i + 1;
    }
    false
}

} // verus!

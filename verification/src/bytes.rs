//! Small tools on byte strings that the other modules share.

use vstd::prelude::*;

verus! {

/// The first index at or after `from` at which `s` holds `b`; `s.len()`
/// where there is none.
pub open spec fn find_byte(s: Seq<u8>, b: u8, from: int) -> int
    decreases s.len() - from,
{
    if from >= s.len() {
        s.len() as int
    } else if from >= 0 && s[from] == b {
        from
    } else {
        find_byte(s, b, from + 1)
    }
}

/// Where `find_byte` points: nothing before it matches, and it matches
/// unless it is the end.
pub proof fn lemma_find_byte(s: Seq<u8>, b: u8, from: int)
    requires
        0 <= from <= s.len(),
    ensures
        from <= find_byte(s, b, from) <= s.len(),
        forall|k: int| from <= k < find_byte(s, b, from) ==> s[k] != b,
        find_byte(s, b, from) < s.len() ==> s[find_byte(s, b, from)] == b,
    decreases s.len() - from,
{
    if from < s.len() && s[from] != b {
        lemma_find_byte(s, b, from + 1);
    }
}

/// The only index that nothing matching comes before, and that matches or
/// is the end, is the one `find_byte` gives.
pub proof fn lemma_find_byte_unique(s: Seq<u8>, b: u8, from: int, at: int)
    requires
        0 <= from <= at <= s.len(),
        forall|k: int| from <= k < at ==> s[k] != b,
        at < s.len() ==> s[at] == b,
    ensures
        find_byte(s, b, from) == at,
    decreases at - from,
{
    if from < at {
        lemma_find_byte_unique(s, b, from + 1, at);
    }
}

/// Finds `b` in `data` at or after `from`.
pub fn find_from(data: &[u8], b: u8, from: usize) -> (at: usize)
    requires
        from <= data@.len(),
    ensures
        at as int == find_byte(data@, b, from as int),
        from <= at <= data@.len(),
{
    let mut i = from;
    while i < data.len() && data[i] != b
        invariant
            from <= i <= data@.len(),
            find_byte(data@, b, from as int) == find_byte(data@, b, i as int),
        decreases data@.len() - i,
    {
        i += 1;
    }
    i
}

/// Appends `data` to `buf`.
pub fn append_bytes(buf: &mut Vec<u8>, data: &[u8])
    ensures
        final(buf)@ == old(buf)@ + data@,
{
    let mut i: usize = 0;
    while i < data.len()
        invariant
            i <= data@.len(),
            buf@ == old(buf)@ + data@.take(i as int),
        decreases data@.len() - i,
    {
        buf.push(data[i]);
        i += 1;
        assert(buf@ =~= old(buf)@ + data@.take(i as int));
    }
    assert(data@.take(i as int) =~= data@);
}

} // verus!

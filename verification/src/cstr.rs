//! Zero-terminated strings for calls that expect them.

use vstd::prelude::*;

verus! {

/// Appends the terminating zero to `bytes`, or gives `None` if one of them is zero already.
pub fn c_string(bytes: &[u8]) -> (r: Option<Vec<u8>>)
    ensures
        r is None <==> bytes@.contains(0u8),
        r matches Some(c) ==> c@ == bytes@.push(0u8),
{
    let mut out: Vec<u8> = Vec::new();
    let mut i: usize = 0;
    while i < bytes.len()
        invariant
            i <= bytes@.len(),
            out@ == bytes@.take(i as int),
            !bytes@.take(i as int).contains(0u8),
        decreases bytes@.len() - i,
    {
        if bytes[i] == 0 {
            assert(bytes@[i as int] == 0u8);
            return None;
        }
        out.push(bytes[i]);
        i = i + 1;
        assert(out@ == bytes@.take(i as int));
        assert forall|j: int| 0 <= j < i implies bytes@.take(i as int)[j] != 0u8 by {
            if j < i - 1 {
                assert(bytes@.take(i - 1)[j] == bytes@.take(i as int)[j]);
                assert(bytes@.take(i - 1).contains(bytes@.take(i - 1)[j]));
            }
        }
    }
    assert(bytes@.take(i as int) == bytes@);
    out.push(0);
    Some(out)
}

/// Appends the terminating zero to the UTF-16 code units of a path.
pub fn wide_string(units: &[u16]) -> (r: Vec<u16>)
    ensures
        r@ == units@.push(0u16),
{
    let mut out: Vec<u16> = Vec::new();
    let mut i: usize = 0;
    while i < units.len()
        invariant
            i <= units@.len(),
            out@ == units@.take(i as int),
        decreases units@.len() - i,
    {
        out.push(units[i]);
        i = i + 1;
        assert(out@ == units@.take(i as int));
    }
    assert(units@.take(i as int) == units@);
    out.push(0);
    out
}

} // verus!

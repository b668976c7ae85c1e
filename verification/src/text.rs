//! NUL-terminated text, as the system calls take it.

use vstd::prelude::*;

verus! {

/// `bytes` ends in a NUL and has no other one.
pub open spec fn is_c_string(bytes: Seq<u8>) -> bool {
    &&& bytes.len() > 0
    &&& bytes.last() == 0
    &&& !bytes.drop_last().contains(0)
}

/// `units` ends in a NUL and has no other one.
pub open spec fn is_wide_string(units: Seq<u16>) -> bool {
    &&& units.len() > 0
    &&& units.last() == 0
    &&& !units.drop_last().contains(0)
}

/// `position` is where the first NUL of `bytes` stands.
pub open spec fn is_first_nul(bytes: Seq<u8>, position: int) -> bool {
    &&& 0 <= position < bytes.len()
    &&& bytes[position] == 0
    &&& forall|i: int| 0 <= i < position ==> bytes[i] != 0
}

/// Where the first NUL of `bytes` stands, if there is one.
pub fn find_nul(bytes: &[u8]) -> (position: Option<usize>)
    ensures
        position is None <==> !bytes@.contains(0),
        position is Some ==> is_first_nul(bytes@, position->0 as int),
{
    let mut i: usize = 0;
    while i < bytes.len()
        invariant
            i <= bytes@.len(),
            forall|j: int| 0 <= j < i ==> bytes@[j] != 0,
        decreases bytes@.len() - i,
    {
        if bytes[i] == 0 {
            assert(bytes@[i as int] == 0);
            return Some(i);
        }
        i += 1;
    }
    None
}

/// `bytes` with a NUL behind it, or, where it has one inside, the position of the
/// first one together with the bytes themselves.
pub fn c_string(bytes: Vec<u8>) -> (r: Result<Vec<u8>, (usize, Vec<u8>)>)
    ensures
        r is Ok <==> !bytes@.contains(0),
        r matches Ok(text) ==> text@ == bytes@.push(0) && is_c_string(text@),
        r matches Err(e) ==> is_first_nul(bytes@, e.0 as int) && e.1@ == bytes@,
{
    match find_nul(bytes.as_slice()) {
        Some(position) => Err((position, bytes)),
        None => {
            let mut text = bytes;
            text.push(0);
            assert(text@.drop_last() == bytes@);
            Ok(text)
        },
    }
}

/// `units` with a NUL behind it, or `None` where it has one inside.
pub fn wide_string(units: Vec<u16>) -> (r: Option<Vec<u16>>)
    ensures
        r is Some <==> !units@.contains(0),
        r matches Some(text) ==> text@ == units@.push(0) && is_wide_string(text@),
{
    let mut i: usize = 0;
    while i < units.len()
        invariant
            i <= units@.len(),
            forall|j: int| 0 <= j < i ==> units@[j] != 0,
        decreases units@.len() - i,
    {
        if units[i] == 0 {
            assert(units@[i as int] == 0);
            return None;
        }
        i += 1;
    }
    let mut text = units;
    text.push(0);
    assert(text@.drop_last() == units@);
    Some(text)
}

/// There is at most one first NUL.
pub(crate) proof fn lemma_first_nul_unique(bytes: Seq<u8>, a: int, b: int)
    requires
        is_first_nul(bytes, a),
        is_first_nul(bytes, b),
    ensures
        a == b,
{
}

/// The first NUL is a NUL, there is none before it, and it exists exactly where there is
/// one at all.
pub proof fn law_first_nul(bytes: Seq<u8>, position: int)
    ensures
        is_first_nul(bytes, position) <==> {
            &&& 0 <= position < bytes.len()
            &&& bytes[position] == 0
            &&& !bytes.take(position).contains(0)
        },
{
    if 0 <= position < bytes.len() {
        let before = bytes.take(position);
        if is_first_nul(bytes, position) && before.contains(0) {
            let i = choose|i: int| 0 <= i < before.len() && before[i] == 0;
            assert(bytes[i] == 0);
        }
        if !before.contains(0) {
            assert forall|i: int| 0 <= i < position implies bytes[i] != 0 by {
                assert(before[i] == bytes[i]);
            }
        }
    }
}

/// Text that ends in its only NUL is text without a NUL, and a NUL behind it.
pub proof fn law_terminated_text(bytes: Seq<u8>, units: Seq<u16>)
    ensures
        is_c_string(bytes.push(0)) <==> !bytes.contains(0),
        is_wide_string(units.push(0)) <==> !units.contains(0),
        is_c_string(bytes) ==> bytes == bytes.take(bytes.len() - 1).push(0),
        is_wide_string(units) ==> units == units.take(units.len() - 1).push(0),
{
    assert(bytes.push(0).drop_last() == bytes);
    assert(units.push(0).drop_last() == units);
    if is_c_string(bytes) {
        assert(bytes == bytes.take(bytes.len() - 1).push(0));
    }
    if is_wide_string(units) {
        assert(units == units.take(units.len() - 1).push(0));
    }
}

/// Where there is a NUL, there is a first one.
pub(crate) proof fn lemma_first_nul_exists(bytes: Seq<u8>)
    requires
        bytes.contains(0),
    ensures
        exists|position: int| is_first_nul(bytes, position),
    decreases bytes.len(),
{
    let before = bytes.drop_last();
    if before.contains(0) {
        lemma_first_nul_exists(before);
        let position = choose|position: int| is_first_nul(before, position);
        assert forall|i: int| 0 <= i < position implies bytes[i] != 0 by {
            assert(before[i] == bytes[i]);
        }
        assert(is_first_nul(bytes, position));
    } else {
        let last = bytes.len() - 1;
        assert forall|i: int| 0 <= i < last implies bytes[i] != 0 by {
            assert(before[i] == bytes[i]);
        }
        assert(is_first_nul(bytes, last));
    }
}

} // verus!

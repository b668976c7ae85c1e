//! Word-aligned memory for the replies of the system.

use vstd::prelude::*;

verus! {

/// How many bytes a word has.
pub open spec fn word_size() -> nat {
    vstd::layout::size_of::<usize>()
}

/// `words` is the least number of words that hold `bytes` bytes.
pub open spec fn is_word_count(words: int, bytes: int) -> bool {
    &&& words * word_size() >= bytes
    &&& (words - 1) * word_size() < bytes
}

/// The least number of words that hold `bytes` bytes.
pub fn word_count(bytes: u32) -> (words: usize)
    ensures
        is_word_count(words as int, bytes as int),
        words <= bytes,
{
    broadcast use vstd::layout::group_layout_axioms;

    let size: usize = std::mem::size_of::<usize>();
    assert(size == 4 || size == 8);
    let bytes: usize = bytes as usize;
    let whole: usize = bytes / size;
    let words: usize = if bytes % size == 0 {
        whole
    } else {
        whole + 1
    };
    proof {
        if size == 4 {
            assert(words * 4 >= bytes && (words - 1) * 4 < bytes);
        } else {
            assert(words * 8 >= bytes && (words - 1) * 8 < bytes);
        }
    }
    words
}

/// Zeroed words that hold `bytes` bytes, no more of them than that takes. No allocation
/// is larger than `isize::MAX`.
pub fn word_buffer(bytes: u32) -> (buffer: Vec<usize>)
    requires
        bytes + word_size() - 1 <= isize::MAX,
    ensures
        is_word_count(buffer@.len() as int, bytes as int),
        forall|i: int| 0 <= i < buffer@.len() ==> buffer@[i] == 0,
{
    vec![0usize; word_count(bytes)]
}

/// The number of words for some bytes is the number of bytes, divided by the size of a
/// word and rounded up: there is exactly one.
pub proof fn law_word_count_rounds_up(words: int, bytes: int)
    requires
        bytes >= 0,
    ensures
        is_word_count(words, bytes) <==> words == (bytes + vstd::layout::size_of::<usize>() - 1)
            / vstd::layout::size_of::<usize>() as int,
        vstd::layout::size_of::<usize>() == 4 || vstd::layout::size_of::<usize>() == 8,
{
    broadcast use vstd::layout::group_layout_axioms;

    let size = vstd::layout::size_of::<usize>() as int;
    assert(size == 4 || size == 8);
    if size == 4 {
        assert(is_word_count(words, bytes) <==> words * 4 >= bytes && (words - 1) * 4 < bytes);
    } else {
        assert(is_word_count(words, bytes) <==> words * 8 >= bytes && (words - 1) * 8 < bytes);
    }
}

} // verus!

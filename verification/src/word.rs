//! Machine words read from the memory of a traced process, lowest byte first.

use vstd::prelude::*;

verus! {

/// The number that a string of bytes stands for, lowest byte first.
pub open spec fn word_value(bytes: Seq<u8>) -> nat
    decreases bytes.len(),
{
    if bytes.len() == 0 {
        0
    } else {
        bytes[0] as nat + 256 * word_value(bytes.drop_first())
    }
}

/// The lowest bytes of a number, lowest first.
pub open spec fn word_bytes(value: nat, count: nat) -> Seq<u8>
    decreases count,
{
    if count == 0 {
        Seq::empty()
    } else {
        seq![(value % 256) as u8] + word_bytes(value / 256, (count - 1) as nat)
    }
}

/// How many values a string of so many bytes can take.
pub open spec fn word_range(count: nat) -> nat
    decreases count,
{
    if count == 0 {
        1
    } else {
        256 * word_range((count - 1) as nat)
    }
}

/// The word at a position in a block of words of eight bytes.
pub open spec fn word_at(bytes: Seq<u8>, index: int) -> nat {
    word_value(bytes.subrange(index * 8, index * 8 + 8))
}

/// A string of bytes stands for a number in its range.
proof fn lemma_word_in_range(bytes: Seq<u8>)
    ensures
        word_value(bytes) < word_range(bytes.len()),
    decreases bytes.len(),
{
    if bytes.len() > 0 {
        lemma_word_in_range(bytes.drop_first());
    }
}

/// The word at a position in a block of three words.
pub fn word(bytes: &[u8; 24], index: usize) -> (value: u64)
    requires
        index < 3,
    ensures
        value == word_at(bytes@, index as int),
{
    let start: usize = index * 8;
    let mut value: u64 = 0;
    let mut left: usize = 8;
    let ghost all = bytes@.subrange(start as int, start + 8);
    proof {
        reveal_with_fuel(word_range, 9);
        assert(all.subrange(8, 8) =~= Seq::<u8>::empty());
    }
    while left > 0
        invariant
            left <= 8,
            start == index * 8,
            index < 3,
            all == bytes@.subrange(start as int, start + 8),
            value == word_value(all.subrange(left as int, 8)),
        decreases left,
    {
        proof {
            let rest = all.subrange(left as int, 8);
            let next = all.subrange(left - 1, 8);
            assert(next.drop_first() =~= rest);
            lemma_word_in_range(next);
            reveal_with_fuel(word_range, 9);
        }
        left = left - 1;
        value = bytes[start + left] as u64 + 256 * value;
    }
    assert(all.subrange(0, 8) =~= all);
    value
}

/// A number is read back from the bytes that a machine stores for it.
pub proof fn law_word_is_read_back(value: nat, count: nat)
    requires
        value < word_range(count),
    ensures
        word_bytes(value, count).len() == count,
        word_value(word_bytes(value, count)) == value,
    decreases count,
{
    if count > 0 {
        law_word_is_read_back(value / 256, (count - 1) as nat);
        assert(word_bytes(value, count).drop_first() =~= word_bytes(
            value / 256,
            (count - 1) as nat,
        ));
    }
}

/// A word is made of its eight bytes, each of them worth two hundred and fifty-six times
/// as much as the one before it.
pub proof fn law_a_word_is_its_bytes(bytes: Seq<u8>, index: int)
    requires
        bytes.len() == 24,
        0 <= index < 3,
    ensures
        ({
            let b = |i: int| bytes[8 * index + i] as int;
            word_at(bytes, index) == b(0) + 0x100 * b(1) + 0x1_0000 * b(2) + 0x100_0000 * b(3)
                + 0x1_0000_0000 * b(4) + 0x100_0000_0000 * b(5) + 0x1_0000_0000_0000 * b(6)
                + 0x100_0000_0000_0000 * b(7)
        }),
{
    let all = bytes.subrange(index * 8, index * 8 + 8);
    assert(all.skip(8) =~= Seq::<u8>::empty());
    assert(all.skip(0) =~= all);
    lemma_word_from(all, 7);
    lemma_word_from(all, 6);
    lemma_word_from(all, 5);
    lemma_word_from(all, 4);
    lemma_word_from(all, 3);
    lemma_word_from(all, 2);
    lemma_word_from(all, 1);
    lemma_word_from(all, 0);
}

/// The bytes from a place on stand for the byte there and those behind it.
proof fn lemma_word_from(all: Seq<u8>, i: int)
    requires
        0 <= i < all.len(),
    ensures
        word_value(all.skip(i)) == all[i] + 256 * word_value(all.skip(i + 1)),
{
    assert(all.skip(i).drop_first() =~= all.skip(i + 1));
}

/// A word is small exactly if it is its lowest byte, with nothing in the others.
pub proof fn law_a_small_word_is_its_lowest_byte(bytes: Seq<u8>, index: int, value: u8)
    requires
        bytes.len() == 24,
        0 <= index < 3,
    ensures
        word_at(bytes, index) == value <==> bytes[8 * index] == value && forall|i: int|
            8 * index < i < 8 * index + 8 ==> #[trigger] bytes[i] == 0,
{
    law_a_word_is_its_bytes(bytes, index);
    let b = |i: int| bytes[8 * index + i] as int;
    assert(b(0) == bytes[8 * index]);
    if word_at(bytes, index) == value {
        assert(b(1) == 0 && b(2) == 0 && b(3) == 0 && b(4) == 0 && b(5) == 0 && b(6) == 0 && b(7)
            == 0);
        assert forall|i: int| 8 * index < i < 8 * index + 8 implies #[trigger] bytes[i] == 0 by {
            assert(bytes[i] == b(i - 8 * index));
        }
    } else if forall|i: int| 8 * index < i < 8 * index + 8 ==> #[trigger] bytes[i] == 0 {
        assert(b(1) == 0 && b(2) == 0 && b(3) == 0 && b(4) == 0 && b(5) == 0 && b(6) == 0 && b(7)
            == 0);
    }
}

} // verus!

//! Natural numbers as big-endian byte strings, the form in which the numbers
//! of a key are handed about.

use vstd::prelude::*;

verus! {

/// The number that a big-endian byte string stands for. Leading zeros do not
/// change it, and the empty string stands for zero.
pub open spec fn be_value(bytes: Seq<u8>) -> nat
    decreases bytes.len(),
{
    if bytes.len() == 0 {
        0
    } else {
        be_value(bytes.drop_last()) * 256 + bytes.last() as nat
    }
}

/// The shortest big-endian byte string that stands for a number: no leading
/// zero, and no byte at all for zero.
pub open spec fn be_bytes(number: nat) -> Seq<u8>
    decreases number,
{
    if number == 0 {
        Seq::empty()
    } else {
        be_bytes(number / 256).push((number % 256) as u8)
    }
}

/// The number of bits that a number takes: the place of its highest bit, and
/// nothing for zero.
pub open spec fn bit_length(number: nat) -> nat
    decreases number,
{
    if number == 0 {
        0
    } else {
        1 + bit_length(number / 2)
    }
}

/// Whether a byte string has no leading zero.
pub open spec fn is_minimal(bytes: Seq<u8>) -> bool {
    bytes.len() > 0 ==> bytes[0] != 0
}

/// Writing a number and reading it back gives the number.
pub proof fn lemma_value_of_bytes(number: nat)
    ensures
        be_value(be_bytes(number)) == number,
    decreases number,
{
    if number != 0 {
        let rest = be_bytes(number / 256);
        let last = (number % 256) as u8;
        lemma_value_of_bytes(number / 256);
        assert(rest.push(last).drop_last() == rest);
        assert(rest.push(last).last() == last);
    }
}

/// The written form of a number has no leading zero.
pub proof fn lemma_bytes_minimal(number: nat)
    ensures
        is_minimal(be_bytes(number)),
        number > 0 ==> be_bytes(number).len() > 0,
    decreases number,
{
    if number != 0 {
        lemma_bytes_minimal(number / 256);
        let rest = be_bytes(number / 256);
        if rest.len() > 0 {
            assert(rest.push((number % 256) as u8)[0] == rest[0]);
        }
    }
}

/// A byte string without a leading zero is the written form of its number:
/// reading and writing it back changes nothing.
pub proof fn lemma_bytes_of_value(bytes: Seq<u8>)
    requires
        is_minimal(bytes),
    ensures
        be_bytes(be_value(bytes)) == bytes,
    decreases bytes.len(),
{
    if bytes.len() > 0 {
        let front = bytes.drop_last();
        let value = be_value(bytes);
        if front.len() > 0 {
            assert(front[0] == bytes[0]);
            lemma_bytes_of_value(front);
            lemma_positive(front);
        } else {
            assert(bytes.last() == bytes[0]);
        }
        assert(value != 0);
        assert(value / 256 == be_value(front));
        assert(value % 256 == bytes.last() as nat);
        assert(be_bytes(be_value(front)) == front);
        assert(front.push(bytes.last()) == bytes);
    }
}

/// A non-empty byte string without a leading zero stands for a positive
/// number.
pub proof fn lemma_positive(bytes: Seq<u8>)
    requires
        bytes.len() > 0,
        bytes[0] != 0,
    ensures
        be_value(bytes) > 0,
    decreases bytes.len(),
{
    let front = bytes.drop_last();
    if front.len() > 0 {
        assert(front[0] == bytes[0]);
        lemma_positive(front);
    } else {
        assert(bytes.last() == bytes[0]);
    }
}

} // verus!

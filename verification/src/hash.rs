//! The identifier that content addressing goes by.

use vstd::prelude::*;

verus! {

/// A 256-bit identifier of a value's structure.
///
/// It is not cryptographic: two different structures may share one, so
/// nothing that needs collision resistance may rest on it.
#[derive(Clone, Copy)]
pub struct Hash(pub [u8; 32]);

impl View for Hash {
    type V = Seq<u8>;

    open spec fn view(&self) -> Seq<u8> {
        self.0@
    }
}

/// The sixteen hexadecimal digits, letters in upper case.
pub open spec fn hex_digits() -> Seq<char> {
    seq!['0', '1', '2', '3', '4', '5', '6', '7', '8', '9', 'A', 'B', 'C', 'D', 'E', 'F']
}

/// The bytes written in hexadecimal: two digits for each byte, the high
/// one first.
pub open spec fn hex(bytes: Seq<u8>) -> Seq<char> {
    Seq::new(
        2 * bytes.len(),
        |i: int|
            if i % 2 == 0 {
                hex_digits()[bytes[i / 2] as int / 16]
            } else {
                hex_digits()[bytes[i / 2] as int % 16]
            },
    )
}

impl Hash {
    /// The hash as text: its 32 bytes in hexadecimal, 64 digits in all,
    /// letters in upper case.
    pub fn to_string(&self) -> (text: String)
        ensures
            text@ == hex(self@),
    {
        let digits = "0123456789ABCDEF";
        proof {
            reveal_strlit("0123456789ABCDEF");
            assert(digits@ =~= hex_digits());
        }
        let mut text = String::new();
        for i in 0..32usize
            invariant
                digits@ == hex_digits(),
                digits.is_ascii(),
                text@ == hex(self@.take(i as int)),
        {
            let byte = self.0[i];
            let high = (byte / 16) as usize;
            let low = (byte % 16) as usize;
            text.append(digits.substring_ascii(high, high + 1));
            text.append(digits.substring_ascii(low, low + 1));
            assert(text@ =~= hex(self@.take(i + 1)));
        }
        assert(self@.take(32) == self@);
        text
    }
}

/// Two hashes of the same bytes are the same hash.
pub proof fn lemma_same_bytes_same_hash(left: Hash, right: Hash)
    requires
        left@ == right@,
    ensures
        left == right,
{
    assert(left.0 =~= right.0);
}

} // verus!

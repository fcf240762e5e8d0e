//! 32-byte roots and hashes.
use vstd::prelude::*;
use vstd::string::StringExecFns;

verus! {

/// A 32-byte hash: a block root, a state root, an execution block hash.
#[derive(Clone, Copy, Eq, Debug)]
pub struct Hash256 {
    pub bytes: [u8; 32],
}

impl PartialEq for Hash256 {
    fn eq(&self, other: &Self) -> (r: bool) {
        let mut i: usize = 0;
        while i < 32
            invariant
                i <= 32,
                forall|j: int| 0 <= j < i ==> self.bytes[j] == other.bytes[j],
            decreases 32 - i,
        {
            if self.bytes[i] != other.bytes[i] {
                return false;
            }
            i = i + 1;
        }
        assert(self.bytes =~= other.bytes);
        true
    }
}

impl vstd::std_specs::cmp::PartialEqSpecImpl for Hash256 {
    open spec fn obeys_eq_spec() -> bool {
        true
    }

    open spec fn eq_spec(&self, other: &Self) -> bool {
        *self == *other
    }
}

/// The lower-case hexadecimal digit of a number below 16.
pub open spec fn hex_digit(n: int) -> char {
    if n < 10 {
        ('0' as int + n) as char
    } else {
        ('a' as int + (n - 10)) as char
    }
}

/// The two hexadecimal digits of each byte, in order.
pub open spec fn hex_digits(bytes: Seq<u8>) -> Seq<char> {
    Seq::new(
        2 * bytes.len(),
        |i: int|
            if i % 2 == 0 {
                hex_digit(bytes[i / 2] as int / 16)
            } else {
                hex_digit(bytes[i / 2] as int % 16)
            },
    )
}

impl Hash256 {
    /// The hash whose bytes are all zero.
    pub open spec fn is_zero(self) -> bool {
        forall|i: int| 0 <= i < 32 ==> self.bytes[i] == 0
    }

    /// `0x` followed by all 64 hexadecimal digits.
    pub open spec fn full_text(self) -> Seq<char> {
        seq!['0', 'x'] + hex_digits(self.bytes@)
    }

    /// The hash whose bytes are all zero.
    pub fn zero() -> (r: Self)
        ensures
            r.is_zero(),
    {
        Hash256 { bytes: [0u8; 32] }
    }

    /// The full text of the hash, `0x` and 64 hexadecimal digits.
    pub fn to_full_text(&self) -> (text: String)
        ensures
            text@ == self.full_text(),
    {
        let mut text = "0x".to_owned();
        proof {
            reveal_strlit("0x");
            assert(text@ =~= seq!['0', 'x'] + hex_digits(self.bytes@.take(0)));
        }
        let mut i: usize = 0;
        while i < 32
            invariant
                i <= 32,
                text@ == seq!['0', 'x'] + hex_digits(self.bytes@.take(i as int)),
            decreases 32 - i,
        {
            let byte = self.bytes[i];
            text.append(digit_text(byte / 16));
            text.append(digit_text(byte % 16));
            i = i + 1;
            assert(text@ =~= seq!['0', 'x'] + hex_digits(self.bytes@.take(i as int)));
        }
        assert(self.bytes@.take(32) =~= self.bytes@);
        text
    }
}

/// The text of one hexadecimal digit.
fn digit_text(n: u8) -> (text: &'static str)
    requires
        n < 16,
    ensures
        text@ == seq![hex_digit(n as int)],
{
    proof {
        reveal_strlit("0");
        reveal_strlit("1");
        reveal_strlit("2");
        reveal_strlit("3");
        reveal_strlit("4");
        reveal_strlit("5");
        reveal_strlit("6");
        reveal_strlit("7");
        reveal_strlit("8");
        reveal_strlit("9");
        reveal_strlit("a");
        reveal_strlit("b");
        reveal_strlit("c");
        reveal_strlit("d");
        reveal_strlit("e");
        reveal_strlit("f");
    }
    match n {
        0 => "0",
        1 => "1",
        2 => "2",
        3 => "3",
        4 => "4",
        5 => "5",
        6 => "6",
        7 => "7",
        8 => "8",
        9 => "9",
        10 => "a",
        11 => "b",
        12 => "c",
        13 => "d",
        14 => "e",
        _ => "f",
    }
}

} // verus!

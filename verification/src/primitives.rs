//! Fixed-width identifiers that the node's cryptography supplies. The
//! consensus contract carries them around and never looks inside, except to
//! print an address.

use vstd::prelude::*;
use vstd::string::StringExecFns;

verus! {

/// A 256-bit hash: of a block header, or of a message to sign.
#[derive(Debug, Clone, Copy, PartialEq, Eq, Hash)]
pub struct H256 {
    pub bytes: [u8; 32],
}

/// The 160-bit identifier of an account or an authority.
#[derive(Debug, Clone, Copy, PartialEq, Eq, Hash)]
pub struct Address {
    pub bytes: [u8; 20],
}

/// A signature as the signing module returned it.
#[derive(Debug, PartialEq, Eq)]
pub struct Signature {
    pub bytes: Vec<u8>,
}

/// The lower-case hexadecimal digit of a value below sixteen.
pub open spec fn hex_digit(nibble: int) -> char {
    if nibble == 0 {
        '0'
    } else if nibble == 1 {
        '1'
    } else if nibble == 2 {
        '2'
    } else if nibble == 3 {
        '3'
    } else if nibble == 4 {
        '4'
    } else if nibble == 5 {
        '5'
    } else if nibble == 6 {
        '6'
    } else if nibble == 7 {
        '7'
    } else if nibble == 8 {
        '8'
    } else if nibble == 9 {
        '9'
    } else if nibble == 10 {
        'a'
    } else if nibble == 11 {
        'b'
    } else if nibble == 12 {
        'c'
    } else if nibble == 13 {
        'd'
    } else if nibble == 14 {
        'e'
    } else {
        'f'
    }
}

/// Two lower-case hexadecimal digits for each byte, in order.
pub open spec fn hex_text(bytes: Seq<u8>) -> Seq<char>
    decreases bytes.len(),
{
    if bytes.len() == 0 {
        Seq::empty()
    } else {
        hex_text(bytes.drop_last()).push(hex_digit(bytes.last() as int / 16)).push(
            hex_digit(bytes.last() as int % 16),
        )
    }
}

/// The text of one hexadecimal digit.
fn digit_str(nibble: u8) -> (s: &'static str)
    requires
        nibble < 16,
    ensures
        s@ == seq![hex_digit(nibble as int)],
{
    proof {
        reveal_strlit("0");
        reveal_strlit("1");
        reveal_strlit("2");
        reveal_strlit("3");
        reveal_strlit("4");
        reveal_strlit("5");
        reveal_strlit("6");
        reveal_strlit("7");
        reveal_strlit("8");
        reveal_strlit("9");
        reveal_strlit("a");
        reveal_strlit("b");
        reveal_strlit("c");
        reveal_strlit("d");
        reveal_strlit("e");
        reveal_strlit("f");
    }
    let s = match nibble {
        0 => "0",
        1 => "1",
        2 => "2",
        3 => "3",
        4 => "4",
        5 => "5",
        6 => "6",
        7 => "7",
        8 => "8",
        9 => "9",
        10 => "a",
        11 => "b",
        12 => "c",
        13 => "d",
        14 => "e",
        _ => "f",
    };
    assert(s@ =~= seq![hex_digit(nibble as int)]);
    s
}

impl Address {
    /// The address as text: `0x` and forty lower-case hexadecimal digits.
    pub open spec fn text(self) -> Seq<char> {
        seq!['0', 'x'] + hex_text(self.bytes@)
    }

    /// Writes the address out as `0x` and forty lower-case hexadecimal digits.
    pub fn to_hex(&self) -> (s: String)
        ensures
            s@ == self.text(),
            s@.len() == 42,
    {
        proof {
            reveal_strlit("0x");
        }
        let mut s = String::from_str("0x");
        assert(s@ =~= seq!['0', 'x']);
        let mut i: usize = 0;
        assert(self.bytes@.take(0) =~= Seq::<u8>::empty());
        while i < 20
            invariant
                i <= 20,
                s@ == seq!['0', 'x'] + hex_text(self.bytes@.take(i as int)),
                s@.len() == 2 + 2 * i,
            decreases 20 - i,
        {
            let b: u8 = self.bytes[i];
            let hi: u8 = b / 16;
            let lo: u8 = b % 16;
            s.append(digit_str(hi));
            s.append(digit_str(lo));
            proof {
                let next = self.bytes@.take(i as int + 1);
                assert(next.drop_last() =~= self.bytes@.take(i as int));
                assert(next.last() == b);
                assert(s@ =~= seq!['0', 'x'] + hex_text(next));
            }
            i = i + 1;
        }
        assert(self.bytes@.take(20) =~= self.bytes@);
        s
    }
}

} // verus!

//! 32-byte hashes, the keys and roots of the chain.

use vstd::prelude::*;

verus! {

/// A 32-byte hash.
#[derive(Clone, Copy, Debug, Hash, Eq)]
pub struct Hash256(pub [u8; 32]);

impl View for Hash256 {
    type V = Seq<u8>;

    open spec fn view(&self) -> Seq<u8> {
        self.0@
    }
}

impl PartialEq for Hash256 {
    fn eq(&self, other: &Self) -> (equal: bool) {
        let mut i: usize = 0;
        while i < 32
            invariant
                0 <= i <= 32,
                forall|j: int| 0 <= j < i ==> self@[j] == other@[j],
            decreases 32 - i,
        {
            if self.0[i] != other.0[i] {
                return false;
            }
            i = i + 1;
        }
        assert forall|j: int| 0 <= j < 32 implies self.0[j] == other.0[j] by {
            assert(self@[j] == other@[j]);
        }
        assert(self.0 =~= other.0);
        true
    }
}

impl vstd::std_specs::cmp::PartialEqSpecImpl for Hash256 {
    open spec fn obeys_eq_spec() -> bool {
        true
    }

    open spec fn eq_spec(&self, other: &Self) -> bool {
        *self == *other
    }
}

/// The hexadecimal digit for `value`.
pub open spec fn hex_digit(value: u8) -> char
    recommends
        value < 16,
{
    if value < 10 {
        (48 + value) as char
    } else {
        (87 + value) as char
    }
}

/// The hexadecimal digit for `value`, as a text.
fn hex_text(value: u8) -> (text: &'static str)
    requires
        value < 16,
    ensures
        text@ == seq![hex_digit(value)],
{
    match value {
        0 => {
            proof {
                reveal_strlit("0");
            }
            "0"
        },
        1 => {
            proof {
                reveal_strlit("1");
            }
            "1"
        },
        2 => {
            proof {
                reveal_strlit("2");
            }
            "2"
        },
        3 => {
            proof {
                reveal_strlit("3");
            }
            "3"
        },
        4 => {
            proof {
                reveal_strlit("4");
            }
            "4"
        },
        5 => {
            proof {
                reveal_strlit("5");
            }
            "5"
        },
        6 => {
            proof {
                reveal_strlit("6");
            }
            "6"
        },
        7 => {
            proof {
                reveal_strlit("7");
            }
            "7"
        },
        8 => {
            proof {
                reveal_strlit("8");
            }
            "8"
        },
        9 => {
            proof {
                reveal_strlit("9");
            }
            "9"
        },
        10 => {
            proof {
                reveal_strlit("a");
            }
            "a"
        },
        11 => {
            proof {
                reveal_strlit("b");
            }
            "b"
        },
        12 => {
            proof {
                reveal_strlit("c");
            }
            "c"
        },
        13 => {
            proof {
                reveal_strlit("d");
            }
            "d"
        },
        14 => {
            proof {
                reveal_strlit("e");
            }
            "e"
        },
        _ => {
            proof {
                reveal_strlit("f");
            }
            "f"
        },
    }
}

impl Hash256 {
    /// The digits of the first `count` bytes, two for each, the high one first.
    pub open spec fn hex_digits(self, count: nat) -> Seq<char> {
        Seq::new(
            2 * count,
            |i: int|
                hex_digit(
                    if i % 2 == 0 {
                        self@[i / 2] / 16
                    } else {
                        self@[i / 2] % 16
                    },
                ),
        )
    }

    /// The hash in full, in hexadecimal after `0x`.
    pub fn to_hex(&self) -> (text: String)
        ensures
            text@ == "0x"@ + self.hex_digits(32),
    {
        let mut text = "0x".to_owned();
        let mut i: usize = 0;
        assert(text@ =~= "0x"@ + self.hex_digits(0));
        while i < 32
            invariant
                0 <= i <= 32,
                text@ == "0x"@ + self.hex_digits(i as nat),
            decreases 32 - i,
        {
            let byte: u8 = self.0[i];
            text.append(hex_text(byte / 16));
            text.append(hex_text(byte % 16));
            assert(text@ =~= "0x"@ + self.hex_digits((i + 1) as nat));
            i = i + 1;
        }
        text
    }

    /// The hash of 32 zero bytes, for specifications.
    pub open spec fn spec_zero() -> Self {
        Hash256(vstd::array::spec_array_fill_for_copy_type::<u8, 32>(0u8))
    }

    /// The hash of 32 zero bytes.
    pub fn zero() -> (hash: Self)
        ensures
            hash == Self::spec_zero(),
            hash@ == Seq::new(32, |i: int| 0u8),
    {
        Hash256([0u8; 32])
    }

    /// The hash whose bytes are `bytes`.
    pub fn from_slice(bytes: &[u8]) -> (hash: Self)
        requires
            bytes@.len() == 32,
        ensures
            hash@ == bytes@,
    {
        let mut array: [u8; 32] = [0u8; 32];
        let mut i: usize = 0;
        while i < 32
            invariant
                0 <= i <= 32,
                bytes@.len() == 32,
                forall|j: int| 0 <= j < i ==> array@[j] == bytes@[j],
            decreases 32 - i,
        {
            array[i] = bytes[i];
            i = i + 1;
        }
        Hash256(array)
    }
}

} // verus!

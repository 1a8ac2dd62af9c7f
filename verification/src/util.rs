//! Helpers for turning numbers into bytes and bytes into readable text.

use crate::bytes::{be_bytes, be_vec};
use vstd::prelude::*;
use vstd::string::StringExecFns;

verus! {

/// The `length` low-order bytes of `number`, most significant byte first.
pub fn to_bytes(number: usize, length: u8) -> (out: Vec<u8>)
    ensures
        out@ == be_bytes(number as nat, length as nat),
{
    be_vec(number as u64, length)
}

/// The upper-case hexadecimal digit for a value below 16.
pub open spec fn hex_digit(n: int) -> char {
    seq!['0', '1', '2', '3', '4', '5', '6', '7', '8', '9', 'A', 'B', 'C', 'D', 'E', 'F'][n]
}

/// A byte as two hexadecimal digits.
pub open spec fn hex_byte(b: u8) -> Seq<char> {
    seq![hex_digit(b as int / 16), hex_digit(b as int % 16)]
}

/// Bytes as pairs of hexadecimal digits, one space between neighbours.
pub open spec fn hex_text(s: Seq<u8>) -> Seq<char>
    decreases s.len(),
{
    if s.len() == 0 {
        Seq::<char>::empty()
    } else if s.len() == 1 {
        hex_byte(s[0])
    } else {
        hex_text(s.drop_last()) + seq![' '] + hex_byte(s.last())
    }
}

/// The binary digit of `b` at the place worth `weight`.
pub open spec fn bin_digit(b: u8, weight: int) -> char {
    if (b as int / weight) % 2 == 1 {
        '1'
    } else {
        '0'
    }
}

/// A byte as eight binary digits, most significant first.
pub open spec fn bin_byte(b: u8) -> Seq<char> {
    seq![
        bin_digit(b, 128),
        bin_digit(b, 64),
        bin_digit(b, 32),
        bin_digit(b, 16),
        bin_digit(b, 8),
        bin_digit(b, 4),
        bin_digit(b, 2),
        bin_digit(b, 1),
    ]
}

/// Bytes as groups of eight binary digits, a space after each group.
pub open spec fn bin_text(s: Seq<u8>) -> Seq<char>
    decreases s.len(),
{
    if s.len() == 0 {
        Seq::<char>::empty()
    } else {
        bin_text(s.drop_last()) + bin_byte(s.last()) + seq![' ']
    }
}

fn hex_digit_str(n: u8) -> (s: &'static str)
    requires
        n < 16,
    ensures
        s@ == seq![hex_digit(n as int)],
{
    proof {
        reveal_strlit("0");
        reveal_strlit("1");
        reveal_strlit("2");
        reveal_strlit("3");
        reveal_strlit("4");
        reveal_strlit("5");
        reveal_strlit("6");
        reveal_strlit("7");
        reveal_strlit("8");
        reveal_strlit("9");
        reveal_strlit("A");
        reveal_strlit("B");
        reveal_strlit("C");
        reveal_strlit("D");
        reveal_strlit("E");
        reveal_strlit("F");
    }
    let s = match n {
        0 => "0",
        1 => "1",
        2 => "2",
        3 => "3",
        4 => "4",
        5 => "5",
        6 => "6",
        7 => "7",
        8 => "8",
        9 => "9",
        10 => "A",
        11 => "B",
        12 => "C",
        13 => "D",
        14 => "E",
        _ => "F",
    };
    assert(s@ =~= seq![hex_digit(n as int)]);
    s
}

fn bin_digit_str(b: u8, weight: u8) -> (s: &'static str)
    requires
        weight > 0,
    ensures
        s@ == seq![bin_digit(b, weight as int)],
{
    proof {
        reveal_strlit("0");
        reveal_strlit("1");
    }
    let s = if (b / weight) % 2 == 1 { "1" } else { "0" };
    assert(s@ =~= seq![bin_digit(b, weight as int)]);
    s
}

/// Upper-case hexadecimal, two digits a byte, the bytes one space apart.
pub fn format_slice_hex(slice: &[u8]) -> (text: String)
    ensures
        text@ == hex_text(slice@),
{
    let mut s = String::new();
    let mut i: usize = 0;
    proof {
        reveal_strlit(" ");
        assert(slice@.take(0) =~= Seq::<u8>::empty());
    }
    while i < slice.len()
        invariant
            i <= slice.len(),
            s@ == hex_text(slice@.take(i as int)),
            " "@ == seq![' '],
        decreases slice.len() - i,
    {
        let byte = slice[i];
        if i > 0 {
            s.append(" ");
        }
        s.append(hex_digit_str(byte / 16));
        s.append(hex_digit_str(byte % 16));
        proof {
            let next = slice@.take(i + 1);
            assert(next.drop_last() =~= slice@.take(i as int));
            assert(next.last() == byte);
            if i > 0 {
                assert(s@ =~= hex_text(next.drop_last()) + seq![' '] + hex_byte(byte));
            } else {
                assert(next[0] == byte);
                assert(s@ =~= hex_byte(byte));
            }
        }
        i = i + 1;
    }
    proof {
        assert(slice@.take(i as int) =~= slice@);
    }
    s
}

/// Binary, eight digits a byte, a space after every byte.
pub fn format_slice_bin(slice: &[u8]) -> (text: String)
    ensures
        text@ == bin_text(slice@),
{
    let mut s = String::new();
    let mut i: usize = 0;
    proof {
        reveal_strlit(" ");
        assert(slice@.take(0) =~= Seq::<u8>::empty());
    }
    while i < slice.len()
        invariant
            i <= slice.len(),
            s@ == bin_text(slice@.take(i as int)),
            " "@ == seq![' '],
        decreases slice.len() - i,
    {
        let byte = slice[i];
        s.append(bin_digit_str(byte, 128));
        s.append(bin_digit_str(byte, 64));
        s.append(bin_digit_str(byte, 32));
        s.append(bin_digit_str(byte, 16));
        s.append(bin_digit_str(byte, 8));
        s.append(bin_digit_str(byte, 4));
        s.append(bin_digit_str(byte, 2));
        s.append(bin_digit_str(byte, 1));
        s.append(" ");
        proof {
            let next = slice@.take(i + 1);
            assert(next.drop_last() =~= slice@.take(i as int));
            assert(next.last() == byte);
            assert(s@ =~= bin_text(next.drop_last()) + bin_byte(byte) + seq![' ']);
        }
        i = i + 1;
    }
    proof {
        assert(slice@.take(i as int) =~= slice@);
    }
    s
}

} // verus!

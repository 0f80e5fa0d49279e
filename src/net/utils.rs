use vstd::prelude::*;
use vstd::string::StringExecFns;

verus! {

// Byte order conversions. AF_XDP hosts are little-endian (x86-64, arm64),
// so network order and host order differ by a byte swap.

/// `x` with its two bytes swapped.
pub open spec fn swap16(x: u16) -> u16 {
    ((x % 0x100) * 0x100 + x / 0x100) as u16
}

/// `x` with its four bytes reversed.
pub open spec fn swap32(x: u32) -> u32 {
    ((x % 0x100) * 0x100_0000 + ((x / 0x100) % 0x100) * 0x1_0000 + ((x / 0x1_0000) % 0x100)
        * 0x100 + x / 0x100_0000) as u32
}

/// Network to host byte order, 16 bits.
pub fn ntohs(x: u16) -> (r: u16)
    ensures
        r == swap16(x),
{
    (x % 0x100) * 0x100 + x / 0x100
}

/// Network to host byte order, 32 bits.
pub fn ntohl(x: u32) -> (r: u32)
    ensures
        r == swap32(x),
{
    (x % 0x100) * 0x100_0000 + ((x / 0x100) % 0x100) * 0x1_0000 + ((x / 0x1_0000) % 0x100) * 0x100
        + x / 0x100_0000
}

/// Host to network byte order, 16 bits.
pub fn htons(x: u16) -> (r: u16)
    ensures
        r == swap16(x),
{
    ntohs(x)
}

/// Host to network byte order, 32 bits.
pub fn htonl(x: u32) -> (r: u32)
    ensures
        r == swap32(x),
{
    ntohl(x)
}

/// Converting twice gives the value back.
pub proof fn lemma_swap16_involutive(x: u16)
    ensures
        swap16(swap16(x)) == x,
{
}

/// Upper-case hexadecimal digit of `d`.
pub open spec fn hex_digit(d: u8) -> char {
    if d < 10 {
        ((48 + d) as u8) as char
    } else {
        ((55 + d) as u8) as char
    }
}

/// The two upper-case hexadecimal digits of `b`.
pub open spec fn hex_byte(b: u8) -> Seq<char> {
    seq![hex_digit(b / 16), hex_digit(b % 16)]
}

/// The first `n` bytes of `a` as hexadecimal pairs joined by `:`.
pub open spec fn mac_chars(a: Seq<u8>, n: nat) -> Seq<char>
    decreases n,
{
    if n == 0 {
        Seq::empty()
    } else if n == 1 {
        hex_byte(a[0])
    } else {
        mac_chars(a, (n - 1) as nat) + seq![':'] + hex_byte(a[n - 1])
    }
}

/// The hexadecimal digit of `d` as a string.
fn hex_str(d: u8) -> (r: &'static str)
    requires
        d < 16,
    ensures
        r@ == seq![hex_digit(d)],
{
    proof {
        reveal_strlit("0");
        reveal_strlit("1");
        reveal_strlit("2");
        reveal_strlit("3");
        reveal_strlit("4");
        reveal_strlit("5");
        reveal_strlit("6");
        reveal_strlit("7");
        reveal_strlit("8");
        reveal_strlit("9");
        reveal_strlit("A");
        reveal_strlit("B");
        reveal_strlit("C");
        reveal_strlit("D");
        reveal_strlit("E");
        reveal_strlit("F");
    }
    match d {
        0 => "0",
        1 => "1",
        2 => "2",
        3 => "3",
        4 => "4",
        5 => "5",
        6 => "6",
        7 => "7",
        8 => "8",
        9 => "9",
        10 => "A",
        11 => "B",
        12 => "C",
        13 => "D",
        14 => "E",
        _ => "F",
    }
}

/// Formats a MAC address as six upper-case hexadecimal pairs joined by `:`.
pub fn mac_to_string(addr: [u8; 6]) -> (r: String)
    ensures
        r@ == mac_chars(addr@, 6),
{
    let mut s = String::new();
    let mut i: usize = 0;
    while i < 6
        invariant
            i <= 6,
            s@ == mac_chars(addr@, i as nat),
        decreases 6 - i,
    {
        if i > 0 {
            proof {
                reveal_strlit(":");
            }
            s.append(":");
        }
        let b = addr[i];
        s.append(hex_str(b / 16));
        s.append(hex_str(b % 16));
        proof {
            if i == 0 {
                assert(s@ =~= mac_chars(addr@, 1));
            } else {
                assert(s@ =~= mac_chars(addr@, (i + 1) as nat));
            }
        }
        i = i + 1;
    }
    s
}

} // verus!

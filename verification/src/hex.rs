use vstd::prelude::*;
use vstd::string::StringExecFns;

verus! {

/// The lowercase hex digit character for a nibble value below 16.
pub open spec fn spec_hex_digit(n: u8) -> char {
    if n == 0 {
        '0'
    } else if n == 1 {
        '1'
    } else if n == 2 {
        '2'
    } else if n == 3 {
        '3'
    } else if n == 4 {
        '4'
    } else if n == 5 {
        '5'
    } else if n == 6 {
        '6'
    } else if n == 7 {
        '7'
    } else if n == 8 {
        '8'
    } else if n == 9 {
        '9'
    } else if n == 10 {
        'a'
    } else if n == 11 {
        'b'
    } else if n == 12 {
        'c'
    } else if n == 13 {
        'd'
    } else if n == 14 {
        'e'
    } else if n == 15 {
        'f'
    } else {
        '0'
    }
}

/// The nibble of `x` at position `i`, counted from the most significant.
pub open spec fn spec_nibble(x: u64, i: int) -> u8 {
    ((x >> (((15 - i) * 4) as u64)) & 0xf) as u8
}

/// The 16 lowercase hex digits of `x`, most significant first.
pub open spec fn spec_hex16(x: u64) -> Seq<char> {
    Seq::new(16, |i: int| spec_hex_digit(spec_nibble(x, i)))
}

/// The single-character string for a nibble value.
fn hex_digit_str(n: u8) -> (r: &'static str)
    requires
        n < 16,
    ensures
        r@ == seq![spec_hex_digit(n)],
{
    proof {
        reveal_strlit("0");
        reveal_strlit("1");
        reveal_strlit("2");
        reveal_strlit("3");
        reveal_strlit("4");
        reveal_strlit("5");
        reveal_strlit("6");
        reveal_strlit("7");
        reveal_strlit("8");
        reveal_strlit("9");
        reveal_strlit("a");
        reveal_strlit("b");
        reveal_strlit("c");
        reveal_strlit("d");
        reveal_strlit("e");
        reveal_strlit("f");
    }
    let r = match n {
        0 => "0",
        1 => "1",
        2 => "2",
        3 => "3",
        4 => "4",
        5 => "5",
        6 => "6",
        7 => "7",
        8 => "8",
        9 => "9",
        10 => "a",
        11 => "b",
        12 => "c",
        13 => "d",
        14 => "e",
        _ => "f",
    };
    proof {
        assert(r@ =~= seq![spec_hex_digit(n)]);
    }
    r
}

/// Renders the first `count` hex digits of `x`, most significant first.
pub fn hex_prefix(x: u64, count: usize) -> (r: String)
    requires
        count <= 16,
    ensures
        r@ == spec_hex16(x).take(count as int),
{
    let mut s = String::new();
    let mut i: usize = 0;
    while i < count
        invariant
            i <= count <= 16,
            s@ == spec_hex16(x).take(i as int),
        decreases count - i,
    {
        let sh: u64 = (15 - i as u64) * 4;
        proof {
            assert((x >> sh) & 0xf < 16) by (bit_vector);
        }
        let nib: u8 = ((x >> sh) & 0xf) as u8;
        proof {
            assert(nib == spec_nibble(x, i as int));
        }
        s.append(hex_digit_str(nib));
        proof {
            assert(spec_hex16(x).take(i + 1) =~= spec_hex16(x).take(i as int).push(
                spec_hex_digit(spec_nibble(x, i as int)),
            ));
        }
        i = i + 1;
    }
    s
}

/// Renders `x` as exactly 16 lowercase hex digits.
pub fn hex16(x: u64) -> (r: String)
    ensures
        r@ == spec_hex16(x),
        r@.len() == 16,
{
    let r = hex_prefix(x, 16);
    proof {
        assert(spec_hex16(x).take(16) =~= spec_hex16(x));
    }
    r
}

} // verus!

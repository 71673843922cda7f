use vstd::prelude::*;

verus! {

/// The lower-case hexadecimal digit for a value below sixteen.
pub open spec fn spec_hex_char(n: u128) -> char {
    if n == 0 {
        '0'
    } else if n == 1 {
        '1'
    } else if n == 2 {
        '2'
    } else if n == 3 {
        '3'
    } else if n == 4 {
        '4'
    } else if n == 5 {
        '5'
    } else if n == 6 {
        '6'
    } else if n == 7 {
        '7'
    } else if n == 8 {
        '8'
    } else if n == 9 {
        '9'
    } else if n == 10 {
        'a'
    } else if n == 11 {
        'b'
    } else if n == 12 {
        'c'
    } else if n == 13 {
        'd'
    } else if n == 14 {
        'e'
    } else {
        'f'
    }
}

/// The `i`-th four-bit group of `u`, counted from the most significant end.
pub open spec fn spec_nibble(u: u128, i: int) -> u128 {
    (u >> ((124 - 4 * i) as u128)) & 0xf
}

/// The first `n` hexadecimal digits of the canonical hyphenated rendering of
/// a 128-bit identifier, with the hyphens that precede digits 8, 12, 16
/// and 20 included.
pub open spec fn spec_uuid_prefix(u: u128, n: int) -> Seq<char>
    decreases n,
{
    if n <= 0 {
        Seq::empty()
    } else {
        let prev = spec_uuid_prefix(u, n - 1);
        let sep = if n - 1 == 8 || n - 1 == 12 || n - 1 == 16 || n - 1 == 20 {
            prev.push('-')
        } else {
            prev
        };
        sep.push(spec_hex_char(spec_nibble(u, n - 1)))
    }
}

/// The canonical hyphenated rendering of a 128-bit identifier: thirty-two
/// lower-case hexadecimal digits in groups of 8, 4, 4, 4 and 12, separated
/// by hyphens.
pub open spec fn spec_uuid_str(u: u128) -> Seq<char> {
    spec_uuid_prefix(u, 32)
}

/// The artifact directory of a mod: the install root, a path separator, and
/// the hyphenated rendering of the mod's identifier.
pub open spec fn spec_install_path(root: Seq<char>, u: u128) -> Seq<char> {
    root + seq!['/'] + spec_uuid_str(u)
}

/// Relies on uuid::Uuid::new_v4: a freshly generated random 128-bit
/// identifier. Nothing is promised of the value; callers check it against
/// the existing state themselves.
#[verifier::external_body]
pub(crate) fn random_uuid() -> u128 {
    uuid::Uuid::new_v4().as_u128()
}

fn hex_char_str(nib: u128) -> (r: &'static str)
    requires
        nib < 16,
    ensures
        r@ =~= seq![spec_hex_char(nib)],
{
    proof {
        reveal_strlit("0");
        reveal_strlit("1");
        reveal_strlit("2");
        reveal_strlit("3");
        reveal_strlit("4");
        reveal_strlit("5");
        reveal_strlit("6");
        reveal_strlit("7");
        reveal_strlit("8");
        reveal_strlit("9");
        reveal_strlit("a");
        reveal_strlit("b");
        reveal_strlit("c");
        reveal_strlit("d");
        reveal_strlit("e");
        reveal_strlit("f");
    }
    match nib {
        0 => "0",
        1 => "1",
        2 => "2",
        3 => "3",
        4 => "4",
        5 => "5",
        6 => "6",
        7 => "7",
        8 => "8",
        9 => "9",
        10 => "a",
        11 => "b",
        12 => "c",
        13 => "d",
        14 => "e",
        _ => "f",
    }
}

/// The canonical hyphenated rendering of a 128-bit identifier, computed
/// digit by digit from the most significant end.
pub fn uuid_hyphenated(u: u128) -> (r: String)
    ensures
        r@ == spec_uuid_str(u),
{
    let mut s = String::new();
    let mut i: usize = 0;
    while i < 32
        invariant
            i <= 32,
            s@ =~= spec_uuid_prefix(u, i as int),
        decreases 32 - i,
    {
        if i == 8 || i == 12 || i == 16 || i == 20 {
            proof {
                reveal_strlit("-");
            }
            s.append("-");
        }
        let sh: u128 = 124 - 4 * (i as u128);
        let nib: u128 = (u >> sh) & 0xf;
        proof {
            assert(nib < 16) by (bit_vector)
                requires
                    nib == (u >> sh) & 0xf,
            ;
            assert(nib == spec_nibble(u, i as int));
        }
        s.append(hex_char_str(nib));
        i = i + 1;
    }
    proof {
        assert(s@ =~= spec_uuid_str(u));
    }
    s
}

} // verus!

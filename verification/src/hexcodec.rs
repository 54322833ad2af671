use vstd::prelude::*;

verus! {

/// Whether `c` is an ASCII hexadecimal digit.
pub open spec fn is_hex_digit(c: u8) -> bool {
    (48 <= c <= 57) || (97 <= c <= 102) || (65 <= c <= 70)
}

/// Numeric value of an ASCII hexadecimal digit (0 on other bytes).
pub open spec fn hex_digit_value(c: u8) -> u8 {
    if 48 <= c <= 57 {
        (c - 48) as u8
    } else if 97 <= c <= 102 {
        (c - 87) as u8
    } else if 65 <= c <= 70 {
        (c - 55) as u8
    } else {
        0
    }
}

/// Whether `s` is a well-formed hexadecimal encoding: an even number of
/// hexadecimal digits.
pub open spec fn hex_valid(s: Seq<u8>) -> bool {
    &&& s.len() % 2 == 0
    &&& forall|i: int| 0 <= i < s.len() ==> is_hex_digit(s[i])
}

/// The bytes encoded by a well-formed hexadecimal string, two digits per byte.
pub open spec fn hex_bytes(s: Seq<u8>) -> Seq<u8> {
    Seq::new((s.len() / 2) as nat, |i: int| (hex_digit_value(s[2 * i]) * 16 + hex_digit_value(s[2 * i + 1])) as u8)
}

/// The lowercase ASCII digit for a value below 16.
pub open spec fn hex_digit_char(v: u8) -> u8 {
    if v < 10 {
        (48 + v) as u8
    } else {
        (87 + v) as u8
    }
}

/// The hexadecimal encoding of `b`, two lowercase digits per byte.
pub open spec fn hex_of_bytes(b: Seq<u8>) -> Seq<u8> {
    Seq::new(
        2 * b.len(),
        |i: int|
            if i % 2 == 0 {
                hex_digit_char((b[i / 2] / 16) as u8)
            } else {
                hex_digit_char((b[i / 2] % 16) as u8)
            },
    )
}

/// An encoding is well-formed hexadecimal and decodes back to its bytes.
pub proof fn lemma_hex_of_bytes_valid(b: Seq<u8>)
    ensures
        hex_valid(hex_of_bytes(b)),
        hex_bytes(hex_of_bytes(b)) == b,
{
    assert forall|i: int| 0 <= i < hex_of_bytes(b).len() implies is_hex_digit(
        hex_of_bytes(b)[i],
    ) by {
        if i % 2 == 0 {
            assert(0 <= i / 2 < b.len());
        }
    }
    assert forall|j: int| 0 <= j < b.len() implies hex_bytes(hex_of_bytes(b))[j] == b[j] by {
        let s = hex_of_bytes(b);
        assert(s[2 * j] == hex_digit_char((b[j] / 16) as u8));
        assert(s[2 * j + 1] == hex_digit_char((b[j] % 16) as u8));
        assert(hex_digit_value(hex_digit_char((b[j] / 16) as u8)) == b[j] / 16);
        assert(hex_digit_value(hex_digit_char((b[j] % 16) as u8)) == b[j] % 16);
        assert(b[j] / 16 * 16 + b[j] % 16 == b[j]) by {
            vstd::arithmetic::div_mod::lemma_fundamental_div_mod(b[j] as int, 16);
        }
    }
    assert(hex_bytes(hex_of_bytes(b)) =~= b);
}

/// A well-formed hexadecimal string never contains the credential
/// separator, or any byte that is not a digit.
pub proof fn lemma_hex_valid_excludes(s: Seq<u8>, c: u8)
    requires
        hex_valid(s),
        !is_hex_digit(c),
    ensures
        !s.contains(c),
{
    if s.contains(c) {
        let i = choose|i: int| 0 <= i < s.len() && s[i] == c;
        assert(is_hex_digit(s[i]));
    }
}

/// Renders bytes as lowercase hexadecimal.
pub fn hex_encode(b: &Vec<u8>) -> (r: Vec<u8>)
    ensures
        r@ == hex_of_bytes(b@),
{
    let mut r: Vec<u8> = Vec::new();
    let mut i: usize = 0;
    while i < b.len()
        invariant
            i <= b.len(),
            r.len() == 2 * i,
            forall|j: int| 0 <= j < 2 * i ==> r@[j] == hex_of_bytes(b@)[j],
        decreases b.len() - i,
    {
        let hi = b[i] / 16;
        let lo = b[i] % 16;
        r.push(if hi < 10 {
            48 + hi
        } else {
            87 + hi
        });
        r.push(if lo < 10 {
            48 + lo
        } else {
            87 + lo
        });
        i += 1;
    }
    proof {
        assert(r@ =~= hex_of_bytes(b@));
    }
    r
}

/// Decides and evaluates one hexadecimal digit.
pub fn hex_digit(c: u8) -> (r: Option<u8>)
    ensures
        r is Some <==> is_hex_digit(c),
        r is Some ==> r->0 == hex_digit_value(c),
{
    if 48 <= c && c <= 57 {
        Some(c - 48)
    } else if 97 <= c && c <= 102 {
        Some(c - 87)
    } else if 65 <= c && c <= 70 {
        Some(c - 55)
    } else {
        None
    }
}

/// Decodes a hexadecimal string into bytes. Returns `None` exactly on
/// malformed input: odd length or a non-hexadecimal byte.
pub fn hex_decode(s: &Vec<u8>) -> (r: Option<Vec<u8>>)
    ensures
        r is Some <==> hex_valid(s@),
        r is Some ==> r->0@ == hex_bytes(s@),
{
    if s.len() % 2 != 0 {
        return None;
    }
    let mut out: Vec<u8> = Vec::new();
    let mut i: usize = 0;
    while i < s.len()
        invariant
            i <= s.len(),
            i % 2 == 0,
            s.len() % 2 == 0,
            out.len() == i / 2,
            forall|j: int| 0 <= j < i ==> is_hex_digit(s@[j]),
            forall|j: int|
                0 <= j < i / 2 ==> out@[j] == (hex_digit_value(s@[2 * j]) * 16 + hex_digit_value(
                    s@[2 * j + 1],
                )) as u8,
        decreases s.len() - i,
    {
        let hi = match hex_digit(s[i]) {
            Some(v) => v,
            None => {
                return None;
            },
        };
        let lo = match hex_digit(s[i + 1]) {
            Some(v) => v,
            None => {
                return None;
            },
        };
        out.push(hi * 16 + lo);
        i += 2;
    }
    proof {
        assert(out@ =~= hex_bytes(s@));
    }
    Some(out)
}

} // verus!

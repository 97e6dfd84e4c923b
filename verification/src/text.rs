//! Text utilities of the embedding layer: the embedded-null scan that guards
//! every string handed to the engine's C interface, and the decimal and
//! hexadecimal rendering used by diagnostic messages.

use vstd::prelude::*;
use vstd::string::*;

verus! {

/// True when `s` holds an embedded null character, which the engine's
/// null-terminated C strings cannot carry.
pub open spec fn contains_nul(s: Seq<char>) -> bool {
    exists|i: int| 0 <= i < s.len() && s[i] == '\0'
}

/// Position of the first null character of `s` (meaningful only when
/// `contains_nul(s)` holds).
pub open spec fn first_nul(s: Seq<char>) -> int
    decreases s.len(),
{
    if s.len() == 0 {
        0
    } else if s[0] == '\0' {
        0
    } else {
        1 + first_nul(s.drop_first())
    }
}

proof fn lemma_first_nul_at(s: Seq<char>, i: int)
    requires
        0 <= i < s.len(),
        s[i] == '\0',
        forall|j: int| 0 <= j < i ==> s[j] != '\0',
    ensures
        first_nul(s) == i,
    decreases i,
{
    if i > 0 {
        assert(forall|j: int| 0 <= j < i - 1 ==> s.drop_first()[j] == s[j + 1]);
        lemma_first_nul_at(s.drop_first(), i - 1);
    }
}

/// Scan for an embedded null character; `Some` carries the position of the
/// first one.
pub fn find_nul(s: &str) -> (r: Option<usize>)
    ensures
        match r {
            Some(i) => contains_nul(s@) && i == first_nul(s@),
            None => !contains_nul(s@),
        },
{
    let n = s.unicode_len();
    let mut i: usize = 0;
    while i < n
        invariant
            i <= n,
            n == s@.len(),
            forall|j: int| 0 <= j < i ==> s@[j] != '\0',
        decreases n - i,
    {
        if s.get_char(i) == '\0' {
            proof {
                lemma_first_nul_at(s@, i as int);
            }
            return Some(i);
        }
        i = i + 1;
    }
    None
}

/// The character for the digit value `d`, lower case, up to base sixteen.
pub open spec fn digit_char(d: nat) -> char {
    if d == 0 {
        '0'
    } else if d == 1 {
        '1'
    } else if d == 2 {
        '2'
    } else if d == 3 {
        '3'
    } else if d == 4 {
        '4'
    } else if d == 5 {
        '5'
    } else if d == 6 {
        '6'
    } else if d == 7 {
        '7'
    } else if d == 8 {
        '8'
    } else if d == 9 {
        '9'
    } else if d == 10 {
        'a'
    } else if d == 11 {
        'b'
    } else if d == 12 {
        'c'
    } else if d == 13 {
        'd'
    } else if d == 14 {
        'e'
    } else {
        'f'
    }
}

/// Hexadecimal rendering of `n`, most significant digit first, no leading
/// zeroes.
pub open spec fn hex_digits(n: nat) -> Seq<char>
    decreases n,
{
    if n < 16 {
        seq![digit_char(n)]
    } else {
        hex_digits(n / 16).push(digit_char(n % 16))
    }
}

/// Decimal rendering of `n`, most significant digit first, no leading zeroes.
pub open spec fn dec_digits(n: nat) -> Seq<char>
    decreases n,
{
    if n < 10 {
        seq![digit_char(n)]
    } else {
        dec_digits(n / 10).push(digit_char(n % 10))
    }
}

/// Decimal rendering of a signed value: a leading minus sign for a negative
/// one.
pub open spec fn int_chars(v: int) -> Seq<char> {
    if v >= 0 {
        dec_digits(v as nat)
    } else {
        seq!['-'] + dec_digits((-v) as nat)
    }
}

fn digit_str(d: u8) -> (r: &'static str)
    requires
        d < 16,
    ensures
        r@ == seq![digit_char(d as nat)],
{
    proof {
        reveal_strlit("0");
        reveal_strlit("1");
        reveal_strlit("2");
        reveal_strlit("3");
        reveal_strlit("4");
        reveal_strlit("5");
        reveal_strlit("6");
        reveal_strlit("7");
        reveal_strlit("8");
        reveal_strlit("9");
        reveal_strlit("a");
        reveal_strlit("b");
        reveal_strlit("c");
        reveal_strlit("d");
        reveal_strlit("e");
        reveal_strlit("f");
    }
    let r: &'static str = if d == 0 {
        "0"
    } else if d == 1 {
        "1"
    } else if d == 2 {
        "2"
    } else if d == 3 {
        "3"
    } else if d == 4 {
        "4"
    } else if d == 5 {
        "5"
    } else if d == 6 {
        "6"
    } else if d == 7 {
        "7"
    } else if d == 8 {
        "8"
    } else if d == 9 {
        "9"
    } else if d == 10 {
        "a"
    } else if d == 11 {
        "b"
    } else if d == 12 {
        "c"
    } else if d == 13 {
        "d"
    } else if d == 14 {
        "e"
    } else {
        "f"
    };
    proof {
        assert(r@ =~= seq![digit_char(d as nat)]);
    }
    r
}

/// Render `n` in lower-case hexadecimal.
pub fn hex_string(n: u32) -> (r: String)
    ensures
        r@ == hex_digits(n as nat),
    decreases n,
{
    if n < 16 {
        String::from_str(digit_str(n as u8))
    } else {
        let mut r = hex_string(n / 16);
        r.append(digit_str((n % 16) as u8));
        proof {
            assert(r@ =~= hex_digits(n as nat));
        }
        r
    }
}

/// Render `n` in decimal.
pub fn dec_string(n: u64) -> (r: String)
    ensures
        r@ == dec_digits(n as nat),
    decreases n,
{
    if n < 10 {
        String::from_str(digit_str(n as u8))
    } else {
        let mut r = dec_string(n / 10);
        r.append(digit_str((n % 10) as u8));
        proof {
            assert(r@ =~= dec_digits(n as nat));
        }
        r
    }
}

/// The diagnostic for a raw type tag outside the handled set, found at the
/// caller-given stack position `idx`.
pub open spec fn unknown_tag_message(tag: u32, idx: int) -> Seq<char> {
    "VM stack contains an unknown type 0x"@ + hex_digits(tag as nat) + " at offset "@ + int_chars(
        idx,
    )
}

/// Build the diagnostic text for a raw type tag outside the handled set.
pub fn unknown_tag_text(tag: u32, idx: i64) -> (r: String)
    ensures
        r@ == unknown_tag_message(tag, idx as int),
{
    let mut r = String::from_str("VM stack contains an unknown type 0x");
    let hex = hex_string(tag);
    r.append(hex.as_str());
    r.append(" at offset ");
    let offset = int_string(idx);
    r.append(offset.as_str());
    proof {
        assert(r@ =~= unknown_tag_message(tag, idx as int));
    }
    r
}

/// Render a signed value in decimal.
pub fn int_string(v: i64) -> (r: String)
    ensures
        r@ == int_chars(v as int),
{
    proof {
        reveal_strlit("-");
    }
    if v >= 0 {
        dec_string(v as u64)
    } else {
        let mag: u64 = (-(v as i128)) as u64;
        let mut r = String::from_str("-");
        let digits = dec_string(mag);
        r.append(digits.as_str());
        proof {
            assert(r@ =~= int_chars(v as int));
        }
        r
    }
}

} // verus!

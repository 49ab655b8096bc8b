//! Text helpers: equality of string slices, concatenation, decimal rendering and decoding of bytes.

use vstd::prelude::*;
use vstd::string::*;
use vstd::utf8::*;

verus! {

/// The decimal digit `d`, for `d` below ten.
pub open spec fn digit(d: nat) -> char {
    if d == 0 {
        '0'
    } else if d == 1 {
        '1'
    } else if d == 2 {
        '2'
    } else if d == 3 {
        '3'
    } else if d == 4 {
        '4'
    } else if d == 5 {
        '5'
    } else if d == 6 {
        '6'
    } else if d == 7 {
        '7'
    } else if d == 8 {
        '8'
    } else {
        '9'
    }
}

/// The decimal digits of `n`, without leading zeros.
pub open spec fn decimal(n: nat) -> Seq<char>
    decreases n,
{
    if n < 10 {
        seq![digit(n)]
    } else {
        decimal(n / 10).push(digit(n % 10))
    }
}

/// Ten to the power of `k`.
spec fn ten_to(k: nat) -> nat
    decreases k,
{
    if k == 0 {
        1
    } else {
        10 * ten_to((k - 1) as nat)
    }
}

proof fn lemma_digits(n: nat, k: nat)
    requires
        n < ten_to(k),
        k > 0,
    ensures
        decimal(n).len() <= k,
    decreases k,
{
    if n >= 10 {
        assert(ten_to(1) == 10) by {
            reveal_with_fuel(ten_to, 2);
        }
        assert(n / 10 < ten_to((k - 1) as nat));
        lemma_digits(n / 10, (k - 1) as nat);
    }
}

/// An integer of 128 bits has at most 39 decimal digits.
pub proof fn lemma_decimal_is_short(n: u128)
    ensures
        decimal(n as nat).len() <= 39,
{
    reveal_with_fuel(ten_to, 40);
    lemma_digits(n as nat, 39);
}

fn digit_text(d: u128) -> (text: &'static str)
    requires
        d < 10,
    ensures
        text@ == seq![digit(d as nat)],
{
    proof {
        reveal_strlit("0");
        reveal_strlit("1");
        reveal_strlit("2");
        reveal_strlit("3");
        reveal_strlit("4");
        reveal_strlit("5");
        reveal_strlit("6");
        reveal_strlit("7");
        reveal_strlit("8");
        reveal_strlit("9");
    }
    let text = if d == 0 {
        "0"
    } else if d == 1 {
        "1"
    } else if d == 2 {
        "2"
    } else if d == 3 {
        "3"
    } else if d == 4 {
        "4"
    } else if d == 5 {
        "5"
    } else if d == 6 {
        "6"
    } else if d == 7 {
        "7"
    } else if d == 8 {
        "8"
    } else {
        "9"
    };
    assert(text@ =~= seq![digit(d as nat)]);
    text
}

/// Renders an unsigned integer in decimal.
pub fn decimal_text(n: u128) -> (text: String)
    ensures
        text@ == decimal(n as nat),
    decreases n,
{
    if n < 10 {
        digit_text(n).to_owned()
    } else {
        let mut text = decimal_text(n / 10);
        text.append(digit_text(n % 10));
        assert(text@ =~= decimal(n as nat));
        text
    }
}

/// Whether two string slices hold the same characters.
pub fn same_text(left: &str, right: &str) -> (same: bool)
    ensures
        same == (left@ == right@),
{
    let a = left.as_bytes();
    let b = right.as_bytes();
    if a.len() != b.len() {
        return false;
    }
    let mut i: usize = 0;
    while i < a.len()
        invariant
            a@ == left.spec_bytes(),
            b@ == right.spec_bytes(),
            a.len() == b.len(),
            i <= a.len(),
            forall|j: int| 0 <= j < i ==> a[j] == b[j],
        decreases a.len() - i,
    {
        if a[i] != b[i] {
            return false;
        }
        i = i + 1;
    }
    proof {
        assert(a@ =~= b@);
        encode_utf8_decode_utf8(left@);
        encode_utf8_decode_utf8(right@);
    }
    true
}

/// `left` followed by `right`.
pub fn joined(left: &str, right: &str) -> (text: String)
    ensures
        text@ == left@ + right@,
{
    let mut text = left.to_owned();
    text.append(right);
    text
}

/// `first`, `second` and `third` in a row.
pub fn joined3(first: &str, second: &str, third: &str) -> (text: String)
    ensures
        text@ == first@ + second@ + third@,
{
    let mut text = first.to_owned();
    text.append(second);
    text.append(third);
    text
}

/// Whether `text` starts with `prefix`, by bytes.
pub open spec fn has_prefix(text: Seq<char>, prefix: Seq<char>) -> bool {
    encode_utf8(prefix).len() <= encode_utf8(text).len() && encode_utf8(text).subrange(
        0,
        encode_utf8(prefix).len() as int,
    ) == encode_utf8(prefix)
}

/// Tests whether `text` starts with `prefix`.
pub fn starts_with(text: &str, prefix: &str) -> (r: bool)
    ensures
        r == has_prefix(text@, prefix@),
{
    let a = text.as_bytes();
    let b = prefix.as_bytes();
    if a.len() < b.len() {
        return false;
    }
    let mut i: usize = 0;
    while i < b.len()
        invariant
            a@ == text.spec_bytes(),
            b@ == prefix.spec_bytes(),
            b.len() <= a.len(),
            i <= b.len(),
            forall|j: int| 0 <= j < i ==> a[j] == b[j],
        decreases b.len() - i,
    {
        if a[i] != b[i] {
            assert(a@.subrange(0, b@.len() as int)[i as int] != b@[i as int]);
            return false;
        }
        i = i + 1;
    }
    assert(a@.subrange(0, b@.len() as int) =~= b@);
    true
}

/// The text of the error with which `std::str::from_utf8` refuses bytes.
pub uninterp spec fn utf8_fault(bytes: Seq<u8>) -> Seq<char>;

/// `std::str::from_utf8`: a text with the given bytes exactly where they are valid UTF-8, and else an
/// error, here as its text.
#[verifier::external_body]
pub(crate) fn text_of(bytes: &Vec<u8>) -> (r: Result<&str, String>)
    ensures
        match r {
            Ok(text) => valid_utf8(bytes@) && text.spec_bytes() == bytes@,
            Err(error) => !valid_utf8(bytes@) && error@ == utf8_fault(bytes@),
        },
{
    std::str::from_utf8(bytes).map_err(|error| error.to_string())
}

} // verus!

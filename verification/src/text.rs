//! Decimal digits: what a run of digits denotes, and how a number is written.

use vstd::prelude::*;
use vstd::string::*;

verus! {

/// True for the ten ASCII decimal digits.
pub open spec fn is_digit(c: char) -> bool {
    '0' <= c && c <= '9'
}

/// The number that a decimal digit stands for.
pub open spec fn digit_value(c: char) -> nat
    recommends
        is_digit(c),
{
    (c as int - 48) as nat
}

/// The decimal digit that stands for `d`.
pub open spec fn digit_char(d: nat) -> char
    recommends
        d < 10,
{
    (d + 48) as char
}

/// True when every character of `s` is a decimal digit.
pub open spec fn all_digits(s: Seq<char>) -> bool {
    forall|i: int| 0 <= i < s.len() ==> is_digit(#[trigger] s[i])
}

/// The number that a run of decimal digits denotes; the empty run denotes zero.
pub open spec fn digits_value(s: Seq<char>) -> nat
    decreases s.len(),
{
    if s.len() == 0 {
        0
    } else {
        digits_value(s.drop_last()) * 10 + digit_value(s.last())
    }
}

/// `n` in decimal, without leading zeros.
pub open spec fn nat_text(n: nat) -> Seq<char>
    decreases n,
{
    if n < 10 {
        seq![digit_char(n)]
    } else {
        nat_text(n / 10).push(digit_char(n % 10))
    }
}

/// The last `width` decimal digits of `n`, with leading zeros.
pub open spec fn padded_text(n: nat, width: nat) -> Seq<char>
    decreases width,
{
    if width == 0 {
        Seq::empty()
    } else {
        padded_text(n / 10, (width - 1) as nat).push(digit_char(n % 10))
    }
}

/// Ten to the power `n`.
pub open spec fn pow10(n: nat) -> nat
    decreases n,
{
    if n == 0 {
        1
    } else {
        10 * pow10((n - 1) as nat)
    }
}

/// The one-character string of a decimal digit.
pub fn digit_str(d: u8) -> (r: &'static str)
    requires
        d < 10,
    ensures
        r@ == seq![digit_char(d as nat)],
{
    proof {
        reveal_strlit("0");
        reveal_strlit("1");
        reveal_strlit("2");
        reveal_strlit("3");
        reveal_strlit("4");
        reveal_strlit("5");
        reveal_strlit("6");
        reveal_strlit("7");
        reveal_strlit("8");
        reveal_strlit("9");
    }
    match d {
        0 => "0",
        1 => "1",
        2 => "2",
        3 => "3",
        4 => "4",
        5 => "5",
        6 => "6",
        7 => "7",
        8 => "8",
        _ => "9",
    }
}

/// Writes `n` in decimal, without leading zeros.
pub fn nat_string(n: u128) -> (r: String)
    ensures
        r@ == nat_text(n as nat),
    decreases n,
{
    if n < 10 {
        String::from_str(digit_str(n as u8))
    } else {
        let mut s = nat_string(n / 10);
        s.append(digit_str((n % 10) as u8));
        s
    }
}

/// Writes the last `width` decimal digits of `n`, with leading zeros.
pub fn padded_string(n: u128, width: u8) -> (r: String)
    ensures
        r@ == padded_text(n as nat, width as nat),
    decreases width,
{
    if width == 0 {
        String::new()
    } else {
        let mut s = padded_string(n / 10, width - 1);
        s.append(digit_str((n % 10) as u8));
        s
    }
}

/// A character is a number from zero up to the last code point.
pub proof fn lemma_char_range(c: char)
    ensures
        0 <= c as int <= 0x10ffff,
{
}

/// The bytes of a string that holds ASCII only, one byte per character.
pub fn ascii_bytes(text: &str) -> (r: Option<&[u8]>)
    ensures
        match r {
            Some(bytes) => {
                &&& bytes@.len() == text@.len()
                &&& forall|i: int|
                    0 <= i < text@.len() ==> (#[trigger] bytes@[i]) as int == text@[i] as int
            },
            None => exists|i: int| 0 <= i < text@.len() && (#[trigger] text@[i]) as int >= 128,
        },
{
    if text.is_ascii() {
        let bytes = text.as_bytes();
        proof {
            is_ascii_spec_bytes(text);
            vstd::utf8::is_ascii_chars_nat_bound(text@);
            assert forall|i: int| 0 <= i < text@.len() implies (#[trigger] bytes@[i]) as int
                == text@[i] as int by {
                lemma_char_range(text@[i]);
            }
        }
        Some(bytes)
    } else {
        proof {
            let i = choose|i: int|
                0 <= i < text@.len() && !('\0' <= #[trigger] text@[i] <= '\u{7f}');
            lemma_char_range(text@[i]);
        }
        None
    }
}

/// What a count field denotes: an optional `+`, then one or more decimal
/// digits, with a value that fits 32 bits. Anything else denotes nothing.
pub open spec fn count_of(text: Seq<char>) -> Option<u32> {
    let body = if text.len() > 0 && text[0] == '+' {
        text.skip(1)
    } else {
        text
    };
    if body.len() > 0 && all_digits(body) && digits_value(body) <= u32::MAX {
        Some(digits_value(body) as u32)
    } else {
        None
    }
}

/// Reads the digits of `bytes` from `from` on, up to the first byte that is
/// no digit, and appends them to the digits `seen` that `acc` stands for.
/// Returns where it stopped, and the value of all digits read so far unless
/// it passed `u64::MAX`.
pub(crate) fn scan_digits(
    bytes: &[u8],
    from: usize,
    acc: Option<u64>,
    Ghost(text): Ghost<Seq<char>>,
    Ghost(seen): Ghost<Seq<char>>,
) -> (r: (usize, Option<u64>))
    requires
        from <= bytes@.len(),
        bytes@.len() == text.len(),
        forall|i: int| 0 <= i < text.len() ==> (#[trigger] bytes@[i]) as int == text[i] as int,
        match acc {
            Some(v) => v == digits_value(seen),
            None => digits_value(seen) > u64::MAX,
        },
    ensures
        from <= r.0 <= bytes@.len(),
        all_digits(text.subrange(from as int, r.0 as int)),
        r.0 < bytes@.len() ==> !is_digit(text[r.0 as int]),
        match r.1 {
            Some(v) => v == digits_value(seen + text.subrange(from as int, r.0 as int)),
            None => digits_value(seen + text.subrange(from as int, r.0 as int)) > u64::MAX,
        },
{
    let mut i: usize = from;
    let mut value: Option<u64> = acc;
    while i < bytes.len() && bytes[i] >= 48 && bytes[i] <= 57
        invariant
            from <= i <= bytes@.len(),
            bytes@.len() == text.len(),
            forall|k: int| 0 <= k < text.len() ==> (#[trigger] bytes@[k]) as int == text[k] as int,
            all_digits(text.subrange(from as int, i as int)),
            match value {
                Some(v) => v == digits_value(seen + text.subrange(from as int, i as int)),
                None => digits_value(seen + text.subrange(from as int, i as int)) > u64::MAX,
            },
        decreases bytes@.len() - i,
    {
        let d: u64 = (bytes[i] - 48) as u64;
        proof {
            let before = seen + text.subrange(from as int, i as int);
            let after = seen + text.subrange(from as int, i + 1);
            assert(after.drop_last() =~= before);
        }
        value = match value {
            Some(v) => if v <= (u64::MAX - d) / 10 {
                Some(v * 10 + d)
            } else {
                None
            },
            None => None,
        };
        i = i + 1;
    }
    (i, value)
}

/// Reads a count field.
pub fn parse_count(text: &str) -> (r: Option<u32>)
    ensures
        r == count_of(text@),
{
    let ghost t = text@;
    match ascii_bytes(text) {
        None => {
            proof {
                let i = choose|i: int| 0 <= i < t.len() && (#[trigger] t[i]) as int >= 128;
                if i > 0 {
                    assert(t.skip(1)[i - 1] == t[i]);
                }
            }
            None
        },
        Some(bytes) => {
            let from: usize = if bytes.len() > 0 && bytes[0] == 43 {
                1
            } else {
                0
            };
            let (end, value) = scan_digits(bytes, from, Some(0), Ghost(t), Ghost(Seq::empty()));
            proof {
                assert(Seq::<char>::empty() + t.subrange(from as int, end as int) =~= t.subrange(
                    from as int,
                    end as int,
                ));
                if end < bytes.len() {
                    assert(t.skip(from as int)[end - from] == t[end as int]);
                }
                if from == 0 {
                    assert(t.skip(0) =~= t);
                }
            }
            if end < bytes.len() || end == from {
                return None;
            }
            match value {
                Some(v) => if v <= 0xffff_ffff {
                    Some(v as u32)
                } else {
                    None
                },
                None => None,
            }
        },
    }
}

} // verus!

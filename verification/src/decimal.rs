//! Decimal amounts: how they are read, divided, rounded and written.
//!
//! Amounts are exact: a sign, a whole number of units and the number of
//! decimal places that the units are counted in. Division rounds to the
//! nearest unit of the result, a tie away from zero.

use crate::text::{
    all_digits, ascii_bytes, digits_value, is_digit, nat_string, nat_text, padded_string,
    padded_text, pow10, scan_digits,
};
use vstd::prelude::*;
use vstd::string::*;

verus! {

/// The most decimal places that an amount may carry.
pub const MAX_SCALE: u8 = 18;

/// A signed decimal amount: `units` divided by ten to the power `scale`.
#[derive(Clone, Copy, Debug, PartialEq, Eq)]
pub struct Decimal {
    pub negative: bool,
    pub units: u64,
    pub scale: u8,
}

/// `num / den`, rounded to the nearest whole number, a tie upwards.
pub open spec fn round_div(num: nat, den: nat) -> nat
    recommends
        den > 0,
{
    (2 * num + den) / (2 * den)
}

/// What amount a text denotes: an optional sign, then digits with at most
/// one point among them. At least one digit is needed, at most `MAX_SCALE`
/// digits may follow the point, and the digits, read without the point, must
/// fit 64 bits. Anything else denotes nothing.
pub open spec fn decimal_of(text: Seq<char>) -> Option<Decimal> {
    let signed = text.len() > 0 && (text[0] == '-' || text[0] == '+');
    let body = if signed {
        text.skip(1)
    } else {
        text
    };
    let whole = match body.index_of_first('.') {
        Some(p) => body.take(p),
        None => body,
    };
    let frac = match body.index_of_first('.') {
        Some(p) => body.skip(p + 1),
        None => Seq::empty(),
    };
    if whole.len() + frac.len() > 0 && all_digits(whole) && all_digits(frac) && frac.len()
        <= MAX_SCALE && digits_value(whole + frac) <= u64::MAX {
        Some(
            Decimal {
                negative: signed && text[0] == '-',
                units: digits_value(whole + frac) as u64,
                scale: frac.len() as u8,
            },
        )
    } else {
        None
    }
}

/// An amount in fixed notation with `places` decimals, where `amount` counts
/// units of ten to the power minus `places`. Zero carries no sign, and
/// without decimals there is no point.
pub open spec fn fixed_text(negative: bool, amount: nat, places: nat) -> Seq<char> {
    (if negative && amount > 0 {
        seq!['-']
    } else {
        Seq::empty()
    }) + nat_text(amount / pow10(places)) + (if places > 0 {
        seq!['.'] + padded_text(amount % pow10(places), places)
    } else {
        Seq::empty()
    })
}

/// The powers of ten that bound the arithmetic on amounts.
pub proof fn lemma_pow10_values()
    ensures
        pow10(18) == 1_000_000_000_000_000_000,
        pow10(20) == 100_000_000_000_000_000_000,
{
    reveal_with_fuel(pow10, 21);
}

/// Powers of ten grow with the exponent.
pub proof fn lemma_pow10_monotonic(a: nat, b: nat)
    requires
        a <= b,
    ensures
        pow10(a) <= pow10(b),
        pow10(a) >= 1,
    decreases b,
{
    if a < b {
        lemma_pow10_monotonic(a, (b - 1) as nat);
    } else if a > 0 {
        lemma_pow10_monotonic((a - 1) as nat, (b - 1) as nat);
    }
}

/// Ten to the power `n`, for the exponents that amounts need.
pub fn pow10_exec(n: u8) -> (r: u128)
    requires
        n <= 20,
    ensures
        r == pow10(n as nat),
        1 <= r <= 100_000_000_000_000_000_000,
{
    let mut r: u128 = 1;
    let mut i: u8 = 0;
    proof {
        lemma_pow10_values();
    }
    while i < n
        invariant
            i <= n <= 20,
            r == pow10(i as nat),
            pow10(20) == 100_000_000_000_000_000_000,
        decreases n - i,
    {
        proof {
            lemma_pow10_monotonic((i + 1) as nat, 20);
        }
        r = r * 10;
        i = i + 1;
    }
    proof {
        lemma_pow10_monotonic(n as nat, 20);
    }
    r
}

impl Decimal {
    /// True when the amount carries no more places than `MAX_SCALE`.
    pub open spec fn wf(&self) -> bool {
        self.scale <= MAX_SCALE
    }

    /// The size of this amount divided by `divisor`, counted in units of ten
    /// to the power minus `places` and rounded to the nearest unit, a tie
    /// away from zero.
    pub open spec fn share(&self, divisor: nat, places: nat) -> nat {
        round_div(self.units as nat * pow10(places), pow10(self.scale as nat) * divisor)
    }

    /// Reads an amount.
    pub fn parse(text: &str) -> (r: Option<Decimal>)
        ensures
            r == decimal_of(text@),
            r matches Some(d) ==> d.wf(),
    {
        let ghost t = text@;
        let bytes = match ascii_bytes(text) {
            Some(bytes) => bytes,
            None => {
                proof {
                    lemma_non_ascii_denotes_nothing(t);
                }
                return None;
            },
        };
        let signed = bytes.len() > 0 && (bytes[0] == 45 || bytes[0] == 43);
        let negative = signed && bytes[0] == 45;
        let from: usize = if signed {
            1
        } else {
            0
        };
        let ghost body = t.skip(from as int);
        proof {
            assert(signed == (t.len() > 0 && (t[0] == '-' || t[0] == '+')));
            assert(negative == (signed && t[0] == '-'));
            if !signed {
                assert(body =~= t);
            }
        }
        let (p, whole_value) = scan_digits(bytes, from, Some(0), Ghost(t), Ghost(Seq::empty()));
        let ghost whole = t.subrange(from as int, p as int);
        proof {
            assert(Seq::<char>::empty() + whole =~= whole);
            assert(whole =~= body.take(p - from));
            body.index_of_first_ensures('.');
            assert forall|j: int| 0 <= j < p - from implies body[j] != '.' by {
                assert(is_digit(whole[j]));
            }
        }
        if p == bytes.len() {
            proof {
                assert(body =~= whole);
                assert(whole + Seq::<char>::empty() =~= whole);
                assert(!body.contains('.'));
                assert(body.index_of_first('.') is None);
            }
            if p == from {
                return None;
            }
            return match whole_value {
                Some(units) => Some(Decimal { negative, units, scale: 0 }),
                None => None,
            };
        }
        if bytes[p] != 46 {
            proof {
                // the first point, if any, lies beyond a character that is no digit
                let k = p - from;
                assert(body[k] == t[p as int]);
                assert(!is_digit(body[k]));
                match body.index_of_first('.') {
                    Some(q) => {
                        assert(q > k);
                        assert(body.take(q)[k] == body[k]);
                    },
                    None => {},
                }
            }
            return None;
        }
        proof {
            let k = p - from;
            assert(body[k] == '.');
            assert(body.contains('.'));
            assert(body.index_of_first('.') == Some(k));
        }
        let (q, value) = scan_digits(bytes, p + 1, whole_value, Ghost(t), Ghost(whole));
        let ghost frac = body.skip(p - from + 1);
        proof {
            assert(t.subrange(p + 1, q as int) =~= frac.take(q - p - 1));
            if q < bytes.len() {
                assert(frac[q - p - 1] == t[q as int]);
            } else {
                assert(frac =~= t.subrange(p + 1, q as int));
            }
        }
        if q < bytes.len() || q - from == 1 || q - p - 1 > MAX_SCALE as usize {
            return None;
        }
        match value {
            Some(units) => Some(Decimal { negative, units, scale: (q - p - 1) as u8 }),
            None => None,
        }
    }

    /// Writes this amount divided by `divisor` in fixed notation with
    /// `places` decimals, rounded to the nearest, a tie away from zero.
    pub fn share_text(&self, divisor: u64, places: u8) -> (r: String)
        requires
            self.wf(),
            divisor > 0,
            places <= MAX_SCALE,
        ensures
            r@ == fixed_text(self.negative, self.share(divisor as nat, places as nat), places as nat),
    {
        let unit = pow10_exec(places);
        let grain = pow10_exec(self.scale);
        proof {
            lemma_pow10_monotonic(places as nat, 18);
            lemma_pow10_monotonic(self.scale as nat, 18);
            lemma_pow10_values();
            assert(self.units as nat * unit as nat <= 0xffff_ffff_ffff_ffff
                * 1_000_000_000_000_000_000) by (nonlinear_arith)
                requires
                    self.units <= 0xffff_ffff_ffff_ffff,
                    unit <= 1_000_000_000_000_000_000,
            ;
            assert(grain as nat * divisor as nat <= 1_000_000_000_000_000_000
                * 0xffff_ffff_ffff_ffff) by (nonlinear_arith)
                requires
                    grain <= 1_000_000_000_000_000_000,
                    divisor <= 0xffff_ffff_ffff_ffff,
            ;
            assert(grain as nat * divisor as nat >= 1) by (nonlinear_arith)
                requires
                    grain >= 1,
                    divisor >= 1,
            ;
        }
        let num: u128 = (self.units as u128) * unit;
        let den: u128 = grain * (divisor as u128);
        let amount: u128 = (2 * num + den) / (2 * den);
        let mut out = if self.negative && amount > 0 {
            String::from_str("-")
        } else {
            String::new()
        };
        proof {
            reveal_strlit("-");
            reveal_strlit(".");
            assert("-"@ =~= seq!['-']);
            assert("."@ =~= seq!['.']);
        }
        let whole = nat_string(amount / unit);
        out.append(whole.as_str());
        if places > 0 {
            let frac = padded_string(amount % unit, places);
            let ghost before = out@;
            out.append(".");
            out.append(frac.as_str());
            assert(out@ =~= before + (seq!['.'] + frac@));
        } else {
            assert(out@ =~= out@ + Seq::<char>::empty());
        }
        out
    }
}

/// A text with a character beyond ASCII denotes no amount.
proof fn lemma_non_ascii_denotes_nothing(t: Seq<char>)
    requires
        exists|i: int| 0 <= i < t.len() && (#[trigger] t[i]) as int >= 128,
    ensures
        decimal_of(t) is None,
{
    let i = choose|i: int| 0 <= i < t.len() && (#[trigger] t[i]) as int >= 128;
    let signed = t.len() > 0 && (t[0] == '-' || t[0] == '+');
    let body = if signed {
        t.skip(1)
    } else {
        t
    };
    let k = if signed {
        i - 1
    } else {
        i
    };
    assert(body[k] == t[i]);
    body.index_of_first_ensures('.');
    match body.index_of_first('.') {
        Some(p) => {
            if k < p {
                assert(body.take(p)[k] == body[k]);
            } else {
                assert(body.skip(p + 1)[k - p - 1] == body[k]);
            }
        },
        None => {},
    }
}

} // verus!

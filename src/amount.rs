use vstd::prelude::*;

verus! {

/// Number of amount units in one whole currency unit: four fractional digits.
pub const PRICE_SCALAR: i64 = 10000;

/// A fixed-point amount of currency, stored as a count of ten-thousandths.
#[derive(Debug, Clone, Copy, PartialEq, Eq, Structural, PartialOrd)]
pub struct Price(pub i64);

/// Error of a conversion into a `Price` from a value that is not finite or
/// that does not fit once scaled.
#[derive(Debug, Clone, Copy, PartialEq, Eq, Structural)]
pub struct Float2PriceError;

impl View for Price {
    type V = int;

    open spec fn view(&self) -> int {
        self.0 as int
    }
}

/// Whether `v` fits in the representation of an amount.
pub open spec fn in_range(v: int) -> bool {
    i64::MIN <= v <= i64::MAX
}

pub open spec fn abs_spec(v: int) -> int {
    if v < 0 {
        -v
    } else {
        v
    }
}

/// The character of decimal digit `d`.
pub open spec fn digit_char(d: int) -> char {
    if d == 0 {
        '0'
    } else if d == 1 {
        '1'
    } else if d == 2 {
        '2'
    } else if d == 3 {
        '3'
    } else if d == 4 {
        '4'
    } else if d == 5 {
        '5'
    } else if d == 6 {
        '6'
    } else if d == 7 {
        '7'
    } else if d == 8 {
        '8'
    } else {
        '9'
    }
}

/// Decimal digits of `n`, most significant first, without leading zeros.
pub open spec fn nat_digits(n: nat) -> Seq<char>
    decreases n,
{
    if n < 10 {
        seq![digit_char(n as int)]
    } else {
        nat_digits(n / 10).push(digit_char((n % 10) as int))
    }
}

/// The text of amount `v`: a minus sign when negative, the whole units, a
/// point and exactly four fractional digits.
pub open spec fn decimal_text(v: int) -> Seq<char> {
    let m = abs_spec(v);
    let f = m % 10000;
    (if v < 0 {
        seq!['-']
    } else {
        Seq::<char>::empty()
    }) + nat_digits((m / 10000) as nat) + seq![
        '.',
        digit_char(f / 1000),
        digit_char(f / 100 % 10),
        digit_char(f / 10 % 10),
        digit_char(f % 10),
    ]
}

fn digit_str(d: u64) -> (r: &'static str)
    requires
        d < 10,
    ensures
        r@ == seq![digit_char(d as int)],
{
    proof {
        reveal_strlit("0");
        reveal_strlit("1");
        reveal_strlit("2");
        reveal_strlit("3");
        reveal_strlit("4");
        reveal_strlit("5");
        reveal_strlit("6");
        reveal_strlit("7");
        reveal_strlit("8");
        reveal_strlit("9");
    }
    match d {
        0 => "0",
        1 => "1",
        2 => "2",
        3 => "3",
        4 => "4",
        5 => "5",
        6 => "6",
        7 => "7",
        8 => "8",
        _ => "9",
    }
}

fn push_digits(s: &mut String, n: u64)
    ensures
        final(s)@ == old(s)@ + nat_digits(n as nat),
    decreases n,
{
    if n >= 10 {
        push_digits(s, n / 10);
    }
    s.append(digit_str(n % 10));
}

impl Default for Price {
    fn default() -> (r: Price)
        ensures
            r@ == 0,
    {
        Price(0)
    }
}

impl Price {
    /// Replaces the amount by its magnitude.
    pub fn make_absolute(&mut self)
        requires
            old(self)@ != i64::MIN,
        ensures
            final(self)@ == abs_spec(old(self)@),
    {
        if self.0 < 0 {
            self.0 = -self.0;
        }
    }

    /// Adds `other` when the sum fits, and reports whether it did; on overflow
    /// the amount is left as it was.
    pub fn try_add(&mut self, other: Price) -> (r: bool)
        ensures
            r == in_range(old(self)@ + other@),
            r ==> final(self)@ == old(self)@ + other@,
            !r ==> *final(self) == *old(self),
    {
        match self.0.checked_add(other.0) {
            Some(val) => {
                self.0 = val;
                true
            },
            None => false,
        }
    }

    /// Subtracts `other` when the difference fits, and reports whether it did;
    /// on overflow the amount is left as it was.
    pub fn try_sub(&mut self, other: Price) -> (r: bool)
        ensures
            r == in_range(old(self)@ - other@),
            r ==> final(self)@ == old(self)@ - other@,
            !r ==> *final(self) == *old(self),
    {
        match self.0.checked_sub(other.0) {
            Some(val) => {
                self.0 = val;
                true
            },
            None => false,
        }
    }
    /// The amount as text with exactly four fractional digits, e.g.
    /// `-1.0500` for `Price(-10500)`.
    pub fn to_decimal_string(&self) -> (r: String)
        ensures
            r@ == decimal_text(self@),
    {
        let m: u64 = if self.0 < 0 {
            (-(self.0 + 1)) as u64 + 1
        } else {
            self.0 as u64
        };
        let f = m % 10000;
        let mut s = String::new();
        if self.0 < 0 {
            proof {
                reveal_strlit("-");
            }
            s.append("-");
        }
        push_digits(&mut s, m / 10000);
        proof {
            reveal_strlit(".");
        }
        s.append(".");
        s.append(digit_str(f / 1000));
        s.append(digit_str(f / 100 % 10));
        s.append(digit_str(f / 10 % 10));
        s.append(digit_str(f % 10));
        proof {
            assert(m as int == abs_spec(self@));
            assert(s@ =~= decimal_text(self@));
        }
        s
    }
}

} // verus!

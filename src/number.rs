use vstd::prelude::*;

verus! {

/// Largest number of fractional digits a `Decimal` may carry; `10^18` still
/// fits in a `u64`.
pub const MAX_SCALE: u32 = 18;

pub open spec fn pow10(n: nat) -> nat
    decreases n,
{
    if n == 0 {
        1
    } else {
        10 * pow10((n - 1) as nat)
    }
}

pub open spec fn digit_char(d: nat) -> char {
    if d == 0 {
        '0'
    } else if d == 1 {
        '1'
    } else if d == 2 {
        '2'
    } else if d == 3 {
        '3'
    } else if d == 4 {
        '4'
    } else if d == 5 {
        '5'
    } else if d == 6 {
        '6'
    } else if d == 7 {
        '7'
    } else if d == 8 {
        '8'
    } else {
        '9'
    }
}

/// Decimal digits of `n`, most significant first, without leading zeros.
pub open spec fn digits(n: nat) -> Seq<char>
    decreases n,
{
    if n < 10 {
        seq![digit_char(n)]
    } else {
        digits(n / 10).push(digit_char(n % 10))
    }
}

/// The last `w` decimal digits of `n`, with leading zeros.
pub open spec fn padded(n: nat, w: nat) -> Seq<char>
    decreases w,
{
    if w == 0 {
        Seq::empty()
    } else {
        padded(n / 10, (w - 1) as nat).push(digit_char(n % 10))
    }
}

/// Drops trailing zeros from a fraction of `s` digits whose value is `r`.
pub open spec fn trim_zeros(r: nat, s: nat) -> (nat, nat)
    decreases s,
{
    if s > 0 && r % 10 == 0 {
        trim_zeros(r / 10, (s - 1) as nat)
    } else {
        (r, s)
    }
}

pub open spec fn abs(i: int) -> nat {
    if i < 0 {
        (-i) as nat
    } else {
        i as nat
    }
}

/// The shortest text that denotes `units / 10^scale` exactly: a minus sign for
/// a negative value, the integer part, and a fractional part only where it is
/// not zero, without trailing zeros.
pub open spec fn decimal_text(units: int, scale: nat) -> Seq<char> {
    let a = abs(units);
    let q = a / pow10(scale);
    let f = trim_zeros(a % pow10(scale), scale);
    let sign = if units < 0 {
        seq!['-']
    } else {
        Seq::empty()
    };
    let frac = if f.1 == 0 {
        Seq::empty()
    } else {
        seq!['.'] + padded(f.0, f.1)
    };
    sign + digits(q) + frac
}

/// A decimal number `units / 10^scale`, as the scanner reads it.
#[derive(Debug, Clone, Copy)]
pub struct Decimal {
    units: i64,
    scale: u32,
}

impl Decimal {
    #[verifier::type_invariant]
    spec fn scale_fits(self) -> bool {
        self.scale <= MAX_SCALE
    }

    pub closed spec fn units_spec(self) -> int {
        self.units as int
    }

    pub closed spec fn scale_spec(self) -> nat {
        self.scale as nat
    }

    /// The decimal `units / 10^scale`; `None` where `scale` exceeds `MAX_SCALE`.
    pub fn new(units: i64, scale: u32) -> (r: Option<Decimal>)
        ensures
            scale <= MAX_SCALE <==> r is Some,
            r matches Some(d) ==> d.units_spec() == units && d.scale_spec() == scale,
    {
        if scale <= MAX_SCALE {
            Some(Decimal { units, scale })
        } else {
            None
        }
    }

    /// The whole number `n`.
    pub fn from_integer(n: i64) -> (r: Decimal)
        ensures
            r.units_spec() == n,
            r.scale_spec() == 0,
    {
        Decimal { units: n, scale: 0 }
    }

    pub fn units(&self) -> (r: i64)
        ensures
            r == self.units_spec(),
    {
        self.units
    }

    pub fn scale(&self) -> (r: u32)
        ensures
            r == self.scale_spec(),
            r <= MAX_SCALE,
    {
        proof {
            use_type_invariant(self);
        }
        self.scale
    }

    /// The canonical text of this number.
    pub fn to_text(&self) -> (r: String)
        ensures
            r@ == decimal_text(self.units_spec(), self.scale_spec()),
    {
        let s = self.scale();
        let p = pow10_exec(s);
        let a: u64 = if self.units < 0 {
            (-(self.units as i128)) as u64
        } else {
            self.units as u64
        };
        let q = a / p;
        let (fr, fs) = trim_exec(a % p, s);
        let mut out = String::new();
        if self.units < 0 {
            out.append("-");
            proof {
                reveal_strlit("-");
            }
        }
        push_digits(&mut out, q);
        if fs != 0 {
            out.append(".");
            proof {
                reveal_strlit(".");
            }
            push_padded(&mut out, fr, fs);
        }
        assert(out@ =~= decimal_text(self.units_spec(), self.scale_spec()));
        out
    }
}

proof fn lemma_pow10_positive(n: nat)
    ensures
        pow10(n) >= 1,
    decreases n,
{
    if n > 0 {
        lemma_pow10_positive((n - 1) as nat);
    }
}

proof fn lemma_pow10_bound(n: nat)
    requires
        n <= MAX_SCALE,
    ensures
        pow10(n) <= 1_000_000_000_000_000_000,
{
    reveal_with_fuel(pow10, 19);
    assert(pow10(18) == 1_000_000_000_000_000_000);
    lemma_pow10_monotone(n, 18);
}

proof fn lemma_pow10_monotone(a: nat, b: nat)
    requires
        a <= b,
    ensures
        pow10(a) <= pow10(b),
    decreases b,
{
    if a < b {
        lemma_pow10_monotone(a, (b - 1) as nat);
        lemma_pow10_positive((b - 1) as nat);
    }
}

pub(crate) fn pow10_exec(n: u32) -> (r: u64)
    requires
        n <= MAX_SCALE,
    ensures
        r == pow10(n as nat),
        1 <= r <= 1_000_000_000_000_000_000,
{
    let mut p: u64 = 1;
    let mut i: u32 = 0;
    while i < n
        invariant
            i <= n <= MAX_SCALE,
            p == pow10(i as nat),
        decreases n - i,
    {
        proof {
            lemma_pow10_bound((i + 1) as nat);
        }
        p = p * 10;
        i = i + 1;
    }
    proof {
        lemma_pow10_positive(n as nat);
        lemma_pow10_bound(n as nat);
    }
    p
}

fn trim_exec(r: u64, s: u32) -> (t: (u64, u32))
    ensures
        (t.0 as nat, t.1 as nat) == trim_zeros(r as nat, s as nat),
    decreases s,
{
    if s > 0 && r % 10 == 0 {
        trim_exec(r / 10, s - 1)
    } else {
        (r, s)
    }
}

fn digit_str(d: u64) -> (r: &'static str)
    requires
        d < 10,
    ensures
        r@ == seq![digit_char(d as nat)],
{
    proof {
        reveal_strlit("0");
        reveal_strlit("1");
        reveal_strlit("2");
        reveal_strlit("3");
        reveal_strlit("4");
        reveal_strlit("5");
        reveal_strlit("6");
        reveal_strlit("7");
        reveal_strlit("8");
        reveal_strlit("9");
    }
    let r = if d == 0 {
        "0"
    } else if d == 1 {
        "1"
    } else if d == 2 {
        "2"
    } else if d == 3 {
        "3"
    } else if d == 4 {
        "4"
    } else if d == 5 {
        "5"
    } else if d == 6 {
        "6"
    } else if d == 7 {
        "7"
    } else if d == 8 {
        "8"
    } else {
        "9"
    };
    assert(r@ =~= seq![digit_char(d as nat)]);
    r
}

fn push_digits(out: &mut String, n: u64)
    ensures
        final(out)@ == old(out)@ + digits(n as nat),
    decreases n,
{
    if n >= 10 {
        push_digits(out, n / 10);
    }
    out.append(digit_str(n % 10));
    assert(final(out)@ =~= old(out)@ + digits(n as nat));
}

fn push_padded(out: &mut String, n: u64, w: u32)
    ensures
        final(out)@ == old(out)@ + padded(n as nat, w as nat),
    decreases w,
{
    if w > 0 {
        push_padded(out, n / 10, w - 1);
        out.append(digit_str(n % 10));
    }
    assert(final(out)@ =~= old(out)@ + padded(n as nat, w as nat));
}

} // verus!

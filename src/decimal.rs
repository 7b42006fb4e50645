//! Exact decimal numbers, as spreadsheet readers print them.

use vstd::prelude::*;
use crate::text::{chars_of, string_of};

verus! {

/// The largest number of digits a decimal may have.
pub const MAX_DIGITS: usize = 36;

/// The value `mantissa / 10^scale`.
#[derive(Clone, Copy, Debug, PartialEq, Eq, Structural)]
pub struct Decimal {
    pub mantissa: i128,
    pub scale: u32,
}

pub open spec fn pow10(n: nat) -> nat
    decreases n,
{
    if n == 0 {
        1
    } else {
        10 * pow10((n - 1) as nat)
    }
}

pub open spec fn digit_char(d: int) -> char {
    (('0' as u32) + (d as u32)) as char
}

pub open spec fn is_digit(c: char) -> bool {
    '0' <= c && c <= '9'
}

pub open spec fn digit_value(c: char) -> int {
    (c as u32) - ('0' as u32)
}

/// The decimal digits of `n`, most significant first, without leading zeros.
pub open spec fn nat_text(n: nat) -> Seq<char>
    decreases n,
{
    if n < 10 {
        seq![digit_char(n as int)]
    } else {
        nat_text(n / 10).push(digit_char((n % 10) as int))
    }
}

/// The number that a sequence of decimal digits spells.
pub open spec fn digits_value(d: Seq<char>) -> int
    decreases d.len(),
{
    if d.len() == 0 {
        0
    } else {
        digits_value(d.drop_last()) * 10 + digit_value(d.last())
    }
}

pub open spec fn abs(i: int) -> nat {
    if i < 0 {
        (-i) as nat
    } else {
        i as nat
    }
}

/// The digits of `n`, with leading zeros so that there are more than `scale` of them.
pub open spec fn padded_digits(n: nat, scale: nat) -> Seq<char> {
    let t = nat_text(n);
    if t.len() < scale + 1 {
        Seq::new((scale + 1 - t.len()) as nat, |i: int| '0') + t
    } else {
        t
    }
}

/// How a decimal is written: an optional minus sign, the integer digits and,
/// where the scale is positive, a point followed by exactly `scale` digits.
pub open spec fn decimal_text(m: int, scale: nat) -> Seq<char> {
    let p = padded_digits(abs(m), scale);
    let body = if scale == 0 {
        p
    } else {
        p.subrange(0, p.len() - scale).push('.') + p.subrange(p.len() - scale, p.len() as int)
    };
    if m < 0 {
        seq!['-'] + body
    } else {
        body
    }
}

/// Position of the first `.` in `s`, or its length where there is none.
pub open spec fn point_pos(s: Seq<char>) -> nat
    decreases s.len(),
{
    if s.len() == 0 {
        0
    } else if s[0] == '.' {
        0
    } else {
        1 + point_pos(s.drop_first())
    }
}

pub open spec fn all_digits(s: Seq<char>) -> bool {
    forall|i: int| 0 <= i < s.len() ==> is_digit(s[i])
}

/// The text without its leading minus sign, if it has one.
pub open spec fn unsigned_part(s: Seq<char>) -> Seq<char> {
    if s.len() > 0 && s[0] == '-' {
        s.drop_first()
    } else {
        s
    }
}

pub open spec fn int_part(s: Seq<char>) -> Seq<char> {
    let b = unsigned_part(s);
    b.subrange(0, point_pos(b) as int)
}

pub open spec fn frac_part(s: Seq<char>) -> Seq<char> {
    let b = unsigned_part(s);
    if point_pos(b) < b.len() {
        b.subrange(point_pos(b) as int + 1, b.len() as int)
    } else {
        Seq::empty()
    }
}

/// Whether `s` is a decimal numeral: `-`? digits (`.` digits)?, with at most
/// `MAX_DIGITS` digits in all.
pub open spec fn is_numeral(s: Seq<char>) -> bool {
    let b = unsigned_part(s);
    &&& int_part(s).len() > 0
    &&& all_digits(int_part(s))
    &&& point_pos(b) < b.len() ==> frac_part(s).len() > 0
    &&& all_digits(frac_part(s))
    &&& int_part(s).len() + frac_part(s).len() <= MAX_DIGITS
}

/// The decimal that a numeral denotes, keeping as many fraction digits as written.
pub open spec fn numeral_value(s: Seq<char>) -> (int, nat) {
    let v = digits_value(int_part(s) + frac_part(s));
    (if s.len() > 0 && s[0] == '-' {
        -v
    } else {
        v
    }, frac_part(s).len())
}

impl Decimal {
    pub open spec fn wf(self) -> bool {
        abs(self.mantissa as int) < pow10(MAX_DIGITS as nat) && self.scale <= MAX_DIGITS
    }

    /// Whether two decimals denote the same rational number.
    pub open spec fn same_value(self, other: Decimal) -> bool {
        self.mantissa * pow10(other.scale as nat) == other.mantissa * pow10(self.scale as nat)
    }

    pub open spec fn text(self) -> Seq<char> {
        decimal_text(self.mantissa as int, self.scale as nat)
    }
}

pub proof fn lemma_pow10_mono(a: nat, b: nat)
    requires
        a <= b,
    ensures
        pow10(a) <= pow10(b),
    decreases b,
{
    if a < b {
        lemma_pow10_mono(a, (b - 1) as nat);
    }
}

pub proof fn lemma_pow10_36()
    ensures
        pow10(36) == 1000000000000000000000000000000000000,
{
    reveal_with_fuel(pow10, 37);
}

proof fn lemma_point_pos(b: Seq<char>, q: int)
    requires
        0 <= q <= b.len(),
        forall|k: int| 0 <= k < q ==> b[k] != '.',
        q == b.len() || b[q] == '.',
    ensures
        point_pos(b) == q,
    decreases q,
{
    if q > 0 {
        lemma_point_pos(b.drop_first(), q - 1);
    }
}

impl Decimal {
    /// Reads a numeral as `is_numeral` describes it; `None` for any other text.
    #[verifier::rlimit(60)]
    pub fn parse(s: &str) -> (r: Option<Decimal>)
        ensures
            r is Some <==> is_numeral(s@),
            r matches Some(d) ==> d.wf() && d.mantissa == numeral_value(s@).0 && d.scale
                == numeral_value(s@).1,
    {
        let v = chars_of(s);
        let n = v.len();
        let neg = n > 0 && v[0] == '-';
        let start: usize = if neg {
            1
        } else {
            0
        };
        let ghost b = v@.subrange(start as int, n as int);
        assert(b == unsigned_part(s@)) by {
            if neg {
                assert(b =~= s@.drop_first());
            } else {
                assert(b =~= s@);
            }
        }
        let mut p: usize = start;
        while p < n && v[p] != '.'
            invariant
                start <= p <= n == v@.len(),
                forall|k: int| start <= k < p ==> v@[k] != '.',
            decreases n - p,
        {
            p = p + 1;
        }
        proof {
            lemma_point_pos(b, p - start);
        }
        let ghost ip = b.subrange(0, p - start);
        let ghost fp = if p < n {
            b.subrange(p - start + 1, b.len() as int)
        } else {
            Seq::<char>::empty()
        };
        assert(ip =~= int_part(s@));
        assert(fp =~= frac_part(s@));
        if p == start {
            return None;
        }
        if p < n && p + 1 == n {
            return None;
        }
        let frac_start: usize = if p < n {
            p + 1
        } else {
            n
        };
        let total: usize = (p - start) + (n - frac_start);
        assert(total == ip.len() + fp.len());
        if total > MAX_DIGITS {
            return None;
        }
        let mut ds: Vec<char> = Vec::new();
        let mut k: usize = start;
        while k < p
            invariant
                start <= k <= p <= n == v@.len(),
                ds@ == v@.subrange(start as int, k as int),
            decreases p - k,
        {
            ds.push(v[k]);
            proof {
                assert(ds@ =~= v@.subrange(start as int, k + 1));
            }
            k = k + 1;
        }
        assert(ds@ =~= ip);
        let mut k: usize = frac_start;
        while k < n
            invariant
                frac_start <= k <= n == v@.len(),
                ds@ == ip + v@.subrange(frac_start as int, k as int),
            decreases n - k,
        {
            ds.push(v[k]);
            proof {
                assert(ds@ =~= ip + v@.subrange(frac_start as int, k + 1));
            }
            k = k + 1;
        }
        assert(v@.subrange(frac_start as int, n as int) =~= fp);
        let ghost all = ip + fp;
        assert(ds@ == all);
        proof {
            lemma_pow10_36();
            lemma_pow10_mono(all.len(), 36);
        }
        let mut acc: i128 = 0;
        let mut i: usize = 0;
        while i < ds.len()
            invariant
                i <= ds@.len() == all.len() <= 36,
                ds@ == all,
                all == ip + fp,
                ip == int_part(s@),
                fp == frac_part(s@),
                all_digits(all.take(i as int)),
                acc as int == digits_value(all.take(i as int)),
                0 <= acc < pow10(i as nat),
                pow10(all.len()) <= pow10(36),
                pow10(36) == 1000000000000000000000000000000000000,
            decreases ds@.len() - i,
        {
            let c = ds[i];
            if c < '0' || c > '9' {
                proof {
                    assert(!is_digit(all[i as int]));
                    assert(!all_digits(ip) || !all_digits(fp)) by {
                        if (i as int) < ip.len() {
                            assert(all[i as int] == ip[i as int]);
                        } else {
                            assert(all[i as int] == fp[i as int - ip.len()]);
                        }
                    }
                }
                return None;
            }
            proof {
                assert(all.take(i + 1).drop_last() =~= all.take(i as int));
                lemma_pow10_mono((i + 1) as nat, all.len());
            }
            acc = acc * 10 + ((c as u32) - ('0' as u32)) as i128;
            proof {
                assert(all_digits(all.take(i + 1)));
            }
            i = i + 1;
        }
        assert(all.take(all.len() as int) =~= all);
        assert(all_digits(ip)) by {
            assert forall|j: int| 0 <= j < ip.len() implies is_digit(ip[j]) by {
                assert(ip[j] == all[j]);
            }
        }
        assert(all_digits(fp)) by {
            assert forall|j: int| 0 <= j < fp.len() implies is_digit(fp[j]) by {
                assert(fp[j] == all[ip.len() + j]);
            }
        }
        let m: i128 = if neg {
            -acc
        } else {
            acc
        };
        let scale: u32 = (n - frac_start) as u32;
        Some(Decimal { mantissa: m, scale })
    }
}

fn digit_of(d: u128) -> (c: char)
    requires
        d < 10,
    ensures
        c == digit_char(d as int),
{
    ((d as u8) + 48u8) as char
}

/// The digits of `n`, most significant first.
fn nat_chars(n: u128) -> (r: Vec<char>)
    ensures
        r@ == nat_text(n as nat),
{
    let mut out: Vec<char> = Vec::new();
    let mut k: u128 = n;
    assert(nat_text(n as nat) =~= nat_text(k as nat) + out@);
    loop
        invariant
            nat_text(n as nat) == nat_text(k as nat) + out@,
        ensures
            out@ == nat_text(n as nat),
        decreases k,
    {
        let c = digit_of(k % 10);
        let ghost old_out = out@;
        out.insert(0, c);
        if k < 10 {
            assert(nat_text(k as nat) =~= seq![c]);
            assert(out@ =~= seq![c] + old_out);
            return out;
        }
        assert(nat_text(k as nat) == nat_text((k / 10) as nat).push(c));
        assert(nat_text((k / 10) as nat).push(c) + old_out =~= nat_text((k / 10) as nat) + out@);
        k = k / 10;
    }
}

/// The digits of `n`, with leading zeros so that there are more than `scale` of them.
pub fn digits_padded(n: u128, scale: usize) -> (r: Vec<char>)
    requires
        scale <= 64,
    ensures
        r@ == padded_digits(n as nat, scale as nat),
{
    let t = nat_chars(n);
    let ghost tv = t@;
    let mut p = t;
    let mut z: usize = 0;
    while p.len() < scale + 1
        invariant
            scale <= 64,
            p@ == Seq::new(z as nat, |i: int| '0') + tv,
            p@.len() == z + tv.len(),
            z > 0 ==> p@.len() <= scale + 1,
            tv == nat_text(n as nat),
        decreases scale + 1 - p@.len(),
    {
        p.insert(0, '0');
        assert(p@ =~= Seq::new((z + 1) as nat, |i: int| '0') + tv);
        z = z + 1;
    }
    assert(p@ =~= padded_digits(n as nat, scale as nat)) by {
        if tv.len() >= scale + 1 {
            assert(z == 0);
        }
    }
    p
}

/// Appends the characters of `src` to `out`.
pub fn push_all(out: &mut Vec<char>, src: &Vec<char>)
    ensures
        final(out)@ == old(out)@ + src@,
{
    let ghost start = out@;
    let mut k: usize = 0;
    while k < src.len()
        invariant
            k <= src@.len(),
            out@ == start + src@.subrange(0, k as int),
        decreases src@.len() - k,
    {
        out.push(src[k]);
        assert(out@ =~= start + src@.subrange(0, k + 1));
        k = k + 1;
    }
    assert(src@.subrange(0, src@.len() as int) =~= src@);
}

/// The quarter of `d` that `Decimal::quarter` computes: divided in the
/// mantissa where that is exact, else with one or two more fraction digits.
pub open spec fn quarter_of(d: Decimal) -> Decimal {
    if d.mantissa % 4 == 0 {
        Decimal { mantissa: (d.mantissa / 4) as i128, scale: d.scale }
    } else if d.mantissa % 2 == 0 {
        Decimal { mantissa: ((d.mantissa / 2) * 5) as i128, scale: (d.scale + 1) as u32 }
    } else {
        Decimal { mantissa: (d.mantissa * 25) as i128, scale: (d.scale + 2) as u32 }
    }
}

/// Whether `q` is exactly a quarter of `d`.
pub open spec fn is_quarter(q: Decimal, d: Decimal) -> bool {
    4 * q.mantissa * pow10(d.scale as nat) == d.mantissa * pow10(q.scale as nat)
}

impl Decimal {
    /// The decimal as text, as `decimal_text` describes it.
    pub fn to_text(&self) -> (r: String)
        requires
            self.wf(),
        ensures
            r@ == self.text(),
    {
        let m = self.mantissa;
        proof {
            lemma_pow10_36();
        }
        let a: u128 = if m < 0 {
            (-m) as u128
        } else {
            m as u128
        };
        let scale = self.scale as usize;
        let p = digits_padded(a, scale);
        let plen = p.len();
        let cut = plen - scale;
        let mut out: Vec<char> = Vec::new();
        if m < 0 {
            out.push('-');
        }
        let ghost pre = out@;
        let mut k: usize = 0;
        while k < cut
            invariant
                cut <= plen == p@.len(),
                out@ == pre + p@.subrange(0, k as int),
                k <= cut,
            decreases cut - k,
        {
            out.push(p[k]);
            assert(out@ =~= pre + p@.subrange(0, k + 1));
            k = k + 1;
        }
        if scale > 0 {
            out.push('.');
            let ghost pre2 = out@;
            let mut k: usize = cut;
            while k < plen
                invariant
                    cut <= k <= plen == p@.len(),
                    out@ == pre2 + p@.subrange(cut as int, k as int),
                decreases plen - k,
            {
                out.push(p[k]);
                assert(out@ =~= pre2 + p@.subrange(cut as int, k + 1));
                k = k + 1;
            }
        }
        assert(out@ =~= self.text());
        string_of(&out)
    }

    /// A quarter of this decimal, exactly: a quarter-hour power reading turned
    /// into the energy of that quarter hour.
    pub fn quarter(&self) -> (r: Decimal)
        requires
            self.wf(),
        ensures
            r == quarter_of(*self),
            is_quarter(r, *self),
            r.scale <= self.scale + 2,
    {
        let m = self.mantissa;
        let s = self.scale;
        proof {
            lemma_pow10_36();
            assert(pow10((s + 1) as nat) == 10 * pow10(s as nat));
            assert(pow10((s + 2) as nat) == 10 * pow10((s + 1) as nat));
        }
        if m % 4 == 0 {
            let r = Decimal { mantissa: m / 4, scale: s };
            assert(4 * r.mantissa * pow10(s as nat) == m * pow10(s as nat)) by (nonlinear_arith)
                requires
                    r.mantissa == m / 4,
                    m % 4 == 0,
            ;
            r
        } else if m % 2 == 0 {
            let r = Decimal { mantissa: (m / 2) * 5, scale: s + 1 };
            let ghost p = pow10(s as nat);
            assert(4 * r.mantissa * p == m * (10 * p)) by (nonlinear_arith)
                requires
                    r.mantissa == (m / 2) * 5,
                    m % 2 == 0,
            ;
            r
        } else {
            let r = Decimal { mantissa: m * 25, scale: s + 2 };
            let ghost p = pow10(s as nat);
            assert(4 * r.mantissa * p == m * (10 * (10 * p))) by (nonlinear_arith)
                requires
                    r.mantissa == m * 25,
            ;
            r
        }
    }
}

} // verus!

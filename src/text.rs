//! Decimal rendering of integers and of fixed-point quantities.

use vstd::prelude::*;
use vstd::string::*;

verus! {

/// The ten decimal digit characters, in order.
pub open spec fn digit_chars() -> Seq<char> {
    seq!['0', '1', '2', '3', '4', '5', '6', '7', '8', '9']
}

/// The decimal text of a natural number, most significant digit first, with no
/// leading zeros (zero itself is `"0"`).
pub open spec fn dec(n: nat) -> Seq<char>
    decreases n,
{
    if n < 10 {
        seq![digit_chars()[n as int]]
    } else {
        dec(n / 10).push(digit_chars()[(n % 10) as int])
    }
}

pub open spec fn pow10(k: nat) -> nat
    decreases k,
{
    if k == 0 {
        1
    } else {
        10 * pow10((k - 1) as nat)
    }
}

/// Drops trailing zero digits from a fraction `f` of `k` places: returns the
/// shortened fraction and its number of places.
pub open spec fn strip_zeros(f: nat, k: nat) -> (nat, nat)
    decreases k,
{
    if k > 0 && f % 10 == 0 {
        strip_zeros(f / 10, (k - 1) as nat)
    } else {
        (f, k)
    }
}

/// `d` preceded by as many `'0'` as make it `width` characters long.
pub open spec fn pad_left(d: Seq<char>, width: nat) -> Seq<char> {
    if d.len() < width {
        Seq::new((width - d.len()) as nat, |i: int| '0') + d
    } else {
        d
    }
}

/// The text of `m / 10^k` for a natural `m`: the integer part, then, when the
/// fraction is not zero, a point and the fraction without trailing zeros.
pub open spec fn magnitude_text(m: nat, k: nat) -> Seq<char> {
    let fr = strip_zeros(m % pow10(k), k);
    if fr.1 == 0 {
        dec(m / pow10(k))
    } else {
        dec(m / pow10(k)) + seq!['.'] + pad_left(dec(fr.0), fr.1)
    }
}

/// The text of `v / 10^k`: a leading `'-'` for negative values, then the
/// magnitude as `magnitude_text` writes it.
pub open spec fn fixed_point_text(v: int, k: nat) -> Seq<char> {
    if v < 0 {
        seq!['-'] + magnitude_text((-v) as nat, k)
    } else {
        magnitude_text(v as nat, k)
    }
}

proof fn lemma_pow10_monotonic(j: nat, k: nat)
    requires
        j <= k,
    ensures
        1 <= pow10(j) <= pow10(k),
    decreases k,
{
    if j < k {
        lemma_pow10_monotonic(j, (k - 1) as nat);
    } else if k > 0 {
        lemma_pow10_monotonic((k - 1) as nat, (k - 1) as nat);
    }
}

proof fn lemma_pow10_bound(k: nat)
    requires
        k <= 18,
    ensures
        1 <= pow10(k) <= 1_000_000_000_000_000_000,
{
    reveal_with_fuel(pow10, 19);
    lemma_pow10_monotonic(k, 18);
}

fn digit_text(d: u64) -> (r: &'static str)
    requires
        d < 10,
    ensures
        r@ == seq![digit_chars()[d as int]],
{
    let all: &'static str = "0123456789";
    proof {
        reveal_strlit("0123456789");
    }
    let r = all.substring_char(d as usize, (d + 1) as usize);
    assert(r@ =~= seq![digit_chars()[d as int]]);
    r
}

/// Renders `n` in decimal.
pub fn decimal(n: u64) -> (r: String)
    ensures
        r@ == dec(n as nat),
    decreases n,
{
    let d = digit_text(n % 10);
    if n < 10 {
        String::from_str(d)
    } else {
        let head = decimal(n / 10);
        let r = head.concat(d);
        assert(r@ =~= dec(n as nat));
        r
    }
}

fn pow10_exec(k: u32) -> (r: u64)
    requires
        k <= 18,
    ensures
        r as nat == pow10(k as nat),
{
    let mut r: u64 = 1;
    let mut i: u32 = 0;
    while i < k
        invariant
            i <= k <= 18,
            r as nat == pow10(i as nat),
        decreases k - i,
    {
        proof {
            lemma_pow10_bound(i as nat);
            lemma_pow10_bound((i + 1) as nat);
        }
        r = r * 10;
        i = i + 1;
    }
    r
}

/// Renders `v / 10^k` as decimal text, without trailing zeros in the fraction
/// and without a point when the value is whole (`fixed_point(5000, 6)` is
/// `"0.005"`, `fixed_point(-1500, 3)` is `"-1.5"`, `fixed_point(7000, 3)` is `"7"`).
pub fn fixed_point(v: i64, k: u32) -> (r: String)
    requires
        k <= 18,
    ensures
        r@ == fixed_point_text(v as int, k as nat),
{
    let neg = v < 0;
    let m: u64 = if neg {
        (0i128 - v as i128) as u64
    } else {
        v as u64
    };
    let p = pow10_exec(k);
    proof {
        lemma_pow10_bound(k as nat);
    }
    let ip = m / p;
    let mut f: u64 = m % p;
    let mut j: u32 = k;
    while j > 0 && f % 10 == 0
        invariant
            j <= k,
            strip_zeros(f as nat, j as nat) == strip_zeros((m % p) as nat, k as nat),
        decreases j,
    {
        f = f / 10;
        j = j - 1;
    }
    proof {
        reveal_strlit(".");
        reveal_strlit("0");
    }
    assert(strip_zeros(f as nat, j as nat) == (f as nat, j as nat));
    assert(m as int == if v < 0 { -v } else { v as int });
    proof {
        reveal_strlit("-");
    }
    let ghost sign: Seq<char> = if neg { seq!['-'] } else { seq![] };
    let int_text = decimal(ip);
    let mut s = if neg {
        String::from_str("-").concat(int_text.as_str())
    } else {
        int_text
    };
    assert(s@ =~= sign + dec(ip as nat));
    if j > 0 {
        s = s.concat(".");
        let d = decimal(f);
        let dl = d.as_str().unicode_len();
        let width = j as usize;
        if dl < width {
            let mut z: usize = 0;
            let ghost start = s@;
            while z < width - dl
                invariant
                    dl < width,
                    z <= width - dl,
                    s@ == start + Seq::new(z as nat, |i: int| '0'),
                decreases width - dl - z,
            {
                proof {
                    reveal_strlit("0");
                }
                s = s.concat("0");
                z = z + 1;
                assert(s@ =~= start + Seq::new(z as nat, |i: int| '0'));
            }
        }
        s = s.concat(d.as_str());
    }
    let r = s;
    assert(r@ =~= sign + magnitude_text(m as nat, k as nat));
    assert(r@ =~= fixed_point_text(v as int, k as nat));
    r
}

} // verus!

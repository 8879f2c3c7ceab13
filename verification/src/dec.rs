//! Exact decimal numbers: the form the weather payload's numeric fields take
//! inside the library. A value is a scaled integer, so parsing, averaging and
//! formatting are exact — no floating point is involved.
//!
//! The accepted texts are deliberately bounded: at most eleven digits in
//! total and six of them fractional, and no exponent notation. The bounds
//! keep every mantissa, every scale alignment, and the doubled sum of any
//! two parsed values comfortably inside an `i64`, which is what makes the
//! mean exact and provably overflow-free; a payload number outside them is a
//! parse failure, folded into the caller's all-or-nothing outcome. Real
//! temperatures, wind speeds and coordinates sit far inside these bounds.

use crate::nums::{
    all_digits, digits_val, fmt_padded, fmt_u64, lemma_digits_val_bound, lemma_digits_val_concat,
    lemma_pow10_adds, lemma_pow10_increases, lemma_pow10_pos, parse_u64, pow10, pow10_u64,
    spec_digits, spec_padded_digits,
};
use vstd::prelude::*;

verus! {

/// A decimal number `mant / 10^scale`.
#[derive(Clone, Copy, Debug, PartialEq, Eq, Structural)]
pub struct Dec {
    pub mant: i64,
    pub scale: u32,
}

impl Dec {
    /// Bounds guaranteed by parsing: at most six fractional digits and a
    /// mantissa of at most eleven digits.
    pub open spec fn wf(self) -> bool {
        self.scale <= 6 && -100000000000 < self.mant < 100000000000
    }

    /// Looser bounds, enough for formatting; met by parsed values and by the
    /// mean of two parsed values.
    pub open spec fn render_wf(self) -> bool {
        self.scale <= 7 && -1000000000000000000 < self.mant < 1000000000000000000
    }
}

/// The value of `d` rescaled to `s` fractional digits, as an integer.
pub open spec fn num_at(d: Dec, s: nat) -> int
    recommends
        d.scale <= s,
{
    d.mant * pow10((s - d.scale) as nat)
}

/// The position of the first '.' in `t`, if any.
pub open spec fn find_dot(t: Seq<char>) -> Option<int>
    decreases t.len(),
{
    if t.len() == 0 {
        None
    } else if t[0] == '.' {
        Some(0)
    } else {
        match find_dot(t.skip(1)) {
            Some(i) => Some(i + 1),
            None => None,
        }
    }
}

pub proof fn lemma_find_dot(t: Seq<char>)
    ensures
        match find_dot(t) {
            None => forall|i: int| 0 <= i < t.len() ==> t[i] != '.',
            Some(i) => 0 <= i < t.len() && t[i] == '.' && forall|j: int| 0 <= j < i ==> t[j] != '.',
        },
    decreases t.len(),
{
    if t.len() > 0 && t[0] != '.' {
        let sub = t.skip(1);
        lemma_find_dot(sub);
        assert(forall|k: int| 0 <= k < sub.len() ==> sub[k] == #[trigger] t[k + 1]);
        match find_dot(sub) {
            None => {
                assert forall|i: int| 0 <= i < t.len() implies t[i] != '.' by {
                    if i > 0 {
                        assert(t[i] == sub[i - 1]);
                    }
                }
            },
            Some(i) => {
                assert(t[i + 1] == sub[i]);
                assert forall|j: int| 0 <= j < i + 1 implies t[j] != '.' by {
                    if j > 0 {
                        assert(t[j] == sub[j - 1]);
                    }
                }
            },
        }
    }
}

/// Parse decimal text of the form `-? digits ( '.' digits )?` into a `Dec`,
/// keeping the written scale. Succeeds exactly when both digit runs are
/// nonempty and all digits, there are at most eleven digits in total, and at
/// most six of them follow the point.
pub open spec fn spec_parse_dec(s: Seq<char>) -> Option<Dec> {
    let neg = s.len() > 0 && s[0] == '-';
    let t = if neg {
        s.skip(1)
    } else {
        s
    };
    match find_dot(t) {
        None => if 1 <= t.len() <= 11 && all_digits(t) {
            Some(
                Dec {
                    mant: (if neg {
                        -(digits_val(t) as int)
                    } else {
                        digits_val(t) as int
                    }) as i64,
                    scale: 0,
                },
            )
        } else {
            None
        },
        Some(p) => {
            let ip = t.take(p);
            let fp = t.skip(p + 1);
            if 1 <= ip.len() && 1 <= fp.len() && ip.len() + fp.len() <= 11 && fp.len() <= 6
                && all_digits(ip) && all_digits(fp) {
                Some(
                    Dec {
                        mant: (if neg {
                            -(digits_val(ip + fp) as int)
                        } else {
                            digits_val(ip + fp) as int
                        }) as i64,
                        scale: fp.len() as u32,
                    },
                )
            } else {
                None
            }
        },
    }
}

/// A successfully parsed decimal is well-formed.
pub proof fn lemma_parse_dec_wf(s: Seq<char>)
    ensures
        spec_parse_dec(s) matches Some(d) ==> d.wf(),
{
    let neg = s.len() > 0 && s[0] == '-';
    let t = if neg {
        s.skip(1)
    } else {
        s
    };
    assert(pow10(11) == 100000000000) by {
        reveal_with_fuel(pow10, 12);
    }
    match find_dot(t) {
        None => {
            if 1 <= t.len() <= 11 && all_digits(t) {
                lemma_digits_val_bound(t);
                lemma_pow10_increases(t.len(), 11);
            }
        },
        Some(p) => {
            let ip = t.take(p);
            let fp = t.skip(p + 1);
            if 1 <= ip.len() && 1 <= fp.len() && ip.len() + fp.len() <= 11 && fp.len() <= 6
                && all_digits(ip) && all_digits(fp) {
                assert(all_digits(ip + fp)) by {
                    assert(forall|i: int|
                        0 <= i < ip.len() ==> (ip + fp)[i] == #[trigger] ip[i]);
                    assert(forall|i: int|
                        ip.len() <= i < ip.len() + fp.len() ==> (ip + fp)[i] == #[trigger] fp[i
                            - ip.len()]);
                }
                lemma_digits_val_bound(ip + fp);
                lemma_pow10_increases((ip + fp).len(), 11);
            }
        },
    }
}

/// Parse decimal text. Mirrors `spec_parse_dec` exactly.
pub fn parse_dec(s: &str) -> (r: Option<Dec>)
    ensures
        r == spec_parse_dec(s@),
{
    let n = s.unicode_len();
    let neg = n > 0 && s.get_char(0) == '-';
    let t: &str = if neg {
        s.substring_char(1, n)
    } else {
        s
    };
    proof {
        if neg {
            assert(t@ =~= s@.skip(1));
        }
    }
    let tn = t.unicode_len();
    // Find the first '.' if there is one; tn means none was seen.
    let mut dotpos: usize = tn;
    let mut i: usize = 0;
    while i < tn
        invariant
            i <= tn == t@.len(),
            dotpos == tn || (dotpos < i && t@[dotpos as int] == '.'),
            dotpos == tn ==> forall|j: int| 0 <= j < i ==> t@[j] != '.',
            dotpos < tn ==> forall|j: int| 0 <= j < dotpos ==> t@[j] != '.',
        decreases tn - i,
    {
        if dotpos == tn && t.get_char(i) == '.' {
            dotpos = i;
        }
        i = i + 1;
    }
    proof {
        lemma_find_dot(t@);
    }
    if dotpos == tn {
        // No fractional part.
        if tn > 11 {
            return None;
        }
        match parse_u64(t) {
            None => None,
            Some(v) => {
                proof {
                    lemma_digits_val_bound(t@);
                    lemma_pow10_increases(t@.len(), 11);
                    assert(pow10(11) == 100000000000) by {
                        reveal_with_fuel(pow10, 12);
                    }
                }
                let m: i64 = if neg {
                    -(v as i64)
                } else {
                    v as i64
                };
                Some(Dec { mant: m, scale: 0 })
            },
        }
    } else {
        let ipn = dotpos;
        let fpn = tn - dotpos - 1;
        if ipn < 1 || fpn < 1 || ipn + fpn > 11 || fpn > 6 {
            return None;
        }
        let ip = t.substring_char(0, dotpos);
        let fp = t.substring_char(dotpos + 1, tn);
        proof {
            assert(ip@ =~= t@.take(dotpos as int));
            assert(fp@ =~= t@.skip(dotpos + 1));
        }
        match (parse_u64(ip), parse_u64(fp)) {
            (Some(iv), Some(fv)) => {
                proof {
                    assert(all_digits(ip@ + fp@)) by {
                        assert(forall|k: int|
                            0 <= k < ip@.len() ==> (ip@ + fp@)[k] == #[trigger] ip@[k]);
                        assert(forall|k: int|
                            ip@.len() <= k < ip@.len() + fp@.len() ==> (ip@ + fp@)[k]
                                == #[trigger] fp@[k - ip@.len()]);
                    }
                    lemma_digits_val_concat(ip@, fp@);
                    lemma_digits_val_bound(ip@ + fp@);
                    lemma_pow10_increases((ip@ + fp@).len(), 11);
                    assert(pow10(11) == 100000000000) by {
                        reveal_with_fuel(pow10, 12);
                    }
                    assert(iv * pow10(fp@.len()) <= iv * pow10(fp@.len()) + fv);
                }
                let p = pow10_u64(fpn as u32);
                let m: u64 = iv * p + fv;
                let sm: i64 = if neg {
                    -(m as i64)
                } else {
                    m as i64
                };
                Some(Dec { mant: sm, scale: fpn as u32 })
            },
            _ => None,
        }
    }
}

/// The exact mean of two decimals: align to the larger scale, add, and halve;
/// an odd sum takes one extra fractional digit.
pub open spec fn spec_mean(a: Dec, b: Dec) -> Dec {
    let s: u32 = if a.scale >= b.scale {
        a.scale
    } else {
        b.scale
    };
    let av = a.mant * pow10((s - a.scale) as nat);
    let bv = b.mant * pow10((s - b.scale) as nat);
    let sum = av + bv;
    let m = (if sum < 0 {
        -sum
    } else {
        sum
    }) as nat;
    if m % 2 == 0 {
        Dec {
            mant: (if sum < 0 {
                -((m / 2) as int)
            } else {
                (m / 2) as int
            }) as i64,
            scale: s,
        }
    } else {
        Dec { mant: (5 * sum) as i64, scale: (s + 1) as u32 }
    }
}

proof fn lemma_aligned_bounds(a: Dec, s: u32)
    requires
        a.wf(),
        a.scale <= s <= 6,
    ensures
        -100000000000000000 < a.mant * pow10((s - a.scale) as nat) < 100000000000000000,
{
    let f = pow10((s - a.scale) as nat);
    lemma_pow10_pos((s - a.scale) as nat);
    lemma_pow10_increases((s - a.scale) as nat, 6);
    assert(pow10(6) == 1000000) by {
        reveal_with_fuel(pow10, 7);
    }
    assert(-100000000000000000 < a.mant * f < 100000000000000000) by (nonlinear_arith)
        requires
            -100000000000 < a.mant < 100000000000,
            1 <= f <= 1000000,
    ;
}

/// Compute the mean of two parsed decimals.
pub fn mean(a: &Dec, b: &Dec) -> (r: Dec)
    requires
        a.wf(),
        b.wf(),
    ensures
        r == spec_mean(*a, *b),
        r.render_wf(),
{
    let s: u32 = if a.scale >= b.scale {
        a.scale
    } else {
        b.scale
    };
    proof {
        lemma_pow10_pos((s - a.scale) as nat);
        lemma_pow10_pos((s - b.scale) as nat);
        lemma_pow10_increases((s - a.scale) as nat, 6);
        lemma_pow10_increases((s - b.scale) as nat, 6);
        assert(pow10(6) == 1000000) by {
            reveal_with_fuel(pow10, 7);
        }
        lemma_aligned_bounds(*a, s);
        lemma_aligned_bounds(*b, s);
    }
    let fa = pow10_u64(s - a.scale);
    let fb = pow10_u64(s - b.scale);
    let av: i64 = a.mant * (fa as i64);
    let bv: i64 = b.mant * (fb as i64);
    let sum: i64 = av + bv;
    let m: u64 = if sum < 0 {
        (-sum) as u64
    } else {
        sum as u64
    };
    if m % 2 == 0 {
        let h = m / 2;
        let mant: i64 = if sum < 0 {
            -(h as i64)
        } else {
            h as i64
        };
        Dec { mant, scale: s }
    } else {
        Dec { mant: 5 * sum, scale: s + 1 }
    }
}

/// The mean is exactly half the sum: at a common scale, twice the mean's
/// value equals the sum of the two inputs' values. This holds for every pair
/// of well-formed decimals, whichever written scales they came with.
pub proof fn lemma_mean_halves(a: Dec, b: Dec)
    requires
        a.wf(),
        b.wf(),
    ensures
        2 * num_at(spec_mean(a, b), 8) == num_at(a, 8) + num_at(b, 8),
{
    let s: u32 = if a.scale >= b.scale {
        a.scale
    } else {
        b.scale
    };
    let av = a.mant * pow10((s - a.scale) as nat);
    let bv = b.mant * pow10((s - b.scale) as nat);
    let sum = av + bv;
    let r = spec_mean(a, b);
    lemma_aligned_bounds(a, s);
    lemma_aligned_bounds(b, s);
    lemma_pow10_adds((s - a.scale) as nat, (8 - s) as nat);
    lemma_pow10_adds((s - b.scale) as nat, (8 - s) as nat);
    assert(a.mant * (pow10((s - a.scale) as nat) * pow10((8 - s) as nat)) == (a.mant * pow10(
        (s - a.scale) as nat,
    )) * pow10((8 - s) as nat)) by (nonlinear_arith);
    assert(b.mant * (pow10((s - b.scale) as nat) * pow10((8 - s) as nat)) == (b.mant * pow10(
        (s - b.scale) as nat,
    )) * pow10((8 - s) as nat)) by (nonlinear_arith);
    assert(num_at(a, 8) + num_at(b, 8) == sum * pow10((8 - s) as nat)) by (nonlinear_arith)
        requires
            num_at(a, 8) == av * pow10((8 - s) as nat),
            num_at(b, 8) == bv * pow10((8 - s) as nat),
            sum == av + bv,
    ;
    let m = (if sum < 0 {
        -sum
    } else {
        sum
    }) as nat;
    if m % 2 == 0 {
        assert(m == 2 * (m / 2));
        assert(2 * r.mant == sum);
        assert(r.scale == s);
        assert(2 * (r.mant * pow10((8 - s) as nat)) == (2 * r.mant) * pow10((8 - s) as nat))
            by (nonlinear_arith);
    } else {
        assert(r.mant == 5 * sum && r.scale == s + 1);
        assert(pow10((8 - s) as nat) == 10 * pow10((7 - s) as nat));
        assert(2 * ((5 * sum) * pow10((7 - s) as nat)) == sum * (10 * pow10((7 - s) as nat)))
            by (nonlinear_arith);
    }
}

/// The text of a decimal: optional sign, the integer digits, and — when the
/// scale is positive — a point followed by exactly `scale` fractional digits.
pub open spec fn spec_dec_text(d: Dec) -> Seq<char> {
    let m = (if d.mant < 0 {
        -(d.mant as int)
    } else {
        d.mant as int
    }) as nat;
    let sign: Seq<char> = if d.mant < 0 {
        seq!['-']
    } else {
        Seq::empty()
    };
    if d.scale == 0 {
        sign + spec_digits(m)
    } else {
        sign + spec_digits((m as int / pow10(d.scale as nat)) as nat) + seq!['.']
            + spec_padded_digits((m as int % pow10(d.scale as nat)) as nat, d.scale as nat)
    }
}

/// Format a decimal as text.
pub fn dec_text(d: &Dec) -> (r: String)
    requires
        d.render_wf(),
    ensures
        r@ == spec_dec_text(*d),
{
    proof {
        reveal_strlit("-");
        reveal_strlit(".");
    }
    let neg = d.mant < 0;
    let m: u64 = if neg {
        (-(d.mant)) as u64
    } else {
        d.mant as u64
    };
    let mut out = String::new();
    if neg {
        out.append("-");
    }
    if d.scale == 0 {
        let digits = fmt_u64(m);
        out.append(digits.as_str());
        proof {
            assert(out@ =~= spec_dec_text(*d));
        }
        out
    } else {
        let p = pow10_u64(d.scale);
        proof {
            lemma_pow10_pos(d.scale as nat);
        }
        let ipart = fmt_u64(m / p);
        let fpart = fmt_padded(m % p, d.scale);
        out.append(ipart.as_str());
        out.append(".");
        out.append(fpart.as_str());
        proof {
            assert(out@ =~= spec_dec_text(*d));
        }
        out
    }
}

} // verus!

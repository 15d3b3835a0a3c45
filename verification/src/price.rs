use vstd::prelude::*;

use crate::text::{first_index_of, lemma_first_index_of};

verus! {

/// The characters that survive price cleaning: decimal digits and `.`.
pub open spec fn is_price_char(c: char) -> bool {
    is_digit_char(c) || c == '.'
}

pub open spec fn is_digit_char(c: char) -> bool {
    0x30 <= c as u32 && c as u32 <= 0x39
}

/// `s` with everything but decimal digits and `.` discarded.
pub open spec fn price_chars(s: Seq<char>) -> Seq<char> {
    s.filter(|c: char| is_price_char(c))
}

/// How many times `c` occurs in `s`.
pub open spec fn count_of(s: Seq<char>, c: char) -> int
    decreases s.len(),
{
    if s.len() == 0 {
        0
    } else {
        count_of(s.drop_last(), c) + if s.last() == c {
            1int
        } else {
            0int
        }
    }
}

/// The value of a string of decimal digits.
pub open spec fn digits_val(s: Seq<char>) -> int
    decreases s.len(),
{
    if s.len() == 0 {
        0
    } else {
        digits_val(s.drop_last()) * 10 + (s.last() as u32 - 0x30)
    }
}

/// A cleaned price string parses as a number exactly when it has at least
/// one digit and at most one `.`.
pub open spec fn price_valid(t: Seq<char>) -> bool {
    count_of(t, '.') <= 1 && (exists|k: int| 0 <= k < t.len() && is_digit_char(t[k]))
}

/// The value in cents of a valid cleaned price string: the digits before the
/// `.` as whole units, plus the first two digits after it; later fraction
/// digits are dropped.
pub open spec fn price_cents_raw(t: Seq<char>) -> int {
    let d = first_index_of(t, '.');
    let frac = if d < t.len() {
        t.subrange(d + 1, t.len() as int)
    } else {
        Seq::<char>::empty()
    };
    digits_val(t.subrange(0, d)) * 100 + frac_cents(frac)
}

pub open spec fn frac_cents(frac: Seq<char>) -> int {
    (if frac.len() > 0 {
        (frac[0] as u32 - 0x30) * 10
    } else {
        0
    }) + (if frac.len() > 1 {
        (frac[1] as u32 - 0x30) as int
    } else {
        0
    })
}

pub open spec fn min_int(a: int, b: int) -> int {
    if a <= b {
        a
    } else {
        b
    }
}

/// The number of cents a raw price text stands for: its digits and `.`
/// parsed as a decimal number, `0` when that fails, and the largest
/// representable count when the true value does not fit.
pub open spec fn price_cents_of_text(s: Seq<char>) -> int {
    let t = price_chars(s);
    if price_valid(t) {
        min_int(price_cents_raw(t), u64::MAX as int)
    } else {
        0
    }
}

proof fn lemma_price_chars_push(q: Seq<char>, x: char)
    ensures
        price_chars(q.push(x)) == if is_price_char(x) {
            price_chars(q).push(x)
        } else {
            price_chars(q)
        },
{
    reveal(Seq::filter);
    assert(q.push(x).drop_last() =~= q);
    assert(q.push(x).last() == x);
}

proof fn lemma_digits_val_nonneg(s: Seq<char>)
    requires
        forall|k: int| 0 <= k < s.len() ==> is_digit_char(s[k]),
    ensures
        digits_val(s) >= 0,
    decreases s.len(),
{
    if s.len() > 0 {
        lemma_digits_val_nonneg(s.drop_last());
    }
}

proof fn lemma_count_at_least_one(s: Seq<char>, c: char, i: int)
    requires
        0 <= i < s.len(),
        s[i] == c,
    ensures
        count_of(s, c) >= 1,
    decreases s.len(),
{
    lemma_count_nonneg(s.drop_last(), c);
    if i < s.len() - 1 {
        lemma_count_at_least_one(s.drop_last(), c, i);
    }
}

proof fn lemma_count_nonneg(s: Seq<char>, c: char)
    ensures
        count_of(s, c) >= 0,
    decreases s.len(),
{
    if s.len() > 0 {
        lemma_count_nonneg(s.drop_last(), c);
    }
}

/// With at most one occurrence of `c`, an occurrence at `i` rules out any
/// other position `j`.
proof fn lemma_count_unique(s: Seq<char>, c: char, i: int, j: int)
    requires
        count_of(s, c) <= 1,
        0 <= i < s.len(),
        0 <= j < s.len(),
        i != j,
        s[i] == c,
    ensures
        s[j] != c,
    decreases s.len(),
{
    if j == s.len() - 1 {
        if s[j] == c {
            lemma_count_at_least_one(s.drop_last(), c, i);
        }
    } else if i == s.len() - 1 {
        if s[j] == c {
            lemma_count_at_least_one(s.drop_last(), c, j);
        }
    } else {
        lemma_count_nonneg(s.drop_last(), c);
        lemma_count_unique(s.drop_last(), c, i, j);
    }
}

/// The number of cents named by a price text, per `price_cents_of_text`:
/// everything but digits and `.` is discarded, and the remainder is read as
/// a decimal number of units and hundredths. Unreadable remainders give `0`.
pub fn price_cents_from_text(s: &str) -> (r: u64)
    ensures
        r as int == price_cents_of_text(s@),
{
    let n = s.unicode_len();
    let mut t: Vec<char> = Vec::new();
    let mut i: usize = 0;
    while i < n
        invariant
            0 <= i <= n,
            n == s@.len(),
            t@ == price_chars(s@.subrange(0, i as int)),
        decreases n - i,
    {
        let c = s.get_char(i);
        proof {
            assert(s@.subrange(0, i + 1).drop_last() =~= s@.subrange(0, i as int));
            assert(s@.subrange(0, i + 1) =~= s@.subrange(0, i as int).push(s@[i as int]));
            lemma_price_chars_push(s@.subrange(0, i as int), s@[i as int]);
        }
        if (c as u32 >= 0x30 && c as u32 <= 0x39) || c == '.' {
            t.push(c);
        }
        i = i + 1;
    }
    proof {
        assert(s@.subrange(0, n as int) =~= s@);
        assert forall|j: int| 0 <= j < t@.len() implies is_price_char(t@[j]) by {
            s@.lemma_filter_pred(|c: char| is_price_char(c), j);
        }
    }
    let tn = t.len();
    // One scan: count the dots, remember the first, note whether any digit occurs.
    let mut dots: usize = 0;
    let mut fd: usize = 0;
    let mut seen_dot = false;
    let mut has_digit = false;
    let mut k: usize = 0;
    while k < tn
        invariant
            0 <= k <= tn,
            tn == t@.len(),
            tn <= n,
            t@ == price_chars(s@),
            forall|j: int| 0 <= j < tn ==> is_price_char(t@[j]),
            dots == count_of(t@.subrange(0, k as int), '.'),
            dots <= k,
            has_digit == exists|j: int| 0 <= j < k && is_digit_char(t@[j]),
            seen_dot ==> fd < k && t@[fd as int] == '.' && forall|j: int|
                0 <= j < fd ==> t@[j] != '.',
            !seen_dot ==> forall|j: int| 0 <= j < k ==> t@[j] != '.',
        decreases tn - k,
    {
        let c = t[k];
        proof {
            assert(t@.subrange(0, k + 1).drop_last() =~= t@.subrange(0, k as int));
            assert(t@.subrange(0, k + 1).last() == t@[k as int]);
        }
        if c == '.' {
            dots = dots + 1;
            if !seen_dot {
                seen_dot = true;
                fd = k;
            }
        } else {
            has_digit = true;
            assert(is_digit_char(t@[k as int]));
        }
        k = k + 1;
    }
    proof {
        assert(t@.subrange(0, tn as int) =~= t@);
    }
    let d: usize = if seen_dot {
        fd
    } else {
        tn
    };
    proof {
        if seen_dot {
            lemma_first_index_of(t@, '.', fd as int);
        } else {
            lemma_first_index_of(t@, '.', tn as int);
        }
    }
    if !(dots <= 1 && has_digit) {
        assert(!price_valid(t@));
        return 0;
    }
    assert(price_valid(t@));
    // Only position d can hold the one dot; every other element is a digit.
    proof {
        assert forall|j: int| 0 <= j < tn && j != d implies is_digit_char(t@[j]) by {
            if t@[j] == '.' {
                if d < tn {
                    lemma_count_unique(t@, '.', d as int, j);
                }
            }
            assert(t@[j] != '.');
        }
    }
    let mut acc: u64 = 0;
    let mut k2: usize = 0;
    while k2 < d
        invariant
            0 <= k2 <= d <= tn,
            tn == t@.len(),
            forall|j: int| 0 <= j < tn && j != d ==> is_digit_char(t@[j]),
            acc as int == min_int(digits_val(t@.subrange(0, k2 as int)), u64::MAX as int),
        decreases d - k2,
    {
        let c = t[k2];
        let dv: u64 = (c as u32 - 0x30) as u64;
        proof {
            let pre = t@.subrange(0, k2 as int);
            let post = t@.subrange(0, k2 + 1);
            assert(post.drop_last() =~= pre);
            assert(post.last() == t@[k2 as int]);
            assert forall|j: int| 0 <= j < pre.len() implies is_digit_char(pre[j]) by {}
            lemma_digits_val_nonneg(pre);
        }
        acc = match acc.checked_mul(10) {
            Some(v) => match v.checked_add(dv) {
                Some(w) => w,
                None => u64::MAX,
            },
            None => u64::MAX,
        };
        k2 = k2 + 1;
    }
    // Fraction: at most the first two digits after the dot.
    let mut fc: u64 = 0;
    if d < tn && d + 1 < tn {
        let c1 = t[d + 1];
        fc = ((c1 as u32 - 0x30) as u64) * 10;
        if d + 2 < tn {
            let c2 = t[d + 2];
            fc = fc + (c2 as u32 - 0x30) as u64;
        }
    }
    proof {
        let frac = if (d as int) < tn as int {
            t@.subrange(d + 1, tn as int)
        } else {
            Seq::<char>::empty()
        };
        assert(fc as int == frac_cents(frac));
        lemma_digits_val_nonneg(t@.subrange(0, d as int));
    }
    let r = match acc.checked_mul(100) {
        Some(v) => match v.checked_add(fc) {
            Some(w) => w,
            None => u64::MAX,
        },
        None => u64::MAX,
    };
    r
}

} // verus!

//! The times that teams are stamped with are compared as text. In years of four digits that
//! is the order in which they passed.

use vstd::prelude::*;

use crate::stamp::{digits_at, utc_time_with_year};
use crate::text::{decimal, is_digit, lemma_text_le_at, text_le};

verus! {

/// RFC 3339 text of a UTC time in a year of four digits.
pub open spec fn dated(s: Seq<char>) -> bool {
    utc_time_with_year(s, 4)
}

/// The fraction of the second to nine digits.
pub open spec fn fraction(s: Seq<char>) -> Seq<char> {
    Seq::new(
        9,
        |i: int|
            if 20 + i < s.len() - 6 {
                s[20 + i]
            } else {
                '0'
            },
    )
}

/// The number that stands between two places of a text.
pub open spec fn number_at(s: Seq<char>, from: int, to: int) -> nat {
    decimal(s.subrange(from, to))
}

/// Year, month, day, hour, minute, second and nanosecond of a time.
pub open spec fn clock(s: Seq<char>) -> Seq<nat> {
    seq![
        number_at(s, 0, 4),
        number_at(s, 5, 7),
        number_at(s, 8, 10),
        number_at(s, 11, 13),
        number_at(s, 14, 16),
        number_at(s, 17, 19),
        decimal(fraction(s)),
    ]
}

/// Whether `x` agrees with `y` up to its reading at `k`, and is smaller there.
pub open spec fn before_at(x: Seq<nat>, y: Seq<nat>, k: int) -> bool {
    &&& 0 <= k < x.len() == y.len()
    &&& forall|i: int| 0 <= i < k ==> #[trigger] x[i] == y[i]
    &&& x[k] < y[k]
}

/// Whether a time passed before another: the first reading in which they differ is smaller.
pub open spec fn earlier(a: Seq<char>, b: Seq<char>) -> bool {
    exists|k: int| before_at(clock(a), clock(b), k)
}

/// Digits in a row.
spec fn all_digits(s: Seq<char>) -> bool {
    forall|i: int| 0 <= i < s.len() ==> is_digit(#[trigger] s[i])
}

/// Numbers of equally many digits are equal when their digits are.
proof fn lemma_same_number(x: Seq<char>, y: Seq<char>)
    requires
        x.len() == y.len(),
        all_digits(x),
        all_digits(y),
        decimal(x) == decimal(y),
    ensures
        x == y,
    decreases x.len(),
{
    if x.len() > 0 {
        let (p, q) = (x.drop_last(), y.drop_last());
        assert(is_digit(x.last()) && is_digit(y.last()));
        assert(all_digits(p) && all_digits(q));
        lemma_same_number(p, q);
        assert(x =~= p.push(x.last()));
        assert(y =~= q.push(y.last()));
    } else {
        assert(x =~= y);
    }
}

/// Of numbers of equally many digits, the smaller has the smaller digit where they first
/// differ.
proof fn lemma_smaller_number(x: Seq<char>, y: Seq<char>) -> (i: int)
    requires
        x.len() == y.len(),
        all_digits(x),
        all_digits(y),
        decimal(x) < decimal(y),
    ensures
        0 <= i < x.len(),
        x.take(i) == y.take(i),
        x[i] < y[i],
    decreases x.len(),
{
    let (p, q) = (x.drop_last(), y.drop_last());
    assert(is_digit(x.last()) && is_digit(y.last()));
    assert(all_digits(p) && all_digits(q));
    if decimal(p) < decimal(q) {
        let i = lemma_smaller_number(p, q);
        assert(x.take(i) =~= p.take(i));
        assert(y.take(i) =~= q.take(i));
        i
    } else {
        assert(decimal(p) == decimal(q));
        lemma_same_number(p, q);
        assert(x.take(x.len() - 1) =~= p);
        assert(y.take(x.len() - 1) =~= q);
        x.len() - 1
    }
}

/// A number at the same places of two texts that agree up to it: where it is the same,
/// they agree up to its end.
proof fn lemma_agree(a: Seq<char>, b: Seq<char>, from: int, to: int)
    requires
        0 <= from <= to <= a.len(),
        to <= b.len(),
        a.take(from) == b.take(from),
        digits_at(a, from, to),
        digits_at(b, from, to),
        number_at(a, from, to) == number_at(b, from, to),
    ensures
        a.take(to) == b.take(to),
{
    lemma_same_number(a.subrange(from, to), b.subrange(from, to));
    assert(a.take(to) =~= a.take(from) + a.subrange(from, to));
    assert(b.take(to) =~= b.take(from) + b.subrange(from, to));
}

/// A number at the same places of two texts that agree up to it: where it is smaller, the
/// text comes first.
proof fn lemma_differ(a: Seq<char>, b: Seq<char>, from: int, to: int)
    requires
        0 <= from <= to <= a.len(),
        to <= b.len(),
        a.take(from) == b.take(from),
        digits_at(a, from, to),
        digits_at(b, from, to),
        number_at(a, from, to) < number_at(b, from, to),
    ensures
        text_le(a, b),
        a != b,
{
    let (x, y) = (a.subrange(from, to), b.subrange(from, to));
    let i = lemma_smaller_number(x, y);
    assert(a.take(from + i) =~= a.take(from) + x.take(i));
    assert(b.take(from + i) =~= b.take(from) + y.take(i));
    lemma_text_le_at(a, b, from + i);
}

/// The next place after texts that agree.
proof fn lemma_agree_next(a: Seq<char>, b: Seq<char>, at: int)
    requires
        0 <= at < a.len(),
        at < b.len(),
        a.take(at) == b.take(at),
        a[at] == b[at],
    ensures
        a.take(at + 1) == b.take(at + 1),
{
    assert(a.take(at + 1) =~= a.take(at).push(a[at]));
    assert(b.take(at + 1) =~= b.take(at).push(b[at]));
}

/// Times that agree to the second: the one with the smaller fraction comes first.
proof fn lemma_fraction(a: Seq<char>, b: Seq<char>)
    requires
        dated(a),
        dated(b),
        a.take(19) == b.take(19),
        decimal(fraction(a)) < decimal(fraction(b)),
    ensures
        text_le(a, b),
        a != b,
{
    let (x, y) = (fraction(a), fraction(b));
    let (end_a, end_b) = (a.len() - 6, b.len() - 6);
    reveal_strlit("+00:00");
    assert(a[end_a] == a.skip(end_a)[0]);
    assert(a[end_a] == '+');
    assert forall|i: int| 0 <= i < 9 implies is_digit(#[trigger] x[i]) by {
        if 20 + i < end_a {
            assert('0' <= a[20 + i] <= '9');
        }
    }
    assert forall|i: int| 0 <= i < 9 implies is_digit(#[trigger] y[i]) by {
        if 20 + i < end_b {
            assert('0' <= b[20 + i] <= '9');
        }
    }
    let i = lemma_smaller_number(x, y);
    assert(is_digit(x[i]));
    assert(20 + i < end_b);
    assert(b[19] == '.');
    if end_a == 19 {
        lemma_text_le_at(a, b, 19);
    } else {
        assert(a[19] == '.');
        let at = if 20 + i < end_a {
            20 + i
        } else {
            end_a
        };
        assert(a.take(at) =~= b.take(at)) by {
            assert forall|j: int| 0 <= j < at implies a[j] == b[j] by {
                if j < 19 {
                    assert(a[j] == a.take(19)[j]);
                    assert(b[j] == b.take(19)[j]);
                } else if j > 19 {
                    assert(x[j - 20] == x.take(i)[j - 20]);
                    assert(y[j - 20] == y.take(i)[j - 20]);
                }
            }
        }
        if at == end_a {
            assert('0' <= b[at] <= '9');
        }
        lemma_text_le_at(a, b, at);
    }
}

/// Where a reading starts in the text of a time.
spec fn reading_from(k: int) -> int {
    if k == 0 {
        0
    } else {
        3 * k + 2
    }
}

/// Where a reading ends in the text of a time.
spec fn reading_to(k: int) -> int {
    3 * k + 4
}

/// A reading of a time, but for the nanosecond, is the number at its places.
proof fn lemma_reading(s: Seq<char>, k: int)
    requires
        dated(s),
        0 <= k < 6,
    ensures
        0 <= reading_from(k) <= reading_to(k) <= s.len() - 6,
        digits_at(s, reading_from(k), reading_to(k)),
        clock(s)[k] == number_at(s, reading_from(k), reading_to(k)),
{
    assert(k == 0 || k == 1 || k == 2 || k == 3 || k == 4 || k == 5);
}

/// Times whose readings agree up to one agree as text up to the start of that one.
proof fn lemma_agree_up_to(a: Seq<char>, b: Seq<char>, k: int)
    requires
        dated(a),
        dated(b),
        0 <= k <= 6,
        forall|i: int| 0 <= i < k ==> #[trigger] clock(a)[i] == clock(b)[i],
    ensures
        k < 6 ==> a.take(reading_from(k)) == b.take(reading_from(k)),
        k == 6 ==> a.take(19) == b.take(19),
    decreases k,
{
    if k == 0 {
        assert(a.take(0) =~= b.take(0));
    } else {
        let last = k - 1;
        lemma_agree_up_to(a, b, last);
        lemma_reading(a, last);
        lemma_reading(b, last);
        assert(clock(a)[last] == clock(b)[last]);
        lemma_agree(a, b, reading_from(last), reading_to(last));
        if k < 6 {
            assert(k == 1 || k == 2 || k == 3 || k == 4 || k == 5);
            lemma_agree_next(a, b, reading_to(last));
        }
    }
}

/// Of two times in years of four digits, the one that passed first comes first as text.
pub proof fn law_earlier_is_less(a: Seq<char>, b: Seq<char>)
    requires
        dated(a),
        dated(b),
        earlier(a, b),
    ensures
        text_le(a, b),
        a != b,
{
    let k = choose|k: int| before_at(clock(a), clock(b), k);
    lemma_agree_up_to(a, b, k);
    if k < 6 {
        lemma_reading(a, k);
        lemma_reading(b, k);
        lemma_differ(a, b, reading_from(k), reading_to(k));
    } else {
        lemma_fraction(a, b);
    }
}

} // verus!

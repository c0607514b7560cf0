//! EXIF timestamps: `YYYY:MM:DD HH:MM:SS`, read as UTC (EXIF carries no
//! zone) and converted to Unix seconds with the civil-calendar day count.
use vstd::prelude::*;

use crate::text::chars_of;

verus! {

/// Division rounding toward zero, as integer `/` does in Rust.
pub open spec fn tdiv(a: int, b: int) -> int
    recommends
        b > 0,
{
    if a >= 0 {
        a / b
    } else {
        -((-a) / b)
    }
}

/// Days since 1970-01-01 of a civil date, by the era-based algorithm of
/// H. Hinnant (March-based years, 400-year eras of 146097 days).
pub open spec fn civil_days(year: int, month: int, day: int) -> int {
    let y = if month <= 2 {
        year - 1
    } else {
        year
    };
    let era = tdiv(
        if y >= 0 {
            y
        } else {
            y - 399
        },
        400,
    );
    let yoe = y - era * 400;
    let mp = month + if month > 2 {
        -3int
    } else {
        9int
    };
    let doy = tdiv(153 * mp + 2, 5) + day - 1;
    let doe = yoe * 365 + tdiv(yoe, 4) - tdiv(yoe, 100) + doy;
    era * 146097 + doe - 719468
}

/// Whether `c` is an ASCII digit.
pub open spec fn is_digit(c: char) -> bool {
    '0' <= c && c <= '9'
}

/// Whether every character is an ASCII digit.
pub open spec fn all_digits(s: Seq<char>) -> bool {
    forall|i: int| 0 <= i < s.len() ==> is_digit(#[trigger] s[i])
}

/// Decimal value of a digit string.
pub open spec fn digits_value(s: Seq<char>) -> int
    decreases s.len(),
{
    if s.len() == 0 {
        0
    } else {
        digits_value(s.drop_last()) * 10 + (s.last() as int - '0' as int)
    }
}

/// The value of an optionally signed decimal integer with at least one
/// digit, as `str::parse::<i64>` reads it; `None` when the text is not
/// such a number or its value does not fit in `i64`.
pub open spec fn parse_i64(s: Seq<char>) -> Option<int> {
    let neg = s.len() > 0 && s[0] == '-';
    let signed = s.len() > 0 && (s[0] == '-' || s[0] == '+');
    let body = if signed {
        s.drop_first()
    } else {
        s
    };
    if body.len() == 0 || !all_digits(body) {
        None
    } else {
        let v = if neg {
            -digits_value(body)
        } else {
            digits_value(body)
        };
        if i64::MIN <= v <= i64::MAX {
            Some(v)
        } else {
            None
        }
    }
}

/// Whether `c` separates the fields of an EXIF timestamp.
pub open spec fn is_field_sep(c: char) -> bool {
    c == ':' || c == ' '
}

/// Fields finished so far and the field being read, after reading `s`.
pub open spec fn fields_acc(s: Seq<char>) -> (Seq<Seq<char>>, Seq<char>)
    decreases s.len(),
{
    if s.len() == 0 {
        (Seq::empty(), Seq::empty())
    } else {
        let (done, cur) = fields_acc(s.drop_last());
        if is_field_sep(s.last()) {
            (done.push(cur), Seq::empty())
        } else {
            (done, cur.push(s.last()))
        }
    }
}

/// The text split at every `:` and space, empty fields included.
pub open spec fn fields(s: Seq<char>) -> Seq<Seq<char>> {
    fields_acc(s).0.push(fields_acc(s).1)
}

/// Unix seconds of an EXIF timestamp: the first six fields parsed as
/// integers (year, month, day, hour, minute, second); `None` when there are
/// fewer than six fields, one of them is not an integer, the year is
/// before 1970, or the month or day is out of `1..=12` / `1..=31`. Hour,
/// minute and second are not range-checked. The seconds are taken modulo
/// 2^64, as a 64-bit two's-complement computation without overflow checks
/// gives them.
pub open spec fn exif_unix(s: Seq<char>) -> Option<u64> {
    let f = fields(s);
    if f.len() < 6 {
        None
    } else {
        match (parse_i64(f[0]), parse_i64(f[1]), parse_i64(f[2]), parse_i64(f[3]), parse_i64(f[4]), parse_i64(f[5])) {
            (Some(y), Some(mo), Some(d), Some(h), Some(mi), Some(se)) => if y < 1970 || !(1 <= mo <= 12)
                || !(1 <= d <= 31) {
                None
            } else {
                Some((civil_days(y, mo, d) * 86400 + h * 3600 + mi * 60 + se) as u64)
            },
            _ => None,
        }
    }
}

proof fn lemma_digits_value_nonneg(s: Seq<char>)
    requires
        all_digits(s),
    ensures
        digits_value(s) >= 0,
    decreases s.len(),
{
    if s.len() > 0 {
        assert(is_digit(s[s.len() - 1]));
        lemma_digits_value_nonneg(s.drop_last());
    }
}

proof fn lemma_digits_value_grows(s: Seq<char>, n: int)
    requires
        all_digits(s),
        0 <= n <= s.len(),
    ensures
        digits_value(s.subrange(0, n)) <= digits_value(s),
    decreases s.len() - n,
{
    if n < s.len() {
        lemma_digits_value_grows(s, n + 1);
        let p = s.subrange(0, n + 1);
        assert(p.drop_last() =~= s.subrange(0, n));
        assert(is_digit(s[n]));
        assert(all_digits(s.subrange(0, n)));
        lemma_digits_value_nonneg(s.subrange(0, n));
    } else {
        assert(s.subrange(0, n) =~= s);
    }
}

/// Parse an optionally signed decimal `i64` (see `parse_i64`).
fn parse_int(s: &Vec<char>) -> (r: Option<i64>)
    ensures
        r matches Some(v) ==> parse_i64(s@) == Some(v as int),
        r is None ==> parse_i64(s@) is None,
{
    let n = s.len();
    let neg = n > 0 && s[0] == '-';
    let signed = n > 0 && (s[0] == '-' || s[0] == '+');
    let start: usize = if signed {
        1
    } else {
        0
    };
    let ghost body = if signed {
        s@.drop_first()
    } else {
        s@
    };
    assert(body =~= s@.subrange(start as int, n as int));
    if start >= n {
        return None;
    }
    let limit: u128 = if neg {
        9223372036854775808
    } else {
        9223372036854775807
    };
    let mut acc: u128 = 0;
    let mut i: usize = start;
    while i < n
        invariant
            start <= i <= n,
            n == s@.len(),
            body == s@.subrange(start as int, n as int),
            all_digits(body.subrange(0, i - start)),
            acc as int == digits_value(body.subrange(0, i - start)),
            acc <= limit,
            body == if s@.len() > 0 && (s@[0] == '-' || s@[0] == '+') {
                s@.drop_first()
            } else {
                s@
            },
            limit == if s@.len() > 0 && s@[0] == '-' {
                9223372036854775808u128
            } else {
                9223372036854775807u128
            },
        decreases n - i,
    {
        let c = s[i];
        let ghost pre = body.subrange(0, i - start);
        let ghost next = body.subrange(0, i - start + 1);
        assert(next.drop_last() =~= pre);
        assert(next.last() == c);
        assert(body[i - start] == s@[i as int]);
        if !('0' <= c && c <= '9') {
            assert(!is_digit(body[i - start]));
            assert(!all_digits(body));
            assert(parse_i64(s@) is None);
            return None;
        }
        let d: u128 = ((c as u32) - ('0' as u32)) as u128;
        assert(d as int == c as int - '0' as int);
        acc = acc * 10 + d;
        assert(acc as int == digits_value(next));
        assert(all_digits(next)) by {
            assert forall|j: int| 0 <= j < next.len() implies is_digit(#[trigger] next[j]) by {
                if j < pre.len() {
                    assert(next[j] == pre[j]);
                }
            }
        }
        if acc > limit {
            proof {
                if all_digits(body) {
                    lemma_digits_value_grows(body, i - start + 1);
                    assert(digits_value(body) > limit);
                }
            }
            assert(parse_i64(s@) is None);
            return None;
        }
        i = i + 1;
    }
    assert(body.subrange(0, n - start) =~= body);
    if neg {
        if acc == 9223372036854775808 {
            Some(i64::MIN)
        } else {
            let v = acc as i64;
            Some(-v)
        }
    } else {
        Some(acc as i64)
    }
}

/// Split at `:` and spaces (see `fields`).
fn split_fields(s: &Vec<char>) -> (r: Vec<Vec<char>>)
    ensures
        r@.map_values(|v: Vec<char>| v@) == fields(s@),
{
    let mut done: Vec<Vec<char>> = Vec::new();
    let mut cur: Vec<char> = Vec::new();
    let mut i: usize = 0;
    while i < s.len()
        invariant
            i <= s@.len(),
            (done@.map_values(|v: Vec<char>| v@), cur@) == fields_acc(s@.subrange(0, i as int)),
        decreases s@.len() - i,
    {
        let c = s[i];
        assert(s@.subrange(0, i as int + 1).drop_last() =~= s@.subrange(0, i as int));
        if c == ':' || c == ' ' {
            let ghost d = done@;
            let ghost cv = cur@;
            done.push(cur);
            assert(done@.map_values(|v: Vec<char>| v@) =~= d.map_values(|v: Vec<char>| v@).push(cv));
            cur = Vec::new();
        } else {
            cur.push(c);
        }
        i = i + 1;
    }
    assert(s@.subrange(0, s@.len() as int) =~= s@);
    let ghost d = done@;
    let ghost cv = cur@;
    done.push(cur);
    assert(done@.map_values(|v: Vec<char>| v@) =~= d.map_values(|v: Vec<char>| v@).push(cv));
    done
}

/// Rounding-toward-zero division of a wide value by a positive constant.
fn wdiv(a: i128, b: i128) -> (r: i128)
    requires
        b > 0,
        -0x1000_0000_0000_0000_0000_0000 <= a <= 0x1000_0000_0000_0000_0000_0000,
    ensures
        r == tdiv(a as int, b as int),
{
    if a >= 0 {
        a / b
    } else {
        -((-a) / b)
    }
}

fn civil_days_wide(year: i128, month: i128, day: i128) -> (r: i128)
    requires
        i64::MIN <= year <= i64::MAX,
        i64::MIN <= month <= i64::MAX,
        i64::MIN <= day <= i64::MAX,
    ensures
        r == civil_days(year as int, month as int, day as int),
        -0x100_0000_0000_0000_0000_0000 <= r <= 0x100_0000_0000_0000_0000_0000,
{
    let y = if month <= 2 {
        year - 1
    } else {
        year
    };
    let era = wdiv(
        if y >= 0 {
            y
        } else {
            y - 399
        },
        400,
    );
    assert(-0x1_0000_0000_0000_0000 <= era <= 0x1_0000_0000_0000_0000) by {
        let a: int = if y >= 0 {
            y as int
        } else {
            y - 399
        };
        if a >= 0 {
            assert(0 <= a / 400 <= a) by (nonlinear_arith)
                requires
                    a >= 0,
            ;
        } else {
            assert(0 <= (-a) / 400 <= -a) by (nonlinear_arith)
                requires
                    -a >= 0,
            ;
        }
    }
    let yoe = y - era * 400;
    let mp = month + if month > 2 {
        -3i128
    } else {
        9i128
    };
    let doy = wdiv(153 * mp + 2, 5) + day - 1;
    assert(-0x1_0000_0000_0000_0000_0000 <= yoe <= 0x1_0000_0000_0000_0000_0000);
    let doe = yoe * 365 + wdiv(yoe, 4) - wdiv(yoe, 100) + doy;
    assert(-0x100_0000_0000_0000_0000_0000 <= era * 146097 <= 0x100_0000_0000_0000_0000_0000) by (nonlinear_arith)
        requires
            -0x1_0000_0000_0000_0000 <= era <= 0x1_0000_0000_0000_0000,
    ;
    era * 146097 + doe - 719468
}

/// Days since the Unix epoch of a civil date (see `civil_days`), for
/// dates whose day count fits in `i64`.
pub fn days_from_civil(year: i64, month: i64, day: i64) -> (r: i64)
    requires
        i64::MIN <= civil_days(year as int, month as int, day as int) <= i64::MAX,
    ensures
        r == civil_days(year as int, month as int, day as int),
{
    civil_days_wide(year as i128, month as i128, day as i128) as i64
}

/// Unix seconds of an EXIF `YYYY:MM:DD HH:MM:SS` timestamp read as UTC
/// (see `exif_unix`).
pub fn exif_datetime_to_unix(text: &str) -> (r: Option<u64>)
    ensures
        r == exif_unix(text@),
{
    let cs = chars_of(text);
    let parts = split_fields(&cs);
    let ghost f = parts@.map_values(|v: Vec<char>| v@);
    if parts.len() < 6 {
        return None;
    }
    assert(f[0] == parts@[0]@ && f[1] == parts@[1]@ && f[2] == parts@[2]@);
    assert(f[3] == parts@[3]@ && f[4] == parts@[4]@ && f[5] == parts@[5]@);
    let year = match parse_int(&parts[0]) {
        Some(v) => v,
        None => return None,
    };
    let month = match parse_int(&parts[1]) {
        Some(v) => v,
        None => return None,
    };
    let day = match parse_int(&parts[2]) {
        Some(v) => v,
        None => return None,
    };
    let hour = match parse_int(&parts[3]) {
        Some(v) => v,
        None => return None,
    };
    let minute = match parse_int(&parts[4]) {
        Some(v) => v,
        None => return None,
    };
    let second = match parse_int(&parts[5]) {
        Some(v) => v,
        None => return None,
    };
    if year < 1970 || !(1 <= month && month <= 12) || !(1 <= day && day <= 31) {
        return None;
    }
    let days = civil_days_wide(year as i128, month as i128, day as i128);
    assert(-0x1000_0000_0000_0000_0000_0000_0000 <= days * 86400 <= 0x1000_0000_0000_0000_0000_0000_0000) by (nonlinear_arith)
        requires
            -0x100_0000_0000_0000_0000_0000 <= days <= 0x100_0000_0000_0000_0000_0000,
    ;
    let total: i128 = days * 86400 + (hour as i128) * 3600 + (minute as i128) * 60 + (second as i128);
    Some(#[verifier::truncate] (total as u64))
}

/// The day count advances by one from each day of a month to the next.
pub proof fn law_next_day(year: int, month: int, day: int)
    ensures
        civil_days(year, month, day + 1) == civil_days(year, month, day) + 1,
{
}

/// Every well-formed timestamp in range is accepted: when the first six
/// fields read as integers with a year from 1970, any month from 1 to 12
/// and any day from 1 to 31, the result is the civil day count in seconds
/// plus the time of day (taken modulo 2^64).
pub proof fn law_in_range_timestamps_convert(s: Seq<char>, y: int, mo: int, d: int, h: int, mi: int, se: int)
    requires
        fields(s).len() >= 6,
        parse_i64(fields(s)[0]) == Some(y),
        parse_i64(fields(s)[1]) == Some(mo),
        parse_i64(fields(s)[2]) == Some(d),
        parse_i64(fields(s)[3]) == Some(h),
        parse_i64(fields(s)[4]) == Some(mi),
        parse_i64(fields(s)[5]) == Some(se),
        y >= 1970,
        1 <= mo <= 12,
        1 <= d <= 31,
    ensures
        exif_unix(s) == Some((civil_days(y, mo, d) * 86400 + h * 3600 + mi * 60 + se) as u64),
{
}

/// A timestamp before 1970, or with a month outside 1 to 12 or a day
/// outside 1 to 31, is refused.
pub proof fn law_out_of_range_timestamps_are_refused(s: Seq<char>, y: int, mo: int, d: int)
    requires
        fields(s).len() >= 6,
        parse_i64(fields(s)[0]) == Some(y),
        parse_i64(fields(s)[1]) == Some(mo),
        parse_i64(fields(s)[2]) == Some(d),
        y < 1970 || mo < 1 || mo > 12 || d < 1 || d > 31,
    ensures
        exif_unix(s) is None,
{
}

} // verus!

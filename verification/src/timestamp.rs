//! Creation times for migrations, at second resolution, and their rendering
//! as the zero-padded directory-name prefix whose lexicographic order equals
//! chronological order.

use vstd::prelude::*;

verus! {

use vstd::arithmetic::div_mod::lemma_div_is_ordered;
use vstd::arithmetic::div_mod::lemma_fundamental_div_mod;
use vstd::string::StringExecFns;
use crate::text::digit;
use crate::text::digit_str;
use crate::text::lex_lt;
use crate::text::lemma_lex_lt_append;
use crate::text::lemma_lex_lt_same_prefix;

/// A local calendar time, at second resolution.
#[derive(Debug, Clone, Copy, PartialEq, Eq, Structural)]
pub struct Timestamp {
    pub year: u32,
    pub month: u32,
    pub day: u32,
    pub hour: u32,
    pub minute: u32,
    pub second: u32,
}

impl Timestamp {
    /// Every field is within its calendar range, and the year fits the
    /// four-digit rendering.
    pub open spec fn wf(self) -> bool {
        &&& self.year <= 9999
        &&& 1 <= self.month <= 12
        &&& 1 <= self.day <= 31
        &&& self.hour < 24
        &&& self.minute < 60
        &&& self.second < 60
    }

    /// Builds a timestamp from its fields; fields out of calendar range are
    /// rejected.
    pub fn new(year: u32, month: u32, day: u32, hour: u32, minute: u32, second: u32) -> (r: Option<
        Timestamp,
    >)
        ensures
            ({
                let t = Timestamp { year, month, day, hour, minute, second };
                if t.wf() {
                    r == Some(t)
                } else {
                    r is None
                }
            }),
    {
        if year <= 9999 && 1 <= month && month <= 12 && 1 <= day && day <= 31 && hour < 24 && minute
            < 60 && second < 60 {
            Some(Timestamp { year, month, day, hour, minute, second })
        } else {
            None
        }
    }

    /// Strict chronological order: field by field, most significant first.
    pub open spec fn before(self, other: Timestamp) -> bool {
        if self.year != other.year {
            self.year < other.year
        } else if self.month != other.month {
            self.month < other.month
        } else if self.day != other.day {
            self.day < other.day
        } else if self.hour != other.hour {
            self.hour < other.hour
        } else if self.minute != other.minute {
            self.minute < other.minute
        } else {
            self.second < other.second
        }
    }
}

/// `n` rendered as exactly two decimal digits, zero-padded.
pub open spec fn pad2(n: int) -> Seq<char> {
    seq![digit(n / 10), digit(n % 10)]
}

/// `n` rendered as exactly four decimal digits, zero-padded.
pub open spec fn pad4(n: int) -> Seq<char> {
    pad2(n / 100) + pad2(n % 100)
}

/// The fourteen-character rendering of a timestamp: year, month, day, hour,
/// minute, second, each zero-padded.
pub open spec fn spec_timestamp_chars(t: Timestamp) -> Seq<char> {
    pad4(t.year as int) + (pad2(t.month as int) + (pad2(t.day as int) + (pad2(t.hour as int) + (
    pad2(t.minute as int) + pad2(t.second as int)))))
}

/// The directory name of a migration: the timestamp rendering, a dash, and
/// the migration's name.
pub open spec fn spec_dir_name(t: Timestamp, name: Seq<char>) -> Seq<char> {
    spec_timestamp_chars(t) + (seq!['-'] + name)
}

/// Zero-padded two-digit renderings are ordered like the numbers they render.
proof fn lemma_pad2_lt(m: int, n: int)
    requires
        0 <= m < n < 100,
    ensures
        lex_lt(pad2(m), pad2(n)),
{
    let a = pad2(m);
    let b = pad2(n);
    if m / 10 != n / 10 {
        lemma_div_is_ordered(m, n, 10);
        crate::text::lemma_digit_value(m / 10);
        crate::text::lemma_digit_value(n / 10);
        assert(a[0] != b[0]);
        assert((a[0] as u32) < (b[0] as u32));
    } else {
        lemma_fundamental_div_mod(m, 10);
        lemma_fundamental_div_mod(n, 10);
        assert(m % 10 < n % 10);
        crate::text::lemma_digit_value(m % 10);
        crate::text::lemma_digit_value(n % 10);
        assert(a[0] == b[0]);
        assert(a.drop_first() =~= seq![digit(m % 10)]);
        assert(b.drop_first() =~= seq![digit(n % 10)]);
        assert(lex_lt(a.drop_first(), b.drop_first()));
    }
}

/// Zero-padded four-digit renderings are ordered like the numbers they
/// render.
proof fn lemma_pad4_lt(m: int, n: int)
    requires
        0 <= m < n < 10000,
    ensures
        lex_lt(pad4(m), pad4(n)),
{
    if m / 100 != n / 100 {
        lemma_div_is_ordered(m, n, 100);
        lemma_pad2_lt(m / 100, n / 100);
        lemma_lex_lt_append(pad2(m / 100), pad2(n / 100), pad2(m % 100), pad2(n % 100));
    } else {
        lemma_fundamental_div_mod(m, 100);
        lemma_fundamental_div_mod(n, 100);
        assert(m % 100 < n % 100);
        lemma_pad2_lt(m % 100, n % 100);
        lemma_lex_lt_same_prefix(pad2(m / 100), pad2(m % 100), pad2(n % 100));
    }
}

/// The fourteen-character renderings of two well-formed timestamps are
/// ordered lexicographically exactly as the timestamps are ordered in time.
proof fn lemma_timestamp_chars_lt(t1: Timestamp, t2: Timestamp)
    requires
        t1.wf(),
        t2.wf(),
        t1.before(t2),
    ensures
        lex_lt(spec_timestamp_chars(t1), spec_timestamp_chars(t2)),
{
    let y1 = pad4(t1.year as int);
    let y2 = pad4(t2.year as int);
    let mo1 = pad2(t1.month as int);
    let mo2 = pad2(t2.month as int);
    let d1 = pad2(t1.day as int);
    let d2 = pad2(t2.day as int);
    let h1 = pad2(t1.hour as int);
    let h2 = pad2(t2.hour as int);
    let mi1 = pad2(t1.minute as int);
    let mi2 = pad2(t2.minute as int);
    let s1 = pad2(t1.second as int);
    let s2 = pad2(t2.second as int);
    if t1.year != t2.year {
        lemma_pad4_lt(t1.year as int, t2.year as int);
        lemma_lex_lt_append(
            y1,
            y2,
            mo1 + (d1 + (h1 + (mi1 + s1))),
            mo2 + (d2 + (h2 + (mi2 + s2))),
        );
    } else if t1.month != t2.month {
        lemma_pad2_lt(t1.month as int, t2.month as int);
        lemma_lex_lt_append(mo1, mo2, d1 + (h1 + (mi1 + s1)), d2 + (h2 + (mi2 + s2)));
        lemma_lex_lt_same_prefix(
            y1,
            mo1 + (d1 + (h1 + (mi1 + s1))),
            mo2 + (d2 + (h2 + (mi2 + s2))),
        );
    } else if t1.day != t2.day {
        lemma_pad2_lt(t1.day as int, t2.day as int);
        lemma_lex_lt_append(d1, d2, h1 + (mi1 + s1), h2 + (mi2 + s2));
        lemma_lex_lt_same_prefix(mo1, d1 + (h1 + (mi1 + s1)), d2 + (h2 + (mi2 + s2)));
        lemma_lex_lt_same_prefix(
            y1,
            mo1 + (d1 + (h1 + (mi1 + s1))),
            mo2 + (d2 + (h2 + (mi2 + s2))),
        );
    } else if t1.hour != t2.hour {
        lemma_pad2_lt(t1.hour as int, t2.hour as int);
        lemma_lex_lt_append(h1, h2, mi1 + s1, mi2 + s2);
        lemma_lex_lt_same_prefix(d1, h1 + (mi1 + s1), h2 + (mi2 + s2));
        lemma_lex_lt_same_prefix(mo1, d1 + (h1 + (mi1 + s1)), d2 + (h2 + (mi2 + s2)));
        lemma_lex_lt_same_prefix(
            y1,
            mo1 + (d1 + (h1 + (mi1 + s1))),
            mo2 + (d2 + (h2 + (mi2 + s2))),
        );
    } else if t1.minute != t2.minute {
        lemma_pad2_lt(t1.minute as int, t2.minute as int);
        lemma_lex_lt_append(mi1, mi2, s1, s2);
        lemma_lex_lt_same_prefix(h1, mi1 + s1, mi2 + s2);
        lemma_lex_lt_same_prefix(d1, h1 + (mi1 + s1), h2 + (mi2 + s2));
        lemma_lex_lt_same_prefix(mo1, d1 + (h1 + (mi1 + s1)), d2 + (h2 + (mi2 + s2)));
        lemma_lex_lt_same_prefix(
            y1,
            mo1 + (d1 + (h1 + (mi1 + s1))),
            mo2 + (d2 + (h2 + (mi2 + s2))),
        );
    } else {
        lemma_pad2_lt(t1.second as int, t2.second as int);
        lemma_lex_lt_same_prefix(mi1, s1, s2);
        lemma_lex_lt_same_prefix(h1, mi1 + s1, mi2 + s2);
        lemma_lex_lt_same_prefix(d1, h1 + (mi1 + s1), h2 + (mi2 + s2));
        lemma_lex_lt_same_prefix(mo1, d1 + (h1 + (mi1 + s1)), d2 + (h2 + (mi2 + s2)));
        lemma_lex_lt_same_prefix(
            y1,
            mo1 + (d1 + (h1 + (mi1 + s1))),
            mo2 + (d2 + (h2 + (mi2 + s2))),
        );
    }
}

/// Directory names sort identically to chronological creation order: a
/// migration authored strictly earlier gets a directory name that is
/// lexicographically strictly earlier, whatever the two migration names are.
pub proof fn lemma_dir_name_preserves_time_order(
    t1: Timestamp,
    n1: Seq<char>,
    t2: Timestamp,
    n2: Seq<char>,
)
    requires
        t1.wf(),
        t2.wf(),
        t1.before(t2),
    ensures
        lex_lt(spec_dir_name(t1, n1), spec_dir_name(t2, n2)),
{
    lemma_timestamp_chars_lt(t1, t2);
    assert(spec_timestamp_chars(t1).len() == 14);
    assert(spec_timestamp_chars(t2).len() == 14);
    lemma_lex_lt_append(
        spec_timestamp_chars(t1),
        spec_timestamp_chars(t2),
        seq!['-'] + n1,
        seq!['-'] + n2,
    );
}

/// The other direction of the sort-order law: directory names never invert
/// time — when one directory name is lexicographically strictly earlier, its
/// timestamp is not strictly later.
pub proof fn lemma_dir_name_order_never_inverts_time(
    t1: Timestamp,
    n1: Seq<char>,
    t2: Timestamp,
    n2: Seq<char>,
)
    requires
        t1.wf(),
        t2.wf(),
        lex_lt(spec_dir_name(t1, n1), spec_dir_name(t2, n2)),
    ensures
        !t2.before(t1),
{
    if t2.before(t1) {
        lemma_dir_name_preserves_time_order(t2, n2, t1, n1);
        crate::text::lemma_lex_lt_asym(spec_dir_name(t2, n2), spec_dir_name(t1, n1));
    }
}

/// Appends the two-digit zero-padded rendering of `n`.
fn append_pad2(out: &mut String, n: u32)
    requires
        n < 100,
    ensures
        final(out)@ == old(out)@ + pad2(n as int),
{
    out.append(digit_str(n / 10));
    out.append(digit_str(n % 10));
    proof {
        assert(final(out)@ =~= old(out)@ + pad2(n as int));
    }
}

/// Appends the four-digit zero-padded rendering of `n`.
fn append_pad4(out: &mut String, n: u32)
    requires
        n < 10000,
    ensures
        final(out)@ == old(out)@ + pad4(n as int),
{
    append_pad2(out, n / 100);
    append_pad2(out, n % 100);
    proof {
        assert(final(out)@ =~= old(out)@ + pad4(n as int));
    }
}

/// The fourteen-character rendering of a timestamp.
pub fn format_timestamp(t: &Timestamp) -> (r: String)
    requires
        t.wf(),
    ensures
        r@ == spec_timestamp_chars(*t),
{
    let mut r = String::new();
    append_pad4(&mut r, t.year);
    append_pad2(&mut r, t.month);
    append_pad2(&mut r, t.day);
    append_pad2(&mut r, t.hour);
    append_pad2(&mut r, t.minute);
    append_pad2(&mut r, t.second);
    proof {
        assert(r@ =~= spec_timestamp_chars(*t));
    }
    r
}

/// The directory name for a migration authored at `t` under `name`.
pub fn migration_dir_name(t: &Timestamp, name: &str) -> (r: String)
    requires
        t.wf(),
    ensures
        r@ == spec_dir_name(*t, name@),
{
    let mut r = format_timestamp(t);
    proof {
        reveal_strlit("-");
    }
    r.append("-");
    r.append(name);
    proof {
        assert(r@ =~= spec_dir_name(*t, name@));
    }
    r
}

/// Relies on chrono's `Local::now` and its `Datelike`/`Timelike` getters:
/// month is 1 to 12, day is 1 to 31, hour is below 24, minute and second are
/// below 60. Nothing is assumed about the year.
#[verifier::external_body]
fn local_now_parts() -> (r: (i32, u32, u32, u32, u32, u32))
    ensures
        1 <= r.1 <= 12,
        1 <= r.2 <= 31,
        r.3 < 24,
        r.4 < 60,
        r.5 < 60,
{
    let now = chrono::Local::now();
    (
        chrono::Datelike::year(&now),
        chrono::Datelike::month(&now),
        chrono::Datelike::day(&now),
        chrono::Timelike::hour(&now),
        chrono::Timelike::minute(&now),
        chrono::Timelike::second(&now),
    )
}

/// The current local time as a well-formed timestamp; a clock year outside
/// the four-digit range is rejected.
pub fn current_timestamp() -> (r: Option<Timestamp>)
    ensures
        r matches Some(t) ==> t.wf(),
{
    let (year, month, day, hour, minute, second) = local_now_parts();
    if 0 <= year && year <= 9999 {
        Timestamp::new(year as u32, month, day, hour, minute, second)
    } else {
        None
    }
}

} // verus!

//! Structured UTC timestamps and their ISO-8601 wire form
//! `YYYY-MM-DDTHH:MM:SS.mmmZ` (the fraction may be left out on input).
use vstd::prelude::*;

verus! {

/// A point in time, to the millisecond, in UTC.
#[derive(PartialEq, Eq, Structural, Clone, Copy, Debug)]
pub struct Timestamp {
    pub year: u32,
    pub month: u32,
    pub day: u32,
    pub hour: u32,
    pub minute: u32,
    pub second: u32,
    pub millisecond: u32,
}

pub open spec fn is_leap_year(y: int) -> bool {
    (y % 4 == 0 && y % 100 != 0) || y % 400 == 0
}

pub open spec fn days_in_month(y: int, m: int) -> int {
    if m == 2 {
        if is_leap_year(y) { 29 } else { 28 }
    } else if m == 4 || m == 6 || m == 9 || m == 11 {
        30
    } else {
        31
    }
}

pub open spec fn pow10(k: nat) -> nat
    decreases k,
{
    if k == 0 { 1 } else { 10 * pow10((k - 1) as nat) }
}

pub open spec fn is_digit(c: char) -> bool {
    '0' <= c && c <= '9'
}

pub open spec fn digit_value(c: char) -> int {
    c as int - '0' as int
}

pub open spec fn digit_char(d: int) -> char {
    if d == 0 { '0' }
    else if d == 1 { '1' }
    else if d == 2 { '2' }
    else if d == 3 { '3' }
    else if d == 4 { '4' }
    else if d == 5 { '5' }
    else if d == 6 { '6' }
    else if d == 7 { '7' }
    else if d == 8 { '8' }
    else { '9' }
}

/// The last `k` decimal digits of `n`, zero-padded on the left.
pub open spec fn padded(n: nat, k: nat) -> Seq<char>
    decreases k,
{
    if k == 0 {
        Seq::empty()
    } else {
        padded(n / 10, (k - 1) as nat).push(digit_char(n as int % 10))
    }
}

/// The number that a sequence of decimal digits denotes.
pub open spec fn number_value(s: Seq<char>) -> int
    decreases s.len(),
{
    if s.len() == 0 {
        0
    } else {
        number_value(s.drop_last()) * 10 + digit_value(s.last())
    }
}

pub open spec fn all_digits(s: Seq<char>, lo: int, hi: int) -> bool {
    forall|i: int| lo <= i < hi ==> is_digit(#[trigger] s[i])
}

pub open spec fn field_value(s: Seq<char>, lo: int, hi: int) -> int {
    number_value(s.subrange(lo, hi))
}

impl Timestamp {
    /// The fields name a real calendar instant with a four-digit year.
    pub open spec fn valid(self) -> bool {
        &&& self.year <= 9999
        &&& 1 <= self.month <= 12
        &&& 1 <= self.day <= days_in_month(self.year as int, self.month as int)
        &&& self.hour < 24
        &&& self.minute < 60
        &&& self.second < 60
        &&& self.millisecond < 1000
    }

    /// The wire form of a timestamp.
    pub open spec fn wire_form(self) -> Seq<char> {
        padded(self.year as nat, 4) + seq!['-'] + padded(self.month as nat, 2) + seq!['-']
            + padded(self.day as nat, 2) + seq!['T'] + padded(self.hour as nat, 2) + seq![':']
            + padded(self.minute as nat, 2) + seq![':'] + padded(self.second as nat, 2)
            + seq!['.'] + padded(self.millisecond as nat, 3) + seq!['Z']
    }
}

/// The date and time part `YYYY-MM-DDTHH:MM:SS` is laid out right.
pub open spec fn has_date_time_shape(s: Seq<char>) -> bool {
    &&& s.len() >= 20
    &&& all_digits(s, 0, 4)
    &&& s[4] == '-'
    &&& all_digits(s, 5, 7)
    &&& s[7] == '-'
    &&& all_digits(s, 8, 10)
    &&& s[10] == 'T'
    &&& all_digits(s, 11, 13)
    &&& s[13] == ':'
    &&& all_digits(s, 14, 16)
    &&& s[16] == ':'
    &&& all_digits(s, 17, 19)
}

/// After the seconds: `Z`, or `.` with three digits and `Z`.
pub open spec fn has_zone_shape(s: Seq<char>) -> bool {
    ||| s.len() == 20 && s[19] == 'Z'
    ||| s.len() == 24 && s[19] == '.' && all_digits(s, 20, 23) && s[23] == 'Z'
}

pub open spec fn millisecond_of(s: Seq<char>) -> int {
    if s.len() == 24 { field_value(s, 20, 23) } else { 0 }
}

/// The timestamp that a wire string denotes, if it denotes one.
pub open spec fn parse_timestamp(s: Seq<char>) -> Option<Timestamp> {
    if has_date_time_shape(s) && has_zone_shape(s) {
        let t = Timestamp {
            year: field_value(s, 0, 4) as u32,
            month: field_value(s, 5, 7) as u32,
            day: field_value(s, 8, 10) as u32,
            hour: field_value(s, 11, 13) as u32,
            minute: field_value(s, 14, 16) as u32,
            second: field_value(s, 17, 19) as u32,
            millisecond: millisecond_of(s) as u32,
        };
        if t.valid() { Some(t) } else { None }
    } else {
        None
    }
}


proof fn lemma_digit_char(d: int)
    requires
        0 <= d < 10,
    ensures
        is_digit(digit_char(d)),
        digit_value(digit_char(d)) == d,
{
}

proof fn lemma_padded(n: nat, k: nat)
    requires
        n < pow10(k),
    ensures
        padded(n, k).len() == k,
        all_digits(padded(n, k), 0, k as int),
        number_value(padded(n, k)) == n,
    decreases k,
{
    if k > 0 {
        let k1 = (k - 1) as nat;
        assert(n / 10 < pow10(k1)) by (nonlinear_arith)
            requires
                n < 10 * pow10(k1),
        ;
        lemma_padded(n / 10, k1);
        lemma_digit_char(n as int % 10);
        let s = padded(n, k);
        assert(s.drop_last() =~= padded(n / 10, k1));
        assert(all_digits(s, 0, k as int)) by {
            assert forall|i: int| 0 <= i < k as int implies is_digit(#[trigger] s[i]) by {
                if i < k1 {
                    assert(s[i] == padded(n / 10, k1)[i]);
                }
            }
        }
        assert(n == (n / 10) * 10 + n % 10) by (nonlinear_arith);
    }
}

/// Formatting a valid timestamp and parsing the result gives back the same
/// timestamp.
pub proof fn lemma_wire_round_trip(t: Timestamp)
    requires
        t.valid(),
    ensures
        parse_timestamp(t.wire_form()) == Some(t),
{
    reveal_with_fuel(pow10, 5);
    lemma_padded(t.year as nat, 4);
    lemma_padded(t.month as nat, 2);
    lemma_padded(t.day as nat, 2);
    lemma_padded(t.hour as nat, 2);
    lemma_padded(t.minute as nat, 2);
    lemma_padded(t.second as nat, 2);
    lemma_padded(t.millisecond as nat, 3);
    let s = t.wire_form();
    assert(s.len() == 24);
    assert(s.subrange(0, 4) =~= padded(t.year as nat, 4));
    assert(s.subrange(5, 7) =~= padded(t.month as nat, 2));
    assert(s.subrange(8, 10) =~= padded(t.day as nat, 2));
    assert(s.subrange(11, 13) =~= padded(t.hour as nat, 2));
    assert(s.subrange(14, 16) =~= padded(t.minute as nat, 2));
    assert(s.subrange(17, 19) =~= padded(t.second as nat, 2));
    assert(s.subrange(20, 23) =~= padded(t.millisecond as nat, 3));
    assert(all_digits(s, 0, 4)) by {
        assert forall|i: int| 0 <= i < 4 implies is_digit(#[trigger] s[i]) by {
            assert(s[i] == s.subrange(0, 4)[i]);
        }
    }
    assert(all_digits(s, 5, 7)) by {
        assert forall|i: int| 5 <= i < 7 implies is_digit(#[trigger] s[i]) by {
            assert(s[i] == s.subrange(5, 7)[i - 5]);
        }
    }
    assert(all_digits(s, 8, 10)) by {
        assert forall|i: int| 8 <= i < 10 implies is_digit(#[trigger] s[i]) by {
            assert(s[i] == s.subrange(8, 10)[i - 8]);
        }
    }
    assert(all_digits(s, 11, 13)) by {
        assert forall|i: int| 11 <= i < 13 implies is_digit(#[trigger] s[i]) by {
            assert(s[i] == s.subrange(11, 13)[i - 11]);
        }
    }
    assert(all_digits(s, 14, 16)) by {
        assert forall|i: int| 14 <= i < 16 implies is_digit(#[trigger] s[i]) by {
            assert(s[i] == s.subrange(14, 16)[i - 14]);
        }
    }
    assert(all_digits(s, 17, 19)) by {
        assert forall|i: int| 17 <= i < 19 implies is_digit(#[trigger] s[i]) by {
            assert(s[i] == s.subrange(17, 19)[i - 17]);
        }
    }
    assert(all_digits(s, 20, 23)) by {
        assert forall|i: int| 20 <= i < 23 implies is_digit(#[trigger] s[i]) by {
            assert(s[i] == s.subrange(20, 23)[i - 20]);
        }
    }
}


pub(crate) fn digit_str(d: u32) -> (r: &'static str)
    requires
        d < 10,
    ensures
        r@ == seq![digit_char(d as int)],
{
    proof {
        reveal_strlit("0");
        reveal_strlit("1");
        reveal_strlit("2");
        reveal_strlit("3");
        reveal_strlit("4");
        reveal_strlit("5");
        reveal_strlit("6");
        reveal_strlit("7");
        reveal_strlit("8");
        reveal_strlit("9");
    }
    match d {
        0 => "0",
        1 => "1",
        2 => "2",
        3 => "3",
        4 => "4",
        5 => "5",
        6 => "6",
        7 => "7",
        8 => "8",
        _ => "9",
    }
}

/// Appends the last `k` decimal digits of `n`, zero-padded.
fn append_padded(out: &mut String, n: u64, k: u32)
    ensures
        final(out)@ == old(out)@ + padded(n as nat, k as nat),
    decreases k,
{
    if k > 0 {
        append_padded(out, n / 10, k - 1);
        out.append(digit_str((n % 10) as u32));
        proof {
            assert(old(out)@ + padded(n as nat, k as nat) =~= old(out)@ + padded(
                (n / 10) as nat,
                (k - 1) as nat,
            ) + seq![digit_char(n as int % 10)]);
        }
    }
}

fn append_char(out: &mut String, c: &str)
    ensures
        final(out)@ == old(out)@ + c@,
{
    out.append(c);
}

/// Reads the digits at `lo .. hi` as a number; `None` where one is no digit.
fn read_field(s: &str, lo: usize, hi: usize) -> (r: Option<u32>)
    requires
        lo <= hi <= s@.len(),
        hi - lo <= 4,
    ensures
        r matches Some(v) <==> all_digits(s@, lo as int, hi as int),
        r matches Some(v) ==> v == field_value(s@, lo as int, hi as int),
{
    let mut v: u32 = 0;
    let mut i: usize = lo;
    while i < hi
        invariant
            lo <= i <= hi <= s@.len(),
            hi - lo <= 4,
            all_digits(s@, lo as int, i as int),
            v == field_value(s@, lo as int, i as int),
            v < pow10((i - lo) as nat),
        decreases hi - i,
    {
        let c = s.get_char(i);
        if c < '0' || c > '9' {
            return None;
        }
        proof {
            reveal_with_fuel(pow10, 5);
            assert(s@.subrange(lo as int, i + 1).drop_last() =~= s@.subrange(lo as int, i as int));
        }
        let d: u32 = (c as u32) - ('0' as u32);
        assert(v * 10 + d < pow10((i + 1 - lo) as nat)) by (nonlinear_arith)
            requires
                v < pow10((i - lo) as nat),
                pow10((i + 1 - lo) as nat) == 10 * pow10((i - lo) as nat),
                d < 10,
        ;
        v = v * 10 + d;
        i = i + 1;
    }
    Some(v)
}

fn exec_days_in_month(y: u32, m: u32) -> (r: u32)
    ensures
        r == days_in_month(y as int, m as int),
{
    if m == 2 {
        if (y % 4 == 0 && y % 100 != 0) || y % 400 == 0 { 29 } else { 28 }
    } else if m == 4 || m == 6 || m == 9 || m == 11 {
        30
    } else {
        31
    }
}

impl Timestamp {
    /// Whether the fields name a real calendar instant.
    pub fn is_valid(&self) -> (r: bool)
        ensures
            r == self.valid(),
    {
        self.year <= 9999 && 1 <= self.month && self.month <= 12 && 1 <= self.day && self.day
            <= exec_days_in_month(self.year, self.month) && self.hour < 24 && self.minute < 60
            && self.second < 60 && self.millisecond < 1000
    }

    /// Parses the wire form; `None` where the text is no valid timestamp.
    pub fn parse(s: &str) -> (r: Option<Timestamp>)
        ensures
            r == parse_timestamp(s@),
    {
        let n = s.unicode_len();
        if n != 20 && n != 24 {
            return None;
        }
        if s.get_char(4) != '-' || s.get_char(7) != '-' || s.get_char(10) != 'T' || s.get_char(13)
            != ':' || s.get_char(16) != ':' {
            return None;
        }
        let millisecond = if n == 24 {
            if s.get_char(19) != '.' || s.get_char(23) != 'Z' {
                return None;
            }
            match read_field(s, 20, 23) {
                Some(v) => v,
                None => return None,
            }
        } else {
            if s.get_char(19) != 'Z' {
                return None;
            }
            0
        };
        let year = match read_field(s, 0, 4) {
            Some(v) => v,
            None => return None,
        };
        let month = match read_field(s, 5, 7) {
            Some(v) => v,
            None => return None,
        };
        let day = match read_field(s, 8, 10) {
            Some(v) => v,
            None => return None,
        };
        let hour = match read_field(s, 11, 13) {
            Some(v) => v,
            None => return None,
        };
        let minute = match read_field(s, 14, 16) {
            Some(v) => v,
            None => return None,
        };
        let second = match read_field(s, 17, 19) {
            Some(v) => v,
            None => return None,
        };
        let t = Timestamp { year, month, day, hour, minute, second, millisecond };
        if t.is_valid() {
            Some(t)
        } else {
            None
        }
    }

    /// The wire form `YYYY-MM-DDTHH:MM:SS.mmmZ`.
    pub fn format(&self) -> (r: String)
        ensures
            r@ == self.wire_form(),
    {
        let mut out = String::new();
        append_padded(&mut out, self.year as u64, 4);
        append_char(&mut out, "-");
        append_padded(&mut out, self.month as u64, 2);
        append_char(&mut out, "-");
        append_padded(&mut out, self.day as u64, 2);
        append_char(&mut out, "T");
        append_padded(&mut out, self.hour as u64, 2);
        append_char(&mut out, ":");
        append_padded(&mut out, self.minute as u64, 2);
        append_char(&mut out, ":");
        append_padded(&mut out, self.second as u64, 2);
        append_char(&mut out, ".");
        append_padded(&mut out, self.millisecond as u64, 3);
        append_char(&mut out, "Z");
        proof {
            reveal_strlit("-");
            reveal_strlit("T");
            reveal_strlit(":");
            reveal_strlit(".");
            reveal_strlit("Z");
            assert(out@ =~= self.wire_form());
        }
        out
    }
}

} // verus!

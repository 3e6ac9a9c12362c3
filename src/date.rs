use vstd::prelude::*;
use chrono::Datelike;

verus! {

/// Leap years of the proleptic Gregorian calendar.
pub open spec fn is_leap_year(year: int) -> bool {
    (year % 4 == 0 && year % 100 != 0) || year % 400 == 0
}

/// Number of days in `month` (1 to 12) of `year`.
pub open spec fn days_in_month(year: int, month: int) -> int {
    if month == 2 {
        if is_leap_year(year) { 29 } else { 28 }
    } else if month == 4 || month == 6 || month == 9 || month == 11 {
        30
    } else {
        31
    }
}

/// A day that exists in the proleptic Gregorian calendar.
pub open spec fn is_valid_date(year: int, month: int, day: int) -> bool {
    1 <= month <= 12 && 1 <= day <= days_in_month(year, month)
}

/// A calendar date, with no time of day and no time zone.
#[derive(Clone, Copy, Debug, PartialEq, Eq, Structural)]
pub struct CalendarDate {
    pub year: i32,
    pub month: u32,
    pub day: u32,
}

impl CalendarDate {
    pub open spec fn wf(&self) -> bool {
        is_valid_date(self.year as int, self.month as int, self.day as int)
    }

    /// The date `year-month-day`, or `None` where no such day exists.
    pub fn new(year: i32, month: u32, day: u32) -> (r: Option<CalendarDate>)
        ensures
            r is Some <==> is_valid_date(year as int, month as int, day as int),
            r is Some ==> r->0 == (CalendarDate { year, month, day }),
    {
        if month < 1 || month > 12 || day < 1 || day > month_length(year, month) {
            None
        } else {
            Some(CalendarDate { year, month, day })
        }
    }

    /// The ISO 8601 text of the date, `YYYY-MM-DD`.
    pub fn iso_string(&self) -> (r: String)
        requires
            self.wf(),
        ensures
            r@ == iso_text(*self),
    {
        let mut out = String::new();
        proof {
            reveal_strlit("");
            reveal_strlit("-");
            reveal_strlit("+");
        }
        if 0 <= self.year && self.year <= 9999 {
            push_decimal(&mut out, self.year as u32, 4);
        } else {
            if self.year < 0 {
                out.append("-");
            } else {
                out.append("+");
            }
            let magnitude: u32 = if self.year < 0 { (-(self.year as i64)) as u32 } else { self.year as u32 };
            push_decimal(&mut out, magnitude, 4);
        }
        out.append("-");
        push_decimal(&mut out, self.month, 2);
        out.append("-");
        push_decimal(&mut out, self.day, 2);
        proof {
            assert(out@ =~= iso_text(*self));
        }
        out
    }
}

/// Days in the month, as [`days_in_month`] gives them.
fn month_length(year: i32, month: u32) -> (r: u32)
    requires
        1 <= month <= 12,
    ensures
        r as int == days_in_month(year as int, month as int),
{
    if month == 2 {
        let leap = (year % 4 == 0 && year % 100 != 0) || year % 400 == 0;
        if leap { 29 } else { 28 }
    } else if month == 4 || month == 6 || month == 9 || month == 11 {
        30
    } else {
        31
    }
}

/// The character of a decimal digit.
pub open spec fn digit_char(d: int) -> char {
    if d == 0 { '0' }
    else if d == 1 { '1' }
    else if d == 2 { '2' }
    else if d == 3 { '3' }
    else if d == 4 { '4' }
    else if d == 5 { '5' }
    else if d == 6 { '6' }
    else if d == 7 { '7' }
    else if d == 8 { '8' }
    else { '9' }
}

/// The decimal digits of `n`, with leading zeros up to `width` digits.
pub open spec fn padded_decimal(n: nat, width: nat) -> Seq<char>
    decreases n + width,
{
    if n < 10 && width <= 1 {
        seq![digit_char(n as int)]
    } else {
        padded_decimal(n / 10, if width > 0 { (width - 1) as nat } else { 0 }) + seq![
            digit_char(n as int % 10),
        ]
    }
}

/// The year as ISO 8601 writes it: four digits for years 0 to 9999, otherwise a sign
/// followed by at least four digits.
pub open spec fn year_text(year: int) -> Seq<char> {
    if 0 <= year <= 9999 {
        padded_decimal(year as nat, 4)
    } else if year < 0 {
        seq!['-'] + padded_decimal((-year) as nat, 4)
    } else {
        seq!['+'] + padded_decimal(year as nat, 4)
    }
}

/// The ISO 8601 calendar-date text, e.g. `2024-06-04`.
pub open spec fn iso_text(d: CalendarDate) -> Seq<char> {
    year_text(d.year as int) + seq!['-'] + padded_decimal(d.month as nat, 2) + seq!['-']
        + padded_decimal(d.day as nat, 2)
}

pub open spec fn is_digit_char(c: char) -> bool {
    '0' <= c <= '9'
}

/// Padded decimals are non-empty strings of digits.
proof fn lemma_padded_digits(n: nat, width: nat)
    ensures
        padded_decimal(n, width).len() >= 1,
        forall|i: int| 0 <= i < padded_decimal(n, width).len() ==> is_digit_char(#[trigger] padded_decimal(n, width)[i]),
    decreases n + width,
{
    if !(n < 10 && width <= 1) {
        lemma_padded_digits(n / 10, if width > 0 { (width - 1) as nat } else { 0 });
    }
}

/// Two decimals of the same width that read alike are the same number.
proof fn lemma_padded_injective(n: nat, m: nat, width: nat)
    requires
        padded_decimal(n, width) == padded_decimal(m, width),
    ensures
        n == m,
    decreases n + width,
{
    let rest: nat = if width > 0 { (width - 1) as nat } else { 0 };
    let base_n = n < 10 && width <= 1;
    let base_m = m < 10 && width <= 1;
    if !base_n {
        lemma_padded_digits(n / 10, rest);
    }
    if !base_m {
        lemma_padded_digits(m / 10, rest);
    }
    let s = padded_decimal(n, width);
    if base_n && base_m {
        assert(s[0] == digit_char(n as int));
        assert(s[0] == digit_char(m as int));
    } else if !base_n && !base_m {
        let last = s.len() - 1;
        assert(s[last] == digit_char(n as int % 10));
        assert(s[last] == digit_char(m as int % 10));
        assert(s.drop_last() =~= padded_decimal(n / 10, rest));
        assert(s.drop_last() =~= padded_decimal(m / 10, rest));
        lemma_padded_injective(n / 10, m / 10, rest);
    }
}

/// Every character of a date's ISO text is a digit, a dash or a plus sign.
pub proof fn lemma_iso_chars(d: CalendarDate)
    ensures
        forall|i: int| 0 <= i < iso_text(d).len() ==> {
            let c = #[trigger] iso_text(d)[i];
            is_digit_char(c) || c == '-' || c == '+'
        },
{
    lemma_padded_digits(d.month as nat, 2);
    lemma_padded_digits(d.day as nat, 2);
    let y = d.year as int;
    if 0 <= y <= 9999 {
        lemma_padded_digits(y as nat, 4);
    } else if y < 0 {
        lemma_padded_digits((-y) as nat, 4);
    } else {
        lemma_padded_digits(y as nat, 4);
    }
}

/// Two-digit decimals of numbers below one hundred.
proof fn lemma_two_digits(n: nat)
    requires
        n < 100,
    ensures
        padded_decimal(n, 2) == seq![digit_char((n / 10) as int), digit_char(n as int % 10)],
{
    assert(padded_decimal((n / 10) as nat, 1) == seq![digit_char((n / 10) as int)]);
    assert(padded_decimal(n, 2) =~= seq![digit_char((n / 10) as int), digit_char(n as int % 10)]);
}

/// A valid date's ISO text determines the date.
pub proof fn lemma_iso_text_injective(a: CalendarDate, b: CalendarDate)
    requires
        a.wf(),
        b.wf(),
        iso_text(a) == iso_text(b),
    ensures
        a == b,
{
    let s = iso_text(a);
    let ya = year_text(a.year as int);
    let yb = year_text(b.year as int);
    lemma_two_digits(a.month as nat);
    lemma_two_digits(a.day as nat);
    lemma_two_digits(b.month as nat);
    lemma_two_digits(b.day as nat);
    assert(iso_text(a).len() == ya.len() + 6);
    assert(iso_text(b).len() == yb.len() + 6);
    assert(ya.len() == yb.len());
    assert(ya =~= s.subrange(0, ya.len() as int));
    assert(yb =~= s.subrange(0, ya.len() as int));
    let k = ya.len() as int;
    assert(s[k + 1] == digit_char((a.month / 10) as int) && s[k + 1] == digit_char((b.month / 10) as int));
    assert(s[k + 2] == digit_char((a.month % 10) as int) && s[k + 2] == digit_char((b.month % 10) as int));
    assert(s[k + 4] == digit_char((a.day / 10) as int) && s[k + 4] == digit_char((b.day / 10) as int));
    assert(s[k + 5] == digit_char((a.day % 10) as int) && s[k + 5] == digit_char((b.day % 10) as int));
    assert(a.month == b.month);
    assert(a.day == b.day);
    let y1 = a.year as int;
    let y2 = b.year as int;
    lemma_iso_chars(a);
    if 0 <= y1 <= 9999 {
        lemma_padded_digits(y1 as nat, 4);
    } else if y1 < 0 {
        lemma_padded_digits((-y1) as nat, 4);
    } else {
        lemma_padded_digits(y1 as nat, 4);
    }
    if 0 <= y2 <= 9999 {
        lemma_padded_digits(y2 as nat, 4);
    } else if y2 < 0 {
        lemma_padded_digits((-y2) as nat, 4);
    } else {
        lemma_padded_digits(y2 as nat, 4);
    }
    assert(is_digit_char(ya[0]) == (0 <= y1 <= 9999));
    assert(is_digit_char(yb[0]) == (0 <= y2 <= 9999));
    if 0 <= y1 <= 9999 {
        lemma_padded_injective(y1 as nat, y2 as nat, 4);
    } else if y1 < 0 {
        assert(ya.drop_first() =~= padded_decimal((-y1) as nat, 4));
        assert(yb.drop_first() =~= padded_decimal((-y2) as nat, 4));
        lemma_padded_injective((-y1) as nat, (-y2) as nat, 4);
    } else {
        assert(ya.drop_first() =~= padded_decimal(y1 as nat, 4));
        assert(yb.drop_first() =~= padded_decimal(y2 as nat, 4));
        lemma_padded_injective(y1 as nat, y2 as nat, 4);
    }
}

fn digit_str(d: u32) -> (r: &'static str)
    requires
        d < 10,
    ensures
        r@ == seq![digit_char(d as int)],
{
    proof {
        reveal_strlit("0");
        reveal_strlit("1");
        reveal_strlit("2");
        reveal_strlit("3");
        reveal_strlit("4");
        reveal_strlit("5");
        reveal_strlit("6");
        reveal_strlit("7");
        reveal_strlit("8");
        reveal_strlit("9");
    }
    if d == 0 { "0" }
    else if d == 1 { "1" }
    else if d == 2 { "2" }
    else if d == 3 { "3" }
    else if d == 4 { "4" }
    else if d == 5 { "5" }
    else if d == 6 { "6" }
    else if d == 7 { "7" }
    else if d == 8 { "8" }
    else { "9" }
}

/// Appends the digits of `n`, zero-padded to `width`.
fn push_decimal(out: &mut String, n: u32, width: u32)
    ensures
        final(out)@ == old(out)@ + padded_decimal(n as nat, width as nat),
    decreases n + width,
{
    if n < 10 && width <= 1 {
        out.append(digit_str(n));
    } else {
        let rest: u32 = if width > 0 { width - 1 } else { 0 };
        push_decimal(out, n / 10, rest);
        out.append(digit_str(n % 10));
        assert(final(out)@ =~= old(out)@ + padded_decimal(n as nat, width as nat));
    }
}

/// The date that `text` spells out in the strftime-style `format`, as (year, month, day),
/// or `None` where the text does not match the format or names no real day.
pub uninterp spec fn parsed_date_of(text: Seq<char>, format: Seq<char>) -> Option<(int, int, int)>;

/// Relies on chrono's `NaiveDate::parse_from_str`: it reads `text` against `format`, and
/// every `NaiveDate` it returns is a real day of the proleptic Gregorian calendar. The
/// error is chrono's description of why the text did not match.
#[verifier::external_body]
fn parse_date_with(text: &str, format: &str) -> (r: Result<(i32, u32, u32), String>)
    ensures
        match r {
            Ok(t) => parsed_date_of(text@, format@) == Some((t.0 as int, t.1 as int, t.2 as int))
                && is_valid_date(t.0 as int, t.1 as int, t.2 as int),
            Err(_) => parsed_date_of(text@, format@) is None,
        },
{
    match chrono::NaiveDate::parse_from_str(text, format) {
        Ok(d) => Ok((d.year(), d.month(), d.day())),
        Err(e) => Err(format!("{}", e)),
    }
}

/// The long-form format of collection dates: full weekday name, day of the month, full
/// month name and year, e.g. `Tuesday 04 June 2024`.
pub open spec fn long_date_format() -> Seq<char> {
    seq!['%', 'A', ' ', '%', 'd', ' ', '%', 'B', ' ', '%', 'Y']
}

/// Why a date text could not be read.
#[derive(Clone, Debug, PartialEq, Eq)]
pub struct DateError {
    pub detail: String,
}

impl DateError {
    /// The diagnostic that reports this error.
    pub fn message(&self) -> (r: String)
        ensures
            r@ == "Error parsing date: "@ + self.detail@,
    {
        proof {
            reveal_strlit("Error parsing date: ");
        }
        let mut r = String::from_str("Error parsing date: ");
        r.append(self.detail.as_str());
        r
    }
}

/// Turns what the date parser returned into a [`CalendarDate`]; the parser's error text is
/// kept as the error's detail, and a triple that names no real day is refused.
pub fn date_from_parsed(parsed: Result<(i32, u32, u32), String>) -> (r: Result<CalendarDate, DateError>)
    ensures
        match parsed {
            Ok(t) => if is_valid_date(t.0 as int, t.1 as int, t.2 as int) {
                r == Ok::<CalendarDate, DateError>(CalendarDate { year: t.0, month: t.1, day: t.2 })
            } else {
                r is Err
            },
            Err(e) => r is Err && r->Err_0.detail@ == e@,
        },
{
    match parsed {
        Ok(t) => match CalendarDate::new(t.0, t.1, t.2) {
            Some(d) => Ok(d),
            None => {
                proof {
                    reveal_strlit("input is out of range");
                }
                Err(DateError { detail: String::from_str("input is out of range") })
            },
        },
        Err(e) => Err(DateError { detail: e }),
    }
}

/// Reads a collection date written in the long form, e.g. `Tuesday 04 June 2024`.
pub fn extract_date(input: &str) -> (r: Result<CalendarDate, DateError>)
    ensures
        r is Ok <==> parsed_date_of(input@, long_date_format()) is Some,
        r is Ok ==> r->Ok_0.wf() && parsed_date_of(input@, long_date_format()) == Some(
            (r->Ok_0.year as int, r->Ok_0.month as int, r->Ok_0.day as int),
        ),
{
    proof {
        reveal_strlit("%A %d %B %Y");
        assert("%A %d %B %Y"@ =~= long_date_format());
    }
    date_from_parsed(parse_date_with(input, "%A %d %B %Y"))
}

} // verus!

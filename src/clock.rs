//! Cron expressions: parsing, and the next instant at which one fires.
//!
//! Instants are milliseconds since the Unix epoch, in UTC.
use vstd::prelude::*;

verus! {

#[verifier::external_type_specification]
#[verifier::external_body]
pub struct ExSchedule(cron::Schedule);

#[verifier::external_type_specification]
#[verifier::external_body]
pub struct ExCronError(cron::error::Error);

/// Number of fields in a cron expression: seconds, minutes, hours,
/// day of month, month, day of week.
pub const FIELD_COUNT: usize = 6;

/// The earliest instant accepted: 0000-01-01T00:00:00Z.
pub const EARLIEST_INSTANT_MILLIS: i64 = -62167219200000;

/// The latest instant accepted: 9999-12-31T23:59:59.999Z.
pub const LATEST_INSTANT_MILLIS: i64 = 253402300799999;

/// Whether the cron grammar accepts the expression `s`.
pub uninterp spec fn cron_accepts(s: Seq<char>) -> bool;

pub open spec fn is_separator(c: char) -> bool {
    c == ' ' || c == '\t' || c == '\n' || c == '\r'
}

/// Number of maximal runs of non-separator characters in `s`.
pub open spec fn field_count(s: Seq<char>) -> nat
    decreases s.len(),
{
    if s.len() == 0 {
        0
    } else if is_separator(s.last()) {
        field_count(s.drop_last())
    } else if s.len() == 1 || is_separator(s[s.len() - 2]) {
        field_count(s.drop_last()) + 1
    } else {
        field_count(s.drop_last())
    }
}

pub open spec fn is_digit(c: char) -> bool {
    '0' <= c && c <= '9'
}

/// Position `i` of `s` holds a day of the week written as a lone digit: in
/// the sixth field, not the step after a `/`, and not part of a longer
/// number.
pub open spec fn is_day_digit_at(s: Seq<char>, i: int) -> bool {
    &&& 0 <= i < s.len()
    &&& '0' <= s[i] && s[i] <= '7'
    &&& field_count(s.take(i + 1)) == FIELD_COUNT
    &&& (i == 0 || (s[i - 1] != '/' && !is_digit(s[i - 1])))
    &&& (i + 1 == s.len() || !is_digit(s[i + 1]))
}

/// The digit one above `c`, for `c` in `'0'..='7'`.
pub open spec fn next_digit(c: char) -> char {
    if c == '0' {
        '1'
    } else if c == '1' {
        '2'
    } else if c == '2' {
        '3'
    } else if c == '3' {
        '4'
    } else if c == '4' {
        '5'
    } else if c == '5' {
        '6'
    } else if c == '6' {
        '7'
    } else {
        '8'
    }
}

/// The expression as the cron grammar numbers days of the week. Here Sunday
/// is 0 and Saturday 6; the cron grammar counts them from 1 to 7. So each
/// lone day digit goes up by one, and a 7, which is out of range here,
/// becomes an 8, which is out of range there.
pub open spec fn cron_form(s: Seq<char>) -> Seq<char> {
    Seq::new(s.len(), |i: int| if is_day_digit_at(s, i) { next_digit(s[i]) } else { s[i] })
}

/// What `parse` makes of `s`: the expression itself when it has six fields
/// and the cron grammar accepts its cron form.
pub open spec fn parse_outcome(s: Seq<char>) -> Option<Seq<char>> {
    if field_count(s) == FIELD_COUNT && cron_accepts(cron_form(s)) {
        Some(s)
    } else {
        None
    }
}

#[derive(Debug, Clone, PartialEq, Eq)]
pub enum ParseError {
    /// The expression does not have six fields; `found` is how many it has.
    WrongFieldCount { found: usize },
    /// A field is malformed or out of its range.
    Invalid,
}

/// A parsed six-field cron expression. Two expressions are equal when their
/// source text is equal.
#[derive(Debug)]
pub struct CronExpression {
    source: String,
    schedule: cron::Schedule,
}

impl View for CronExpression {
    type V = Seq<char>;

    closed spec fn view(&self) -> Seq<char> {
        self.source@
    }
}

impl PartialEq for CronExpression {
    fn eq(&self, other: &CronExpression) -> (r: bool) {
        self.source == other.source
    }
}

impl vstd::std_specs::cmp::PartialEqSpecImpl for CronExpression {
    open spec fn obeys_eq_spec() -> bool {
        true
    }

    open spec fn eq_spec(&self, other: &CronExpression) -> bool {
        self@ == other@
    }
}

/// Relies on `cron::Schedule::from_str`: it succeeds exactly on the
/// expressions that the cron grammar accepts.
#[verifier::external_body]
fn schedule_from_str(s: &str) -> (r: Result<cron::Schedule, cron::error::Error>)
    ensures
        r is Ok <==> cron_accepts(s@),
{
    <cron::Schedule as std::str::FromStr>::from_str(s)
}

/// Whether the cron grammar's expression `expr` matches the instant `at`
/// (milliseconds; the match looks at the whole second).
pub uninterp spec fn fires_at(expr: Seq<char>, at: int) -> bool;

/// `t` is the soonest whole second strictly after `now` that the expression
/// matches.
pub open spec fn is_soonest_fire(expr: Seq<char>, now: int, t: int) -> bool {
    &&& t > now
    &&& t % 1000 == 0
    &&& fires_at(cron_form(expr), t)
    &&& forall|u: int| now < u < t && u % 1000 == 0 ==> !#[trigger] fires_at(cron_form(expr), u)
}

/// No whole second after `now`, up to the latest instant accepted, matches
/// the expression.
pub open spec fn never_fires_after(expr: Seq<char>, now: int) -> bool {
    forall|u: int|
        now < u <= LATEST_INSTANT_MILLIS && u % 1000 == 0 ==> !#[trigger] fires_at(cron_form(expr), u)
}

/// Relies on `cron::Schedule::includes`, on the schedule parsed from the
/// cron form of the expression: every field matches the date and time of the
/// instant. Instants go through
/// `chrono::DateTime<Utc>`, which holds every instant in range.
#[verifier::external_body]
fn schedule_includes(expr: &CronExpression, at_millis: i64) -> (r: bool)
    requires
        EARLIEST_INSTANT_MILLIS <= at_millis <= LATEST_INSTANT_MILLIS,
    ensures
        r == fires_at(cron_form(expr@), at_millis as int),
{
    match chrono::DateTime::<chrono::Utc>::from_timestamp_millis(at_millis) {
        Some(at) => expr.schedule.includes(at),
        None => false,
    }
}

/// Relies on `cron::Schedule::after` and the first item of its iterator: the
/// search starts one whole second after the reference instant and walks
/// years, months, days, hours, minutes and seconds upward, so what it yields
/// first is the soonest matching whole second after it. It gives up only
/// after the last year that an expression can match (2100), and
/// `Schedule::includes` matches no later year either. Instants go through
/// `chrono::DateTime<Utc>`, which holds every instant in range.
#[verifier::external_body]
fn schedule_next_after(expr: &CronExpression, now_millis: i64) -> (r: Option<i64>)
    requires
        EARLIEST_INSTANT_MILLIS <= now_millis <= LATEST_INSTANT_MILLIS,
    ensures
        r matches Some(t) ==> is_soonest_fire(expr@, now_millis as int, t as int),
        r is None ==> never_fires_after(expr@, now_millis as int),
{
    let now = chrono::DateTime::<chrono::Utc>::from_timestamp_millis(now_millis)?;
    let next = expr.schedule.after(&now).next()?;
    Some(next.timestamp_millis())
}

/// Counts the fields of `s`.
pub fn count_fields(s: &str) -> (r: usize)
    ensures
        r == field_count(s@),
{
    let n = s.unicode_len();
    let mut count: usize = 0;
    let mut i: usize = 0;
    while i < n
        invariant
            n == s@.len(),
            i <= n,
            count == field_count(s@.take(i as int)),
            count <= i,
        decreases n - i,
    {
        let c = s.get_char(i);
        let prev_sep = i == 0 || is_separator_char(s.get_char(i - 1));
        assert(s@.take(i as int + 1).drop_last() == s@.take(i as int));
        if !is_separator_char(c) && prev_sep {
            count = count + 1;
        }
        i = i + 1;
    }
    assert(s@.take(n as int) == s@);
    count
}

fn is_digit_char(c: char) -> (r: bool)
    ensures
        r == is_digit(c),
{
    '0' <= c && c <= '9'
}

fn next_digit_str(c: char) -> (r: &'static str)
    requires
        '0' <= c && c <= '7',
    ensures
        r@ == seq![next_digit(c)],
{
    if c == '0' {
        proof { reveal_strlit("1"); }
        "1"
    } else if c == '1' {
        proof { reveal_strlit("2"); }
        "2"
    } else if c == '2' {
        proof { reveal_strlit("3"); }
        "3"
    } else if c == '3' {
        proof { reveal_strlit("4"); }
        "4"
    } else if c == '4' {
        proof { reveal_strlit("5"); }
        "5"
    } else if c == '5' {
        proof { reveal_strlit("6"); }
        "6"
    } else if c == '6' {
        proof { reveal_strlit("7"); }
        "7"
    } else {
        proof { reveal_strlit("8"); }
        "8"
    }
}

/// Rewrites the day-of-week digits of `s` as the cron grammar numbers them.
pub fn to_cron_form(s: &str) -> (r: String)
    ensures
        r@ == cron_form(s@),
{
    let n = s.unicode_len();
    let ghost target = cron_form(s@);
    let mut out = String::new();
    let mut count: usize = 0;
    let mut i: usize = 0;
    while i < n
        invariant
            n == s@.len(),
            i <= n,
            target == cron_form(s@),
            count == field_count(s@.take(i as int)),
            count <= i,
            out@ == target.subrange(0, i as int),
        decreases n - i,
    {
        let c = s.get_char(i);
        let prev_sep = i == 0 || is_separator_char(s.get_char(i - 1));
        assert(s@.take(i as int + 1).drop_last() == s@.take(i as int));
        if !is_separator_char(c) && prev_sep {
            count = count + 1;
        }
        let lone_before = i == 0 || {
            let p = s.get_char(i - 1);
            p != '/' && !is_digit_char(p)
        };
        let lone_after = i + 1 == n || !is_digit_char(s.get_char(i + 1));
        if '0' <= c && c <= '7' && count == FIELD_COUNT && lone_before && lone_after {
            out.append(next_digit_str(c));
        } else {
            out.append(s.substring_char(i, i + 1));
        }
        assert(out@ =~= target.subrange(0, i as int + 1));
        i = i + 1;
    }
    assert(target.subrange(0, n as int) =~= target);
    out
}

fn is_separator_char(c: char) -> (r: bool)
    ensures
        r == is_separator(c),
{
    c == ' ' || c == '\t' || c == '\n' || c == '\r'
}

impl CronExpression {
    /// Parses a six-field expression (seconds, minutes, hours, day of month,
    /// month, day of week, with Sunday as 0).
    pub fn parse(s: &str) -> (r: Result<CronExpression, ParseError>)
        ensures
            r is Ok <==> parse_outcome(s@) is Some,
            r matches Ok(e) ==> parse_outcome(s@) == Some(e@),
            r matches Err(ParseError::WrongFieldCount { found }) ==> found == field_count(s@)
                && found != FIELD_COUNT,
            r matches Err(ParseError::Invalid) ==> field_count(s@) == FIELD_COUNT
                && !cron_accepts(cron_form(s@)),
    {
        let found = count_fields(s);
        if found != FIELD_COUNT {
            return Err(ParseError::WrongFieldCount { found });
        }
        let text = to_cron_form(s);
        match schedule_from_str(text.as_str()) {
            Ok(schedule) => Ok(CronExpression { source: String::from_str(s), schedule }),
            Err(_) => Err(ParseError::Invalid),
        }
    }

    /// The canonical text of the expression, which `parse` accepts again.
    pub fn to_text(&self) -> (r: String)
        ensures
            r@ == self@,
    {
        self.source.clone()
    }

    /// The soonest whole second strictly after `now_millis` at which the
    /// expression fires, or `None` when it fires at no whole second after
    /// `now_millis` up to the latest instant accepted.
    pub fn next_after(&self, now_millis: i64) -> (r: Option<i64>)
        requires
            EARLIEST_INSTANT_MILLIS <= now_millis <= LATEST_INSTANT_MILLIS,
        ensures
            r matches Some(t) ==> is_soonest_fire(self@, now_millis as int, t as int),
            r is None ==> never_fires_after(self@, now_millis as int),
    {
        schedule_next_after(self, now_millis)
    }

    /// Whether the expression matches the instant `at_millis`.
    pub fn includes(&self, at_millis: i64) -> (r: bool)
        requires
            EARLIEST_INSTANT_MILLIS <= at_millis <= LATEST_INSTANT_MILLIS,
        ensures
            r == fires_at(cron_form(self@), at_millis as int),
    {
        schedule_includes(self, at_millis)
    }
}

/// Parsing is idempotent: when `s` parses to an expression, the canonical
/// text of that expression parses again to an equal expression.
pub proof fn parse_is_idempotent(s: Seq<char>)
    requires
        parse_outcome(s) is Some,
    ensures
        parse_outcome(parse_outcome(s)->Some_0) == parse_outcome(s),
{
}

} // verus!

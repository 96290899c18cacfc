use vstd::prelude::*;

use size_format::{SizeFormatterBinary, SizeFormatterSI};

use crate::progress::{CumulativeTransferProgress, TransferProgress};
use crate::text::{all_digits, parse_u32, parsed_u32};
use crate::tui::Key;
use crate::unit::Unit;

verus! {

/// What size_format writes for `n` with binary prefixes, with at most
/// `precision` decimals.
pub uninterp spec fn binary_size_text(n: u64, precision: usize) -> Seq<char>;

/// What size_format writes for `n` with SI prefixes, with at most
/// `precision` decimals.
pub uninterp spec fn si_size_text(n: u64, precision: usize) -> Seq<char>;

/// The number of decimals size_format writes when none is asked for.
pub const DEFAULT_PRECISION: usize = 1;

/// Relies on size_format's `SizeFormatterBinary` display: `n` with a binary
/// prefix and at most `precision` decimals, which depends on these alone.
#[verifier::external_body]
fn binary_size(n: u64, precision: usize) -> (r: String)
    ensures
        r@ == binary_size_text(n, precision),
{
    format!("{:.*}", precision, SizeFormatterBinary::new(n))
}

/// Relies on size_format's `SizeFormatterSI` display: `n` with an SI prefix
/// and at most `precision` decimals, which depends on these alone.
#[verifier::external_body]
fn si_size(n: u64, precision: usize) -> (r: String)
    ensures
        r@ == si_size_text(n, precision),
{
    format!("{:.*}", precision, SizeFormatterSI::new(n))
}

/// The decimal digit `d`, below ten.
pub open spec fn digit_char(d: int) -> char {
    if d == 0 {
        '0'
    } else if d == 1 {
        '1'
    } else if d == 2 {
        '2'
    } else if d == 3 {
        '3'
    } else if d == 4 {
        '4'
    } else if d == 5 {
        '5'
    } else if d == 6 {
        '6'
    } else if d == 7 {
        '7'
    } else if d == 8 {
        '8'
    } else {
        '9'
    }
}

/// `n` written in base ten, without leading zeros.
pub open spec fn decimal_digits(n: nat) -> Seq<char>
    decreases n,
{
    if n < 10 {
        seq![digit_char(n as int)]
    } else {
        decimal_digits(n / 10).push(digit_char((n % 10) as int))
    }
}

/// Relies on std's `Display` for `u64`: `n` in base ten, without leading
/// zeros.
#[verifier::external_body]
fn decimal_text(n: u64) -> (r: String)
    ensures
        r@ == decimal_digits(n as nat),
{
    format!("{}", n)
}

/// Relies on std's `String::push`: `c` is added at the end.
#[verifier::external_body]
fn push_char(s: &mut String, c: char)
    ensures
        final(s)@ == old(s)@.push(c),
{
    s.push(c)
}

/// Relies on std's `String::pop`: the last character is taken off, if any.
#[verifier::external_body]
fn pop_char(s: &mut String) -> (r: Option<char>)
    ensures
        old(s)@.len() == 0 ==> r is None && final(s)@ == old(s)@,
        old(s)@.len() > 0 ==> r == Some(old(s)@.last()) && final(s)@ == old(s)@.drop_last(),
{
    s.pop()
}

/// Relies on std's `String::push_str`: `t` is added at the end.
#[verifier::external_body]
fn push_text(s: &mut String, t: &str)
    ensures
        final(s)@ == old(s)@ + t@,
{
    s.push_str(t)
}

/// `n` in base ten on at least two digits.
pub open spec fn two_digits(n: nat) -> Seq<char> {
    if n < 10 {
        seq!['0'] + decimal_digits(n)
    } else {
        decimal_digits(n)
    }
}

/// A span of `secs` seconds as hours, minutes and seconds: `h:mm:ss`.
pub open spec fn duration_text(secs: nat) -> Seq<char> {
    decimal_digits(secs / 3600) + seq![':'] + two_digits((secs / 60) % 60) + seq![':']
        + two_digits(secs % 60)
}

fn push_two_digits(s: &mut String, n: u64)
    ensures
        final(s)@ == old(s)@ + two_digits(n as nat),
{
    if n < 10 {
        push_char(s, '0');
    }
    let d = decimal_text(n);
    push_text(s, d.as_str());
}

/// Writes a span of `secs` seconds as `h:mm:ss`.
pub fn format_duration(secs: u64) -> (r: String)
    ensures
        r@ == duration_text(secs as nat),
{
    let hours = secs / 3600;
    let minutes = (secs / 60) % 60;
    let seconds = secs % 60;
    let mut text = decimal_text(hours);
    push_char(&mut text, ':');
    push_two_digits(&mut text, minutes);
    push_char(&mut text, ':');
    push_two_digits(&mut text, seconds);
    assert(text@ =~= duration_text(secs as nat));
    text
}

/// The short name of `unit`: `B`, `L` or `#`.
pub open spec fn abbreviation(unit: Unit) -> &'static str {
    match unit {
        Unit::Byte => "B",
        Unit::Line => "L",
        Unit::Null => "#",
    }
}

/// The short name of `unit`: `B`, `L` or `#`.
pub fn abbreviate(unit: Unit) -> (r: &'static str)
    ensures
        r == abbreviation(unit),
{
    match unit {
        Unit::Byte => "B",
        Unit::Line => "L",
        Unit::Null => "#",
    }
}

/// The counter of `p` that `unit` measures.
pub open spec fn scalar_of(p: TransferProgress, unit: Unit) -> usize {
    match unit {
        Unit::Byte => p.bytes_transferred,
        Unit::Line => p.lines_transferred,
        Unit::Null => p.nulls_transferred,
    }
}

/// The text of a rate of `p` in `unit`: the measured counter with its
/// prefix, and the unit per second, in brackets.
pub open spec fn rate_text(p: TransferProgress, unit: Unit) -> Seq<char> {
    match unit {
        Unit::Byte => seq!['['] + binary_size_text(p.bytes_transferred as u64, DEFAULT_PRECISION) + seq![
            'B',
            '/',
            's',
            ']',
        ],
        Unit::Line => seq!['['] + si_size_text(p.lines_transferred as u64, DEFAULT_PRECISION) + seq![
            'L',
            '/',
            's',
            ']',
        ],
        Unit::Null => seq!['['] + si_size_text(p.nulls_transferred as u64, DEFAULT_PRECISION) + seq![
            '#',
            '/',
            's',
            ']',
        ],
    }
}

/// The counter of `p` that `unit` measures, as text with two decimals and
/// the unit's short name; where the unit is not the byte, the bytes follow
/// in parentheses. Then comes the time taken, `elapsed_secs` seconds.
pub open spec fn absolute_text_of(p: TransferProgress, unit: Unit, elapsed_secs: u64) -> Seq<
    char,
> {
    let bytes = binary_size_text(p.bytes_transferred as u64, DEFAULT_PRECISION);
    let time = duration_text(elapsed_secs as nat);
    match unit {
        Unit::Byte => binary_size_text(p.bytes_transferred as u64, 2) + seq!['B', ' '] + time,
        Unit::Line => si_size_text(p.lines_transferred as u64, 2) + seq!['L', ' ', '('] + bytes
            + seq!['B', ')', ' '] + time,
        Unit::Null => si_size_text(p.nulls_transferred as u64, 2) + seq!['#', ' ', '('] + bytes
            + seq!['B', ')', ' '] + time,
    }
}

/// The progress so far as text, such as `1.50KiB 0:00:07` or
/// `12L (1.5KiB) 0:00:07`.
pub fn absolute_text(p: TransferProgress, unit: Unit, elapsed_secs: u64) -> (r: String)
    ensures
        r@ == absolute_text_of(p, unit, elapsed_secs),
{
    let mut text = match unit {
        Unit::Byte => binary_size(p.bytes_transferred as u64, 2),
        Unit::Line => si_size(p.lines_transferred as u64, 2),
        Unit::Null => si_size(p.nulls_transferred as u64, 2),
    };
    push_text(&mut text, abbreviate(unit));
    proof {
        reveal_strlit("B");
        reveal_strlit("L");
        reveal_strlit("#");
    }
    push_char(&mut text, ' ');
    if !matches!(unit, Unit::Byte) {
        push_char(&mut text, '(');
        let bytes = binary_size(p.bytes_transferred as u64, DEFAULT_PRECISION);
        push_text(&mut text, bytes.as_str());
        push_char(&mut text, 'B');
        push_char(&mut text, ')');
        push_char(&mut text, ' ');
    }
    let time = format_duration(elapsed_secs);
    push_text(&mut text, time.as_str());
    assert(text@ =~= absolute_text_of(p, unit, elapsed_secs));
    text
}

/// A rate seen on the stream, in a unit, against the limit if any.
pub struct ObservedRateView(pub TransferProgress, pub Unit, Option<u32>);

impl ObservedRateView {
    /// The largest distance from the limit, in units, that counts as at the
    /// limit.
    pub const ABSOLUTE_TOLERANCE: usize = 1;

    /// The limit, if any.
    pub closed spec fn spec_limit(&self) -> Option<u32> {
        self.2
    }

    /// The rate seen.
    pub closed spec fn spec_progress(&self) -> TransferProgress {
        self.0
    }

    /// The unit of the rate.
    pub closed spec fn spec_unit(&self) -> Unit {
        self.1
    }

    /// A view of `progress` in `unit`, against `limit`.
    pub fn new(progress: TransferProgress, unit: Unit, limit: Option<u32>) -> (r: Self)
        ensures
            r.spec_progress() == progress,
            r.spec_unit() == unit,
            r.spec_limit() == limit,
    {
        ObservedRateView(progress, unit, limit)
    }

    /// The counter that the unit measures.
    pub fn scalar_progress(&self) -> (r: usize)
        ensures
            r == scalar_of(self.spec_progress(), self.spec_unit()),
    {
        match self.1 {
            Unit::Byte => self.0.bytes_transferred,
            Unit::Line => self.0.lines_transferred,
            Unit::Null => self.0.nulls_transferred,
        }
    }

    /// Against a limit: whether the rate reached it, and how far from it the
    /// rate is.
    pub fn distance_from_limit(&self) -> (r: Option<(bool, usize)>)
        ensures
            self.spec_limit() is None ==> r is None,
            self.spec_limit() matches Some(l) ==> r == Some(
                (
                    scalar_of(self.spec_progress(), self.spec_unit()) >= l,
                    (if scalar_of(self.spec_progress(), self.spec_unit()) >= l {
                        scalar_of(self.spec_progress(), self.spec_unit()) - l
                    } else {
                        l - scalar_of(self.spec_progress(), self.spec_unit())
                    }) as usize,
                ),
            ),
    {
        match self.2 {
            Some(limit) => {
                let scalar = self.scalar_progress();
                let limit = limit as usize;
                if scalar >= limit {
                    Some((true, scalar - limit))
                } else {
                    Some((false, limit - scalar))
                }
            },
            None => None,
        }
    }

    /// Whether the rate is at its limit: it reached it, is within one unit
    /// of it, or within a tenth of it.
    pub fn saturated(&self) -> (r: bool)
        ensures
            self.spec_limit() is None ==> !r,
            self.spec_limit() matches Some(l) ==> r == {
                let s = scalar_of(self.spec_progress(), self.spec_unit()) as int;
                let d = if s >= l {
                    s - l
                } else {
                    l - s
                };
                s >= l || d <= 1 || d * 10 <= l
            },
    {
        match self.distance_from_limit() {
            Some((exceeded, distance)) => {
                let limit = match self.2 {
                    Some(l) => l as usize,
                    None => 0,
                };
                exceeded || distance <= Self::ABSOLUTE_TOLERANCE || distance <= limit / 10 && (
                distance * 10 <= limit)
            },
            None => false,
        }
    }

    /// The rate as text: `[1.5KiB/s]`, `[12L/s]` or `[3#/s]`.
    pub fn as_text(&self) -> (r: String)
        ensures
            r@ == rate_text(self.spec_progress(), self.spec_unit()),
    {
        let mut text = String::new();
        push_char(&mut text, '[');
        match self.1 {
            Unit::Byte => {
                let size = binary_size(self.0.bytes_transferred as u64, DEFAULT_PRECISION);
                push_text(&mut text, size.as_str());
                push_char(&mut text, 'B');
            },
            Unit::Line => {
                let size = si_size(self.0.lines_transferred as u64, DEFAULT_PRECISION);
                push_text(&mut text, size.as_str());
                push_char(&mut text, 'L');
            },
            Unit::Null => {
                let size = si_size(self.0.nulls_transferred as u64, DEFAULT_PRECISION);
                push_text(&mut text, size.as_str());
                push_char(&mut text, '#');
            },
        }
        push_char(&mut text, '/');
        push_char(&mut text, 's');
        push_char(&mut text, ']');
        assert(text@ =~= rate_text(self.0, self.1));
        text
    }
}

/// A span of time, in whole seconds.
pub struct DurationView(pub u64);

impl DurationView {
    /// The span as `h:mm:ss`.
    pub fn text(&self) -> (r: String)
        ensures
            r@ == duration_text(self.0 as nat),
    {
        format_duration(self.0)
    }
}

/// The answer of the limit editor.
#[derive(Debug, Clone, Copy, PartialEq, Eq, Structural)]
pub enum EditRateResponse {
    /// The edit was given up.
    Cancelled,
    /// A new limit, which is positive.
    NewRate(u32),
}

impl EditRateResponse {
    /// The limit that the answer sets: none for a cancelled edit.
    pub fn rate(&self) -> (r: Option<u32>)
        ensures
            r == response_rate(*self),
    {
        match *self {
            EditRateResponse::NewRate(rate) => Some(rate),
            EditRateResponse::Cancelled => None,
        }
    }
}

/// The limit that an answer of the editor sets.
pub open spec fn response_rate(r: EditRateResponse) -> Option<u32> {
    match r {
        EditRateResponse::NewRate(v) => Some(v),
        EditRateResponse::Cancelled => None,
    }
}

/// The answer to an enter key on the digits `s`: a positive limit that
/// fits, or no answer.
pub open spec fn entered_rate(s: Seq<char>) -> Option<EditRateResponse> {
    match parsed_u32(s) {
        Some(v) => if v >= 1 {
            Some(EditRateResponse::NewRate(v))
        } else {
            None
        },
        None => None,
    }
}

/// The digits typed so far into the limit editor.
pub struct EditRateState(String);

impl EditRateState {
    /// The digits typed so far.
    pub closed spec fn typed(&self) -> Seq<char> {
        self.0@
    }

    /// Only digits are ever typed.
    pub open spec fn wf(&self) -> bool {
        all_digits(self.typed())
    }

    /// An editor with nothing typed.
    pub fn new() -> (r: Self)
        ensures
            r.wf(),
            r.typed() == Seq::<char>::empty(),
    {
        EditRateState(String::new())
    }

    /// The digits typed so far.
    pub fn as_str(&self) -> (r: &str)
        ensures
            r@ == self.typed(),
    {
        self.0.as_str()
    }

    /// Takes a key: escape clears and gives the edit up, a digit is typed,
    /// backspace takes the last digit off, and enter clears and answers with
    /// the limit typed, where it is a positive `u32`. Other keys do nothing.
    pub fn input(&mut self, key: Key) -> (r: Option<EditRateResponse>)
        requires
            old(self).wf(),
        ensures
            final(self).wf(),
            key == Key::Esc ==> r == Some(EditRateResponse::Cancelled) && final(self).typed()
                == Seq::<char>::empty(),
            key == Key::Enter ==> r == entered_rate(old(self).typed()) && final(self).typed()
                == Seq::<char>::empty(),
            key == Key::Backspace ==> r is None && final(self).typed() == (if old(self).typed().len() > 0 {
                old(self).typed().drop_last()
            } else {
                old(self).typed()
            }),
            key matches Key::Char(c) ==> r is None && final(self).typed() == (if '0' <= c <= '9' {
                old(self).typed().push(c)
            } else {
                old(self).typed()
            }),
            !(key == Key::Esc || key == Key::Enter || key == Key::Backspace || key is Char) ==> r
                is None && final(self).typed() == old(self).typed(),
    {
        match key {
            Key::Esc => {
                self.0 = String::new();
                Some(EditRateResponse::Cancelled)
            },
            Key::Char(c) => {
                if '0' <= c && c <= '9' {
                    push_char(&mut self.0, c);
                    assert(all_digits(self.0@));
                }
                None
            },
            Key::Backspace => {
                pop_char(&mut self.0);
                None
            },
            Key::Enter => {
                let rate = match parse_u32(self.0.as_str()) {
                    Some(v) => if v >= 1 {
                        Some(EditRateResponse::NewRate(v))
                    } else {
                        None
                    },
                    None => None,
                };
                self.0 = String::new();
                rate
            },
            _ => None,
        }
    }
}

impl Default for EditRateState {
    fn default() -> (r: Self)
        ensures
            r.wf(),
            r.typed() == Seq::<char>::empty(),
    {
        EditRateState::new()
    }
}

/// The limit editor as shown: the digits typed so far.
pub struct EditRateView<'a>(pub &'a str);

/// The share of `expected` bytes that `done` bytes make, in whole percent,
/// at most a hundred.
pub open spec fn percent_of(done: usize, expected: usize) -> int {
    if done * 100 / (expected as int) > 100 {
        100
    } else {
        done * 100 / (expected as int)
    }
}

/// Everything the progress view shows.
pub struct TransferProgressView {
    pub cumulative: CumulativeTransferProgress,
    pub expected_size: Option<usize>,
    pub instantaneous: TransferProgress,
    pub limit: Option<u32>,
    pub paused: bool,
    pub unit: Unit,
}

impl TransferProgressView {
    /// The share of the expected size transferred, in whole percent, at most
    /// a hundred; `None` without a positive expected size.
    pub fn percentage(&self) -> (r: Option<u16>)
        ensures
            (self.expected_size matches Some(e) && e >= 1) ==> r == Some(
                percent_of(
                    self.cumulative.progress.bytes_transferred,
                    self.expected_size->0,
                ) as u16,
            ),
            !(self.expected_size matches Some(e) && e >= 1) ==> r is None,
    {
        match self.expected_size {
            Some(expected) => if expected >= 1 {
                let done = self.cumulative.progress.bytes_transferred as u128;
                let p = done * 100 / (expected as u128);
                if p > 100 {
                    Some(100)
                } else {
                    Some(p as u16)
                }
            } else {
                None
            },
            None => None,
        }
    }

    /// The rate seen, as a view against the limit.
    pub fn speed(&self) -> (r: ObservedRateView)
        ensures
            r.spec_progress() == self.instantaneous,
            r.spec_unit() == self.unit,
            r.spec_limit() == self.limit,
    {
        ObservedRateView::new(self.instantaneous, self.unit, self.limit)
    }
}

} // verus!

//! Screen brightness: the values read from the backlight device and the
//! errors of the brightness service.

use vstd::prelude::*;
use crate::text::{str_eq, concat2, concat3};

verus! {

/// Brightness of the backlight.
#[derive(Debug, Clone, Copy, PartialEq, Eq, Structural)]
pub struct BrightnessData {
    pub current: u32,
    pub max: u32,
}

impl Default for BrightnessData {
    fn default() -> (d: Self)
        ensures
            d.current == 0 && d.max == 0,
    {
        BrightnessData { current: 0, max: 0 }
    }
}

/// A new current brightness.
#[derive(Debug, Clone, Copy, PartialEq, Eq, Structural)]
pub struct BrightnessEvent(pub u32);

/// Commands of the brightness service.
#[derive(Debug, Clone, Copy, PartialEq, Eq, Structural)]
pub enum BrightnessCommand {
    /// Set the brightness to the value.
    SetValue(u32),
    /// Read the brightness again.
    Refresh,
}

impl BrightnessData {
    /// Applies a brightness event: the current value becomes the event's.
    pub fn update(&mut self, event: BrightnessEvent)
        ensures
            final(self).current == event.0,
            final(self).max == old(self).max,
    {
        self.current = event.0;
    }
}

/// Error of the brightness service.
#[derive(Debug, Clone, PartialEq, Eq)]
pub enum BrightnessError {
    /// Reading or writing the backlight files failed.
    Filesystem { context: String },
    /// A brightness value could not be parsed.
    Parse { context: String },
    /// A call to the system brightness controller failed.
    DBus { context: String },
    /// No backlight device was found.
    MissingDevice,
}

/// The description of a brightness error.
pub open spec fn brightness_error_text(e: BrightnessError) -> Seq<char> {
    match e {
        BrightnessError::Filesystem { context } => "failed to access backlight filesystem: "@
            + context@,
        BrightnessError::Parse { context } => "failed to parse brightness value: "@ + context@,
        BrightnessError::DBus { context } => "failed to interact with system bus: "@ + context@,
        BrightnessError::MissingDevice => "no backlight devices found"@,
    }
}

impl BrightnessError {
    /// A filesystem error.
    pub fn filesystem(context: String) -> (e: Self)
        ensures
            e == (BrightnessError::Filesystem { context }),
    {
        BrightnessError::Filesystem { context }
    }

    /// A parse error.
    pub fn parse(context: String) -> (e: Self)
        ensures
            e == (BrightnessError::Parse { context }),
    {
        BrightnessError::Parse { context }
    }

    /// A D-Bus error.
    pub fn dbus(context: String) -> (e: Self)
        ensures
            e == (BrightnessError::DBus { context }),
    {
        BrightnessError::DBus { context }
    }

    /// The parse error for a value that is not a `u32`, carrying the
    /// parser's message.
    pub fn from_parse_error(kind: IntErrorKind) -> (e: Self)
        ensures
            e matches BrightnessError::Parse { context } && context@ == int_error_text(kind),
    {
        BrightnessError::Parse { context: kind.to_string() }
    }

    /// The human readable description of the error.
    pub fn to_string(&self) -> (s: String)
        ensures
            s@ == brightness_error_text(*self),
    {
        match self {
            BrightnessError::Filesystem { context } => concat2(
                "failed to access backlight filesystem: ",
                context.as_str(),
            ),
            BrightnessError::Parse { context } => concat2(
                "failed to parse brightness value: ",
                context.as_str(),
            ),
            BrightnessError::DBus { context } => concat2(
                "failed to interact with system bus: ",
                context.as_str(),
            ),
            BrightnessError::MissingDevice => "no backlight devices found".to_owned(),
        }
    }
}

/// The backlight device, or [`BrightnessError::MissingDevice`] when none was
/// found.
pub fn resolve_device_path<P>(device_path: Option<P>) -> (r: Result<P, BrightnessError>)
    ensures
        match device_path {
            Some(p) => r == Ok::<P, BrightnessError>(p),
            None => r == Err::<P, BrightnessError>(BrightnessError::MissingDevice),
        },
{
    match device_path {
        Some(p) => Ok(p),
        None => Err(BrightnessError::MissingDevice),
    }
}

/// Whether `c` is white space in Unicode's `White_Space` property.
pub open spec fn is_white_space(c: char) -> bool {
    ||| '\u{9}' <= c <= '\u{d}'
    ||| c == ' '
    ||| c == '\u{85}'
    ||| c == '\u{a0}'
    ||| c == '\u{1680}'
    ||| '\u{2000}' <= c <= '\u{200a}'
    ||| c == '\u{2028}'
    ||| c == '\u{2029}'
    ||| c == '\u{202f}'
    ||| c == '\u{205f}'
    ||| c == '\u{3000}'
}

/// `s` without its leading white space.
pub open spec fn trim_start(s: Seq<char>) -> Seq<char>
    decreases s.len(),
{
    if s.len() > 0 && is_white_space(s[0]) {
        trim_start(s.drop_first())
    } else {
        s
    }
}

/// `s` without its trailing white space.
pub open spec fn trim_end(s: Seq<char>) -> Seq<char>
    decreases s.len(),
{
    if s.len() > 0 && is_white_space(s.last()) {
        trim_end(s.drop_last())
    } else {
        s
    }
}

/// `s` without leading and trailing white space, as `str::trim` gives it.
pub open spec fn trimmed(s: Seq<char>) -> Seq<char> {
    trim_end(trim_start(s))
}

fn white_space(c: char) -> (b: bool)
    ensures
        b == is_white_space(c),
{
    ('\u{9}' <= c && c <= '\u{d}') || c == ' ' || c == '\u{85}' || c == '\u{a0}' || c
        == '\u{1680}' || ('\u{2000}' <= c && c <= '\u{200a}') || c == '\u{2028}' || c
        == '\u{2029}' || c == '\u{202f}' || c == '\u{205f}' || c == '\u{3000}'
}

/// `s` without leading and trailing white space.
pub fn trim(s: &str) -> (r: &str)
    ensures
        r@ == trimmed(s@),
{
    let n = s.unicode_len();
    let mut start: usize = 0;
    assert(s@.skip(0) =~= s@);
    while start < n && white_space(s.get_char(start))
        invariant
            n == s@.len(),
            start <= n,
            trim_start(s@) == trim_start(s@.skip(start as int)),
        decreases n - start,
    {
        assert(s@.skip(start as int).drop_first() =~= s@.skip(start + 1));
        start = start + 1;
    }
    let ghost t = s@.skip(start as int);
    assert(trim_start(s@) == t) by {
        if t.len() > 0 {
            assert(t[0] == s@[start as int]);
        }
    }
    let mut end: usize = n;
    while end > start && white_space(s.get_char(end - 1))
        invariant
            n == s@.len(),
            start <= end <= n,
            t == s@.skip(start as int),
            trim_end(t) == trim_end(s@.subrange(start as int, end as int)),
        decreases end - start,
    {
        assert(s@.subrange(start as int, end as int).drop_last() =~= s@.subrange(
            start as int,
            end - 1,
        ));
        end = end - 1;
    }
    assert(t =~= s@.subrange(start as int, n as int));
    let ghost u = s@.subrange(start as int, end as int);
    assert(trim_end(u) == u) by {
        if u.len() > 0 {
            assert(u.last() == s@[end - 1]);
        }
    }
    s.substring_char(start, end)
}

/// Why a string is not a `u32`, as `ParseIntError` reports it.
#[derive(Debug, Clone, Copy, PartialEq, Eq, Structural)]
pub enum IntErrorKind {
    /// The string is empty.
    Empty,
    /// A character is not a decimal digit.
    InvalidDigit,
    /// The value does not fit in a `u32`.
    PosOverflow,
}

/// The value of an ASCII digit character.
pub open spec fn digit_value(c: char) -> int {
    c as int - 48
}

/// Whether `c` is an ASCII decimal digit.
pub open spec fn is_digit(c: char) -> bool {
    '0' <= c <= '9'
}

/// Reading the digits `d` from left to right: the value so far, or the
/// first failure (a non-digit, or a value beyond `u32::MAX`).
pub open spec fn read_digits(d: Seq<char>) -> Result<nat, IntErrorKind>
    decreases d.len(),
{
    if d.len() == 0 {
        Ok(0)
    } else {
        match read_digits(d.drop_last()) {
            Err(k) => Err(k),
            Ok(v) => if !is_digit(d.last()) {
                Err(IntErrorKind::InvalidDigit)
            } else if v * 10 + digit_value(d.last()) > u32::MAX {
                Err(IntErrorKind::PosOverflow)
            } else {
                Ok((v * 10 + digit_value(d.last())) as nat)
            },
        }
    }
}

/// The result of parsing `s` as a `u32` the way `u32::from_str` does: an
/// optional leading `+`, then at least one decimal digit.
pub open spec fn parsed_u32(s: Seq<char>) -> Result<u32, IntErrorKind> {
    if s.len() == 0 {
        Err(IntErrorKind::Empty)
    } else if s.len() == 1 && (s[0] == '+' || s[0] == '-') {
        Err(IntErrorKind::InvalidDigit)
    } else {
        let d = if s[0] == '+' {
            s.drop_first()
        } else {
            s
        };
        match read_digits(d) {
            Ok(v) => Ok(v as u32),
            Err(k) => Err(k),
        }
    }
}

/// Parses `s` as a `u32`.
pub fn parse_u32(s: &str) -> (r: Result<u32, IntErrorKind>)
    ensures
        r == parsed_u32(s@),
{
    let n = s.unicode_len();
    if n == 0 {
        return Err(IntErrorKind::Empty);
    }
    let first = s.get_char(0);
    if n == 1 && (first == '+' || first == '-') {
        return Err(IntErrorKind::InvalidDigit);
    }
    let start: usize = if first == '+' {
        1
    } else {
        0
    };
    let ghost d = if first == '+' {
        s@.drop_first()
    } else {
        s@
    };
    assert(d =~= s@.skip(start as int));
    let mut value: u32 = 0;
    let mut i: usize = start;
    while i < n
        invariant
            n == s@.len(),
            start <= i <= n,
            d =~= s@.skip(start as int),
            s@.len() > 0,
            !(s@.len() == 1 && (s@[0] == '+' || s@[0] == '-')),
            d == (if s@[0] == '+' {
                s@.drop_first()
            } else {
                s@
            }),
            read_digits(d.take(i - start)) == Ok::<nat, IntErrorKind>(value as nat),
        decreases n - i,
    {
        let c = s.get_char(i);
        let ghost k: int = i - start + 1;
        proof {
            assert(d.take(k).drop_last() =~= d.take(k - 1));
            assert(d.take(k).last() == c);
            assert(d[k - 1] == c);
        }
        if !('0' <= c && c <= '9') {
            proof {
                assert(read_digits(d.take(k)) == Err::<nat, IntErrorKind>(IntErrorKind::InvalidDigit));
                lemma_read_digits_fails_on(d, k);
            }
            return Err(IntErrorKind::InvalidDigit);
        }
        let digit = (c as u32) - 48;
        if value > 429496729 || (value == 429496729 && digit > 5) {
            proof {
                assert(read_digits(d.take(k)) == Err::<nat, IntErrorKind>(IntErrorKind::PosOverflow));
                lemma_read_digits_fails_on(d, k);
            }
            return Err(IntErrorKind::PosOverflow);
        }
        value = value * 10 + digit;
        i = i + 1;
    }
    assert(d.take(n - start) =~= d);
    Ok(value)
}

/// Once reading a prefix of the digits fails, reading all of them fails the
/// same way.
proof fn lemma_read_digits_fails_on(d: Seq<char>, k: int)
    requires
        0 <= k <= d.len(),
        read_digits(d.take(k)) is Err,
    ensures
        read_digits(d) == read_digits(d.take(k)),
    decreases d.len() - k,
{
    if k == d.len() {
        assert(d.take(k) =~= d);
    } else {
        assert(d.take(k + 1).drop_last() =~= d.take(k));
        lemma_read_digits_fails_on(d, k + 1);
    }
}

/// The text `ParseIntError` shows for each kind of failure.
pub open spec fn int_error_text(k: IntErrorKind) -> Seq<char> {
    match k {
        IntErrorKind::Empty => "cannot parse integer from empty string"@,
        IntErrorKind::InvalidDigit => "invalid digit found in string"@,
        IntErrorKind::PosOverflow => "number too large to fit in target type"@,
    }
}

impl IntErrorKind {
    /// The text `ParseIntError` shows for this failure.
    pub fn to_string(&self) -> (s: String)
        ensures
            s@ == int_error_text(*self),
    {
        match self {
            IntErrorKind::Empty => "cannot parse integer from empty string".to_owned(),
            IntErrorKind::InvalidDigit => "invalid digit found in string".to_owned(),
            IntErrorKind::PosOverflow => "number too large to fit in target type".to_owned(),
        }
    }
}

/// The brightness value held by the contents of a backlight file: the
/// trimmed contents parsed as a `u32`. A failure is a parse error whose
/// context names the file: `<path>: <reason>`.
pub fn brightness_from_contents(path: &str, contents: &str) -> (r: Result<u32, BrightnessError>)
    ensures
        match parsed_u32(trimmed(contents@)) {
            Ok(v) => r == Ok::<u32, BrightnessError>(v),
            Err(k) => r matches Err(BrightnessError::Parse { context }) && context@ == path@
                + ": "@ + int_error_text(k),
        },
{
    match parse_u32(trim(contents)) {
        Ok(v) => Ok(v),
        Err(k) => {
            let reason = k.to_string();
            Err(BrightnessError::parse(concat3(path, ": ", reason.as_str())))
        },
    }
}

/// Whether a device's subsystem is the backlight one.
pub open spec fn is_backlight(subsystem: Option<String>) -> bool {
    subsystem matches Some(s) && s@ == "backlight"@
}

/// The device to control among the enumerated ones, given each device's
/// subsystem: the first backlight device, if any.
pub fn backlight_candidate(subsystems: &Vec<Option<String>>) -> (r: Option<usize>)
    ensures
        r matches Some(i) ==> i < subsystems@.len() && is_backlight(subsystems@[i as int])
            && forall|j: int| 0 <= j < i ==> !is_backlight(#[trigger] subsystems@[j]),
        r is None ==> forall|j: int| 0 <= j < subsystems@.len() ==> !is_backlight(
            #[trigger] subsystems@[j],
        ),
{
    let mut i: usize = 0;
    while i < subsystems.len()
        invariant
            i <= subsystems@.len(),
            forall|j: int| 0 <= j < i ==> !is_backlight(#[trigger] subsystems@[j]),
        decreases subsystems@.len() - i,
    {
        match &subsystems[i] {
            Some(s) => {
                if str_eq(s.as_str(), "backlight") {
                    return Some(i);
                }
            },
            None => {},
        }
        i = i + 1;
    }
    None
}

} // verus!

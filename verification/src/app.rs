use vstd::prelude::*;
use crate::clock::instant_now;
use crate::error::TwiggyError;
use crate::git::types::hex_value;
use crate::text::{chars_of, owned};

verus! {

/// The error that the application is showing.
#[derive(Debug)]
pub struct ErrorState {
    pub message: String,
    pub error_code: u32,
    pub is_recoverable: bool,
    pub suggested_action: Option<String>,
    pub timestamp: std::time::Instant,
    pub show_dialog: bool,
}

impl ErrorState {
    /// The state for an error that has just occurred: its message, code, flag
    /// and remedy, with the dialog shown.
    pub fn new(error: &TwiggyError) -> (r: ErrorState)
        ensures
            r.message@ == error.spec_user_message(),
            r.error_code == error.spec_error_code(),
            r.is_recoverable == error.spec_is_recoverable(),
            r.suggested_action matches Some(action) && action@ == error.spec_suggested_action(),
            r.show_dialog,
    {
        ErrorState {
            message: error.user_message(),
            error_code: error.error_code(),
            is_recoverable: error.is_recoverable(),
            suggested_action: error.suggested_action(),
            timestamp: instant_now(),
            show_dialog: true,
        }
    }
}

/// The kind of a notification.
#[derive(Debug, Clone, Copy, PartialEq, Eq, Structural)]
pub enum NotificationType {
    Info,
    Warning,
    Error,
    Success,
}

/// A message in the application's notification queue.
#[derive(Debug)]
pub struct Notification {
    pub message: String,
    pub notification_type: NotificationType,
    pub timestamp: std::time::Instant,
    pub auto_dismiss_seconds: Option<u32>,
}

/// The pages of the settings dialog.
#[derive(Debug, Clone, Copy, PartialEq, Eq, Structural)]
pub enum SettingsTab {
    Window,
    Theme,
    Git,
    Performance,
    Logging,
}

/// What to do about the error on show when the user asks for recovery.
#[derive(Debug, Clone, Copy, PartialEq, Eq, Structural)]
pub enum Recovery {
    /// Reset the configuration to its defaults, then clear the error.
    ResetConfiguration,
    /// Clear the error and report that recovery was attempted.
    Acknowledge,
    /// There is no recoverable error.
    Refuse,
}

/// The recovery for an error state: a recoverable error of the configuration
/// group (codes 3000 to 3999) resets the configuration, any other recoverable
/// error is acknowledged, and anything else is refused.
pub open spec fn recovery_for(state: Option<ErrorState>) -> Recovery {
    match state {
        Some(s) => if !s.is_recoverable {
            Recovery::Refuse
        } else if 3000 <= s.error_code <= 3999 {
            Recovery::ResetConfiguration
        } else {
            Recovery::Acknowledge
        },
        None => Recovery::Refuse,
    }
}

/// Decides how to recover from the error on show.
pub fn plan_recovery(state: &Option<ErrorState>) -> (r: Recovery)
    ensures
        r == recovery_for(*state),
{
    match state {
        Some(s) => if !s.is_recoverable {
            Recovery::Refuse
        } else if 3000 <= s.error_code && s.error_code <= 3999 {
            Recovery::ResetConfiguration
        } else {
            Recovery::Acknowledge
        },
        None => Recovery::Refuse,
    }
}

/// A colour as its red, green and blue parts.
#[derive(Debug, Clone, Copy, PartialEq, Eq, Structural)]
pub struct Rgb {
    pub red: u8,
    pub green: u8,
    pub blue: u8,
}

/// What is wrong with the text of a colour.
#[derive(Debug, Clone, Copy, PartialEq, Eq, Structural)]
pub enum ColorFault {
    Length,
    Red,
    Green,
    Blue,
}

/// The number of number signs that a text begins with.
pub open spec fn leading_signs(s: Seq<char>) -> int
    decreases s.len(),
{
    if s.len() > 0 && s[0] == '#' {
        1 + leading_signs(s.drop_first())
    } else {
        0
    }
}

/// The value of a part of a colour written as two characters: two
/// hexadecimal digits, or a plus sign and one hexadecimal digit.
pub open spec fn part_value(high: char, low: char) -> Option<int> {
    if hex_value(low) < 0 {
        None
    } else if hex_value(high) >= 0 {
        Some(hex_value(high) * 16 + hex_value(low))
    } else if high == '+' {
        Some(hex_value(low))
    } else {
        None
    }
}

/// The colour that a text stands for, or what is wrong with the text.
///
/// Number signs at the start are passed over. What follows must be six
/// characters, two for each of red, green and blue in that order; the first
/// part that has no value is the fault.
pub open spec fn color_of(s: Seq<char>) -> Result<Rgb, ColorFault> {
    let body = s.skip(leading_signs(s));
    if body.len() != 6 {
        Err(ColorFault::Length)
    } else {
        match part_value(body[0], body[1]) {
            None => Err(ColorFault::Red),
            Some(red) => match part_value(body[2], body[3]) {
                None => Err(ColorFault::Green),
                Some(green) => match part_value(body[4], body[5]) {
                    None => Err(ColorFault::Blue),
                    Some(blue) => Ok(
                        Rgb { red: red as u8, green: green as u8, blue: blue as u8 },
                    ),
                },
            },
        }
    }
}

/// A place before which every character is a number sign, and at which the
/// text ends or holds another character, is where the number signs end.
pub proof fn lemma_leading_signs_is(s: Seq<char>, k: int)
    requires
        0 <= k <= s.len(),
        forall|j: int| 0 <= j < k ==> s[j] == '#',
        k < s.len() ==> s[k] != '#',
    ensures
        leading_signs(s) == k,
    decreases s.len(),
{
    if k > 0 {
        let rest = s.drop_first();
        assert(s[0] == '#');
        assert forall|j: int| 0 <= j < k - 1 implies rest[j] == '#' by {
            assert(rest[j] == s[j + 1]);
        }
        if k - 1 < rest.len() {
            assert(rest[k - 1] == s[k]);
        }
        lemma_leading_signs_is(rest, k - 1);
    }
}

fn digit_value(c: char) -> (r: Option<u8>)
    ensures
        match r {
            Some(v) => hex_value(c) == v && v < 16,
            None => hex_value(c) < 0,
        },
{
    if '0' <= c && c <= '9' {
        Some(((c as u32) - ('0' as u32)) as u8)
    } else if 'a' <= c && c <= 'f' {
        Some(((c as u32) - ('a' as u32) + 10) as u8)
    } else if 'A' <= c && c <= 'F' {
        Some(((c as u32) - ('A' as u32) + 10) as u8)
    } else {
        None
    }
}

fn read_part(high: char, low: char) -> (r: Option<u8>)
    ensures
        match r {
            Some(v) => part_value(high, low) == Some(v as int),
            None => part_value(high, low) is None,
        },
{
    let low = match digit_value(low) {
        Some(v) => v,
        None => {
            return None;
        },
    };
    match digit_value(high) {
        Some(high) => Some(high * 16 + low),
        None => if high == '+' {
            Some(low)
        } else {
            None
        },
    }
}

/// Reads a colour from its text.
pub fn read_color(text: &str) -> (r: Result<Rgb, ColorFault>)
    ensures
        r == color_of(text@),
{
    let chars = chars_of(text);
    let mut start: usize = 0;
    while start < chars.len() && chars[start] == '#'
        invariant
            start <= chars@.len(),
            forall|j: int| 0 <= j < start ==> chars@[j] == '#',
        decreases chars@.len() - start,
    {
        start = start + 1;
    }
    proof {
        lemma_leading_signs_is(chars@, start as int);
    }
    if chars.len() - start != 6 {
        return Err(ColorFault::Length);
    }
    let ghost body = chars@.skip(start as int);
    assert(body[0] == chars@[start as int]);
    assert(body[1] == chars@[start + 1]);
    assert(body[2] == chars@[start + 2]);
    assert(body[3] == chars@[start + 3]);
    assert(body[4] == chars@[start + 4]);
    assert(body[5] == chars@[start + 5]);
    let red = match read_part(chars[start], chars[start + 1]) {
        Some(v) => v,
        None => {
            return Err(ColorFault::Red);
        },
    };
    let green = match read_part(chars[start + 2], chars[start + 3]) {
        Some(v) => v,
        None => {
            return Err(ColorFault::Green);
        },
    };
    let blue = match read_part(chars[start + 4], chars[start + 5]) {
        Some(v) => v,
        None => {
            return Err(ColorFault::Blue);
        },
    };
    Ok(Rgb { red, green, blue })
}

impl ColorFault {
    /// The sentence that reports this fault.
    pub open spec fn text(self) -> Seq<char> {
        match self {
            ColorFault::Length => "Invalid hex color length"@,
            ColorFault::Red => "Invalid red component"@,
            ColorFault::Green => "Invalid green component"@,
            ColorFault::Blue => "Invalid blue component"@,
        }
    }

    /// Writes the sentence that reports this fault.
    pub fn message(self) -> (r: String)
        ensures
            r@ == self.text(),
    {
        match self {
            ColorFault::Length => owned("Invalid hex color length"),
            ColorFault::Red => owned("Invalid red component"),
            ColorFault::Green => owned("Invalid green component"),
            ColorFault::Blue => owned("Invalid blue component"),
        }
    }
}

/// Reads a colour from its text, with the fault as a sentence.
pub fn parse_hex_color(hex: &str) -> (r: Result<Rgb, String>)
    ensures
        match r {
            Ok(color) => color_of(hex@) == Ok::<Rgb, ColorFault>(color),
            Err(message) => color_of(hex@) matches Err(fault) && message@ == fault.text(),
        },
{
    match read_color(hex) {
        Ok(color) => Ok(color),
        Err(fault) => Err(fault.message()),
    }
}

} // verus!

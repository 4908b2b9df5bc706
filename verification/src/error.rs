//! The failures a caller can tell apart.

use vstd::prelude::*;

verus! {

/// The character that writes the digit `d`.
pub open spec fn digit_char(d: nat) -> char {
    if d == 0 {
        '0'
    } else if d == 1 {
        '1'
    } else if d == 2 {
        '2'
    } else if d == 3 {
        '3'
    } else if d == 4 {
        '4'
    } else if d == 5 {
        '5'
    } else if d == 6 {
        '6'
    } else if d == 7 {
        '7'
    } else if d == 8 {
        '8'
    } else {
        '9'
    }
}

/// The decimal numeral of `n`, without leading zeros.
pub open spec fn decimal(n: nat) -> Seq<char>
    decreases n,
{
    if n < 10 {
        seq![digit_char(n)]
    } else {
        decimal(n / 10).push(digit_char(n % 10))
    }
}

fn digit_text(d: usize) -> (text: &'static str)
    requires
        d < 10,
    ensures
        text@ == seq![digit_char(d as nat)],
{
    proof {
        reveal_strlit("0");
        reveal_strlit("1");
        reveal_strlit("2");
        reveal_strlit("3");
        reveal_strlit("4");
        reveal_strlit("5");
        reveal_strlit("6");
        reveal_strlit("7");
        reveal_strlit("8");
        reveal_strlit("9");
    }
    let text = if d == 0 {
        "0"
    } else if d == 1 {
        "1"
    } else if d == 2 {
        "2"
    } else if d == 3 {
        "3"
    } else if d == 4 {
        "4"
    } else if d == 5 {
        "5"
    } else if d == 6 {
        "6"
    } else if d == 7 {
        "7"
    } else if d == 8 {
        "8"
    } else {
        "9"
    };
    assert(text@ =~= seq![digit_char(d as nat)]);
    text
}

fn append_decimal(text: &mut String, n: usize)
    ensures
        final(text)@ == old(text)@ + decimal(n as nat),
    decreases n,
{
    if n >= 10 {
        append_decimal(text, n / 10);
    }
    text.append(digit_text(n % 10));
    proof {
        if n >= 10 {
            assert(old(text)@ + decimal(n as nat / 10) + seq![digit_char(n as nat % 10)] =~= old(
                text,
            )@ + decimal(n as nat / 10).push(digit_char(n as nat % 10)));
        }
    }
}

/// Every way an operation of the binding can fail.
#[derive(Debug, Clone, Copy, PartialEq, Eq, Structural)]
pub enum PostalError {
    /// The engine's base setup call reported failure.
    LibpostalSetup,
    /// The engine could not enable address expansion.
    LibpostalEnableExpansion,
    /// The engine could not enable address parsing.
    LibpostalEnableParsing,
    /// The text holds a zero byte, at this byte offset, and so cannot be
    /// handed to the engine as a terminated string.
    BadCString(usize),
    /// A query was issued for a capability that `init` has not enabled.
    LibpostalNotReady,
}

impl PostalError {
    /// The message that describes this error.
    pub open spec fn message_text(self) -> Seq<char> {
        match self {
            PostalError::LibpostalSetup => "libpostal_setup failed"@,
            PostalError::LibpostalEnableExpansion => "libpostal_setup_language_classifier failed"@,
            PostalError::LibpostalEnableParsing => "libpostal_setup_parser failed"@,
            PostalError::BadCString(at) => "failed to convert &str into c string, error: '"@
                + "nul byte found in provided data at position: "@ + decimal(at as nat) + "'"@,
            PostalError::LibpostalNotReady => "libpostal is not ready, call init() with desired options"@,
        }
    }

    /// Renders the message that describes this error.
    pub fn message(&self) -> (text: String)
        ensures
            text@ == self.message_text(),
    {
        match *self {
            PostalError::LibpostalSetup => String::from_str("libpostal_setup failed"),
            PostalError::LibpostalEnableExpansion => String::from_str(
                "libpostal_setup_language_classifier failed",
            ),
            PostalError::LibpostalEnableParsing => String::from_str("libpostal_setup_parser failed"),
            PostalError::BadCString(at) => {
                let mut text = String::from_str("failed to convert &str into c string, error: '");
                text.append("nul byte found in provided data at position: ");
                append_decimal(&mut text, at);
                text.append("'");
                text
            },
            PostalError::LibpostalNotReady => String::from_str(
                "libpostal is not ready, call init() with desired options",
            ),
        }
    }

    /// The offset of the offending zero byte, for the one error that has an
    /// underlying cause.
    pub fn cause(&self) -> (position: Option<usize>)
        ensures
            position == match *self {
                PostalError::BadCString(at) => Some(at),
                _ => None::<usize>,
            },
    {
        match *self {
            PostalError::BadCString(at) => Some(at),
            _ => None,
        }
    }
}

} // verus!

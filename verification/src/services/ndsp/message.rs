//! The text of the error messages.

use vstd::prelude::*;
use super::NdspError;

verus! {

/// `String::push_str` of std: the string slice is appended to the end of the
/// string, which is otherwise left as it was.
pub assume_specification[ String::push_str ](s: &mut String, string: &str)
    ensures
        final(s)@ == old(s)@ + string@,
;

/// `String::push` of std: the character is appended to the end of the string.
pub assume_specification[ String::push ](s: &mut String, ch: char)
    ensures
        final(s)@ == old(s)@.push(ch),
;

/// The character that stands for the digit `d`.
pub open spec fn digit(d: nat) -> char {
    if d == 0 {
        '0'
    } else if d == 1 {
        '1'
    } else if d == 2 {
        '2'
    } else if d == 3 {
        '3'
    } else if d == 4 {
        '4'
    } else if d == 5 {
        '5'
    } else if d == 6 {
        '6'
    } else if d == 7 {
        '7'
    } else if d == 8 {
        '8'
    } else {
        '9'
    }
}

/// The number `n` written in base ten, without leading zeros.
pub open spec fn decimal(n: nat) -> Seq<char>
    decreases n,
{
    if n < 10 {
        seq![digit(n)]
    } else {
        decimal(n / 10).push(digit(n % 10))
    }
}

/// The message of each error.
pub open spec fn message_text(error: NdspError) -> Seq<char> {
    match error {
        NdspError::InvalidChannel(id) => "audio Channel with ID "@ + decimal(id as nat)
            + " doesn't exist. Valid channels have an ID between 0 and 23"@,
        NdspError::ChannelAlreadyInUse(id) => "audio Channel with ID "@ + decimal(id as nat)
            + " is already being used. Drop the other instance if you want to use it here"@,
        NdspError::WaveBusy(id) => "the selected WaveInfo is busy playing on channel "@ + decimal(
            id as nat,
        ),
        NdspError::SampleCountOutOfBounds(requested, max) =>
            "the sample count requested is too big (requested = "@ + decimal(requested as nat)
                + ", maximum = "@ + decimal(max as nat) + ")"@,
    }
}

fn digit_char(d: u32) -> (c: char)
    requires
        d < 10,
    ensures
        c == digit(d as nat),
{
    if d == 0 {
        '0'
    } else if d == 1 {
        '1'
    } else if d == 2 {
        '2'
    } else if d == 3 {
        '3'
    } else if d == 4 {
        '4'
    } else if d == 5 {
        '5'
    } else if d == 6 {
        '6'
    } else if d == 7 {
        '7'
    } else if d == 8 {
        '8'
    } else {
        '9'
    }
}

/// Appends `n` in base ten to `s`.
pub fn push_decimal(s: &mut String, n: u32)
    ensures
        final(s)@ == old(s)@ + decimal(n as nat),
    decreases n,
{
    if n >= 10 {
        push_decimal(s, n / 10);
    }
    s.push(digit_char(n % 10));
    assert(final(s)@ =~= old(s)@ + decimal(n as nat));
}

impl NdspError {
    /// The message of this error, for a person to read.
    pub fn message(&self) -> (s: String)
        ensures
            s@ == message_text(*self),
    {
        let mut s = String::new();
        match *self {
            NdspError::InvalidChannel(id) => {
                s.push_str("audio Channel with ID ");
                push_decimal(&mut s, id as u32);
                s.push_str(" doesn't exist. Valid channels have an ID between 0 and 23");
            },
            NdspError::ChannelAlreadyInUse(id) => {
                s.push_str("audio Channel with ID ");
                push_decimal(&mut s, id as u32);
                s.push_str(
                    " is already being used. Drop the other instance if you want to use it here",
                );
            },
            NdspError::WaveBusy(id) => {
                s.push_str("the selected WaveInfo is busy playing on channel ");
                push_decimal(&mut s, id as u32);
            },
            NdspError::SampleCountOutOfBounds(requested, max) => {
                s.push_str("the sample count requested is too big (requested = ");
                push_decimal(&mut s, requested);
                s.push_str(", maximum = ");
                push_decimal(&mut s, max);
                s.push_str(")");
            },
        }
        assert(s@ =~= message_text(*self));
        s
    }
}

} // verus!

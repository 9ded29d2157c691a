use vstd::prelude::*;

verus! {

/// Relies on `core::iter::Iterator::collect` through `String`'s
/// `FromIterator<char>`: collecting characters yields the string of exactly
/// those characters, in order.
#[verifier::external_body]
pub(crate) fn chars_to_string(chars: &Vec<char>) -> (s: String)
    ensures
        s@ == chars@,
{
    chars.iter().collect()
}

pub open spec fn spec_digit_char(d: int) -> char {
    if d == 0 {
        '0'
    } else if d == 1 {
        '1'
    } else if d == 2 {
        '2'
    } else if d == 3 {
        '3'
    } else if d == 4 {
        '4'
    } else if d == 5 {
        '5'
    } else if d == 6 {
        '6'
    } else if d == 7 {
        '7'
    } else if d == 8 {
        '8'
    } else {
        '9'
    }
}

fn digit_char(d: u64) -> (c: char)
    requires
        d < 10,
    ensures
        c == spec_digit_char(d as int),
{
    match d {
        0 => '0',
        1 => '1',
        2 => '2',
        3 => '3',
        4 => '4',
        5 => '5',
        6 => '6',
        7 => '7',
        8 => '8',
        _ => '9',
    }
}

/// The decimal digits of `n`, most significant first, no leading zeros.
pub open spec fn spec_decimal(n: int) -> Seq<char>
    decreases n,
{
    if n < 10 {
        seq![spec_digit_char(n)]
    } else {
        spec_decimal(n / 10).push(spec_digit_char(n % 10))
    }
}

/// The decimal digits of `n`, padded on the left with one zero when `n` has a
/// single digit.
pub open spec fn spec_two_digits(n: int) -> Seq<char> {
    if n < 10 {
        seq!['0', spec_digit_char(n)]
    } else {
        spec_decimal(n)
    }
}

/// A duration of `secs` seconds rendered as minutes and seconds, separated by
/// a colon, each figure at least two digits.
pub open spec fn spec_fmt_duration(secs: int) -> Seq<char> {
    spec_two_digits(secs / 60) + seq![':'] + spec_two_digits(secs % 60)
}

fn push_decimal(n: u64, out: &mut Vec<char>)
    ensures
        final(out)@ == old(out)@ + spec_decimal(n as int),
    decreases n,
{
    if n < 10 {
        out.push(digit_char(n));
        proof {
            assert(out@ =~= old(out)@ + spec_decimal(n as int));
        }
    } else {
        push_decimal(n / 10, out);
        out.push(digit_char(n % 10));
        proof {
            assert(out@ =~= old(out)@ + spec_decimal(n as int));
        }
    }
}

fn push_two_digits(n: u64, out: &mut Vec<char>)
    ensures
        final(out)@ == old(out)@ + spec_two_digits(n as int),
{
    if n < 10 {
        out.push('0');
        out.push(digit_char(n));
        proof {
            assert(out@ =~= old(out)@ + spec_two_digits(n as int));
        }
    } else {
        push_decimal(n, out);
    }
}

/// Render a duration in seconds as "MM:SS" (minutes grow past two digits
/// rather than wrap).
pub fn fmt_duration(d: u64) -> (s: String)
    ensures
        s@ == spec_fmt_duration(d as int),
{
    let secs = d;
    let minutes = secs / 60;
    let seconds = secs % 60;
    let mut out: Vec<char> = Vec::new();
    push_two_digits(minutes, &mut out);
    out.push(':');
    push_two_digits(seconds, &mut out);
    proof {
        assert(out@ =~= spec_fmt_duration(d as int));
    }
    chars_to_string(&out)
}

/// The keyboard commands of the interface's normal mode.
#[derive(Debug, Clone, Copy, PartialEq, Eq, Hash)]
pub enum KeyCommand {
    Quit,
    ToggleHint,
    InputTask,
    Reset,
    Toggle,
    SwitchMode,
    SetLong,
    SetShort,
    SetTest,
}

impl KeyCommand {
    pub open spec fn spec_description(self) -> Seq<char> {
        match self {
            KeyCommand::InputTask => "Input current task name"@,
            KeyCommand::Reset => "Reset timer"@,
            KeyCommand::Toggle => "Start/Pause"@,
            KeyCommand::SwitchMode => "Switch Work/Break"@,
            KeyCommand::SetLong => "Set Long session (50/10)[m]"@,
            KeyCommand::SetShort => "Set Short session (25/5)[m]"@,
            KeyCommand::SetTest => "Set Test session (5/5)[s]"@,
            KeyCommand::ToggleHint => "Close Hint Page"@,
            KeyCommand::Quit => "Quit"@,
        }
    }

    /// The description shown beside the key in the hint table.
    pub fn description(self) -> (r: &'static str)
        ensures
            r@ == self.spec_description(),
    {
        match self {
            KeyCommand::InputTask => "Input current task name",
            KeyCommand::Reset => "Reset timer",
            KeyCommand::Toggle => "Start/Pause",
            KeyCommand::SwitchMode => "Switch Work/Break",
            KeyCommand::SetLong => "Set Long session (50/10)[m]",
            KeyCommand::SetShort => "Set Short session (25/5)[m]",
            KeyCommand::SetTest => "Set Test session (5/5)[s]",
            KeyCommand::ToggleHint => "Close Hint Page",
            KeyCommand::Quit => "Quit",
        }
    }

    pub open spec fn spec_key_display(self) -> Seq<char> {
        match self {
            KeyCommand::InputTask => "i"@,
            KeyCommand::Reset => "r"@,
            KeyCommand::Toggle => "Space"@,
            KeyCommand::SwitchMode => "s"@,
            KeyCommand::SetLong => "+"@,
            KeyCommand::SetShort => "-"@,
            KeyCommand::SetTest => "`"@,
            KeyCommand::ToggleHint => "?"@,
            KeyCommand::Quit => "q"@,
        }
    }

    /// The key shown in the hint table.
    pub fn key_display(self) -> (r: &'static str)
        ensures
            r@ == self.spec_key_display(),
    {
        match self {
            KeyCommand::InputTask => "i",
            KeyCommand::Reset => "r",
            KeyCommand::Toggle => "Space",
            KeyCommand::SwitchMode => "s",
            KeyCommand::SetLong => "+",
            KeyCommand::SetShort => "-",
            KeyCommand::SetTest => "`",
            KeyCommand::ToggleHint => "?",
            KeyCommand::Quit => "q",
        }
    }
}

} // verus!

//! The command dispatcher's decisions: which system command each action
//! delegates to, the text of the interactive menu, and the mapping from one
//! line of user input to the action it selects. Reading arguments, the
//! environment and standard input is host I/O and stays outside this
//! library; callers hand in plain strings.

use vstd::prelude::*;
use vstd::string::{StrSliceExecFns, StringExecFns};

use crate::process::{CommandSpec, Process};

verus! {

/// The actions the tool can delegate to the host.
#[derive(Clone, Copy, PartialEq, Eq, Structural, Debug)]
pub enum Command {
    /// Power off the system.
    Kill,
    /// Restart the system.
    Restart,
    /// Log out of the current user's session.
    Logout,
}

/// The display name of each action.
pub open spec fn spec_label(c: Command) -> Seq<char> {
    match c {
        Command::Kill => "Kill"@,
        Command::Restart => "Restart"@,
        Command::Logout => "Logout"@,
    }
}

impl Command {
    /// The display name of the action.
    pub fn label(&self) -> (r: &'static str)
        ensures
            r@ == spec_label(*self),
    {
        match self {
            Command::Kill => "Kill",
            Command::Restart => "Restart",
            Command::Logout => "Logout",
        }
    }
}

/// The runner that powers the system off.
pub fn kill() -> (p: Process)
    ensures
        p@.executable == "systemctl"@,
        p@.args == seq!["poweroff"@],
{
    let mut args: Vec<String> = Vec::new();
    args.push(String::from_str("poweroff"));
    proof {
        assert(args.deep_view() =~= seq!["poweroff"@]);
    }
    Process::new(CommandSpec { executable: String::from_str("systemctl"), args })
}

/// The runner that restarts the system.
pub fn restart() -> (p: Process)
    ensures
        p@.executable == "systemctl"@,
        p@.args == seq!["reboot"@],
{
    let mut args: Vec<String> = Vec::new();
    args.push(String::from_str("reboot"));
    proof {
        assert(args.deep_view() =~= seq!["reboot"@]);
    }
    Process::new(CommandSpec { executable: String::from_str("systemctl"), args })
}

/// The runner that terminates the given user's session. The caller reads the
/// user name from its environment and fails fast when it is absent.
pub fn logout(user: String) -> (p: Process)
    ensures
        p@.executable == "loginctl"@,
        p@.args == seq!["terminate-user"@, user@],
{
    let mut args: Vec<String> = Vec::new();
    args.push(String::from_str("terminate-user"));
    args.push(user);
    proof {
        assert(args.deep_view() =~= seq!["terminate-user"@, args@[1]@]);
    }
    Process::new(CommandSpec { executable: String::from_str("loginctl"), args })
}

/// The interactive menu line: each action with the digit that selects it.
pub open spec fn spec_prompt() -> Seq<char> {
    "(0) "@ + spec_label(Command::Kill) + ", (1) "@ + spec_label(Command::Restart) + ", (2) "@
        + spec_label(Command::Logout)
}

/// Builds the interactive menu line.
pub fn prompt() -> (r: String)
    ensures
        r@ == spec_prompt(),
{
    let mut s = String::from_str("(0) ");
    s.append(Command::Kill.label());
    s.append(", (1) ");
    s.append(Command::Restart.label());
    s.append(", (2) ");
    s.append(Command::Logout.label());
    s
}

/// Whether a character is a decimal digit.
pub open spec fn is_decimal_digit(c: char) -> bool {
    48 <= c as int <= 57
}

/// The numeric value of one decimal digit character.
pub open spec fn digit_value(c: char) -> int {
    c as int - 48
}

/// Whether every character of the sequence is a decimal digit.
pub open spec fn all_decimal_digits(s: Seq<char>) -> bool {
    forall|i: int| 0 <= i < s.len() ==> is_decimal_digit(#[trigger] s[i])
}

/// The numeric value of a sequence of decimal digit characters.
pub open spec fn digits_value(s: Seq<char>) -> int
    decreases s.len(),
{
    if s.len() == 0 {
        0
    } else {
        digits_value(s.drop_last()) * 10 + digit_value(s.last())
    }
}

/// The digit portion of an answer: everything after an optional leading `+`.
pub open spec fn answer_digits(s: Seq<char>) -> Seq<char> {
    if s.len() > 0 && s[0] == '+' {
        s.skip(1)
    } else {
        s
    }
}

/// How one answer parses as an unsigned byte: an optional leading `+`, then
/// one or more decimal digits whose value fits in a byte; anything else is
/// rejected.
pub open spec fn parsed_u8(s: Seq<char>) -> Option<u8> {
    let digits = answer_digits(s);
    if digits.len() > 0 && all_decimal_digits(digits) && digits_value(digits) <= 255 {
        Some(digits_value(digits) as u8)
    } else {
        None
    }
}

/// Which action one answer selects: its parsed value must be the digit shown
/// beside an action in the menu.
pub open spec fn spec_selected(s: Seq<char>) -> Option<Command> {
    match parsed_u8(s) {
        Some(0u8) => Some(Command::Kill),
        Some(1u8) => Some(Command::Restart),
        Some(2u8) => Some(Command::Logout),
        _ => None,
    }
}

/// The value of a digit sequence never shrinks as digits are appended, so a
/// prefix that is already too large for a byte condemns the whole sequence.
proof fn lemma_digits_value_grows(s: Seq<char>, n: int)
    requires
        0 <= n <= s.len(),
        forall|j: int| n <= j < s.len() ==> is_decimal_digit(#[trigger] s[j]),
        digits_value(s.take(n)) >= 0,
    ensures
        digits_value(s) >= digits_value(s.take(n)),
    decreases s.len() - n,
{
    if n == s.len() {
        assert(s.take(n) =~= s);
    } else {
        assert(s.take(n + 1).drop_last() =~= s.take(n));
        assert(s.take(n + 1).last() == s[n]);
        lemma_digits_value_grows(s, n + 1);
    }
}

/// Maps one line of user input, surrounding whitespace already removed, to
/// the action it selects, exactly as [`spec_selected`] states.
pub fn select_command(answer: &str) -> (r: Option<Command>)
    ensures
        r == spec_selected(answer@),
{
    let len = answer.unicode_len();
    let start: usize = if len > 0 && answer.get_char(0) == '+' {
        1
    } else {
        0
    };
    let ghost digits = answer_digits(answer@);
    proof {
        assert(digits =~= answer@.subrange(start as int, len as int));
    }
    if start >= len {
        assert(digits.len() == 0);
        return None;
    }
    let mut value: u32 = 0;
    let mut i: usize = start;
    while i < len
        invariant
            start <= i <= len,
            len == answer@.len(),
            digits == answer_digits(answer@),
            digits =~= answer@.subrange(start as int, len as int),
            forall|j: int| start <= j < i ==> is_decimal_digit(#[trigger] answer@[j]),
            value == digits_value(answer@.subrange(start as int, i as int)),
            value <= 255,
        decreases len - i,
    {
        let c = answer.get_char(i);
        let code = c as u32;
        if code < 48 || code > 57 {
            assert(digits[i - start] == answer@[i as int]);
            assert(!all_decimal_digits(digits));
            return None;
        }
        proof {
            assert(answer@.subrange(start as int, i + 1).drop_last() =~= answer@.subrange(
                start as int,
                i as int,
            ));
            assert(answer@.subrange(start as int, i + 1).last() == answer@[i as int]);
        }
        value = value * 10 + (code - 48);
        if value > 255 {
            proof {
                if all_decimal_digits(digits) {
                    assert(digits.take(i + 1 - start) =~= answer@.subrange(start as int, i + 1));
                    lemma_digits_value_grows(digits, i + 1 - start);
                }
            }
            return None;
        }
        i = i + 1;
    }
    proof {
        assert(answer@.subrange(start as int, len as int) =~= digits);
        assert(all_decimal_digits(digits));
    }
    let selected = value as u8;
    if selected == 0 {
        Some(Command::Kill)
    } else if selected == 1 {
        Some(Command::Restart)
    } else if selected == 2 {
        Some(Command::Logout)
    } else {
        None
    }
}

} // verus!

//! Carrying a command out: the counter update and the exact reply text of
//! every command, and the handler that takes a raw message to both.

use crate::command::{spec_parse, Command};
use crate::counter::{wrapping_inc, Counter};
use crate::numeral::{decimal_digits, digits_to_string, lemma_decimal_digits, spec_decimal};
use crate::search::{chars_contain, seq_contains, str_chars};
use vstd::prelude::*;
use vstd::string::StringExecFns;

verus! {

/// The help text: one line per command.
pub open spec fn spec_help_text() -> Seq<char> {
    "Help:\n!booba - Add 1 to the booba count\n!boobacount - Show the current count\n!boobareset - Reset the counter\n!boobasave [count] - Set the counter to a specific value\n!help - This msg"@
}

/// Whether `v` is a funny number: its decimal numeral contains `420` or
/// `69` somewhere.
pub open spec fn spec_funny(v: usize) -> bool {
    seq_contains(spec_decimal(v as nat), "420"@) || seq_contains(spec_decimal(v as nat), "69"@)
}

/// The reply to a count query at counter value `v`.
pub open spec fn spec_show_reply(v: usize) -> Seq<char> {
    if spec_funny(v) {
        "There have been "@ + spec_decimal(v as nat) + " Booba."@ + " Haha funny number."@
    } else {
        "There have been "@ + spec_decimal(v as nat) + " Booba."@
    }
}

/// The reply confirming that the counter was set to `n`.
pub open spec fn spec_set_reply(n: usize) -> Seq<char> {
    "Count has been set to "@ + spec_decimal(n as nat) + "."@
}

/// The counter value after `cmd` runs at value `v`. Only the increment,
/// reset and set commands change it.
pub open spec fn spec_next_value(v: usize, cmd: Command) -> usize {
    match cmd {
        Command::Increment => wrapping_inc(v),
        Command::Reset => 0,
        Command::SetTo(n) => n,
        _ => v,
    }
}

/// The reply `cmd` produces at counter value `v`; `None` is silence.
pub open spec fn spec_reply(v: usize, cmd: Command) -> Option<Seq<char>> {
    match cmd {
        Command::Increment => Some("Booba Counted."@),
        Command::ShowCount => Some(spec_show_reply(v)),
        Command::Reset => Some("Count reset."@),
        Command::SetTo(n) => Some(spec_set_reply(n)),
        Command::SaveMissingArg => Some("Need a count to set to."@),
        Command::SaveBadArg => Some("The count needs to be a number."@),
        Command::Help => Some(spec_help_text()),
        Command::Unrecognized => None,
    }
}

/// Decides whether `v` is a funny number.
pub fn is_funny(v: usize) -> (r: bool)
    ensures
        r == spec_funny(v),
{
    let digits = decimal_digits(v);
    let p1 = str_chars("420");
    if chars_contain(&digits, &p1) {
        return true;
    }
    let p2 = str_chars("69");
    chars_contain(&digits, &p2)
}

/// Runs `cmd` against the counter and returns the reply to send, if any.
/// The new counter value is `spec_next_value` of the old one, and the reply
/// is exactly `spec_reply` at the old value.
pub fn dispatch(counter: &mut Counter, cmd: Command) -> (reply: Option<String>)
    ensures
        final(counter).spec_read() == spec_next_value(old(counter).spec_read(), cmd),
        (reply is Some) == (spec_reply(old(counter).spec_read(), cmd) is Some),
        reply is Some ==> reply->Some_0@ == spec_reply(old(counter).spec_read(), cmd)->Some_0,
{
    match cmd {
        Command::Increment => {
            counter.increment();
            Some(String::from_str("Booba Counted."))
        },
        Command::ShowCount => {
            let v = counter.read();
            let digits = decimal_digits(v);
            proof {
                lemma_decimal_digits(v as nat);
            }
            let mut s = String::from_str("There have been ");
            let num = digits_to_string(&digits);
            s.append(num.as_str());
            s.append(" Booba.");
            if is_funny(v) {
                s.append(" Haha funny number.");
            }
            Some(s)
        },
        Command::Reset => {
            counter.store(0);
            Some(String::from_str("Count reset."))
        },
        Command::SetTo(n) => {
            counter.store(n);
            let digits = decimal_digits(n);
            proof {
                lemma_decimal_digits(n as nat);
            }
            let mut s = String::from_str("Count has been set to ");
            let num = digits_to_string(&digits);
            s.append(num.as_str());
            s.append(".");
            Some(s)
        },
        Command::SaveMissingArg => Some(String::from_str("Need a count to set to.")),
        Command::SaveBadArg => Some(String::from_str("The count needs to be a number.")),
        Command::Help => Some(
            String::from_str(
                "Help:\n!booba - Add 1 to the booba count\n!boobacount - Show the current count\n!boobareset - Reset the counter\n!boobasave [count] - Set the counter to a specific value\n!help - This msg",
            ),
        ),
        Command::Unrecognized => None,
    }
}

/// Handles one incoming message: parses it and runs the command it selects.
/// The counter moves to `spec_next_value` of the parsed command, and the
/// returned text, if any, is exactly the reply that command owes.
pub fn handle_message(counter: &mut Counter, content: &str) -> (reply: Option<String>)
    ensures
        final(counter).spec_read() == spec_next_value(
            old(counter).spec_read(),
            spec_parse(content@),
        ),
        (reply is Some) == (spec_reply(old(counter).spec_read(), spec_parse(content@)) is Some),
        reply is Some ==> reply->Some_0@ == spec_reply(
            old(counter).spec_read(),
            spec_parse(content@),
        )->Some_0,
{
    let cmd = crate::command::parse_command(content);
    dispatch(counter, cmd)
}

} // verus!

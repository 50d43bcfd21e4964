//! Reading a message as a command.
//!
//! The first whitespace-separated token selects the command; `!boobasave`
//! also consults the second token as its argument. Tokens beyond those are
//! ignored, and a message whose first token is not a known keyword (or that
//! has no tokens at all) is not a command.

use crate::numeral::{digits_value, is_count_token};
use crate::tokens::{first_token, second_token, skip_spaces_exec, str_eq, token_end_exec};
use vstd::prelude::*;
use vstd::string::StrSliceExecFns;

verus! {

/// The intent parsed out of one message.
#[derive(Clone, Copy, PartialEq, Eq, Structural, Debug)]
pub enum Command {
    /// `!booba`: add one to the counter.
    Increment,
    /// `!boobacount`: report the current count.
    ShowCount,
    /// `!boobareset`: set the counter back to zero.
    Reset,
    /// `!boobasave n`: set the counter to `n`.
    SetTo(usize),
    /// `!boobasave` with no argument token.
    SaveMissingArg,
    /// `!boobasave` with an argument that is not an acceptable count.
    SaveBadArg,
    /// `!help`: report the help text.
    Help,
    /// Anything else, including a message with no tokens.
    Unrecognized,
}

/// The command a message selects.
pub open spec fn spec_parse(s: Seq<char>) -> Command {
    let kw = first_token(s);
    if kw.len() == 0 {
        Command::Unrecognized
    } else if kw == "!booba"@ {
        Command::Increment
    } else if kw == "!boobacount"@ {
        Command::ShowCount
    } else if kw == "!boobareset"@ {
        Command::Reset
    } else if kw == "!boobasave"@ {
        let arg = second_token(s);
        if arg.len() == 0 {
            Command::SaveMissingArg
        } else if is_count_token(arg) {
            Command::SetTo(digits_value(arg) as usize)
        } else {
            Command::SaveBadArg
        }
    } else if kw == "!help"@ {
        Command::Help
    } else {
        Command::Unrecognized
    }
}

/// Parses the message `content` into the command it selects.
pub fn parse_command(content: &str) -> (cmd: Command)
    ensures
        cmd == spec_parse(content@),
{
    let a = skip_spaces_exec(content, 0);
    let b = token_end_exec(content, a);
    let kw = content.substring_char(a, b);
    if kw.is_empty() {
        return Command::Unrecognized;
    }
    if str_eq(kw, "!booba") {
        Command::Increment
    } else if str_eq(kw, "!boobacount") {
        Command::ShowCount
    } else if str_eq(kw, "!boobareset") {
        Command::Reset
    } else if str_eq(kw, "!boobasave") {
        let c = skip_spaces_exec(content, b);
        let d = token_end_exec(content, c);
        let arg = content.substring_char(c, d);
        if arg.is_empty() {
            Command::SaveMissingArg
        } else {
            match crate::numeral::parse_count(arg) {
                Some(n) => Command::SetTo(n),
                None => Command::SaveBadArg,
            }
        }
    } else if str_eq(kw, "!help") {
        Command::Help
    } else {
        Command::Unrecognized
    }
}

} // verus!

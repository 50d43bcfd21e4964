//! Laws of the command handler: how runs of commands move the counter, and
//! what the fixed replies promise.

use crate::command::Command;
use crate::dispatch::{spec_help_text, spec_next_value, spec_reply, spec_show_reply};
use crate::search::{match_at, seq_contains};
use vstd::prelude::*;

verus! {

/// The counter value after running every command of `cmds` in order,
/// starting from `v`.
pub open spec fn apply_all(v: usize, cmds: Seq<Command>) -> usize
    decreases cmds.len(),
{
    if cmds.len() == 0 {
        v
    } else {
        apply_all(spec_next_value(v, cmds[0]), cmds.drop_first())
    }
}

/// How many commands of `cmds` are increments.
pub open spec fn count_increments(cmds: Seq<Command>) -> nat
    decreases cmds.len(),
{
    if cmds.len() == 0 {
        0
    } else {
        (if cmds[0] == Command::Increment {
            1nat
        } else {
            0nat
        }) + count_increments(cmds.drop_first())
    }
}

/// Whether `cmd` leaves the counter alone.
pub open spec fn is_observer(cmd: Command) -> bool {
    match cmd {
        Command::ShowCount => true,
        Command::Help => true,
        Command::SaveMissingArg => true,
        Command::SaveBadArg => true,
        Command::Unrecognized => true,
        _ => false,
    }
}

/// Any run of increments interleaved with count queries grows the counter
/// by exactly the number of increments, whatever the interleaving, and a
/// query at the end reports exactly that value. (Stated below the top of
/// the `usize` range, where an increment would wrap.)
pub proof fn lemma_increments_count(v: usize, cmds: Seq<Command>)
    requires
        forall|i: int|
            0 <= i < cmds.len() ==> (#[trigger] cmds[i] == Command::Increment || cmds[i]
                == Command::ShowCount),
        v + count_increments(cmds) <= usize::MAX,
    ensures
        apply_all(v, cmds) == v + count_increments(cmds),
        spec_reply(apply_all(v, cmds), Command::ShowCount) == Some(
            spec_show_reply((v + count_increments(cmds)) as usize),
        ),
    decreases cmds.len(),
{
    if cmds.len() > 0 {
        let rest = cmds.drop_first();
        assert(forall|i: int| 0 <= i < rest.len() ==> rest[i] == cmds[i + 1]);
        if cmds[0] == Command::Increment {
            lemma_increments_count((v + 1) as usize, rest);
        } else {
            lemma_increments_count(v, rest);
        }
    }
}

/// Observer commands (queries, help, rejected saves, unrecognized input)
/// never move the counter.
pub proof fn lemma_observers_preserve(v: usize, cmds: Seq<Command>)
    requires
        forall|i: int| 0 <= i < cmds.len() ==> is_observer(#[trigger] cmds[i]),
    ensures
        apply_all(v, cmds) == v,
    decreases cmds.len(),
{
    if cmds.len() > 0 {
        let rest = cmds.drop_first();
        assert(forall|i: int| 0 <= i < rest.len() ==> rest[i] == cmds[i + 1]);
        lemma_observers_preserve(v, rest);
    }
}

/// A reset drives the counter to zero, and as long as only observer
/// commands follow, every count query along the way reads zero and replies
/// with the zero-count text.
pub proof fn lemma_reads_zero_after_reset(v: usize, cmds: Seq<Command>, k: int)
    requires
        forall|i: int| 0 <= i < cmds.len() ==> is_observer(#[trigger] cmds[i]),
        0 <= k < cmds.len(),
        cmds[k] == Command::ShowCount,
    ensures
        spec_next_value(v, Command::Reset) == 0,
        apply_all(spec_next_value(v, Command::Reset), cmds.take(k)) == 0,
        spec_reply(apply_all(spec_next_value(v, Command::Reset), cmds.take(k)), cmds[k]) == Some(
            spec_show_reply(0),
        ),
{
    let pre = cmds.take(k);
    assert(forall|i: int| 0 <= i < pre.len() ==> pre[i] == cmds[i]);
    lemma_observers_preserve(0, pre);
}

/// The help command never changes the counter, its reply is the same at
/// every counter value, and the help text names all five command keywords.
pub proof fn lemma_help_reply(v1: usize, v2: usize)
    ensures
        spec_next_value(v1, Command::Help) == v1,
        spec_reply(v1, Command::Help) == spec_reply(v2, Command::Help),
        seq_contains(spec_help_text(), "!booba"@),
        seq_contains(spec_help_text(), "!boobacount"@),
        seq_contains(spec_help_text(), "!boobareset"@),
        seq_contains(spec_help_text(), "!boobasave"@),
        seq_contains(spec_help_text(), "!help"@),
{
    reveal_strlit(
        "Help:\n!booba - Add 1 to the booba count\n!boobacount - Show the current count\n!boobareset - Reset the counter\n!boobasave [count] - Set the counter to a specific value\n!help - This msg",
    );
    reveal_strlit("!booba");
    reveal_strlit("!boobacount");
    reveal_strlit("!boobareset");
    reveal_strlit("!boobasave");
    reveal_strlit("!help");
    assert(match_at(spec_help_text(), "!booba"@, 6)) by {
        assert(spec_help_text().subrange(6, 12) =~= "!booba"@);
    }
    assert(match_at(spec_help_text(), "!boobacount"@, 40)) by {
        assert(spec_help_text().subrange(40, 51) =~= "!boobacount"@);
    }
    assert(match_at(spec_help_text(), "!boobareset"@, 77)) by {
        assert(spec_help_text().subrange(77, 88) =~= "!boobareset"@);
    }
    assert(match_at(spec_help_text(), "!boobasave"@, 109)) by {
        assert(spec_help_text().subrange(109, 119) =~= "!boobasave"@);
    }
    assert(match_at(spec_help_text(), "!help"@, 166)) by {
        assert(spec_help_text().subrange(166, 171) =~= "!help"@);
    }
}

} // verus!

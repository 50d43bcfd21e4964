//! End-to-end handling of messages against a counter: state changes and the
//! exact reply text of every command.

use booba_bot::{handle_message, Counter};

#[test]
fn counter_operations() {
    let mut c = Counter::new();
    assert_eq!(c.read(), 0);
    c.increment();
    c.increment();
    assert_eq!(c.read(), 2);
    c.store(41);
    assert_eq!(c.read(), 41);
}

#[test]
fn increment_counts_and_confirms() {
    let mut c = Counter::new();
    let reply = handle_message(&mut c, "!booba");
    assert_eq!(reply.as_deref(), Some("Booba Counted."));
    assert_eq!(c.read(), 1);
}

#[test]
fn count_reflects_increments() {
    let mut c = Counter::new();
    for _ in 0..3 {
        handle_message(&mut c, "!booba");
    }
    let reply = handle_message(&mut c, "!boobacount");
    assert_eq!(reply.as_deref(), Some("There have been 3 Booba."));
    assert_eq!(c.read(), 3);
}

#[test]
fn reset_goes_to_zero_and_reads_stay_zero() {
    let mut c = Counter::new();
    handle_message(&mut c, "!boobasave 99");
    let reply = handle_message(&mut c, "!boobareset");
    assert_eq!(reply.as_deref(), Some("Count reset."));
    assert_eq!(c.read(), 0);
    let first = handle_message(&mut c, "!boobacount");
    assert_eq!(first.as_deref(), Some("There have been 0 Booba."));
    handle_message(&mut c, "!help");
    handle_message(&mut c, "!unknown");
    handle_message(&mut c, "!boobasave nope");
    let again = handle_message(&mut c, "!boobacount");
    assert_eq!(again.as_deref(), Some("There have been 0 Booba."));
}

#[test]
fn save_42_then_count() {
    let mut c = Counter::new();
    let set = handle_message(&mut c, "!boobasave 42");
    assert_eq!(set.as_deref(), Some("Count has been set to 42."));
    assert_eq!(c.read(), 42);
    let count = handle_message(&mut c, "!boobacount");
    assert_eq!(count.as_deref(), Some("There have been 42 Booba."));
}

#[test]
fn save_without_argument_prompts_and_keeps_value() {
    let mut c = Counter::new();
    c.store(5);
    let reply = handle_message(&mut c, "!boobasave");
    assert_eq!(reply.as_deref(), Some("Need a count to set to."));
    assert_eq!(c.read(), 5);
}

#[test]
fn save_non_numeric_rejected_and_keeps_value() {
    let mut c = Counter::new();
    c.store(5);
    let reply = handle_message(&mut c, "!boobasave abc");
    assert_eq!(reply.as_deref(), Some("The count needs to be a number."));
    assert_eq!(c.read(), 5);
}

#[test]
fn save_negative_rejected_like_non_numeric() {
    let mut c = Counter::new();
    c.store(5);
    let reply = handle_message(&mut c, "!boobasave -5");
    assert_eq!(reply.as_deref(), Some("The count needs to be a number."));
    assert_eq!(c.read(), 5);
}

#[test]
fn unrecognized_is_silent_and_harmless() {
    let mut c = Counter::new();
    c.store(7);
    assert_eq!(handle_message(&mut c, "!unknown"), None);
    assert_eq!(handle_message(&mut c, ""), None);
    assert_eq!(handle_message(&mut c, "just chatting"), None);
    assert_eq!(c.read(), 7);
}

#[test]
fn help_names_every_command_and_never_changes() {
    let mut c = Counter::new();
    c.store(13);
    let first = handle_message(&mut c, "!help").expect("help must reply");
    assert_eq!(c.read(), 13);
    for keyword in ["!booba", "!boobacount", "!boobareset", "!boobasave", "!help"] {
        assert!(first.contains(keyword));
    }
    let second = handle_message(&mut c, "!help").expect("help must reply");
    assert_eq!(first, second);
    assert_eq!(c.read(), 13);
}

#[test]
fn help_text_is_exact() {
    let mut c = Counter::new();
    let reply = handle_message(&mut c, "!help");
    assert_eq!(
        reply.as_deref(),
        Some(
            "Help:\n!booba - Add 1 to the booba count\n!boobacount - Show the current count\n!boobareset - Reset the counter\n!boobasave [count] - Set the counter to a specific value\n!help - This msg"
        )
    );
}

#[test]
fn funny_number_420() {
    let mut c = Counter::new();
    handle_message(&mut c, "!boobasave 420");
    let reply = handle_message(&mut c, "!boobacount");
    assert_eq!(
        reply.as_deref(),
        Some("There have been 420 Booba. Haha funny number.")
    );
}

#[test]
fn plain_number_421() {
    let mut c = Counter::new();
    handle_message(&mut c, "!boobasave 421");
    let reply = handle_message(&mut c, "!boobacount");
    assert_eq!(reply.as_deref(), Some("There have been 421 Booba."));
    assert!(!reply.unwrap().contains("Haha funny number."));
}

#[test]
fn funny_number_substrings() {
    let mut c = Counter::new();
    handle_message(&mut c, "!boobasave 69");
    let reply = handle_message(&mut c, "!boobacount");
    assert_eq!(
        reply.as_deref(),
        Some("There have been 69 Booba. Haha funny number.")
    );
    handle_message(&mut c, "!boobasave 14205");
    let reply = handle_message(&mut c, "!boobacount");
    assert_eq!(
        reply.as_deref(),
        Some("There have been 14205 Booba. Haha funny number.")
    );
    handle_message(&mut c, "!boobasave 0");
    let reply = handle_message(&mut c, "!boobacount");
    assert_eq!(reply.as_deref(), Some("There have been 0 Booba."));
}

#[test]
fn increment_wraps_at_the_top() {
    let mut c = Counter::new();
    c.store(usize::MAX);
    let reply = handle_message(&mut c, "!booba");
    assert_eq!(reply.as_deref(), Some("Booba Counted."));
    assert_eq!(c.read(), 0);
}

use ironjournal::dispatch::dispatch;
use ironjournal::dispatch::Action;

fn args(tokens: &[&str]) -> Vec<String> {
    tokens.iter().map(|t| String::from(*t)).collect()
}

#[test]
fn no_arguments_gives_usage_hint() {
    assert!(matches!(dispatch(&args(&[])), Action::UsageHint));
}

#[test]
fn new_flag_alone_asks_for_title() {
    assert!(matches!(dispatch(&args(&["-n"])), Action::MissingTitleOrCategory));
}

#[test]
fn new_note_without_category_falls_into_misc() {
    let r = dispatch(&args(&["-n", "X"]));
    assert!(matches!(r, Action::CreateNote { title, category }
        if title == "X" && category == "misc"));
}

#[test]
fn new_note_with_category_keeps_both() {
    let r = dispatch(&args(&["-n", "Foo", "work"]));
    assert!(matches!(r, Action::CreateNote { title, category }
        if title == "Foo" && category == "work"));
}

#[test]
fn new_note_with_extra_tokens_is_invalid() {
    assert!(matches!(dispatch(&args(&["-n", "a", "b", "c"])), Action::InvalidArguments));
}

#[test]
fn help_flags_show_help() {
    assert!(matches!(dispatch(&args(&["-h"])), Action::Help));
    assert!(matches!(dispatch(&args(&["-help"])), Action::Help));
    assert!(matches!(dispatch(&args(&["-h", "extra"])), Action::Help));
}

#[test]
fn category_flag_alone_lacks_arguments() {
    assert!(matches!(dispatch(&args(&["-c"])), Action::NotEnoughArguments));
}

#[test]
fn category_flag_lists_that_category() {
    let r = dispatch(&args(&["-c", "work"]));
    assert!(matches!(r, Action::ListCategory { category } if category == "work"));
}

#[test]
fn category_flag_with_two_tokens_is_invalid() {
    assert!(matches!(dispatch(&args(&["-c", "a", "b"])), Action::InvalidArguments));
}

#[test]
fn unknown_first_token_is_unrecognized() {
    assert!(matches!(dispatch(&args(&["-x"])), Action::UnrecognizedArguments));
    assert!(matches!(dispatch(&args(&["note"])), Action::UnrecognizedArguments));
    assert!(matches!(dispatch(&args(&["--help"])), Action::UnrecognizedArguments));
}

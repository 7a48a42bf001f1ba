use commit_prompt::{breaking_suffix, format_message};

#[test]
fn message_without_note_has_no_suffix() {
    let m = format_message("feat", "cli", "add prompt", "adds interactive flow", "");
    assert_eq!(m, "\"feat(cli): add prompt \n adds interactive flow\"");
}

#[test]
fn message_with_note_ends_with_references() {
    let m = format_message(
        "feat",
        "cli",
        "add prompt",
        "adds interactive flow",
        "closes #12",
    );
    assert_eq!(
        m,
        "\"feat(cli): add prompt \n adds interactive flow\n references:: closes #12\""
    );
}

#[test]
fn formatting_twice_gives_the_same_message() {
    let a = format_message("fix", "io", "close files", "files were leaked", "");
    let b = format_message("fix", "io", "close files", "files were leaked", "");
    assert_eq!(a, b);
}

#[test]
fn empty_note_gives_empty_suffix() {
    assert_eq!(breaking_suffix(""), "");
}

#[test]
fn note_gives_references_suffix() {
    assert_eq!(breaking_suffix("closes #12"), "\n references:: closes #12");
}

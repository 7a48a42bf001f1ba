use commit_prompt::{get_ctype_flag, CommitType};

#[test]
fn every_kind_has_its_tag() {
    let expected = [
        (CommitType::Fix, "fix"),
        (CommitType::Feat, "feat"),
        (CommitType::Docs, "docs"),
        (CommitType::Style, "style"),
        (CommitType::Refactor, "refactor"),
        (CommitType::Perf, "perf"),
        (CommitType::Test, "test"),
        (CommitType::Build, "build"),
        (CommitType::Ci, "ci"),
    ];
    for (kind, tag) in expected {
        assert_eq!(get_ctype_flag(kind), tag);
    }
}

#[test]
fn every_kind_has_its_label() {
    let expected = [
        (CommitType::Fix, "\u{1F41B} fix: Bug fix"),
        (CommitType::Feat, "\u{1F984} feat: New feature"),
        (CommitType::Docs, "\u{1F4D1} docs: Documentation changes"),
        (
            CommitType::Style,
            "\u{1F60E} style: Styling changes (no change to actual meaning of the code",
        ),
        (CommitType::Refactor, "\u{1F6E0} refactor: Improve existing code"),
        (CommitType::Perf, "\u{1F531} perf: Improved performance"),
        (
            CommitType::Test,
            "\u{1F3E5} test: Adding test or correcting existing test",
        ),
        (
            CommitType::Build,
            "\u{1F3CB} build: Changes that affect the build system",
        ),
        (CommitType::Ci, "\u{1F9D8} ci: Changes to our CI configuration"),
    ];
    for (kind, label) in expected {
        assert_eq!(kind.label(), label);
    }
}

#[test]
fn selection_list_holds_nine_kinds_in_order() {
    let all = CommitType::all();
    assert_eq!(
        all,
        vec![
            CommitType::Fix,
            CommitType::Feat,
            CommitType::Docs,
            CommitType::Style,
            CommitType::Refactor,
            CommitType::Perf,
            CommitType::Test,
            CommitType::Build,
            CommitType::Ci,
        ]
    );
}

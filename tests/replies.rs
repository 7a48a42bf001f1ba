use commit_prompt::{
    input_failure_message, kind_failure_message, optional_reply, required_reply, Field, Reply,
};

#[test]
fn required_refuses_empty_answer() {
    assert_eq!(
        required_reply(Field::Scope, Some(String::new())),
        Reply::AskAgain
    );
}

#[test]
fn required_accepts_text_unchanged() {
    assert_eq!(
        required_reply(Field::LongDescription, Some("a b".to_string())),
        Reply::Accept("a b".to_string())
    );
}

#[test]
fn required_aborts_on_failed_session() {
    assert_eq!(
        required_reply(Field::ShortDescription, None),
        Reply::Abort(
            "An error happened when asking for short_description, try again later.".to_string()
        )
    );
}

#[test]
fn optional_accepts_empty_answer() {
    assert_eq!(
        optional_reply(Field::BreakingChange, Some(String::new())),
        Reply::Accept(String::new())
    );
}

#[test]
fn optional_accepts_text_unchanged() {
    assert_eq!(
        optional_reply(Field::BreakingChange, Some(" closes #3 ".to_string())),
        Reply::Accept(" closes #3 ".to_string())
    );
}

#[test]
fn optional_aborts_on_failed_session() {
    assert_eq!(
        optional_reply(Field::BreakingChange, None),
        Reply::Abort(
            "An error happened when asking for breaking_change, try again later.".to_string()
        )
    );
}

#[test]
fn failure_messages_name_the_step() {
    assert_eq!(
        input_failure_message("scope"),
        "An error happened when asking for scope, try again later."
    );
    assert_eq!(
        kind_failure_message(),
        "commit_type:: There was an error, please try again"
    );
}

#[test]
fn fields_have_names_questions_and_requirement() {
    assert_eq!(Field::Scope.name(), "scope");
    assert_eq!(Field::ShortDescription.name(), "short_description");
    assert_eq!(Field::LongDescription.name(), "long_description");
    assert_eq!(Field::BreakingChange.name(), "breaking_change");
    assert_eq!(Field::Scope.question(), "Define scope of this commit?");
    assert_eq!(
        Field::ShortDescription.question(),
        "Write short imperative tense description of the change?"
    );
    assert_eq!(
        Field::LongDescription.question(),
        "Provide a longer description of the change?"
    );
    assert_eq!(
        Field::BreakingChange.question(),
        "list any breaking changes or issues closed by this change"
    );
    assert!(Field::Scope.is_required());
    assert!(Field::ShortDescription.is_required());
    assert!(Field::LongDescription.is_required());
    assert!(!Field::BreakingChange.is_required());
}

use vstd::prelude::*;
use vstd::string::StringExecFns;

verus! {

/// The free-text questions, in the order in which they are asked.
#[derive(Clone, Copy, Debug, PartialEq, Eq, Structural)]
pub enum Field {
    Scope,
    ShortDescription,
    LongDescription,
    BreakingChange,
}

/// The name of a field, as diagnostics give it.
pub open spec fn field_name_of(f: Field) -> Seq<char> {
    match f {
        Field::Scope => "scope"@,
        Field::ShortDescription => "short_description"@,
        Field::LongDescription => "long_description"@,
        Field::BreakingChange => "breaking_change"@,
    }
}

/// The question shown to the user for a field.
pub open spec fn question_of(f: Field) -> Seq<char> {
    match f {
        Field::Scope => "Define scope of this commit?"@,
        Field::ShortDescription => "Write short imperative tense description of the change?"@,
        Field::LongDescription => "Provide a longer description of the change?"@,
        Field::BreakingChange => "list any breaking changes or issues closed by this change"@,
    }
}

/// Every field but the breaking-change note must be answered with some text.
pub open spec fn is_required_field(f: Field) -> bool {
    f !is BreakingChange
}

/// The diagnostic for an input session that failed while `name` was asked.
pub open spec fn failure_text(name: Seq<char>) -> Seq<char> {
    "An error happened when asking for "@ + name + ", try again later."@
}

/// The diagnostic for an input session that failed during the kind selection.
pub open spec fn kind_failure_text() -> Seq<char> {
    "commit_type:: There was an error, please try again"@
}

/// What to do with one answer to a free-text question.
#[derive(Debug, PartialEq, Eq)]
pub enum Reply {
    /// The answer stands as the field's value.
    Accept(String),
    /// The answer is refused; the same question is asked again.
    AskAgain,
    /// The input session failed; the run stops with this diagnostic.
    Abort(String),
}

impl Field {
    /// The field's name.
    pub fn name(&self) -> (r: &'static str)
        ensures
            r@ == field_name_of(*self),
    {
        match self {
            Field::Scope => "scope",
            Field::ShortDescription => "short_description",
            Field::LongDescription => "long_description",
            Field::BreakingChange => "breaking_change",
        }
    }

    /// The question to show for the field.
    pub fn question(&self) -> (r: &'static str)
        ensures
            r@ == question_of(*self),
    {
        match self {
            Field::Scope => "Define scope of this commit?",
            Field::ShortDescription => "Write short imperative tense description of the change?",
            Field::LongDescription => "Provide a longer description of the change?",
            Field::BreakingChange => "list any breaking changes or issues closed by this change",
        }
    }

    /// Whether an empty answer is refused.
    pub fn is_required(&self) -> (r: bool)
        ensures
            r == is_required_field(*self),
    {
        match self {
            Field::BreakingChange => false,
            _ => true,
        }
    }
}

/// The question shown above the list of commit kinds.
pub fn kind_question() -> (r: &'static str)
    ensures
        r@ == "What type of commit is it?"@,
{
    "What type of commit is it?"
}

/// The diagnostic for a failed input session while `name` was asked.
pub fn input_failure_message(name: &str) -> (r: String)
    ensures
        r@ == failure_text(name@),
{
    let mut r = String::from_str("An error happened when asking for ");
    r.append(name);
    r.append(", try again later.");
    r
}

/// The diagnostic for a failed input session during the kind selection.
pub fn kind_failure_message() -> (r: String)
    ensures
        r@ == kind_failure_text(),
{
    String::from_str("commit_type:: There was an error, please try again")
}

/// Decides on an answer to a required question; `None` stands for a failed
/// input session. Only a non-empty answer is ever accepted.
pub fn required_reply(field: Field, answer: Option<String>) -> (r: Reply)
    ensures
        r matches Reply::Accept(t) ==> t@.len() > 0,
        match answer {
            None => r matches Reply::Abort(d) && d@ == failure_text(field_name_of(field)),
            Some(s) => if s@.len() == 0 {
                r == Reply::AskAgain
            } else {
                r == Reply::Accept(s)
            },
        },
{
    match answer {
        None => Reply::Abort(input_failure_message(field.name())),
        Some(s) => {
            if s.as_str().is_empty() {
                Reply::AskAgain
            } else {
                Reply::Accept(s)
            }
        },
    }
}

/// Decides on an answer to an optional question: any answer, the empty one
/// included, is accepted unchanged.
pub fn optional_reply(field: Field, answer: Option<String>) -> (r: Reply)
    ensures
        match answer {
            None => r matches Reply::Abort(d) && d@ == failure_text(field_name_of(field)),
            Some(s) => r == Reply::Accept(s),
        },
{
    match answer {
        None => Reply::Abort(input_failure_message(field.name())),
        Some(s) => Reply::Accept(s),
    }
}

} // verus!

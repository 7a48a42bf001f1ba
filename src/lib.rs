//! Guided composition of conventional-commit messages.
//!
//! The library holds every decision of the interactive helper: the table of
//! commit kinds, the acceptance rules for typed answers, the order in which the
//! questions are asked, the message template and the command handed to the
//! version-control tool. Prompting and running the tool are left to the caller.
mod command;
mod kind;
mod message;
mod prompt;
mod session;

pub use command::{commit_args, commit_report, commit_tool, echo_line, CommitRun};
pub use kind::{get_ctype_flag, CommitType};
pub use message::{breaking_suffix, format_message};
pub use prompt::{
    input_failure_message, kind_failure_message, kind_question, optional_reply, required_reply,
    Field, Reply,
};
pub use session::{
    lemma_required_answers_nonempty, Action, Event, Prompt, Session, SessionState, FIELD_COUNT,
};

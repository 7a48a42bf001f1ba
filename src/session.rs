use vstd::prelude::*;

use crate::kind::{get_ctype_flag, tag_of, CommitType};
use crate::message::{format_message, message_of};
use crate::prompt::{
    failure_text, field_name_of, is_required_field, kind_failure_message, kind_failure_text,
    optional_reply, required_reply, Field, Reply,
};

verus! {

/// The number of free-text questions.
pub const FIELD_COUNT: usize = 4;

/// The field asked once `i` answers have been taken.
pub open spec fn field_at(i: int) -> Field {
    if i == 0 {
        Field::Scope
    } else if i == 1 {
        Field::ShortDescription
    } else if i == 2 {
        Field::LongDescription
    } else {
        Field::BreakingChange
    }
}

/// A question that the user is to answer.
#[derive(Clone, Copy, Debug, PartialEq, Eq, Structural)]
pub enum Prompt {
    /// Pick one of the commit kinds.
    Kind,
    /// Type the text of a field.
    Text(Field),
}

/// What came back from a question.
#[derive(Debug, PartialEq, Eq)]
pub enum Event {
    /// A kind was picked.
    Chosen(CommitType),
    /// A text was typed.
    Answered(String),
    /// The input session failed (closed, interrupted).
    Failed,
}

/// What the caller is to do next.
#[derive(Debug, PartialEq, Eq)]
pub enum Action {
    /// Show this question (again, when the last answer was refused).
    Ask(Prompt),
    /// Create the commit with this message.
    Commit(String),
    /// Stop the run with this diagnostic.
    Abort(String),
    /// The session was already over; nothing is left to do.
    Finished,
}

/// The state of a session, as the contracts see it.
pub struct SessionState {
    pub kind: Option<CommitType>,
    pub answers: Seq<Seq<char>>,
    pub over: bool,
}

impl SessionState {
    /// Answers come after the kind, in field order, required ones non-empty;
    /// the session is over once every field is answered.
    pub open spec fn wf(self) -> bool {
        &&& self.kind is None ==> self.answers.len() == 0
        &&& self.answers.len() <= FIELD_COUNT
        &&& self.answers.len() == FIELD_COUNT ==> self.over
        &&& forall|i: int|
            0 <= i < self.answers.len() && is_required_field(#[trigger] field_at(i))
                ==> self.answers[i].len() > 0
    }

    /// The question that the session waits for, if any.
    pub open spec fn pending(self) -> Option<Prompt> {
        if self.over {
            None
        } else if self.kind is None {
            Some(Prompt::Kind)
        } else {
            Some(Prompt::Text(field_at(self.answers.len() as int)))
        }
    }

    /// The message made of the kind and the four answers.
    pub open spec fn message(self) -> Seq<char>
        recommends
            self.kind is Some,
            self.answers.len() == FIELD_COUNT,
    {
        message_of(
            tag_of(self.kind.unwrap()),
            self.answers[0],
            self.answers[1],
            self.answers[2],
            self.answers[3],
        )
    }
}

/// In every well-formed state that holds all the answers, the scope, the
/// short description and the long description are non-empty: the formatter
/// never sees an empty required field.
pub proof fn lemma_required_answers_nonempty(st: SessionState)
    requires
        st.wf(),
        st.answers.len() == FIELD_COUNT,
    ensures
        st.answers[0].len() > 0,
        st.answers[1].len() > 0,
        st.answers[2].len() > 0,
{
    assert(is_required_field(field_at(0)));
    assert(is_required_field(field_at(1)));
    assert(is_required_field(field_at(2)));
}

/// One run of the helper: the kind, then each field in turn, then the commit.
pub struct Session {
    kind: Option<CommitType>,
    answers: Vec<String>,
    over: bool,
}

impl View for Session {
    type V = SessionState;

    closed spec fn view(&self) -> SessionState {
        SessionState {
            kind: self.kind,
            answers: self.answers@.map_values(|s: String| s@),
            over: self.over,
        }
    }
}

impl Session {
    /// A session that has asked nothing yet.
    pub fn new() -> (r: Session)
        ensures
            r@.wf(),
            r@.kind is None,
            r@.answers.len() == 0,
            !r@.over,
    {
        let r = Session { kind: None, answers: Vec::new(), over: false };
        assert(r@.answers =~= Seq::<Seq<char>>::empty());
        r
    }

    /// The question that the session waits for; `None` once it is over.
    pub fn pending(&self) -> (r: Option<Prompt>)
        ensures
            r == self@.pending(),
    {
        if self.over {
            None
        } else {
            match self.kind {
                None => Some(Prompt::Kind),
                Some(_) => Some(Prompt::Text(Session::field_for(self.answers.len()))),
            }
        }
    }

    fn field_for(i: usize) -> (r: Field)
        ensures
            r == field_at(i as int),
    {
        if i == 0 {
            Field::Scope
        } else if i == 1 {
            Field::ShortDescription
        } else if i == 2 {
            Field::LongDescription
        } else {
            Field::BreakingChange
        }
    }

    /// Takes what came back from the pending question and says what to do.
    /// An event of the wrong sort for the question has it asked again; a
    /// refused answer leaves the state as it was.
    pub fn step(&mut self, ev: Event) -> (a: Action)
        requires
            old(self)@.wf(),
        ensures
            final(self)@.wf(),
            old(self)@.over ==> a == Action::Finished && final(self)@ == old(self)@,
            old(self)@.pending() == Some(Prompt::Kind) ==> match ev {
                Event::Chosen(k) => a == Action::Ask(Prompt::Text(Field::Scope))
                    && final(self)@ == (SessionState {
                    kind: Some(k),
                    answers: old(self)@.answers,
                    over: false,
                }),
                Event::Answered(_) => a == Action::Ask(Prompt::Kind) && final(self)@ == old(
                    self,
                )@,
                Event::Failed => a matches Action::Abort(d) && d@ == kind_failure_text()
                    && final(self)@ == (SessionState {
                    kind: None,
                    answers: old(self)@.answers,
                    over: true,
                }),
            },
            old(self)@.pending() matches Some(Prompt::Text(f)) ==> match ev {
                Event::Chosen(_) => a == Action::Ask(Prompt::Text(f)) && final(self)@ == old(
                    self,
                )@,
                Event::Failed => a matches Action::Abort(d) && d@ == failure_text(
                    field_name_of(f),
                ) && final(self)@ == (SessionState {
                    kind: old(self)@.kind,
                    answers: old(self)@.answers,
                    over: true,
                }),
                Event::Answered(s) => if is_required_field(f) && s@.len() == 0 {
                    a == Action::Ask(Prompt::Text(f)) && final(self)@ == old(self)@
                } else {
                    &&& final(self)@.kind == old(self)@.kind
                    &&& final(self)@.answers == old(self)@.answers.push(s@)
                    &&& if final(self)@.answers.len() == FIELD_COUNT {
                        &&& final(self)@.over
                        &&& a matches Action::Commit(m) && m@ == final(self)@.message()
                    } else {
                        &&& !final(self)@.over
                        &&& a == Action::Ask(
                            Prompt::Text(field_at(final(self)@.answers.len() as int)),
                        )
                    }
                },
            },
    {
        if self.over {
            return Action::Finished;
        }
        match self.kind {
            None => match ev {
                Event::Chosen(k) => {
                    self.kind = Some(k);
                    Action::Ask(Prompt::Text(Field::Scope))
                },
                Event::Answered(_) => Action::Ask(Prompt::Kind),
                Event::Failed => {
                    self.over = true;
                    Action::Abort(kind_failure_message())
                },
            },
            Some(k) => {
                let f = Session::field_for(self.answers.len());
                let answer = match ev {
                    Event::Chosen(_) => {
                        return Action::Ask(Prompt::Text(f));
                    },
                    Event::Answered(s) => Some(s),
                    Event::Failed => None,
                };
                let reply = if f.is_required() {
                    required_reply(f, answer)
                } else {
                    optional_reply(f, answer)
                };
                match reply {
                    Reply::AskAgain => Action::Ask(Prompt::Text(f)),
                    Reply::Abort(d) => {
                        self.over = true;
                        Action::Abort(d)
                    },
                    Reply::Accept(s) => {
                        let ghost before = self.answers@;
                        self.answers.push(s);
                        proof {
                            assert(self.answers@.map_values(|s: String| s@) =~= before.map_values(
                                |s: String| s@,
                            ).push(s@));
                        }
                        if self.answers.len() == FIELD_COUNT {
                            self.over = true;
                            let tag = get_ctype_flag(k);
                            let m = format_message(
                                tag.as_str(),
                                self.answers[0].as_str(),
                                self.answers[1].as_str(),
                                self.answers[2].as_str(),
                                self.answers[3].as_str(),
                            );
                            Action::Commit(m)
                        } else {
                            Action::Ask(Prompt::Text(Session::field_for(self.answers.len())))
                        }
                    },
                }
            },
        }
    }
}

} // verus!

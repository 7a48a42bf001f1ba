use vstd::prelude::*;

verus! {

/// The conventional-commit category of a change.
#[derive(Clone, Copy, Debug, PartialEq, Eq, Structural)]
pub enum CommitType {
    Fix,
    Feat,
    Docs,
    Style,
    Refactor,
    Perf,
    Test,
    Build,
    Ci,
}

/// The short code of a kind, as it appears at the head of a message.
pub open spec fn tag_of(k: CommitType) -> Seq<char> {
    match k {
        CommitType::Fix => "fix"@,
        CommitType::Feat => "feat"@,
        CommitType::Docs => "docs"@,
        CommitType::Style => "style"@,
        CommitType::Refactor => "refactor"@,
        CommitType::Perf => "perf"@,
        CommitType::Test => "test"@,
        CommitType::Build => "build"@,
        CommitType::Ci => "ci"@,
    }
}

/// The text under which a kind is offered in the selection list.
pub open spec fn label_of(k: CommitType) -> Seq<char> {
    match k {
        CommitType::Fix => "\u{1F41B} fix: Bug fix"@,
        CommitType::Feat => "\u{1F984} feat: New feature"@,
        CommitType::Docs => "\u{1F4D1} docs: Documentation changes"@,
        CommitType::Style => "\u{1F60E} style: Styling changes (no change to actual meaning of the code"@,
        CommitType::Refactor => "\u{1F6E0} refactor: Improve existing code"@,
        CommitType::Perf => "\u{1F531} perf: Improved performance"@,
        CommitType::Test => "\u{1F3E5} test: Adding test or correcting existing test"@,
        CommitType::Build => "\u{1F3CB} build: Changes that affect the build system"@,
        CommitType::Ci => "\u{1F9D8} ci: Changes to our CI configuration"@,
    }
}

/// The kinds in the order in which the selection list shows them.
pub open spec fn kinds_in_order() -> Seq<CommitType> {
    seq![
        CommitType::Fix,
        CommitType::Feat,
        CommitType::Docs,
        CommitType::Style,
        CommitType::Refactor,
        CommitType::Perf,
        CommitType::Test,
        CommitType::Build,
        CommitType::Ci,
    ]
}

/// The short code of `ctype`.
pub fn get_ctype_flag(ctype: CommitType) -> (r: String)
    ensures
        r@ == tag_of(ctype),
{
    let s = match ctype {
        CommitType::Fix => "fix",
        CommitType::Feat => "feat",
        CommitType::Docs => "docs",
        CommitType::Style => "style",
        CommitType::Refactor => "refactor",
        CommitType::Perf => "perf",
        CommitType::Test => "test",
        CommitType::Build => "build",
        CommitType::Ci => "ci",
    };
    s.to_owned()
}

impl CommitType {
    /// Every kind, in the order of the selection list.
    pub fn all() -> (r: Vec<CommitType>)
        ensures
            r@ == kinds_in_order(),
    {
        let r = vec![
            CommitType::Fix,
            CommitType::Feat,
            CommitType::Docs,
            CommitType::Style,
            CommitType::Refactor,
            CommitType::Perf,
            CommitType::Test,
            CommitType::Build,
            CommitType::Ci,
        ];
        assert(r@ =~= kinds_in_order());
        r
    }

    /// The display text of this kind, icon included.
    pub fn label(&self) -> (r: String)
        ensures
            r@ == label_of(*self),
    {
        let s = match self {
            CommitType::Fix => "\u{1F41B} fix: Bug fix",
            CommitType::Feat => "\u{1F984} feat: New feature",
            CommitType::Docs => "\u{1F4D1} docs: Documentation changes",
            CommitType::Style => "\u{1F60E} style: Styling changes (no change to actual meaning of the code",
            CommitType::Refactor => "\u{1F6E0} refactor: Improve existing code",
            CommitType::Perf => "\u{1F531} perf: Improved performance",
            CommitType::Test => "\u{1F3E5} test: Adding test or correcting existing test",
            CommitType::Build => "\u{1F3CB} build: Changes that affect the build system",
            CommitType::Ci => "\u{1F9D8} ci: Changes to our CI configuration",
        };
        s.to_owned()
    }
}

} // verus!

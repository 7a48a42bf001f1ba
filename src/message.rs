use vstd::prelude::*;
use vstd::string::StringExecFns;

verus! {

/// What follows the long description: nothing for an empty note, else the
/// note on a line of its own behind the `references::` marker.
pub open spec fn breaking_suffix_of(note: Seq<char>) -> Seq<char> {
    if note.len() == 0 {
        Seq::empty()
    } else {
        "\n references:: "@ + note
    }
}

/// The commit message: `"<tag>(<scope>): <short> \n <long><suffix>"`, the
/// double quotes being part of the text.
pub open spec fn message_of(
    tag: Seq<char>,
    scope: Seq<char>,
    short: Seq<char>,
    long: Seq<char>,
    note: Seq<char>,
) -> Seq<char> {
    "\""@ + tag + "("@ + scope + "): "@ + short + " \n "@ + long + breaking_suffix_of(note)
        + "\""@
}

/// The suffix that a breaking-change note adds to a message.
pub fn breaking_suffix(note: &str) -> (r: String)
    ensures
        r@ == breaking_suffix_of(note@),
{
    if note.is_empty() {
        String::new()
    } else {
        let mut r = String::from_str("\n references:: ");
        r.append(note);
        r
    }
}

/// Assembles the commit message from the kind's tag and the answers.
pub fn format_message(tag: &str, scope: &str, short: &str, long: &str, note: &str) -> (r: String)
    ensures
        r@ == message_of(tag@, scope@, short@, long@, note@),
{
    let mut r = String::from_str("\"");
    r.append(tag);
    r.append("(");
    r.append(scope);
    r.append("): ");
    r.append(short);
    r.append(" \n ");
    r.append(long);
    let suffix = breaking_suffix(note);
    r.append(suffix.as_str());
    r.append("\"");
    r
}

} // verus!

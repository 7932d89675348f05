//! The interactive confirmation before a deployment: how an operator's
//! answer is read. The natural-language reading of the answer comes from
//! an outside crate; the decision around it is verified for every value
//! it can return.

use vstd::prelude::*;

verus! {

pub enum PromptDeploymentError {
    /// The deployment overview could not be rendered; the message.
    TomlFormat(String),
    /// Flushing the prompt failed; the message.
    StdoutFlush(String),
    /// Reading the answer failed; the message.
    StdinRead(String),
    /// The operator declined.
    Cancelled,
}

/// What yn::yes returns on this answer.
pub uninterp spec fn yes_of(s: Seq<char>) -> bool;

/// What yn::no returns on this answer.
pub uninterp spec fn no_of(s: Seq<char>) -> bool;

/// What yn::is_somewhat_yes returns on this answer.
pub uninterp spec fn somewhat_yes_of(s: Seq<char>) -> bool;

/// Relies on yn::yes; the answers "y" and "yes" are plainly yes.
#[verifier::external_body]
pub(crate) fn yn_yes(s: &str) -> (r: bool)
    ensures
        r == yes_of(s@),
        s@ == "y"@ || s@ == "yes"@ ==> r,
{
    yn::yes(s)
}

/// Relies on yn::no; the answers "n" and "no" are plainly no.
#[verifier::external_body]
pub(crate) fn yn_no(s: &str) -> (r: bool)
    ensures
        r == no_of(s@),
        s@ == "n"@ || s@ == "no"@ ==> r,
{
    yn::no(s)
}

/// Relies on yn::is_somewhat_yes; whatever is yes is also somewhat yes.
#[verifier::external_body]
pub(crate) fn yn_is_somewhat_yes(s: &str) -> (r: bool)
    ensures
        r == somewhat_yes_of(s@),
        yes_of(s@) ==> r,
{
    yn::is_somewhat_yes(s)
}

/// What the prompt does with the first answer.
pub enum PromptStep {
    /// The answer was a clear yes.
    Proceed,
    /// The answer leaned yes; ask once more for a clear one.
    AskAgain,
    /// The deployment is cancelled; with a note when the answer was not
    /// even a clear no.
    Cancel { note_unclear: bool },
}

/// The decision on the first answer: a clear yes proceeds; a leaning yes
/// is asked again; anything else cancels, with a clarity note unless it
/// was a clear no.
pub fn interpret_first_answer(answer: &str) -> (r: PromptStep)
    ensures
        yes_of(answer@) ==> r == PromptStep::Proceed,
        !yes_of(answer@) && somewhat_yes_of(answer@) ==> r == PromptStep::AskAgain,
        !yes_of(answer@) && !somewhat_yes_of(answer@) ==> r == (PromptStep::Cancel {
            note_unclear: !no_of(answer@),
        }),
{
    if yn_yes(answer) {
        PromptStep::Proceed
    } else if yn_is_somewhat_yes(answer) {
        PromptStep::AskAgain
    } else {
        PromptStep::Cancel { note_unclear: !yn_no(answer) }
    }
}

/// The decision on the second answer: only a clear yes proceeds.
pub fn interpret_second_answer(answer: &str) -> (r: bool)
    ensures
        r == yes_of(answer@),
{
    yn_yes(answer)
}

} // verus!

//! The questions the engine may put to the user, and how an answer is read.

use vstd::prelude::*;
use vstd::string::*;

verus! {

/// A question that only the user can settle.
#[derive(Debug, Clone, Copy, PartialEq, Eq, Structural)]
pub enum Prompt {
    /// The two paths end in different names: which destination was meant?
    WhichDestination,
    /// The destination is a link to something else: overwrite it?
    OverwriteLink,
    /// Both paths hold data: which is kept?
    WhichToKeep,
}

/// What the user decided at a prompt.
#[derive(Debug, Clone, Copy, PartialEq, Eq, Structural)]
pub enum Decision {
    /// Use the destination as it was entered.
    Entered,
    /// Use the destination renamed after the source.
    Expected,
    /// Replace the link that stands at the destination.
    Overwrite,
    /// Keep what the source holds and delete what the destination holds.
    KeepSource,
    /// Keep what the destination holds and delete what the source holds.
    KeepDestination,
    /// Give up.
    Cancel,
}

/// `line` without the white space around it, as `str::trim` gives it.
pub uninterp spec fn trimmed(line: Seq<char>) -> Seq<char>;

/// Calls `str::trim`. Trusted: the result is `trimmed` of the argument.
#[verifier::external_body]
pub(crate) fn trim(line: &str) -> (inner: &str)
    ensures
        inner@ == trimmed(line@),
{
    line.trim()
}

/// `answer` is the single letter `lower`, in either case.
pub open spec fn is_letter(answer: Seq<char>, lower: char, upper: char) -> bool {
    answer.len() == 1 && (answer[0] == lower || answer[0] == upper)
}

impl Prompt {
    /// The decision that `answer` stands for at this prompt, if it stands for one.
    pub open spec fn meaning(self, answer: Seq<char>) -> Option<Decision> {
        match self {
            Prompt::WhichDestination => if is_letter(answer, 'd', 'D') {
                Some(Decision::Entered)
            } else if is_letter(answer, 'e', 'E') {
                Some(Decision::Expected)
            } else if is_letter(answer, 'n', 'N') {
                Some(Decision::Cancel)
            } else {
                None
            },
            Prompt::OverwriteLink => if is_letter(answer, 'y', 'Y') {
                Some(Decision::Overwrite)
            } else if is_letter(answer, 'n', 'N') {
                Some(Decision::Cancel)
            } else {
                None
            },
            Prompt::WhichToKeep => if is_letter(answer, 's', 'S') {
                Some(Decision::KeepSource)
            } else if is_letter(answer, 'd', 'D') {
                Some(Decision::KeepDestination)
            } else if is_letter(answer, 'n', 'N') {
                Some(Decision::Cancel)
            } else {
                None
            },
        }
    }

    /// The decisions that this prompt offers.
    pub open spec fn offers(self, decision: Decision) -> bool {
        match self {
            Prompt::WhichDestination => decision == Decision::Entered || decision
                == Decision::Expected || decision == Decision::Cancel,
            Prompt::OverwriteLink => decision == Decision::Overwrite || decision
                == Decision::Cancel,
            Prompt::WhichToKeep => decision == Decision::KeepSource || decision
                == Decision::KeepDestination || decision == Decision::Cancel,
        }
    }

    /// Reads an answer from which the surrounding white space has been
    /// taken: the decision it stands for, or `None` where it stands for
    /// none and the question has to be put again.
    pub fn decide(self, answer: &str) -> (decision: Option<Decision>)
        ensures
            decision == self.meaning(answer@),
            decision matches Some(d) ==> self.offers(d),
    {
        if answer.unicode_len() != 1 {
            return None;
        }
        let letter = answer.get_char(0);
        match self {
            Prompt::WhichDestination => if letter == 'd' || letter == 'D' {
                Some(Decision::Entered)
            } else if letter == 'e' || letter == 'E' {
                Some(Decision::Expected)
            } else if letter == 'n' || letter == 'N' {
                Some(Decision::Cancel)
            } else {
                None
            },
            Prompt::OverwriteLink => if letter == 'y' || letter == 'Y' {
                Some(Decision::Overwrite)
            } else if letter == 'n' || letter == 'N' {
                Some(Decision::Cancel)
            } else {
                None
            },
            Prompt::WhichToKeep => if letter == 's' || letter == 'S' {
                Some(Decision::KeepSource)
            } else if letter == 'd' || letter == 'D' {
                Some(Decision::KeepDestination)
            } else if letter == 'n' || letter == 'N' {
                Some(Decision::Cancel)
            } else {
                None
            },
        }
    }

    /// Reads a line as the user typed it: the decision that the line stands
    /// for once the white space around it is taken away, or `None` where
    /// the question has to be put again.
    pub fn interpret(self, line: &str) -> (decision: Option<Decision>)
        ensures
            decision == self.meaning(trimmed(line@)),
            decision matches Some(d) ==> self.offers(d),
    {
        self.decide(trim(line))
    }
}

} // verus!

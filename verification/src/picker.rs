//! How the picker ended, and what the agent is told of it.

use crate::command::send_answer;
use crate::text::{joined, trim_end, trimmed_end};
use crate::writer::{line, Writer};
use vstd::prelude::*;

verus! {

/// The picker's name, given as the diagnostic where the picker gave none.
pub const PICKER_NAME: &'static str = "rofi";

/// The start of the error line for a cancelled pick: the error code for
/// "operation cancelled", its description, and the opening bracket of the
/// diagnostic.
pub const CANCELLED_HEAD: &'static str = "ERR 83886179 Operation cancelled <";

/// How a run of the picker ended.
#[derive(Debug)]
pub enum PickerOutcome {
    /// The picker succeeded and printed this text, which is not empty.
    Pin { text: String },
    /// The picker succeeded and printed nothing but whitespace.
    NoPin,
    /// The picker failed, with this diagnostic.
    Cancelled { diagnostic: String },
}

/// A [`PickerOutcome`] as the contracts see it.
pub enum PickerOutcomeView {
    Pin { text: Seq<char> },
    NoPin,
    Cancelled { diagnostic: Seq<char> },
}

impl View for PickerOutcome {
    type V = PickerOutcomeView;

    open spec fn view(&self) -> PickerOutcomeView {
        match self {
            PickerOutcome::Pin { text } => PickerOutcomeView::Pin { text: text@ },
            PickerOutcome::NoPin => PickerOutcomeView::NoPin,
            PickerOutcome::Cancelled { diagnostic } => PickerOutcomeView::Cancelled {
                diagnostic: diagnostic@,
            },
        }
    }
}

/// The outcome of a run of the picker. After a successful exit: a pin, the
/// standard output less its trailing whitespace, where anything is left of
/// it, and no pin otherwise. After a failure: cancelled, with the standard
/// error less its trailing whitespace as the diagnostic, or with the
/// picker's name where nothing is left of it.
pub open spec fn classified(success: bool, stdout: Seq<char>, stderr: Seq<char>) -> PickerOutcomeView {
    if success {
        if trimmed_end(stdout).len() > 0 {
            PickerOutcomeView::Pin { text: trimmed_end(stdout) }
        } else {
            PickerOutcomeView::NoPin
        }
    } else if trimmed_end(stderr).len() > 0 {
        PickerOutcomeView::Cancelled { diagnostic: trimmed_end(stderr) }
    } else {
        PickerOutcomeView::Cancelled { diagnostic: PICKER_NAME@ }
    }
}

/// What the agent is told of an outcome. A pin: the data line with the pin,
/// then the success line. No pin: the success line alone. Cancelled: one
/// error line with the diagnostic in brackets, and no success line.
pub open spec fn outcome_reply(outcome: PickerOutcomeView) -> Seq<char> {
    match outcome {
        PickerOutcomeView::Pin { text } => line("D "@ + text) + line("OK"@),
        PickerOutcomeView::NoPin => line("OK"@),
        PickerOutcomeView::Cancelled { diagnostic } => line(CANCELLED_HEAD@ + diagnostic + ">"@),
    }
}

/// What is sent once the picker has ended.
pub open spec fn picker_reply(success: bool, stdout: Seq<char>, stderr: Seq<char>) -> Seq<char> {
    outcome_reply(classified(success, stdout, stderr))
}

/// Classifies a run of the picker from its exit status and what it printed.
pub fn classify(success: bool, stdout: &str, stderr: &str) -> (outcome: PickerOutcome)
    ensures
        outcome@ == classified(success, stdout@, stderr@),
{
    if success {
        let text = trim_end(stdout);
        if text.as_str().unicode_len() > 0 {
            PickerOutcome::Pin { text }
        } else {
            PickerOutcome::NoPin
        }
    } else {
        let diagnostic = trim_end(stderr);
        if diagnostic.as_str().unicode_len() > 0 {
            PickerOutcome::Cancelled { diagnostic }
        } else {
            PickerOutcome::Cancelled { diagnostic: PICKER_NAME.to_owned() }
        }
    }
}

/// Tells the agent of an outcome, as [`outcome_reply`] says, and returns
/// whether the pick succeeded.
pub fn send_outcome(outcome: &PickerOutcome, writer: &mut Writer) -> (succeeded: bool)
    ensures
        succeeded == !(outcome@ is Cancelled),
        final(writer)@ == old(writer)@ + outcome_reply(outcome@),
        final(writer).pending() == old(writer).pending() + outcome_reply(outcome@),
{
    match outcome {
        PickerOutcome::Pin { text } => {
            let data = joined("D ", text.as_str());
            send_answer(writer, data.as_str());
            true
        },
        PickerOutcome::NoPin => {
            writer.assuan_send("OK");
            true
        },
        PickerOutcome::Cancelled { diagnostic } => {
            let head = joined(CANCELLED_HEAD, diagnostic.as_str());
            let whole = joined(head.as_str(), ">");
            writer.assuan_send(whole.as_str());
            false
        },
    }
}

/// Completes a `GETPIN` request from how the picker ended: sends what
/// [`picker_reply`] says and returns whether a pin was obtained. The
/// session goes on either way.
pub fn finish_getpin(success: bool, stdout: &str, stderr: &str, writer: &mut Writer) -> (obtained:
    bool)
    ensures
        obtained == success,
        final(writer)@ == old(writer)@ + picker_reply(success, stdout@, stderr@),
        final(writer).pending() == old(writer).pending() + picker_reply(success, stdout@, stderr@),
{
    let outcome = classify(success, stdout, stderr);
    send_outcome(&outcome, writer)
}

} // verus!

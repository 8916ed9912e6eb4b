//! The shell's small decisions around its dialogs: what Escape closes first,
//! what closing the window does with unsaved changes, and what a search
//! reports on the status line.

use vstd::prelude::*;
use crate::dialogs::SearchOperation;
use crate::numbers::{decimal, to_decimal};
use crate::text::owned;

verus! {

/// What Escape does.
#[derive(Clone, Copy, Debug, PartialEq, Eq, Structural)]
pub enum EscapeAction {
    /// Close the command palette, leaving the tool alone.
    ClosePalette,
    /// Close the item properties dialog that is waiting for its answer.
    CloseProperties,
    /// Abandon the active tool.
    CancelTool,
}

/// What Escape does: the command palette closes first, then a pending item
/// properties dialog, and only then is the tool abandoned.
pub open spec fn escape_action_of(palette_open: bool, properties_pending: bool) -> EscapeAction {
    if palette_open {
        EscapeAction::ClosePalette
    } else if properties_pending {
        EscapeAction::CloseProperties
    } else {
        EscapeAction::CancelTool
    }
}

/// What Escape does, given what is open.
pub fn escape_action(palette_open: bool, properties_pending: bool) -> (action: EscapeAction)
    ensures
        action == escape_action_of(palette_open, properties_pending),
{
    if palette_open {
        EscapeAction::ClosePalette
    } else if properties_pending {
        EscapeAction::CloseProperties
    } else {
        EscapeAction::CancelTool
    }
}

/// What a request to close the window does now.
#[derive(Clone, Copy, Debug, PartialEq, Eq, Structural)]
pub enum CloseStep {
    /// A question is already waiting: do nothing.
    Wait,
    /// Nothing is unsaved: close.
    Close,
    /// Ask whether to save, cancel or discard.
    Ask,
}

/// What the answer to the save question does.
#[derive(Clone, Copy, Debug, PartialEq, Eq, Structural)]
pub enum AnswerStep {
    /// Save, and close if saving worked.
    SaveThenClose,
    /// Close without saving.
    Close,
    /// Keep the window.
    Stay,
}

/// The answer that saves.
pub const ANSWER_SAVE: usize = 0;
/// The answer that discards.
pub const ANSWER_DISCARD: usize = 2;

/// The save-before-close flow: whether a question is waiting.
#[derive(Clone, Copy, Debug, PartialEq, Eq, Structural)]
pub struct CloseFlow {
    /// Whether the save question is waiting for an answer.
    pub pending: bool,
}

impl CloseFlow {
    /// No question waiting.
    pub fn new() -> (flow: CloseFlow)
        ensures
            !flow.pending,
    {
        CloseFlow { pending: false }
    }

    /// Closing was asked for; `modified` is whether the document says it has
    /// unsaved changes, if it can say. Only a document that says so is asked
    /// about; a second request while the question waits does nothing.
    pub fn request(&mut self, modified: Option<bool>) -> (step: CloseStep)
        ensures
            step == if old(self).pending {
                CloseStep::Wait
            } else if modified == Some(true) {
                CloseStep::Ask
            } else {
                CloseStep::Close
            },
            final(self).pending == (old(self).pending || step == CloseStep::Ask),
    {
        if self.pending {
            return CloseStep::Wait;
        }
        match modified {
            Some(true) => {
                self.pending = true;
                CloseStep::Ask
            },
            _ => CloseStep::Close,
        }
    }

    /// The question was answered (with the button's position, if the prompt
    /// answered at all): Save saves and then closes, Discard closes, anything
    /// else keeps the window. No question is waiting any more.
    pub fn answered(&mut self, answer: Option<usize>) -> (step: AnswerStep)
        ensures
            !final(self).pending,
            step == match answer {
                Some(a) => if a == ANSWER_SAVE {
                    AnswerStep::SaveThenClose
                } else if a == ANSWER_DISCARD {
                    AnswerStep::Close
                } else {
                    AnswerStep::Stay
                },
                None => AnswerStep::Stay,
            },
    {
        self.pending = false;
        match answer {
            Some(a) => if a == ANSWER_SAVE {
                AnswerStep::SaveThenClose
            } else if a == ANSWER_DISCARD {
                AnswerStep::Close
            } else {
                AnswerStep::Stay
            },
            None => AnswerStep::Stay,
        }
    }
}

/// What a search operation found, as far as the status line cares.
#[derive(Clone, Copy, Debug, PartialEq, Eq, Structural)]
pub struct SearchOutcome {
    /// A current match exists.
    pub found: bool,
    /// Search passed the end of its scope.
    pub wrapped: bool,
    /// Number of items changed by this operation.
    pub replaced: u32,
}

/// `Replaced N items`.
pub open spec fn replaced_text(n: u32) -> Seq<char> {
    "Replaced "@ + decimal(n as nat) + " items"@
}

/// What the status line says after a search operation: nothing when the
/// search closes; the host's error when it failed; how many items a
/// replace-all changed; otherwise whether a match was found (and whether the
/// search wrapped to find it), after how many items were replaced on the way.
pub open spec fn search_message_of(operation: SearchOperation, outcome: Result<SearchOutcome, Seq<char>>) -> Option<
    Seq<char>,
> {
    if operation == SearchOperation::Close {
        None
    } else {
        Some(
            match outcome {
                Err(error) => error,
                Ok(r) => if operation == SearchOperation::ReplaceAll {
                    replaced_text(r.replaced)
                } else if r.found {
                    (if r.replaced > 0 {
                        replaced_text(r.replaced) + ". "@
                    } else {
                        Seq::empty()
                    }) + if r.wrapped {
                        "Search wrapped; match found"@
                    } else {
                        "Match found"@
                    }
                } else if r.replaced > 0 {
                    replaced_text(r.replaced) + ". No further match"@
                } else {
                    "No match found"@
                },
            },
        )
    }
}

/// `Replaced N items`.
fn replaced_message(n: u32) -> (text: String)
    ensures
        text@ == replaced_text(n),
{
    let mut text = owned("Replaced ");
    let count = to_decimal(n as u64);
    text.append(count.as_str());
    text.append(" items");
    text
}

/// What the status line says after a search operation.
pub fn search_message(operation: SearchOperation, outcome: Result<SearchOutcome, String>) -> (message: Option<String>)
    ensures
        match message {
            Some(m) => search_message_of(
                operation,
                match outcome {
                    Ok(r) => Ok(r),
                    Err(e) => Err(e@),
                },
            ) == Some(m@),
            None => search_message_of(
                operation,
                match outcome {
                    Ok(r) => Ok(r),
                    Err(e) => Err(e@),
                },
            ) is None,
        },
{
    if operation == SearchOperation::Close {
        return None;
    }
    let message = match outcome {
        Err(error) => error,
        Ok(r) => if operation == SearchOperation::ReplaceAll {
            replaced_message(r.replaced)
        } else if r.found {
            let mut text = if r.replaced > 0 {
                let mut prefix = replaced_message(r.replaced);
                prefix.append(". ");
                prefix
            } else {
                String::new()
            };
            if r.wrapped {
                text.append("Search wrapped; match found");
            } else {
                text.append("Match found");
            }
            text
        } else if r.replaced > 0 {
            let mut text = replaced_message(r.replaced);
            text.append(". No further match");
            text
        } else {
            owned("No match found")
        },
    };
    Some(message)
}

} // verus!

//! The failures an invocation can report.

use vstd::prelude::*;

verus! {

/// Why an invocation did not deliver.
#[derive(Clone, Debug, PartialEq, Eq)]
pub enum SpellError {
    /// No spell is registered under the trigger; nothing was executed.
    NotFound { trigger: String },
    /// The shell could not be started or waited for.
    SpawnFailure { cause: String },
}

pub enum SpellErrorView {
    NotFound { trigger: Seq<char> },
    SpawnFailure { cause: Seq<char> },
}

impl View for SpellError {
    type V = SpellErrorView;

    open spec fn view(&self) -> SpellErrorView {
        match *self {
            SpellError::NotFound { trigger } => SpellErrorView::NotFound { trigger: trigger@ },
            SpellError::SpawnFailure { cause } => SpellErrorView::SpawnFailure { cause: cause@ },
        }
    }
}

/// The text shown to the user for an error.
pub open spec fn message_of(error: SpellErrorView) -> Seq<char> {
    match error {
        SpellErrorView::NotFound { trigger } => "Spell '"@ + trigger + "' not found"@,
        SpellErrorView::SpawnFailure { cause } => cause,
    }
}

impl SpellError {
    /// The text shown to the user: the trigger in a fixed sentence for an
    /// unknown spell, the cause itself for a failed spawn.
    pub fn message(&self) -> (text: String)
        ensures
            text@ == message_of(self@),
    {
        match self {
            SpellError::NotFound { trigger } => {
                let mut text = "Spell '".to_owned();
                text.append(trigger.as_str());
                text.append("' not found");
                text
            },
            SpellError::SpawnFailure { cause } => cause.clone(),
        }
    }
}

} // verus!

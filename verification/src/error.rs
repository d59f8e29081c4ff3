//! The ways an operation can fail.

use crate::command::{command_line, Command, CommandView};
use vstd::prelude::*;

verus! {

/// Why an operation failed. Every failure ends the operation: nothing is
/// retried and nothing is undone.
#[derive(Clone, Debug, PartialEq, Eq)]
pub enum TagError {
    /// A tag's text is not a version.
    Parse {
        /// The text as it was found.
        text: String,
        /// The parser's explanation, for display only.
        reason: String,
    },
    /// A tag was needed and the repository has none to offer.
    NotFound {
        /// The command that looked for it.
        command: Command,
        /// What the program wrote to standard error.
        diagnostic: String,
    },
    /// A program exited with a failure status.
    Command {
        /// The command that failed.
        command: Command,
        /// What the program wrote to standard error.
        diagnostic: String,
    },
    /// A program could not be started, fed or awaited.
    Io {
        /// What went wrong.
        message: String,
    },
    /// The bumped version number does not fit in 64 bits.
    Overflow,
}

/// The mathematical content of a [`TagError`]. A parse error's `reason` is
/// the parser's own wording and has no place in it.
pub enum ErrorView {
    Parse { text: Seq<char> },
    NotFound { command: CommandView, diagnostic: Seq<char> },
    Command { command: CommandView, diagnostic: Seq<char> },
    Io { message: Seq<char> },
    Overflow,
}

impl View for TagError {
    type V = ErrorView;

    open spec fn view(&self) -> ErrorView {
        match self {
            TagError::Parse { text, .. } => ErrorView::Parse { text: text@ },
            TagError::NotFound { command, diagnostic } => ErrorView::NotFound {
                command: command@,
                diagnostic: diagnostic@,
            },
            TagError::Command { command, diagnostic } => ErrorView::Command {
                command: command@,
                diagnostic: diagnostic@,
            },
            TagError::Io { message } => ErrorView::Io { message: message@ },
            TagError::Overflow => ErrorView::Overflow,
        }
    }
}

impl DeepView for TagError {
    type V = ErrorView;

    open spec fn deep_view(&self) -> ErrorView {
        self@
    }
}

/// The message for `command` after it exited with a failure status and
/// wrote `diagnostic` to standard error.
pub open spec fn failure_text(command: CommandView, diagnostic: Seq<char>) -> Seq<char> {
    let opening = if command.stdin is Some {
        "error running command with stdin: `"@
    } else {
        "error running command: `"@
    };
    opening + command.line() + "`: "@ + diagnostic
}

impl TagError {
    /// The text that describes this error to a reader.
    pub open spec fn message_text(self) -> Seq<char> {
        match self {
            TagError::Parse { reason, .. } => reason@,
            TagError::NotFound { command, diagnostic } => failure_text(command@, diagnostic@),
            TagError::Command { command, diagnostic } => failure_text(command@, diagnostic@),
            TagError::Io { message } => message@,
            TagError::Overflow => "version number does not fit in 64 bits"@,
        }
    }

    /// The text that describes this error to a reader: the parser's reason
    /// for a parse error, the command and what it wrote to standard error
    /// for a command that failed, the system's message for one that could
    /// not be run.
    pub fn message(&self) -> (r: String)
        ensures
            r@ == self.message_text(),
    {
        match self {
            TagError::Parse { reason, .. } => reason.clone(),
            TagError::NotFound { command, diagnostic } => failure_message(
                command,
                diagnostic.as_str(),
            ),
            TagError::Command { command, diagnostic } => failure_message(
                command,
                diagnostic.as_str(),
            ),
            TagError::Io { message } => message.clone(),
            TagError::Overflow => "version number does not fit in 64 bits".to_owned(),
        }
    }
}

/// The message for `command` after it exited with a failure status.
fn failure_message(command: &Command, diagnostic: &str) -> (r: String)
    ensures
        r@ == failure_text(command@, diagnostic@),
{
    let mut out = if command.stdin.is_some() {
        "error running command with stdin: `".to_owned()
    } else {
        "error running command: `".to_owned()
    };
    out.append(command_line(command).as_str());
    out.append("`: ");
    out.append(diagnostic);
    out
}

/// The mathematical content of an operation's result.
pub open spec fn result_view<T: DeepView>(r: Result<T, TagError>) -> Result<T::V, ErrorView> {
    match r {
        Ok(value) => Ok(value.deep_view()),
        Err(e) => Err(e@),
    }
}

} // verus!

//! Commands for the caller to run, and the replies that come back.

use crate::error::{result_view, ErrorView, TagError};
use crate::text::{join, joined, trim, trimmed, views};
use crate::trusted::{lossy_text, utf8_lossy};
use vstd::prelude::*;

verus! {

/// One invocation of an external program.
#[derive(Clone, Debug, PartialEq, Eq)]
pub struct Command {
    /// The program to start.
    pub program: String,
    /// Its arguments, in order.
    pub args: Vec<String>,
    /// What to write to its standard input before closing it; `None` when the
    /// program gets no input.
    pub stdin: Option<String>,
}

/// The mathematical content of a [`Command`].
pub struct CommandView {
    pub program: Seq<char>,
    pub args: Seq<Seq<char>>,
    pub stdin: Option<Seq<char>>,
}

impl View for Command {
    type V = CommandView;

    open spec fn view(&self) -> CommandView {
        CommandView {
            program: self.program@,
            args: views(self.args@),
            stdin: match self.stdin {
                Some(input) => Some(input@),
                None => None,
            },
        }
    }
}

impl DeepView for Command {
    type V = CommandView;

    open spec fn deep_view(&self) -> CommandView {
        self@
    }
}

/// What became of a command that the caller ran.
#[derive(Clone, Debug, PartialEq, Eq)]
pub enum Reply {
    /// The program ran and exited.
    Exited {
        /// Whether its exit status reports success.
        success: bool,
        /// The bytes it wrote to standard output.
        stdout: Vec<u8>,
        /// The bytes it wrote to standard error.
        stderr: Vec<u8>,
    },
    /// The program started but had no input stream to write to.
    NoInput,
    /// The program could not be started, fed or awaited. The text is the
    /// operating system's message.
    Failed(String),
}

/// A copy of `strings`.
pub fn copy_strings(strings: &[String]) -> (r: Vec<String>)
    ensures
        r@ == strings@,
{
    let mut out: Vec<String> = Vec::new();
    let mut i: usize = 0;
    while i < strings.len()
        invariant
            i <= strings.len(),
            out@ == strings@.subrange(0, i as int),
        decreases strings.len() - i,
    {
        out.push(strings[i].clone());
        i += 1;
    }
    out
}

impl Command {
    /// A copy of this command.
    pub fn duplicate(&self) -> (r: Command)
        ensures
            r@ == self@,
    {
        Command {
            program: self.program.clone(),
            args: copy_strings(&self.args),
            stdin: match &self.stdin {
                Some(input) => Some(input.clone()),
                None => None,
            },
        }
    }
}

impl CommandView {
    /// The command as failure messages show it: the program, a space, and
    /// the arguments with a space between each two.
    pub open spec fn line(self) -> Seq<char> {
        self.program + seq![' '] + joined(self.args, ' ')
    }

    /// The message for a program that offered no input stream.
    pub open spec fn no_input_message(self) -> Seq<char> {
        "Failed to open stdin for command: `"@ + self.line() + "`"@
    }
}

/// What the exit of `command` means: the trimmed output where it exited with
/// success, which `exit` gives as `Ok` with the text of its standard output;
/// the failure where it did not, which `exit` gives as `Err` with the text
/// of its standard error.
pub open spec fn exit_outcome(command: CommandView, exit: Result<Seq<char>, Seq<char>>) -> Result<
    Seq<char>,
    ErrorView,
> {
    match exit {
        Ok(stdout) => Ok(trimmed(stdout)),
        Err(stderr) => Err(ErrorView::Command { command, diagnostic: stderr }),
    }
}

/// What a reply means for the command it answers: the program's output as
/// text, trimmed, where it exited with success; else the failure.
pub open spec fn run_outcome(command: CommandView, reply: Reply) -> Result<Seq<char>, ErrorView> {
    match reply {
        Reply::Exited { success, stdout, stderr } => exit_outcome(
            command,
            if success {
                Ok(lossy_text(stdout@))
            } else {
                Err(lossy_text(stderr@))
            },
        ),
        Reply::NoInput => Err(ErrorView::Io { message: command.no_input_message() }),
        Reply::Failed(message) => Err(ErrorView::Io { message: message@ }),
    }
}

/// What a reply means for a command whose output is of no interest.
pub open spec fn run_with_stdin_outcome(command: CommandView, reply: Reply) -> Result<
    (),
    ErrorView,
> {
    match run_outcome(command, reply) {
        Ok(_) => Ok(()),
        Err(e) => Err(e),
    }
}

/// The command as failure messages show it.
pub fn command_line(command: &Command) -> (r: String)
    ensures
        r@ == command@.line(),
{
    let mut out = command.program.clone();
    proof {
        reveal_strlit(" ");
    }
    out.append(" ");
    out.append(join(&command.args).as_str());
    out
}

/// Reads the exit of `command`. `exit` is `Ok` with the text of the
/// program's standard output where it exited with success, and `Err` with
/// the text of its standard error where it did not. Success gives the output
/// without the white space around it; failure gives `TagError::Command` with
/// the command and the diagnostic.
pub fn read_exit(command: &Command, exit: Result<String, String>) -> (r: Result<String, TagError>)
    ensures
        result_view(r) == exit_outcome(
            command@,
            match exit {
                Ok(stdout) => Ok(stdout@),
                Err(stderr) => Err(stderr@),
            },
        ),
{
    match exit {
        Ok(stdout) => Ok(trim(stdout.as_str()).to_owned()),
        Err(stderr) => Err(TagError::Command { command: command.duplicate(), diagnostic: stderr }),
    }
}

/// The error for `command` where the program offered no input stream.
pub fn no_input(command: &Command) -> (r: TagError)
    ensures
        r@ == (ErrorView::Io { message: command@.no_input_message() }),
{
    let mut message = "Failed to open stdin for command: `".to_owned();
    message.append(command_line(command).as_str());
    message.append("`");
    TagError::Io { message }
}

/// Reads the reply to `command`: the program's standard output as text,
/// without the white space around it, where the program exited with
/// success. A failure status gives `TagError::Command` with the command and
/// the program's standard error as text; a program that could not be run
/// gives `TagError::Io`.
pub fn run(command: &Command, reply: &Reply) -> (r: Result<String, TagError>)
    ensures
        result_view(r) == run_outcome(command@, *reply),
{
    match reply {
        Reply::Exited { success, stdout, stderr } => {
            let exit = if *success {
                Ok(utf8_lossy(stdout))
            } else {
                Err(utf8_lossy(stderr))
            };
            read_exit(command, exit)
        },
        Reply::NoInput => Err(no_input(command)),
        Reply::Failed(message) => Err(TagError::Io { message: message.clone() }),
    }
}

/// Reads the reply to a `command` that was fed through its standard input.
/// The program's output is of no interest; its failures are those of
/// [`run`].
pub fn run_with_stdin(command: &Command, reply: &Reply) -> (r: Result<(), TagError>)
    ensures
        result_view(r) == run_with_stdin_outcome(command@, *reply),
{
    match reply {
        Reply::Exited { success, stderr, .. } => {
            let exit = if *success {
                Ok(String::new())
            } else {
                Err(utf8_lossy(stderr))
            };
            match read_exit(command, exit) {
                Ok(_) => Ok(()),
                Err(e) => Err(e),
            }
        },
        Reply::NoInput => Err(no_input(command)),
        Reply::Failed(message) => Err(TagError::Io { message: message.clone() }),
    }
}

} // verus!

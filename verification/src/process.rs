//! The commands that the summariser has run, and what it makes of their
//! output. Running them is left to the caller: this module says what is to be
//! run, and turns what came back into a text or an error.

use vstd::prelude::*;
use vstd::utf8::{decode_utf8, valid_utf8};
use crate::commits::CommitId;
use crate::text::views;

verus! {

/// The error that `core::str::from_utf8` returns.
#[verifier::external_type_specification]
#[verifier::external_body]
pub struct ExUtf8Error(core::str::Utf8Error);

/// `core::str::from_utf8` takes bytes for a text: it succeeds on the bytes
/// that are well-formed UTF-8, and only on those, and the text then holds the
/// characters that the bytes encode.
pub assume_specification[ core::str::from_utf8 ](bytes: &[u8]) -> (text: Result<
    &str,
    core::str::Utf8Error,
>)
    ensures
        text is Ok <==> valid_utf8(bytes@),
        text matches Ok(t) ==> t@ == decode_utf8(bytes@),
;

/// A command line: the program, and the arguments it is given.
pub struct Invocation {
    pub program: String,
    pub arguments: Vec<String>,
}

/// What an `Invocation` holds, as sequences of characters.
pub struct InvocationView {
    pub program: Seq<char>,
    pub arguments: Seq<Seq<char>>,
}

impl View for Invocation {
    type V = InvocationView;

    open spec fn view(&self) -> InvocationView {
        InvocationView { program: self.program@, arguments: views(self.arguments@) }
    }
}

/// What a finished process leaves behind.
pub struct ProcessOutput {
    /// Whether the process ended with the exit status of success.
    pub success: bool,
    /// What it wrote to its standard output.
    pub stdout: Vec<u8>,
    /// What it wrote to its standard error.
    pub stderr: Vec<u8>,
}

/// Why a command gave no text.
pub enum InvokeError {
    /// The process could not be started; the cause as the system words it.
    NotStarted(String),
    /// The process succeeded, and its output is not UTF-8.
    OutputNotText(String),
    /// The process failed, and its error output is not UTF-8.
    ErrorNotText(String),
    /// The process failed; what it wrote to its standard error.
    Failed(String),
}

/// The text that describes an error to the user.
pub open spec fn error_message(error: InvokeError) -> Seq<char> {
    match error {
        InvokeError::NotStarted(cause) => "Failed to execute command: "@ + cause@,
        InvokeError::OutputNotText(cause) => "Failed to convert output to string: "@ + cause@,
        InvokeError::ErrorNotText(cause) => "Failed to convert error to string: "@ + cause@,
        InvokeError::Failed(text) => text@,
    }
}

impl InvokeError {
    /// Describes the error to the user.
    pub fn message(&self) -> (text: String)
        ensures
            text@ == error_message(*self),
    {
        match self {
            InvokeError::NotStarted(cause) => String::from_str("Failed to execute command: ").concat(
                cause.as_str(),
            ),
            InvokeError::OutputNotText(cause) => String::from_str(
                "Failed to convert output to string: ",
            ).concat(cause.as_str()),
            InvokeError::ErrorNotText(cause) => String::from_str(
                "Failed to convert error to string: ",
            ).concat(cause.as_str()),
            InvokeError::Failed(text) => text.clone(),
        }
    }
}

/// The command line of the version-control tool for `command`, run on the
/// repository at `repo_path`.
pub open spec fn git_command_line(repo_path: Seq<char>, command: Seq<Seq<char>>) -> InvocationView {
    InvocationView { program: "git"@, arguments: seq!["-C"@, repo_path] + command }
}

/// The command that shows the commit `id` in full.
pub open spec fn show_command(id: Seq<char>) -> Seq<Seq<char>> {
    seq!["show"@, id]
}

/// The command line that opens the report at `file_path` in the editor's preview.
pub open spec fn preview_command_line(file_path: Seq<char>) -> InvocationView {
    InvocationView {
        program: "code"@,
        arguments: seq![file_path, "--command"@, "markdown.showPreview"@],
    }
}

/// Says how to run the version-control tool with `command` on the repository
/// at `repo_path`.
pub fn git_invocation(repo_path: &str, command: &Vec<String>) -> (invocation: Invocation)
    ensures
        invocation@ == git_command_line(repo_path@, views(command@)),
{
    let mut arguments: Vec<String> = Vec::new();
    arguments.push(String::from_str("-C"));
    arguments.push(String::from_str(repo_path));
    let ghost head = views(arguments@);
    assert(head =~= seq!["-C"@, repo_path@]);
    let mut i: usize = 0;
    while i < command.len()
        invariant
            i <= command.len(),
            views(arguments@) == head + views(command@).take(i as int),
        decreases command.len() - i,
    {
        let ghost before = views(arguments@);
        arguments.push(command[i].clone());
        assert(views(arguments@) =~= before.push(command@[i as int]@));
        assert(views(command@).take(i + 1) =~= views(command@).take(i as int).push(
            command@[i as int]@,
        ));
        i += 1;
    }
    assert(views(command@).take(command.len() as int) =~= views(command@));
    Invocation { program: String::from_str("git"), arguments }
}

/// Says how to have the version-control tool show the commit `id` of the
/// repository at `repo_path`.
pub fn show_invocation(repo_path: &str, id: &CommitId) -> (invocation: Invocation)
    ensures
        invocation@ == git_command_line(repo_path@, show_command(id@)),
{
    let mut command: Vec<String> = Vec::new();
    command.push(String::from_str("show"));
    command.push(String::from_str(id.as_str()));
    assert(views(command@) =~= show_command(id@));
    git_invocation(repo_path, &command)
}

/// Says how to open the report at `file_path` in the editor's preview.
pub fn preview_invocation(file_path: &str) -> (invocation: Invocation)
    ensures
        invocation@ == preview_command_line(file_path@),
{
    let mut arguments: Vec<String> = Vec::new();
    arguments.push(String::from_str(file_path));
    arguments.push(String::from_str("--command"));
    arguments.push(String::from_str("markdown.showPreview"));
    assert(views(arguments@) =~= seq![file_path@, "--command"@, "markdown.showPreview"@]);
    Invocation { program: String::from_str("code"), arguments }
}

/// What the output of a finished process amounts to. The exit status alone
/// decides between success and failure, whatever the process wrote to its
/// standard error. A process that succeeded gives the text of its output; one
/// that failed gives the text of its error output as the reason. Output that
/// is not UTF-8 is an error of its own kind, for either stream.
pub fn interpret_output(output: &ProcessOutput) -> (text: Result<String, InvokeError>)
    ensures
        match text {
            Ok(t) => output.success && valid_utf8(output.stdout@) && t@ == decode_utf8(
                output.stdout@,
            ),
            Err(InvokeError::OutputNotText(_)) => output.success && !valid_utf8(output.stdout@),
            Err(InvokeError::Failed(t)) => !output.success && valid_utf8(output.stderr@) && t@
                == decode_utf8(output.stderr@),
            Err(InvokeError::ErrorNotText(_)) => !output.success && !valid_utf8(output.stderr@),
            Err(InvokeError::NotStarted(_)) => false,
        },
{
    if output.success {
        match core::str::from_utf8(output.stdout.as_slice()) {
            Ok(t) => Ok(String::from_str(t)),
            Err(e) => Err(InvokeError::OutputNotText(e.to_string())),
        }
    } else {
        match core::str::from_utf8(output.stderr.as_slice()) {
            Ok(t) => Err(InvokeError::Failed(String::from_str(t))),
            Err(e) => Err(InvokeError::ErrorNotText(e.to_string())),
        }
    }
}

} // verus!

//! The errors of the commands, and the message each one is reported with.

use vstd::prelude::*;

verus! {

/// The file operation that failed.
#[derive(Clone, Copy, Debug, PartialEq, Eq, Structural)]
pub enum FileOperation {
    /// Writing a temporary file.
    WriteTemp,
    /// Reading a file.
    Read,
}

/// Why a path has no parent directory to report.
#[derive(Clone, Copy, Debug, PartialEq, Eq, Structural)]
pub enum PathProblem {
    /// The path has no parent component.
    NoParent,
    /// The parent cannot be written as text.
    NotText,
}

/// A failed command. Each failure ends the one command it occurred in and is
/// handed to the caller as a message; none is retried.
#[derive(Clone, Debug, PartialEq, Eq)]
pub enum CommandError {
    /// The converter could not be started; holds the operating system's
    /// error text.
    ProcessSpawn(String),
    /// The converter ran and reported failure; holds what it wrote to its
    /// error stream, as text.
    ProcessExecution(String),
    /// A file operation failed; holds the operating system's error text.
    FileIo(FileOperation, String),
    /// A path has no parent directory that can be reported.
    PathResolution(PathProblem),
}

/// What a [`CommandError`] is in contracts: the same cases, over sequences
/// of characters.
pub enum ErrorModel {
    ProcessSpawn(Seq<char>),
    ProcessExecution(Seq<char>),
    FileIo(FileOperation, Seq<char>),
    PathResolution(PathProblem),
}

impl ErrorModel {
    /// The message that the error is reported with.
    pub open spec fn message(self) -> Seq<char> {
        match self {
            ErrorModel::ProcessSpawn(os_error) => "Failed to execute cwebp: "@ + os_error,
            ErrorModel::ProcessExecution(stderr_text) => "cwebp conversion failed: "@
                + stderr_text,
            ErrorModel::FileIo(FileOperation::WriteTemp, os_error) => "Failed to write temp file: "@
                + os_error,
            ErrorModel::FileIo(FileOperation::Read, os_error) => "Failed to read file: "@
                + os_error,
            ErrorModel::PathResolution(PathProblem::NoParent) => "无法获取文件的父目录"@,
            ErrorModel::PathResolution(PathProblem::NotText) => "无法将父目录路径转换为字符串"@,
        }
    }
}

impl View for CommandError {
    type V = ErrorModel;

    open spec fn view(&self) -> ErrorModel {
        match self {
            CommandError::ProcessSpawn(os_error) => ErrorModel::ProcessSpawn(os_error@),
            CommandError::ProcessExecution(stderr_text) => ErrorModel::ProcessExecution(
                stderr_text@,
            ),
            CommandError::FileIo(operation, os_error) => ErrorModel::FileIo(
                *operation,
                os_error@,
            ),
            CommandError::PathResolution(problem) => ErrorModel::PathResolution(*problem),
        }
    }
}

/// What the answer of a command that returns text is in contracts.
pub open spec fn text_answer(answer: Result<String, CommandError>) -> Result<
    Seq<char>,
    ErrorModel,
> {
    match answer {
        Ok(text) => Ok(text@),
        Err(error) => Err(error@),
    }
}

/// A fixed prefix followed by a detail.
fn prefixed(prefix: &str, detail: &str) -> (text: String)
    ensures
        text@ == prefix@ + detail@,
{
    let mut text = String::from_str(prefix);
    text.append(detail);
    text
}

impl CommandError {
    /// The message that the error is reported with.
    pub fn message(&self) -> (text: String)
        ensures
            text@ == self@.message(),
    {
        match self {
            CommandError::ProcessSpawn(os_error) => prefixed(
                "Failed to execute cwebp: ",
                os_error.as_str(),
            ),
            CommandError::ProcessExecution(stderr_text) => prefixed(
                "cwebp conversion failed: ",
                stderr_text.as_str(),
            ),
            CommandError::FileIo(FileOperation::WriteTemp, os_error) => prefixed(
                "Failed to write temp file: ",
                os_error.as_str(),
            ),
            CommandError::FileIo(FileOperation::Read, os_error) => prefixed(
                "Failed to read file: ",
                os_error.as_str(),
            ),
            CommandError::PathResolution(PathProblem::NoParent) => String::from_str(
                "无法获取文件的父目录",
            ),
            CommandError::PathResolution(PathProblem::NotText) => String::from_str(
                "无法将父目录路径转换为字符串",
            ),
        }
    }
}

/// The answer of a command as the front end receives it: what succeeded is
/// passed on unchanged, and a failure is handed over as its message.
pub fn reported<T>(answer: Result<T, CommandError>) -> (report: Result<T, String>)
    ensures
        answer matches Ok(value) ==> report == Ok::<T, String>(value),
        answer matches Err(error) ==> report matches Err(message) && message@
            == error@.message(),
{
    match answer {
        Ok(value) => Ok(value),
        Err(error) => Err(error.message()),
    }
}

/// A converter that could not be started is never reported with the message
/// of one that ran and failed: the two messages differ whatever the
/// operating system's error text and the converter's error output are.
pub proof fn lemma_spawn_failure_is_told_apart(os_error: Seq<char>, stderr_text: Seq<char>)
    ensures
        ErrorModel::ProcessSpawn(os_error).message() != ErrorModel::ProcessExecution(
            stderr_text,
        ).message(),
{
    reveal_strlit("Failed to execute cwebp: ");
    reveal_strlit("cwebp conversion failed: ");
    let spawn = ErrorModel::ProcessSpawn(os_error).message();
    let execution = ErrorModel::ProcessExecution(stderr_text).message();
    assert(spawn[0] == 'F');
    assert(execution[0] == 'c');
}

} // verus!

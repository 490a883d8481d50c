//! Conversion of an image to WebP by the external `cwebp` program.
//!
//! The library decides how the program is started and what its ending means;
//! the caller starts it. A conversion is therefore two steps around one
//! process: [`ConversionRequest::command_line`] gives the program and its
//! arguments, the caller runs them and reports a [`ProcessOutcome`], and
//! [`ConversionRequest::finish`] turns that outcome into the answer.

use vstd::prelude::*;
use vstd::utf8::{decode_utf8, valid_utf8};
use crate::decimal::{decimal_string, decimal_text};
use crate::error::{text_answer, CommandError, ErrorModel};
use crate::lossy::{decode_lossy, lossy_utf8};

verus! {

/// One conversion: the image to read, the file to write, and the quality
/// setting if one is asked for.
///
/// The quality is passed on as it is given; which values are accepted is for
/// the converter to say.
#[derive(Clone, Debug, PartialEq, Eq)]
pub struct ConversionRequest {
    pub source_path: String,
    pub destination_path: String,
    pub quality: Option<i32>,
}

/// A program and the arguments it is started with.
#[derive(Clone, Debug, PartialEq, Eq)]
pub struct CommandLine {
    /// The program's name, looked up on the executable search path.
    pub program: String,
    pub arguments: Vec<String>,
}

/// How the attempt to run the converter ended.
#[derive(Clone, Debug, PartialEq, Eq)]
pub enum ProcessOutcome {
    /// The process could not be started; holds the operating system's error
    /// text.
    SpawnFailed(String),
    /// The process ran to its end.
    Exited {
        /// Whether it exited with status 0.
        success: bool,
        /// What it wrote to its error stream.
        stderr: Vec<u8>,
    },
}

/// What a [`ProcessOutcome`] is in contracts.
pub enum OutcomeModel {
    SpawnFailed(Seq<char>),
    Exited { success: bool, stderr: Seq<u8> },
}

impl View for ProcessOutcome {
    type V = OutcomeModel;

    open spec fn view(&self) -> OutcomeModel {
        match self {
            ProcessOutcome::SpawnFailed(os_error) => OutcomeModel::SpawnFailed(os_error@),
            ProcessOutcome::Exited { success, stderr } => OutcomeModel::Exited {
                success: *success,
                stderr: stderr@,
            },
        }
    }
}

/// The arguments that set the quality: the flag `-q` and the value in
/// decimal, or nothing where no quality is asked for.
pub open spec fn quality_arguments(quality: Option<i32>) -> Seq<Seq<char>> {
    match quality {
        Some(q) => seq!["-q"@, decimal_text(q as int)],
        None => seq![],
    }
}

/// The arguments of a conversion, in order: the source path, the quality
/// arguments, the flag `-o`, the destination path.
pub open spec fn conversion_arguments(
    source_path: Seq<char>,
    quality: Option<i32>,
    destination_path: Seq<char>,
) -> Seq<Seq<char>> {
    seq![source_path] + quality_arguments(quality) + seq!["-o"@, destination_path]
}

/// The answer of a conversion whose process ended with `outcome`: the
/// destination path if it exited with status 0, and otherwise the error for
/// the way it failed.
pub open spec fn conversion_answer(destination_path: Seq<char>, outcome: OutcomeModel) -> Result<
    Seq<char>,
    ErrorModel,
> {
    match outcome {
        OutcomeModel::SpawnFailed(os_error) => Err(ErrorModel::ProcessSpawn(os_error)),
        OutcomeModel::Exited { success, stderr } => if success {
            Ok(destination_path)
        } else {
            Err(ErrorModel::ProcessExecution(lossy_utf8(stderr)))
        },
    }
}

/// Without a quality the converter is started with three arguments: the
/// source path, the flag `-o` and the destination path.
pub proof fn lemma_arguments_without_quality(source_path: Seq<char>, destination_path: Seq<char>)
    ensures
        conversion_arguments(source_path, None, destination_path) == seq![
            source_path,
            "-o"@,
            destination_path,
        ],
{
    assert(conversion_arguments(source_path, None, destination_path) =~= seq![
        source_path,
        "-o"@,
        destination_path,
    ]);
}

/// With a quality the converter is started with five arguments: between the
/// source path and the flag `-o` stand the flag `-q` and the quality in
/// decimal.
pub proof fn lemma_arguments_with_quality(
    source_path: Seq<char>,
    quality: i32,
    destination_path: Seq<char>,
)
    ensures
        conversion_arguments(source_path, Some(quality), destination_path) == seq![
            source_path,
            "-q"@,
            decimal_text(quality as int),
            "-o"@,
            destination_path,
        ],
{
    assert(conversion_arguments(source_path, Some(quality), destination_path) =~= seq![
        source_path,
        "-q"@,
        decimal_text(quality as int),
        "-o"@,
        destination_path,
    ]);
}

/// A conversion whose process exits with status 0 answers with the
/// destination path, whatever the process wrote to its error stream.
pub proof fn lemma_success_answers_destination(destination_path: Seq<char>, stderr: Seq<u8>)
    ensures
        conversion_answer(destination_path, (OutcomeModel::Exited { success: true, stderr }))
            == Ok::<Seq<char>, ErrorModel>(destination_path),
{
}

/// A conversion whose process ran and did not exit with status 0 fails, and
/// the message of the failure carries the process's error output, decoded
/// leniently.
pub proof fn lemma_failed_run_reports_error_output(destination_path: Seq<char>, stderr: Seq<u8>)
    ensures
        conversion_answer(
            destination_path,
            (OutcomeModel::Exited { success: false, stderr }),
        ) matches Err(error) && error.message() == "cwebp conversion failed: "@ + lossy_utf8(
            stderr,
        ),
{
}

/// A conversion whose process could not be started fails with a spawn
/// error, and the message of the failure carries the operating system's
/// error text.
pub proof fn lemma_spawn_failure_reports_os_error(destination_path: Seq<char>, os_error: Seq<char>)
    ensures
        conversion_answer(destination_path, OutcomeModel::SpawnFailed(os_error)) matches Err(error)
            && error is ProcessSpawn && error.message() == "Failed to execute cwebp: "@
            + os_error,
{
}

impl ConversionRequest {
    /// The arguments that the converter is started with.
    pub open spec fn arguments(&self) -> Seq<Seq<char>> {
        conversion_arguments(self.source_path@, self.quality, self.destination_path@)
    }

    /// Whether `command` performs the conversion: it is `cwebp` with the
    /// request's arguments.
    pub open spec fn is_performed_by(&self, command: &CommandLine) -> bool {
        &&& command.program@ == "cwebp"@
        &&& command.arguments.deep_view() == self.arguments()
    }

    /// The command that performs the conversion.
    pub fn command_line(&self) -> (command: CommandLine)
        ensures
            self.is_performed_by(&command),
    {
        let mut arguments: Vec<String> = Vec::new();
        arguments.push(self.source_path.clone());
        match self.quality {
            Some(q) => {
                arguments.push(String::from_str("-q"));
                arguments.push(decimal_string(q));
            },
            None => {},
        }
        arguments.push(String::from_str("-o"));
        arguments.push(self.destination_path.clone());
        assert(arguments.deep_view() =~= self.arguments());
        CommandLine { program: String::from_str("cwebp"), arguments }
    }

    /// The answer of the conversion, once the process has ended with
    /// `outcome`.
    ///
    /// The error output of a failed run is decoded leniently. Where it is
    /// valid UTF-8 the error holds it as the text it encodes.
    pub fn finish(self, outcome: ProcessOutcome) -> (answer: Result<String, CommandError>)
        ensures
            text_answer(answer) == conversion_answer(self.destination_path@, outcome@),
            outcome@ is Exited && !outcome@->success && valid_utf8(outcome@->stderr)
                ==> text_answer(answer) == Err::<Seq<char>, ErrorModel>(
                ErrorModel::ProcessExecution(decode_utf8(outcome@->stderr)),
            ),
    {
        match outcome {
            ProcessOutcome::SpawnFailed(os_error) => Err(CommandError::ProcessSpawn(os_error)),
            ProcessOutcome::Exited { success, stderr } => {
                if success {
                    Ok(self.destination_path)
                } else {
                    Err(CommandError::ProcessExecution(decode_lossy(&stderr)))
                }
            },
        }
    }
}

/// Converts an image: starts the converter through `run`, once, with the
/// request's command line, and answers by how `run` says the process ended.
///
/// `run` stands for the operating system. It must accept the command line of
/// the request; nothing else is asked of it, and the answer is the one that
/// [`ConversionRequest::finish`] gives for whatever outcome it reports:
/// where the run failed with error output that is valid UTF-8, the error
/// holds that output as the text it encodes.
pub fn convert_to_webp<R: FnOnce(&CommandLine) -> ProcessOutcome>(
    request: ConversionRequest,
    run: R,
) -> (answer: Result<String, CommandError>)
    requires
        forall|command: &CommandLine|
            request.is_performed_by(command) ==> #[trigger] run.requires((command,)),
    ensures
        exists|command: &CommandLine, outcome: ProcessOutcome|
            request.is_performed_by(command) && #[trigger] run.ensures((command,), outcome)
                && text_answer(answer) == conversion_answer(
                request.destination_path@,
                outcome@,
            ) && (outcome@ is Exited && !outcome@->success && valid_utf8(outcome@->stderr)
                ==> text_answer(answer) == Err::<Seq<char>, ErrorModel>(
                ErrorModel::ProcessExecution(decode_utf8(outcome@->stderr)),
            )),
{
    let command = request.command_line();
    let outcome = run(&command);
    request.finish(outcome)
}

} // verus!

//! The external converter: the command that extracts the audio of a video
//! file, and how a run of it can end.

use vstd::prelude::*;

verus! {

/// How a run of the converter ended.
#[derive(Clone, Copy, Debug, PartialEq, Eq, Structural)]
pub enum ConverterOutcome {
    /// The process ran and reported success.
    Succeeded,
    /// The process ran and reported failure.
    Failed,
    /// The process could not be started.
    NotStarted,
}

/// A command line for the host to run.
#[derive(Clone, Debug, PartialEq, Eq)]
pub struct ConverterCommand {
    pub program: String,
    pub arguments: Vec<String>,
}

/// Mathematical model of a [`ConverterCommand`].
pub struct CommandView {
    pub program: Seq<char>,
    pub arguments: Seq<Seq<char>>,
}

impl View for ConverterCommand {
    type V = CommandView;

    open spec fn view(&self) -> CommandView {
        CommandView {
            program: self.program@,
            arguments: self.arguments@.map_values(|a: String| a@),
        }
    }
}

/// The command that converts `source` into `target`: the converter is told
/// its input, then to overwrite an existing output, then its output.
pub open spec fn command_for(source: Seq<char>, target: Seq<char>) -> CommandView {
    CommandView { program: "ffmpeg"@, arguments: seq!["-i"@, source, "-y"@, target] }
}

/// Builds the command that converts `source` into `target`.
pub fn converter_command(source: &str, target: &str) -> (command: ConverterCommand)
    ensures
        command@ == command_for(source@, target@),
{
    let mut arguments: Vec<String> = Vec::new();
    arguments.push("-i".to_string());
    arguments.push(source.to_string());
    arguments.push("-y".to_string());
    arguments.push(target.to_string());
    let command = ConverterCommand { program: "ffmpeg".to_string(), arguments };
    assert(command@.arguments =~= command_for(source@, target@).arguments);
    command
}

} // verus!

//! What the outcome of each subprocess means, and which step comes next.
//!
//! The caller runs the commands. It reports each outcome as a
//! [`CommandOutcome`] and is told by [`advance`] whether to run another
//! command, to print the timestamp, or to stop with an error.

use vstd::prelude::*;
use vstd::string::StringExecFns;
use vstd::utf8::{decode_utf8, valid_utf8};
use crate::decode::{decode_output, decoded_model};
use crate::error::{result_model, ApplicationError, ErrorModel};
use crate::extract::{extract_last_updated, last_updated_model, line_model};
use crate::matching::is_slice_of;

verus! {

/// The program that resolves a binary on the execution path.
pub const WHICH_COMMAND: &'static str = "which";

/// The package manager whose configuration is read.
pub const BREW_COMMAND: &'static str = "brew";

/// The subcommand that prints the configuration.
pub const CONFIG_ARG: &'static str = "config";

/// How one subprocess ended.
#[derive(Debug, PartialEq, Eq)]
pub enum CommandOutcome {
    /// The subprocess could not be started.
    SpawnFailed,
    /// The subprocess ran to its end.
    Exited {
        /// Whether its exit status reports success.
        success: bool,
        /// What it wrote to standard output.
        stdout: Vec<u8>,
    },
}

/// The mathematical value of a [`CommandOutcome`].
pub enum OutcomeModel {
    SpawnFailed,
    Exited { success: bool, stdout: Seq<u8> },
}

impl View for CommandOutcome {
    type V = OutcomeModel;

    open spec fn view(&self) -> OutcomeModel {
        match self {
            CommandOutcome::SpawnFailed => OutcomeModel::SpawnFailed,
            CommandOutcome::Exited { success, stdout } => OutcomeModel::Exited {
                success: *success,
                stdout: stdout@,
            },
        }
    }
}

/// A program and its one argument as they are named in an error.
pub open spec fn command_line_model(program: Seq<char>, argument: Seq<char>) -> Seq<char> {
    program + " "@ + argument
}

/// Joins a program and its one argument with a space.
pub fn command_line(program: &str, argument: &str) -> (line: String)
    ensures
        line@ == command_line_model(program@, argument@),
{
    String::from_str(program).concat(" ").concat(argument)
}

/// What the probe for the package manager shows: `None` where the binary is
/// there, else the error.
pub open spec fn validation_model(probe: OutcomeModel) -> Option<ErrorModel> {
    match probe {
        OutcomeModel::SpawnFailed => Some(
            ErrorModel::CommandRunFailed {
                command_name: command_line_model(WHICH_COMMAND@, BREW_COMMAND@),
            },
        ),
        OutcomeModel::Exited { success, stdout } => if success {
            None
        } else {
            Some(ErrorModel::CommandNotFound { command_name: BREW_COMMAND@ })
        },
    }
}

/// What a run of the configuration subcommand comes to.
pub open spec fn last_updated_of_run(run: OutcomeModel) -> Result<Seq<char>, ErrorModel> {
    match run {
        OutcomeModel::SpawnFailed => Err(
            ErrorModel::CommandSpawnFailed {
                command_name: command_line_model(BREW_COMMAND@, CONFIG_ARG@),
            },
        ),
        OutcomeModel::Exited { success: false, stdout } => Err(
            ErrorModel::CommandRunFailed {
                command_name: command_line_model(BREW_COMMAND@, CONFIG_ARG@),
            },
        ),
        OutcomeModel::Exited { success: true, stdout } => match decoded_model(stdout) {
            Ok(config) => last_updated_model(config),
            Err(e) => Err(e),
        },
    }
}

/// The error of a validation, if any.
pub open spec fn validation_error(res: Result<(), ApplicationError>) -> Option<ErrorModel> {
    match res {
        Ok(_) => None,
        Err(e) => Some(e@),
    }
}

/// Judges the probe for the package manager. The probe's output is not read:
/// a probe that could not be started is a failed command, one that ended
/// without success means that the binary is not on the execution path.
pub fn command_validation(probe: &CommandOutcome) -> (res: Result<(), ApplicationError>)
    ensures
        validation_error(res) == validation_model(probe@),
{
    match probe {
        CommandOutcome::SpawnFailed => Err(
            ApplicationError::CommandRunFailed {
                command_name: command_line(WHICH_COMMAND, BREW_COMMAND),
            },
        ),
        CommandOutcome::Exited { success, stdout: _ } => {
            if *success {
                Ok(())
            } else {
                Err(
                    ApplicationError::CommandNotFound {
                        command_name: String::from_str(BREW_COMMAND),
                    },
                )
            }
        },
    }
}

/// Judges a run of the configuration subcommand and extracts the timestamp
/// from what it printed. A run that could not be started and one that ended
/// without success are two different errors, each naming the command.
pub fn get_last_updated(run: CommandOutcome) -> (res: Result<String, ApplicationError>)
    ensures
        result_model(res) == last_updated_of_run(run@),
        res matches Ok(stamp) ==> run@ matches OutcomeModel::Exited { success: true, stdout }
            && line_model(decode_utf8(stdout)) matches Ok(line) && is_slice_of(stamp@, line)
            && is_slice_of(line, decode_utf8(stdout)),
{
    match run {
        CommandOutcome::SpawnFailed => Err(
            ApplicationError::CommandSpawnFailed {
                command_name: command_line(BREW_COMMAND, CONFIG_ARG),
            },
        ),
        CommandOutcome::Exited { success: false, stdout: _ } => Err(
            ApplicationError::CommandRunFailed {
                command_name: command_line(BREW_COMMAND, CONFIG_ARG),
            },
        ),
        CommandOutcome::Exited { success: true, stdout } => {
            match decode_output(stdout) {
                Ok(config) => extract_last_updated(config.as_str()),
                Err(e) => Err(e),
            }
        },
    }
}

/// The command whose outcome is awaited.
#[derive(Debug, Clone, Copy, PartialEq, Eq)]
pub enum Stage {
    /// The probe for the package manager.
    Probe,
    /// The configuration subcommand.
    Config,
}

/// What to do once a command has ended.
#[derive(Debug, PartialEq, Eq)]
pub enum Step {
    /// Run the command of this stage and report its outcome.
    Run(Stage),
    /// Print this timestamp and end with success.
    Done(String),
    /// End with this error.
    Failed(ApplicationError),
}

/// The mathematical value of a [`Step`].
pub enum StepModel {
    Run(Stage),
    Done(Seq<char>),
    Failed(ErrorModel),
}

impl View for Step {
    type V = StepModel;

    open spec fn view(&self) -> StepModel {
        match self {
            Step::Run(stage) => StepModel::Run(*stage),
            Step::Done(stamp) => StepModel::Done(stamp@),
            Step::Failed(e) => StepModel::Failed(e@),
        }
    }
}

/// The program and the argument of a stage.
pub open spec fn command_model(stage: Stage) -> (Seq<char>, Seq<char>) {
    match stage {
        Stage::Probe => (WHICH_COMMAND@, BREW_COMMAND@),
        Stage::Config => (BREW_COMMAND@, CONFIG_ARG@),
    }
}

/// The step that follows `outcome` at `stage`.
pub open spec fn advance_model(stage: Stage, outcome: OutcomeModel) -> StepModel {
    match stage {
        Stage::Probe => match validation_model(outcome) {
            None => StepModel::Run(Stage::Config),
            Some(e) => StepModel::Failed(e),
        },
        Stage::Config => match last_updated_of_run(outcome) {
            Ok(stamp) => StepModel::Done(stamp),
            Err(e) => StepModel::Failed(e),
        },
    }
}

/// The stage with which every run begins.
pub fn first_stage() -> (stage: Stage)
    ensures
        stage == Stage::Probe,
{
    Stage::Probe
}

/// The program to run at `stage`, and its one argument.
pub fn command_of(stage: Stage) -> (command: (&'static str, &'static str))
    ensures
        (command.0@, command.1@) == command_model(stage),
{
    match stage {
        Stage::Probe => (WHICH_COMMAND, BREW_COMMAND),
        Stage::Config => (BREW_COMMAND, CONFIG_ARG),
    }
}

/// Decides what follows the outcome of the command of `stage`.
pub fn advance(stage: Stage, outcome: CommandOutcome) -> (step: Step)
    ensures
        step@ == advance_model(stage, outcome@),
{
    match stage {
        Stage::Probe => match command_validation(&outcome) {
            Ok(_) => Step::Run(Stage::Config),
            Err(e) => Step::Failed(e),
        },
        Stage::Config => match get_last_updated(outcome) {
            Ok(stamp) => Step::Done(stamp),
            Err(e) => Step::Failed(e),
        },
    }
}

/// A probe that ends without success stops the run with "command not found"
/// for the package manager: the configuration subcommand is not asked for.
pub proof fn lemma_failed_probe_stops_the_run(stdout: Seq<u8>)
    ensures
        advance_model(Stage::Probe, OutcomeModel::Exited { success: false, stdout })
            == StepModel::Failed(ErrorModel::CommandNotFound { command_name: BREW_COMMAND@ }),
{
}

/// The configuration subcommand is asked for only after a probe that ended
/// with success, and no step asks for the probe again.
pub proof fn lemma_config_runs_only_after_successful_probe(stage: Stage, outcome: OutcomeModel)
    ensures
        advance_model(stage, outcome) != StepModel::Run(Stage::Probe),
        advance_model(stage, outcome) == StepModel::Run(Stage::Config) <==> stage == Stage::Probe
            && outcome matches OutcomeModel::Exited { success: true, .. },
{
}

/// A configuration subcommand that ends without success is reported as a
/// failed command, whatever it printed.
pub proof fn lemma_failed_config_run_is_reported(stdout: Seq<u8>)
    ensures
        last_updated_of_run(OutcomeModel::Exited { success: false, stdout }) == Err::<
            Seq<char>,
            ErrorModel,
        >(
            ErrorModel::CommandRunFailed {
                command_name: command_line_model(BREW_COMMAND@, CONFIG_ARG@),
            },
        ),
{
}

/// A configuration subcommand that could not be started is reported as such,
/// and never as one that ran and failed.
pub proof fn lemma_spawn_failure_is_a_kind_of_its_own(stdout: Seq<u8>)
    ensures
        last_updated_of_run(OutcomeModel::SpawnFailed) == Err::<Seq<char>, ErrorModel>(
            ErrorModel::CommandSpawnFailed {
                command_name: command_line_model(BREW_COMMAND@, CONFIG_ARG@),
            },
        ),
        last_updated_of_run(OutcomeModel::SpawnFailed) != last_updated_of_run(
            OutcomeModel::Exited { success: false, stdout },
        ),
{
}

/// Output that is not well-formed UTF-8 is reported as an encoding error.
pub proof fn lemma_invalid_encoding_is_reported(stdout: Seq<u8>)
    requires
        !valid_utf8(stdout),
    ensures
        last_updated_of_run(OutcomeModel::Exited { success: true, stdout }) == Err::<
            Seq<char>,
            ErrorModel,
        >(ErrorModel::StringFormatError),
{
}

} // verus!

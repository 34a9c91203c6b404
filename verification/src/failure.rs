//! What can go wrong in a run or in a merge, and what follows from it.

use vstd::prelude::*;
use vstd::string::StringExecFns;

verus! {

/// The file access that failed.
#[derive(Clone, Copy, Debug, PartialEq, Eq, Structural)]
pub enum Access {
    /// A file that the run cannot do without, such as the kernel's source.
    Required,
    /// An output file that the user asked for could not be created.
    CreateOutput,
    /// An output file that the user asked for was created but could not be
    /// written.
    WriteOutput,
}

/// What went wrong.
#[derive(Clone, Copy, Debug, PartialEq, Eq, Structural)]
pub enum Failure {
    /// The compiler did not succeed.
    CompilationFailed,
    /// The compiled kernel could not be loaded.
    ArtifactLoadFailed,
    /// The compiled kernel does not export the kernel's symbol.
    SymbolNotFound,
    /// The output of the kernel was rejected.
    VerificationFailed,
    /// A file does not hold a report.
    ReportParseError,
    /// Reports that measured different things were to be merged.
    MergeIncompatible,
    /// A file could not be accessed.
    Io(Access),
}

/// What follows from a failure.
#[derive(Clone, Copy, Debug, PartialEq, Eq, Structural)]
pub enum Consequence {
    /// The process ends with the given exit code. No report is written.
    Exit(i32),
    /// The file is left out, and the work goes on with the other files.
    SkipFile,
    /// The output is not written, and the work goes on.
    SkipOutput,
}

impl Failure {
    /// What follows from the failure. A file that holds no report is left
    /// out of a merge. An output file that cannot be created is not written,
    /// though one that cannot be written ends the process. Everything else
    /// ends the process with the exit code 1.
    pub open spec fn consequence(self) -> Consequence {
        match self {
            Failure::ReportParseError => Consequence::SkipFile,
            Failure::Io(Access::CreateOutput) => Consequence::SkipOutput,
            _ => Consequence::Exit(1),
        }
    }

    /// Whether the failure ends the process.
    pub open spec fn fatal(self) -> bool {
        self.consequence() is Exit
    }

    /// What follows from the failure.
    pub fn handle(&self) -> (consequence: Consequence)
        ensures
            consequence == self.consequence(),
    {
        match self {
            Failure::ReportParseError => Consequence::SkipFile,
            Failure::Io(Access::CreateOutput) => Consequence::SkipOutput,
            _ => Consequence::Exit(1),
        }
    }

    /// Whether the failure ends the process.
    pub fn is_fatal(&self) -> (answer: bool)
        ensures
            answer == self.fatal(),
    {
        match self.handle() {
            Consequence::Exit(_) => true,
            _ => false,
        }
    }

    /// The line that tells the user of the failure.
    pub fn message(&self) -> (line: String)
        ensures
            line@ == match *self {
                Failure::CompilationFailed => "Error: compilation failed"@,
                Failure::ArtifactLoadFailed => "Error: failed to load compiled object"@,
                Failure::SymbolNotFound
                    => "Error: compiled object does not contain symbol call_dgemm"@,
                Failure::VerificationFailed => "WRONG RESULT!"@,
                Failure::ReportParseError => "Error: unknown format"@,
                Failure::MergeIncompatible
                    => "Error: cannot merge reports that have different parameters."@,
                Failure::Io(Access::Required) => "Error: could not open file"@,
                Failure::Io(Access::CreateOutput) => "Error: could not create file"@,
                Failure::Io(Access::WriteOutput) => "Error: failed to save"@,
            },
    {
        match self {
            Failure::CompilationFailed => String::from_str("Error: compilation failed"),
            Failure::ArtifactLoadFailed => String::from_str("Error: failed to load compiled object"),
            Failure::SymbolNotFound => String::from_str(
                "Error: compiled object does not contain symbol call_dgemm",
            ),
            Failure::VerificationFailed => String::from_str("WRONG RESULT!"),
            Failure::ReportParseError => String::from_str("Error: unknown format"),
            Failure::MergeIncompatible => String::from_str(
                "Error: cannot merge reports that have different parameters.",
            ),
            Failure::Io(Access::Required) => String::from_str("Error: could not open file"),
            Failure::Io(Access::CreateOutput) => String::from_str("Error: could not create file"),
            Failure::Io(Access::WriteOutput) => String::from_str("Error: failed to save"),
        }
    }
}

/// The exit code of the process: 1 where a failure ended it, 0 otherwise.
pub fn exit_code(ended_by: Option<Failure>) -> (code: i32)
    ensures
        code == match ended_by {
            Some(failure) => if failure.fatal() {
                1i32
            } else {
                0i32
            },
            None => 0i32,
        },
{
    match ended_by {
        Some(failure) => if failure.is_fatal() {
            1
        } else {
            0
        },
        None => 0,
    }
}

/// Every failure that ends the process ends it with the exit code 1.
pub proof fn lemma_fatal_exit_code(failure: Failure)
    ensures
        failure.fatal() <==> failure.consequence() == Consequence::Exit(1),
{
}

} // verus!

//! Error taxonomy for transcoder operations: spawn failures, execution
//! failures, output-validation failures, and input-validation failures.

use vstd::prelude::*;

verus! {

/// Error raised while preparing or running a transcoder invocation.
#[derive(Debug)]
pub enum FFmpegError {
    /// The binary could not be spawned (not found or not executable).
    CommandSpawn(String),
    /// The process ran but exited with a failure, carrying its diagnostics.
    ExecutionFailed(String),
    /// The process reported success but the expected output is missing.
    OutputValidation(String),
    /// A caller-supplied path or range was rejected before spawning anything.
    InvalidPath(String),
}

/// Result type for transcoder operations.
pub type FFmpegResult<T> = Result<T, FFmpegError>;

/// The human-readable rendering of an error, as a sequence of characters.
pub open spec fn spec_message(e: &FFmpegError) -> Seq<char> {
    match e {
        FFmpegError::CommandSpawn(msg) => "Failed to spawn FFmpeg: "@ + msg@,
        FFmpegError::ExecutionFailed(msg) => "FFmpeg execution failed: "@ + msg@,
        FFmpegError::OutputValidation(msg) => "Output validation failed: "@ + msg@,
        FFmpegError::InvalidPath(msg) => "Invalid path: "@ + msg@,
    }
}

impl FFmpegError {
    /// Render the error as display text: a fixed prefix naming the failure
    /// kind, followed by the captured detail.
    pub fn message(&self) -> (m: String)
        ensures
            m@ == spec_message(self),
    {
        match self {
            FFmpegError::CommandSpawn(msg) => {
                let mut m = String::from_str("Failed to spawn FFmpeg: ");
                m.append(msg.as_str());
                m
            },
            FFmpegError::ExecutionFailed(msg) => {
                let mut m = String::from_str("FFmpeg execution failed: ");
                m.append(msg.as_str());
                m
            },
            FFmpegError::OutputValidation(msg) => {
                let mut m = String::from_str("Output validation failed: ");
                m.append(msg.as_str());
                m
            },
            FFmpegError::InvalidPath(msg) => {
                let mut m = String::from_str("Invalid path: ");
                m.append(msg.as_str());
                m
            },
        }
    }
}

/// The terminal outcome of one finished invocation, as its exit status
/// and output-file presence dictate: a clean exit with the output in
/// place succeeds; a clean exit without it is an output-validation
/// failure (the tool malfunctioned silently); a failed exit carries the
/// captured diagnostics.
pub fn completion_result(
    exit_success: bool,
    output_exists: bool,
    diagnostics: String,
) -> (r: FFmpegResult<()>)
    ensures
        exit_success && output_exists ==> r is Ok,
        exit_success && !output_exists ==> (r matches Err(e) && e matches
            FFmpegError::OutputValidation(m) && m@ == "Output file was not created"@),
        !exit_success ==> (r matches Err(e) && e matches FFmpegError::ExecutionFailed(m) && m@
            == diagnostics@),
{
    if !exit_success {
        Err(FFmpegError::ExecutionFailed(diagnostics))
    } else if !output_exists {
        Err(FFmpegError::OutputValidation(String::from_str("Output file was not created")))
    } else {
        Ok(())
    }
}

} // verus!

//! The external build tool: the fixed program path, the exact argument
//! lists of its bootstrap and build invocations, and the interpretation
//! of its exit status. Both invocations run with the extracted source
//! tree as the current working directory; the tool itself is an opaque
//! collaborator.

use vstd::prelude::*;
use crate::errors::Operation;
use crate::errors::PipelineError;

verus! {

/// Returns the path of the external build tool, relative to the
/// extracted source tree.
pub fn tool_program() -> (p: String)
    ensures
        p@ == "./mach"@,
{
    String::from_str("./mach")
}

/// Builds the exact argument list of the non-interactive bootstrap
/// invocation, scoped to browser application setup.
pub fn bootstrap_args() -> (args: Vec<String>)
    ensures
        args@.len() == 3,
        args@[0]@ == "bootstrap"@,
        args@[1]@ == "--no-interactive"@,
        args@[2]@ == "--application-choice=browser"@,
{
    let mut args: Vec<String> = Vec::new();
    args.push(String::from_str("bootstrap"));
    args.push(String::from_str("--no-interactive"));
    args.push(String::from_str("--application-choice=browser"));
    args
}

/// Builds the exact argument list of the build invocation, with its
/// fixed parallelism hint.
pub fn build_args() -> (args: Vec<String>)
    ensures
        args@.len() == 2,
        args@[0]@ == "build"@,
        args@[1]@ == "-j8"@,
{
    let mut args: Vec<String> = Vec::new();
    args.push(String::from_str("build"));
    args.push(String::from_str("-j8"));
    args
}

/// Interprets the exit of a build tool subprocess for the given
/// operation: a non-zero exit is an external tool error carrying the
/// exit status the operating system reported.
pub fn tool_outcome(op: Operation, success: bool, status: Option<i32>) -> (r: Result<
    (),
    PipelineError,
>)
    ensures
        r is Ok <==> success,
        r matches Err(e) ==> e == (PipelineError::ExternalTool { op, status }),
{
    if success {
        Ok(())
    } else {
        Err(PipelineError::ExternalTool { op, status })
    }
}

} // verus!

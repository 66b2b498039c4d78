//! Archive extractor logic: the fixed extraction target, the exact
//! argument list handed to the extraction tool, the per-entry meaning of
//! stripping one leading path component, and the interpretation of the
//! tool's exit status.
//!
//! Re-running extraction into an existing target directory is not
//! guaranteed idempotent: files may be merged or overwritten. That is
//! acceptable for a single-run tool.

use vstd::prelude::*;
use vstd::slice::slice_subrange;
use vstd::slice::slice_to_vec;
use crate::errors::Operation;
use crate::errors::PipelineError;

verus! {

/// The path separator in archive entry names.
pub open spec fn is_separator(b: u8) -> bool {
    b == 47
}

/// Returns the fixed extraction target directory, named `engine`,
/// relative to the process's working directory.
pub fn extraction_target() -> (t: String)
    ensures
        t@ == "engine"@,
{
    String::from_str("engine")
}

/// Returns the name of the external extraction tool.
pub fn extractor_program() -> (p: String)
    ensures
        p@ == "tar"@,
{
    String::from_str("tar")
}

/// Builds the exact argument list of the extraction tool invocation:
/// extract `archive` into `target`, stripping one leading path component
/// from every entry.
pub fn extractor_args(archive: &str, target: &str) -> (args: Vec<String>)
    ensures
        args@.len() == 5,
        args@[0]@ == "-xf"@,
        args@[1]@ == archive@,
        args@[2]@ == "--strip-components=1"@,
        args@[3]@ == "-C"@,
        args@[4]@ == target@,
{
    let mut args: Vec<String> = Vec::new();
    args.push(String::from_str("-xf"));
    args.push(String::from_str(archive));
    args.push(String::from_str("--strip-components=1"));
    args.push(String::from_str("-C"));
    args.push(String::from_str(target));
    args
}

/// Strips exactly one leading path component from an archive entry name,
/// given as bytes: everything up to and including the first separator is
/// dropped. An entry with no separator consists of the top-level
/// component alone and yields nothing, as the extraction tool skips it.
pub fn strip_one_component(entry: &[u8]) -> (r: Option<Vec<u8>>)
    ensures
        r is Some <==> exists|i: int| 0 <= i < entry@.len() && is_separator(entry@[i]),
        r matches Some(rest) ==> exists|i: int|
            {
                &&& 0 <= i < entry@.len()
                &&& is_separator(entry@[i])
                &&& forall|j: int| 0 <= j < i ==> !is_separator(entry@[j])
                &&& rest@ == entry@.subrange(i + 1, entry@.len() as int)
            },
{
    let n = entry.len();
    let mut i: usize = 0;
    while i < n
        invariant
            n == entry@.len(),
            i <= n,
            forall|j: int| 0 <= j < i ==> !is_separator(entry@[j]),
        decreases n - i,
    {
        if entry[i] == 47 {
            let rest = slice_subrange(entry, i + 1, n);
            return Some(slice_to_vec(rest));
        }
        i = i + 1;
    }
    None
}

/// Interprets the exit of the extraction tool: a non-zero exit is an
/// external tool error carrying the exit status.
pub fn extractor_outcome(success: bool, status: Option<i32>) -> (r: Result<(), PipelineError>)
    ensures
        r is Ok <==> success,
        r matches Err(e) ==> e == (PipelineError::ExternalTool {
            op: Operation::RunExtractor,
            status,
        }),
{
    if success {
        Ok(())
    } else {
        Err(PipelineError::ExternalTool { op: Operation::RunExtractor, status })
    }
}

} // verus!

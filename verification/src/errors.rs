//! The closed error taxonomy of the pipeline.
//!
//! Every failure of the run is one of five kinds, carries the operation
//! that failed, and, for an external tool, the exit status the subprocess
//! reported. Errors are propagated unchanged to the process boundary:
//! there is no retry anywhere in the pipeline.

use vstd::prelude::*;

verus! {

/// The operation during which a failure arose.
#[derive(Clone, Copy, Debug, PartialEq, Eq, Structural)]
pub enum Operation {
    /// Reading the release manifest.
    ReadManifest,
    /// Creating the temporary download directory.
    CreateTempDir,
    /// Issuing the HTTP GET for the archive.
    HttpGet,
    /// Awaiting the initial HTTP response within its bounded timeout; a
    /// timeout here is a failure distinct from a non-success status.
    AwaitResponse,
    /// Reading one chunk of the response body.
    ReadChunk,
    /// Creating or writing the archive file.
    WriteArchive,
    /// Creating the extraction target directory.
    CreateOutputDir,
    /// Running the archive extraction tool.
    RunExtractor,
    /// Running the bootstrap command of the external build tool.
    RunBootstrap,
    /// Running the build command of the external build tool.
    RunBuild,
    /// Removing the temporary download directory.
    RemoveTempDir,
}

/// A failure of the pipeline.
///
/// - `Configuration`: the manifest is missing, unparseable, or lacks the
///   required field; fatal at startup, before any resource is acquired.
/// - `Network`: connection failure, timeout, non-success HTTP status, or a
///   stream interruption during download.
/// - `Protocol`: the server reported no content length, or a URL or file
///   name could not be derived.
/// - `Filesystem`: directory creation, file creation or write, or removal
///   failed.
/// - `ExternalTool`: a subprocess exited non-zero; carries the exit status
///   when the operating system reported one.
#[derive(Clone, Copy, Debug, PartialEq, Eq, Structural)]
pub enum PipelineError {
    Configuration { op: Operation },
    Network { op: Operation },
    Protocol { op: Operation },
    Filesystem { op: Operation },
    ExternalTool { op: Operation, status: Option<i32> },
}

impl Operation {
    /// A short human-readable name of the operation.
    pub fn describe(&self) -> (s: &'static str)
        ensures
            s@ == self.spec_describe(),
    {
        match self {
            Operation::ReadManifest => "reading the release manifest",
            Operation::CreateTempDir => "creating the temporary download directory",
            Operation::HttpGet => "requesting the source archive",
            Operation::AwaitResponse => "awaiting the initial response",
            Operation::ReadChunk => "reading the response stream",
            Operation::WriteArchive => "writing the archive file",
            Operation::CreateOutputDir => "creating the extraction directory",
            Operation::RunExtractor => "extracting the archive",
            Operation::RunBootstrap => "bootstrapping the build environment",
            Operation::RunBuild => "building the source tree",
            Operation::RemoveTempDir => "removing the temporary download directory",
        }
    }

    /// The name `describe` returns for each operation.
    pub open spec fn spec_describe(self) -> Seq<char> {
        match self {
            Operation::ReadManifest => "reading the release manifest"@,
            Operation::CreateTempDir => "creating the temporary download directory"@,
            Operation::HttpGet => "requesting the source archive"@,
            Operation::AwaitResponse => "awaiting the initial response"@,
            Operation::ReadChunk => "reading the response stream"@,
            Operation::WriteArchive => "writing the archive file"@,
            Operation::CreateOutputDir => "creating the extraction directory"@,
            Operation::RunExtractor => "extracting the archive"@,
            Operation::RunBootstrap => "bootstrapping the build environment"@,
            Operation::RunBuild => "building the source tree"@,
            Operation::RemoveTempDir => "removing the temporary download directory"@,
        }
    }
}

impl PipelineError {
    /// The operation during which this error arose.
    pub open spec fn spec_op(self) -> Operation {
        match self {
            PipelineError::Configuration { op } => op,
            PipelineError::Network { op } => op,
            PipelineError::Protocol { op } => op,
            PipelineError::Filesystem { op } => op,
            PipelineError::ExternalTool { op, .. } => op,
        }
    }

    /// Returns the operation during which this error arose.
    pub fn op(&self) -> (op: Operation)
        ensures
            op == self.spec_op(),
    {
        match self {
            PipelineError::Configuration { op } => *op,
            PipelineError::Network { op } => *op,
            PipelineError::Protocol { op } => *op,
            PipelineError::Filesystem { op } => *op,
            PipelineError::ExternalTool { op, .. } => *op,
        }
    }

    /// The prefix `describe` puts before the operation, naming the kind
    /// of failure.
    pub open spec fn spec_kind_prefix(self) -> Seq<char> {
        match self {
            PipelineError::Configuration { .. } => "configuration error while "@,
            PipelineError::Network { .. } => "network error while "@,
            PipelineError::Protocol { .. } => "protocol error while "@,
            PipelineError::Filesystem { .. } => "filesystem error while "@,
            PipelineError::ExternalTool { .. } => "external tool failed while "@,
        }
    }

    /// A human-readable message naming the kind of failure and the
    /// operation that failed.
    pub fn describe(&self) -> (s: String)
        ensures
            s@ == self.spec_kind_prefix() + self.spec_op().spec_describe(),
    {
        let kind = match self {
            PipelineError::Configuration { .. } => "configuration error while ",
            PipelineError::Network { .. } => "network error while ",
            PipelineError::Protocol { .. } => "protocol error while ",
            PipelineError::Filesystem { .. } => "filesystem error while ",
            PipelineError::ExternalTool { .. } => "external tool failed while ",
        };
        let mut s = String::from_str(kind);
        s.append(self.op().describe());
        s
    }
}

} // verus!

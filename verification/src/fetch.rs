//! Archive fetcher logic: download URL resolution, archive file naming,
//! HTTP status and content-length checks, and the clamped progress counter.

use vstd::prelude::*;
use crate::errors::Operation;
use crate::errors::PipelineError;

verus! {

/// The download URL for a given release version, as one fixed template:
/// the version appears once in the release directory and once in the
/// archive file name.
pub open spec fn url_spec(version: Seq<char>) -> Seq<char> {
    "https://archive.mozilla.org/pub/firefox/releases/"@ + version
        + "/source/"@ + filename_spec(version)
}

/// The file name of the source archive for a given release version.
pub open spec fn filename_spec(version: Seq<char>) -> Seq<char> {
    "firefox-"@ + version + ".source.tar.xz"@
}

/// Builds the download URL for `version` from the fixed template.
pub fn download_url(version: &str) -> (url: String)
    ensures
        url@ == url_spec(version@),
{
    let mut url = String::from_str("https://archive.mozilla.org/pub/firefox/releases/");
    url.append(version);
    url.append("/source/firefox-");
    url.append(version);
    url.append(".source.tar.xz");
    proof {
        assert(url@ =~= url_spec(version@)) by {
            reveal_strlit("https://archive.mozilla.org/pub/firefox/releases/");
            reveal_strlit("/source/firefox-");
            reveal_strlit("/source/");
            reveal_strlit("firefox-");
            reveal_strlit(".source.tar.xz");
        }
    }
    url
}

/// Builds the archive file name for `version`.
pub fn archive_filename(version: &str) -> (name: String)
    ensures
        name@ == filename_spec(version@),
{
    let mut name = String::from_str("firefox-");
    name.append(version);
    name.append(".source.tar.xz");
    name
}

/// Whether an HTTP status code signals success.
pub open spec fn is_success_status(status: u16) -> bool {
    200 <= status < 300
}

/// Interprets the HTTP status of the GET response: any non-2xx status is
/// a network error, and the fetch is aborted.
pub fn check_status(status: u16) -> (r: Result<(), PipelineError>)
    ensures
        r is Ok <==> is_success_status(status),
        r matches Err(e) ==> e == (PipelineError::Network { op: Operation::HttpGet }),
{
    if 200 <= status && status < 300 {
        Ok(())
    } else {
        Err(PipelineError::Network { op: Operation::HttpGet })
    }
}

/// Requires the server to have reported a total content length: its
/// absence is a fatal protocol error, since progress reporting depends
/// on it.
pub fn require_content_length(reported: Option<u64>) -> (r: Result<u64, PipelineError>)
    ensures
        r is Ok <==> reported is Some,
        r matches Ok(n) ==> reported == Some(n),
        r matches Err(e) ==> reported is None
            && e == (PipelineError::Protocol { op: Operation::HttpGet }),
{
    match reported {
        Some(n) => Ok(n),
        None => Err(PipelineError::Protocol { op: Operation::HttpGet }),
    }
}

/// Admits a response into the streaming phase: the status must signal
/// success and the server must have declared a total content length.
/// Returns the declared total, against which progress is counted.
pub fn accept_response(status: u16, content_length: Option<u64>) -> (r: Result<
    u64,
    PipelineError,
>)
    ensures
        r is Ok <==> is_success_status(status) && content_length is Some,
        r matches Ok(n) ==> content_length == Some(n),
        r matches Err(e) ==> e == if !is_success_status(status) {
            (PipelineError::Network { op: Operation::HttpGet })
        } else {
            (PipelineError::Protocol { op: Operation::HttpGet })
        },
{
    check_status(status)?;
    require_content_length(content_length)
}

/// The running byte counter of a download session, clamped against the
/// total size the server declared.
pub struct DownloadProgress {
    /// Bytes counted so far; never exceeds `total`.
    pub downloaded: u64,
    /// The content length the server declared.
    pub total: u64,
}

impl DownloadProgress {
    /// The counter never exceeds the declared total.
    pub open spec fn wf(self) -> bool {
        self.downloaded <= self.total
    }

    /// The counter value after one chunk of `len` bytes: the sum, clamped
    /// to the declared total.
    pub open spec fn spec_after_chunk(self, len: u64) -> u64 {
        if self.downloaded + len >= self.total {
            self.total
        } else {
            (self.downloaded + len) as u64
        }
    }

    /// A fresh counter for a download of `total` declared bytes.
    pub fn new(total: u64) -> (p: DownloadProgress)
        ensures
            p.wf(),
            p.downloaded == 0,
            p.total == total,
    {
        DownloadProgress { downloaded: 0, total }
    }

    /// Counts one chunk of `len` bytes: the counter grows monotonically
    /// and is clamped so it never exceeds the declared total.
    pub fn record_chunk(&mut self, len: u64)
        requires
            old(self).wf(),
        ensures
            final(self).wf(),
            final(self).total == old(self).total,
            final(self).downloaded == old(self).spec_after_chunk(len),
            final(self).downloaded >= old(self).downloaded,
            final(self).downloaded <= final(self).total,
    {
        if len >= self.total - self.downloaded {
            self.downloaded = self.total;
        } else {
            self.downloaded = self.downloaded + len;
        }
    }

    /// Whether the counter has reached the declared total.
    pub fn is_complete(&self) -> (b: bool)
        ensures
            b == (self.downloaded == self.total),
    {
        self.downloaded == self.total
    }
}

/// The counter value after a whole stream of chunks: each chunk is added
/// in turn, clamped to the declared total.
pub open spec fn spec_count_stream(p: DownloadProgress, chunks: Seq<u64>) -> DownloadProgress
    decreases chunks.len(),
{
    if chunks.len() == 0 {
        p
    } else {
        spec_count_stream(
            DownloadProgress { downloaded: p.spec_after_chunk(chunks[0]), total: p.total },
            chunks.skip(1),
        )
    }
}

/// Counts a whole simulated stream of chunk lengths against a declared
/// total. However short or long the stream is against the declared
/// total, the final counter never exceeds it.
pub fn count_stream(total: u64, chunks: &Vec<u64>) -> (p: DownloadProgress)
    ensures
        p.wf(),
        p.total == total,
        p == spec_count_stream(DownloadProgress { downloaded: 0, total }, chunks@),
        p.downloaded <= total,
{
    let mut p = DownloadProgress::new(total);
    let ghost start = p;
    let mut i: usize = 0;
    proof {
        assert(chunks@.skip(0) =~= chunks@);
    }
    while i < chunks.len()
        invariant
            p.wf(),
            p.total == total,
            i <= chunks@.len(),
            spec_count_stream(p, chunks@.skip(i as int))
                == spec_count_stream(start, chunks@),
        decreases chunks@.len() - i,
    {
        proof {
            assert(chunks@.skip(i as int)[0] == chunks@[i as int]);
            assert(chunks@.skip(i as int).skip(1) =~= chunks@.skip(i + 1));
        }
        p.record_chunk(chunks[i]);
        i = i + 1;
    }
    proof {
        assert(chunks@.skip(i as int) =~= Seq::<u64>::empty());
    }
    p
}

} // verus!

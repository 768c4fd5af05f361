//! Planning and accounting for the resumable snapshot download: parsing
//! the fixed URL (through the outside URL parser), choosing the resume
//! offset from the destination file's current length, building the
//! byte-range header, reading the remote size out of the metadata
//! response, and modeling the destination file's length while bytes
//! stream in.

use vstd::prelude::*;
use vstd::string::StringExecFns;

use crate::digits::{all_digits, decimal_digits, decimal_value, parse_u64, push_decimal};
use crate::errors::DownloadError;
use crate::progress::ProgressCounter;

verus! {

/// What the outside URL parser returns for a given string: nothing when
/// the string is not an absolute URL, otherwise the parsed URL's
/// normalized serialization.
pub uninterp spec fn parsed_url(s: Seq<char>) -> Option<Seq<char>>;

/// Relies on `reqwest::Url::parse` (the `url` crate's `Url::parse`):
/// it fails exactly when no absolute URL can be parsed from the string,
/// and the parsed value's serialization (`as_str`) is a function of the
/// input string alone.
#[verifier::external_body]
fn parse_url(s: &str) -> (r: Option<String>)
    ensures
        r is Some <==> parsed_url(s@) is Some,
        r matches Some(u) ==> parsed_url(s@) matches Some(t) && u@ == t,
{
    match reqwest::Url::parse(s) {
        Ok(u) => Some(u.as_str().to_string()),
        Err(_) => None,
    }
}

/// The byte-range header value requesting bytes from `offset` to the end
/// of the file.
pub open spec fn range_header_spec(offset: u64) -> Seq<char> {
    "bytes="@ + decimal_digits(offset as nat) + "-"@
}

/// Build the `Range` header value `bytes=<offset>-`.
pub fn range_header_value(offset: u64) -> (r: String)
    ensures
        r@ == range_header_spec(offset),
{
    let mut out = String::from_str("bytes=");
    push_decimal(offset, &mut out);
    out.append("-");
    out
}

/// A fully planned transfer request: the parsed URL and, when resuming,
/// the byte-range header starting at the destination's current length.
#[derive(Debug)]
pub struct DownloadRequest {
    pub url: String,
    pub range_header: Option<String>,
}

/// Plan the transfer request for `uri`.
///
/// `existing_len` is the destination file's current length when it
/// already exists (`None` when it does not). A pre-existing file of
/// length `L` - even zero - yields a range request for bytes `[L, end)`:
/// the exact current length is the resume offset, and the partial file
/// is continued, never discarded.
pub fn plan_request(uri: &str, existing_len: Option<u64>) -> (r: Result<
    DownloadRequest,
    DownloadError,
>)
    ensures
        r is Ok <==> parsed_url(uri@) is Some,
        r matches Ok(p) ==> parsed_url(uri@) matches Some(t) && p.url@ == t,
        r matches Ok(p) ==> match existing_len {
            Some(l) => p.range_header matches Some(h) && h@ == range_header_spec(l),
            None => p.range_header is None,
        },
        r matches Err(e) ==> e == DownloadError::UrlParse,
{
    match parse_url(uri) {
        None => Err(DownloadError::UrlParse),
        Some(u) => {
            let range_header: Option<String> = match existing_len {
                None => None,
                Some(l) => Some(range_header_value(l)),
            };
            Ok(DownloadRequest { url: u, range_header })
        },
    }
}

/// What the metadata (HEAD) step records as the total size: `-1` when
/// the request failed or returned a non-success status (unknown size is
/// tolerated, the transfer is attempted anyway); otherwise the
/// `Content-Length` value, or `0` when the header is missing or does not
/// parse as a signed 64-bit decimal.
pub open spec fn head_size_spec(success: bool, content_length: Option<Seq<char>>) -> int {
    if !success {
        -1
    } else {
        match content_length {
            None => 0,
            Some(s) => if s.len() > 0 && all_digits(s) && decimal_value(s) <= i64::MAX {
                decimal_value(s)
            } else {
                0
            },
        }
    }
}

/// Record the total expected size from the metadata response.
///
/// `success` is whether the request came back with a success status;
/// `content_length` is the `Content-Length` header value, when present.
pub fn total_size_from_head(success: bool, content_length: Option<&str>) -> (r: i64)
    ensures
        r == head_size_spec(
            success,
            match content_length {
                Some(s) => Some(s@),
                None => None,
            },
        ),
        r >= -1,
{
    if !success {
        return -1;
    }
    match content_length {
        None => 0,
        Some(s) => {
            match parse_u64(s) {
                Some(v) => if v <= 0x7fff_ffff_ffff_ffffu64 {
                    v as i64
                } else {
                    0
                },
                None => 0,
            }
        },
    }
}

/// One download in flight: the byte offset the transfer resumes at (the
/// destination file's length when the download began) and the running
/// progress counter. While the download is resuming, the destination
/// file's length always equals the offset plus the bytes received.
pub struct DownloadSession {
    pub resume_offset: u64,
    pub progress: ProgressCounter,
}

impl DownloadSession {
    /// The session exactly as `begin` creates it.
    pub open spec fn begin_spec(total_size: i64, existing_len: Option<u64>) -> DownloadSession {
        DownloadSession {
            resume_offset: match existing_len {
                Some(l) => l,
                None => 0,
            },
            progress: ProgressCounter { total_size, bytes_downloaded: 0, last_percent: 0 },
        }
    }

    /// Begin a download of `total_size` expected bytes (`-1` unknown)
    /// into a destination that already holds `existing_len` bytes, if it
    /// exists. The destination is only ever appended to; the existing
    /// length is the resume offset.
    pub fn begin(total_size: i64, existing_len: Option<u64>) -> (s: DownloadSession)
        ensures
            s == Self::begin_spec(total_size, existing_len),
            s.progress.well_formed(),
    {
        let resume_offset: u64 = match existing_len {
            Some(l) => l,
            None => 0,
        };
        DownloadSession { resume_offset, progress: ProgressCounter::start(total_size) }
    }

    /// The destination file's modeled length: the resume offset plus
    /// every byte received so far.
    pub open spec fn file_length(self) -> int {
        self.resume_offset + self.progress.bytes_downloaded
    }

    /// Record `n` received bytes; returns the progress report, if one is
    /// due now.
    pub fn record(&mut self, n: u64) -> (r: Option<u64>)
        requires
            old(self).progress.bytes_downloaded + n <= u64::MAX,
            old(self).progress.well_formed(),
        ensures
            final (self).resume_offset == old(self).resume_offset,
            final (self).progress == old(self).progress.stepped(n),
            r == old(self).progress.report_after(n),
            final (self).progress.well_formed(),
            final (self).file_length() == old(self).file_length() + n,
    {
        self.progress.inc(n)
    }

    /// The length the destination file has after the transfer: the
    /// resume offset plus the bytes received.
    pub fn expected_final_length(&self) -> (r: u64)
        requires
            self.resume_offset + self.progress.bytes_downloaded <= u64::MAX,
        ensures
            r == self.file_length(),
    {
        self.resume_offset + self.progress.bytes_downloaded
    }
}

/// The sum of the chunk sizes.
pub open spec fn sum_chunks(chunks: Seq<u64>) -> int
    decreases chunks.len(),
{
    if chunks.len() == 0 {
        0
    } else {
        sum_chunks(chunks.drop_last()) + chunks.last()
    }
}

/// Chunk sums are non-negative.
pub proof fn lemma_sum_chunks_nonneg(chunks: Seq<u64>)
    ensures
        sum_chunks(chunks) >= 0,
    decreases chunks.len(),
{
    if chunks.len() > 0 {
        lemma_sum_chunks_nonneg(chunks.drop_last());
    }
}

/// The session after the chunks have been recorded, in order.
pub open spec fn run_session(s: DownloadSession, chunks: Seq<u64>) -> DownloadSession
    decreases chunks.len(),
{
    if chunks.len() == 0 {
        s
    } else {
        let prev = run_session(s, chunks.drop_last());
        DownloadSession {
            resume_offset: prev.resume_offset,
            progress: prev.progress.stepped(chunks.last()),
        }
    }
}

/// Recording chunks adds exactly their sizes to the byte counter and
/// changes nothing else about the offsets.
pub proof fn lemma_run_session_adds(s: DownloadSession, chunks: Seq<u64>)
    requires
        s.progress.bytes_downloaded + sum_chunks(chunks) <= u64::MAX,
    ensures
        run_session(s, chunks).resume_offset == s.resume_offset,
        run_session(s, chunks).progress.total_size == s.progress.total_size,
        run_session(s, chunks).progress.bytes_downloaded == s.progress.bytes_downloaded
            + sum_chunks(chunks),
    decreases chunks.len(),
{
    if chunks.len() > 0 {
        lemma_sum_chunks_nonneg(chunks.drop_last());
        lemma_run_session_adds(s, chunks.drop_last());
    }
}

/// Resuming appends and never truncates: a download begun on a
/// destination of length `L` that receives chunks summing to `S` models
/// a final file of length exactly `L + S`, with `L` still the offset the
/// range request started at.
pub proof fn lemma_resume_appends(total_size: i64, existing_len: u64, chunks: Seq<u64>)
    requires
        existing_len + sum_chunks(chunks) <= u64::MAX,
    ensures
        ({
            let s = run_session(DownloadSession::begin_spec(total_size, Some(existing_len)), chunks);
            s.resume_offset == existing_len && s.progress.bytes_downloaded == sum_chunks(chunks)
                && s.file_length() == existing_len + sum_chunks(chunks)
        }),
{
    lemma_sum_chunks_nonneg(chunks);
    lemma_run_session_adds(DownloadSession::begin_spec(total_size, Some(existing_len)), chunks);
}

} // verus!

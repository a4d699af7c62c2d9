//! Helpers around fetching and naming tracks: turning a resolved title into
//! the on-disk file name, building the fetch tool's argument strings, and the
//! bookkeeping for search results.
//!
//! The runtime invokes the external fetch tool and performs the downloads;
//! everything here is the pure naming and selection logic those operations
//! share.

use vstd::prelude::*;
use crate::control::dec_str;
use crate::control::u64_to_string;

verus! {

/// Where the external programs the fetcher shells out to were found.  The
/// converter is required; the post-processor is optional and fetching
/// proceeds without it.
#[derive(Clone, Debug)]
pub struct Paths {
    pub yt_dlp_path: String,
    pub ffmpeg_path: Option<String>,
}

/// One search result: the video's title and its watch identifier.
#[derive(Clone, Debug)]
pub struct Video {
    pub title: String,
    pub id: String,
}

/// What `sanitize_filename::sanitize_with_options` returns for a given
/// input, with fixed options; the result depends on the input characters
/// alone.
pub uninterp spec fn sanitized_of(s: Seq<char>) -> Seq<char>;

/// What `str::trim` returns: the input without leading and trailing
/// whitespace, a function of the input characters alone.
pub uninterp spec fn trimmed_of(s: Seq<char>) -> Seq<char>;

/// Relies on sanitize_filename::sanitize_with_options to strip characters
/// that are illegal in file names.  The options are pinned (no platform
/// dependence, empty replacement, length capped) so the result is a function
/// of the input characters alone.
#[verifier::external_body]
fn sanitize(s: &str) -> (r: String)
    ensures
        r@ == sanitized_of(s@),
{
    sanitize_filename::sanitize_with_options(
        s,
        sanitize_filename::Options { windows: false, truncate: true, replacement: "" },
    )
}

/// Relies on str::trim to drop leading and trailing whitespace; the result
/// is a function of the input characters alone.
#[verifier::external_body]
fn trim(s: &str) -> (r: &str)
    ensures
        r@ == trimmed_of(s@),
{
    s.trim()
}

/// The file name a downloaded track is stored under: the resolved title,
/// trimmed, sanitized for use as a file name, with the audio extension
/// appended.
pub fn mp3_filename(title: &str) -> (r: String)
    ensures
        r@ == sanitized_of(trimmed_of(title@)) + ".mp3"@,
{
    let t = trim(title);
    let s = sanitize(t);
    s.concat(".mp3")
}

/// The display name recorded in the queue for a downloaded track: the
/// resolved title, trimmed and sanitized the same way as the file name.
pub fn clean_title(title: &str) -> (r: String)
    ensures
        r@ == sanitized_of(trimmed_of(title@)),
{
    let t = trim(title);
    sanitize(t)
}

/// The watch URL for a video identifier.
pub fn watch_url(video_id: &str) -> (r: String)
    ensures
        r@ == "https://www.youtube.com/watch?v="@ + video_id@,
{
    let base = "https://www.youtube.com/watch?v=".to_owned();
    base.concat(video_id)
}

/// The fetch tool's search argument: `ytsearch<count>:<query>`.
pub fn search_query_arg(count: usize, query: &str) -> (r: String)
    ensures
        r@ == "ytsearch"@ + dec_str(count as int) + ":"@ + query@,
{
    let mut s = "ytsearch".to_owned();
    s.append(u64_to_string(count as u64).as_str());
    s.append(":");
    s.append(query);
    s
}

/// Maps a one-based result index, as the user types it, to the position in
/// the stored result list: index 1 (and, leniently, 0) selects the first
/// result, and anything past the end of the list is rejected.
pub fn select_search_result(available: usize, result_index: u16) -> (r: Option<usize>)
    ensures
        ({
            let sel: int = if result_index >= 1 {
                result_index - 1
            } else {
                0
            };
            if sel < available {
                r == Some(sel as usize)
            } else {
                r is None
            }
        }),
{
    let sel: usize = if result_index >= 1 {
        (result_index - 1) as usize
    } else {
        0
    };
    if sel < available {
        Some(sel)
    } else {
        None
    }
}

/// The identifiers of a search's results, in result order, as remembered for
/// a later download request.
pub fn video_ids(results: &Vec<Video>) -> (r: Vec<String>)
    ensures
        r@.len() == results@.len(),
        forall|i: int| 0 <= i < r@.len() ==> r@[i]@ == results@[i].id@,
{
    let n = results.len();
    let mut ids: Vec<String> = Vec::new();
    let mut k: usize = 0;
    while k < n
        invariant
            n == results@.len(),
            0 <= k <= n,
            ids@.len() == k,
            forall|i: int| 0 <= i < k ==> ids@[i]@ == results@[i].id@,
        decreases n - k,
    {
        ids.push(results[k].id.clone());
        k = k + 1;
    }
    ids
}

} // verus!

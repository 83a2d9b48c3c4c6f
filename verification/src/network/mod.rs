pub mod json;
pub mod status;

use vstd::prelude::*;

use crate::foundation::text::opt_view;

verus! {

/// A file to download: where from, where to, what it should hash to and weigh, and the label
/// its progress is shown under. Paths are text with `/` separators.
#[derive(Debug, Clone, PartialEq, Eq)]
pub struct DownloadItem {
    pub url: String,
    pub path: String,
    pub sha1: Option<String>,
    pub size: Option<u64>,
    pub executable: bool,
    pub label: String,
}

/// A download item's content, with its texts as character sequences.
pub struct DownloadModel {
    pub url: Seq<char>,
    pub path: Seq<char>,
    pub sha1: Option<Seq<char>>,
    pub size: Option<u64>,
    pub executable: bool,
    pub label: Seq<char>,
}

impl View for DownloadItem {
    type V = DownloadModel;

    open spec fn view(&self) -> DownloadModel {
        DownloadModel {
            url: self.url@,
            path: self.path@,
            sha1: opt_view(self.sha1),
            size: self.size,
            executable: self.executable,
            label: self.label@,
        }
    }
}

impl DownloadItem {
    /// A copy of the item.
    pub fn duplicate(&self) -> (r: Self)
        ensures
            r@ == self@,
    {
        DownloadItem {
            url: self.url.clone(),
            path: self.path.clone(),
            sha1: match &self.sha1 {
                Some(s) => Some(s.clone()),
                None => None,
            },
            size: self.size,
            executable: self.executable,
            label: self.label.clone(),
        }
    }
}

/// The contents of a list of download items.
pub open spec fn download_models(items: Seq<DownloadItem>) -> Seq<DownloadModel> {
    items.map_values(|i: DownloadItem| i@)
}

/// How far a set of downloads has come.
#[derive(Debug, Clone)]
pub struct Progress {
    pub downloaded: u64,
    pub total: u64,
    pub files_done: usize,
    pub files_total: usize,
    pub label: String,
}

/// An HTTP answer: its status and its body as text.
#[derive(Debug, Clone)]
pub struct Response {
    pub status: u16,
    pub body: String,
}

impl Response {
    /// Whether the status is a success (2xx).
    pub fn is_success(&self) -> (r: bool)
        ensures
            r == (200 <= self.status && self.status < 300),
    {
        200 <= self.status && self.status < 300
    }
}

/// How many times a download is tried before it fails.
pub const RETRY_ATTEMPTS: u32 = 3;

/// How many downloads run at once: the concurrency asked for, kept between 1 and 64.
pub fn download_workers(concurrency: usize) -> (r: usize)
    ensures
        r == (if concurrency < 1 {
            1
        } else if concurrency > 64 {
            64
        } else {
            concurrency
        }),
{
    if concurrency < 1 {
        1
    } else if concurrency > 64 {
        64
    } else {
        concurrency
    }
}

/// How long to wait after failed attempt number `attempt` (counted from 1) before the next
/// one, in milliseconds: 500 times the attempt number; none after the last attempt.
pub fn retry_delay_millis(attempt: u32) -> (r: Option<u64>)
    ensures
        attempt < RETRY_ATTEMPTS ==> r == Some((500 * attempt) as u64),
        attempt >= RETRY_ATTEMPTS ==> r is None,
{
    if attempt < RETRY_ATTEMPTS {
        Some(500 * attempt as u64)
    } else {
        None
    }
}

} // verus!

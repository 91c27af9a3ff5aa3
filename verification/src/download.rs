//! Where a downloaded file goes, and how its size is reported.
use vstd::prelude::*;

use crate::text::{last_piece, last_piece_text};

verus! {

/// The names that a download is reported and stored under.
#[derive(Debug, PartialEq, Eq)]
pub struct DownloadPlan {
    /// The last `/`-separated piece of the address.
    pub file_name: String,
    /// The last `.`-separated piece of the file name.
    pub file_type: String,
    /// The local path the file is written to: the folder followed by the file name.
    pub path: String,
}

/// Decides the file name, file type and local path of the download of `url`
/// into the folder `input_path`.
pub fn plan_download(url: &str, input_path: &str) -> (plan: DownloadPlan)
    ensures
        plan.file_name@ == last_piece(url@, '/'),
        plan.file_type@ == last_piece(plan.file_name@, '.'),
        plan.path@ == input_path@ + plan.file_name@,
{
    let file_name = last_piece_text(url, '/');
    let file_type = last_piece_text(file_name.as_str(), '.');
    let path = String::from_str(input_path).concat(file_name.as_str());
    DownloadPlan { file_name, file_type, path }
}

/// The size in whole mebibytes (rounded down) of a download of `byte_count` bytes.
pub fn size_in_megabytes(byte_count: usize) -> (megabytes: usize)
    ensures
        megabytes == byte_count / 1048576usize,
{
    byte_count / (1024 * 1024)
}

} // verus!

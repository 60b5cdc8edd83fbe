//! Where the downloader's result lands on disk: the local media path is
//! named deterministically from the produced file's video id and audio
//! codec.

use vstd::prelude::*;
use vstd::string::StringExecFns;

verus! {

/// The local path of a downloaded song: the file named by the video id and
/// audio codec under the downloads directory.
pub fn local_media_path(video_id: &str, acodec: &str) -> (path: String)
    ensures
        path@ == "downloads/"@ + video_id@ + "."@ + acodec@,
{
    let mut path: String = "downloads/".to_owned();
    path.append(video_id);
    path.append(".");
    path.append(acodec);
    path
}

} // verus!

//! What is known of the video tool on this machine.

use vstd::prelude::*;

verus! {

/// Whether the video tool was found, and if so where and which.
#[derive(Debug, Clone)]
pub struct FfmpegStatus {
    pub installed: bool,
    pub path: Option<String>,
    pub version: Option<String>,
}

pub struct FfmpegStatusView {
    pub installed: bool,
    pub path: Option<Seq<char>>,
    pub version: Option<Seq<char>>,
}

impl View for FfmpegStatus {
    type V = FfmpegStatusView;

    open spec fn view(&self) -> FfmpegStatusView {
        FfmpegStatusView {
            installed: self.installed,
            path: match self.path {
                Some(p) => Some(p@),
                None => None,
            },
            version: match self.version {
                Some(v) => Some(v@),
                None => None,
            },
        }
    }
}

impl FfmpegStatus {
    /// The status of a machine without the tool.
    pub fn missing() -> (r: FfmpegStatus)
        ensures
            r@ == (FfmpegStatusView { installed: false, path: None, version: None }),
    {
        FfmpegStatus { installed: false, path: None, version: None }
    }

    /// The status of a machine that has the tool at `path`, which reported
    /// `version`.
    pub fn found(path: &str, version: &str) -> (r: FfmpegStatus)
        ensures
            r@ == (FfmpegStatusView {
                installed: true,
                path: Some(path@),
                version: Some(version@),
            }),
    {
        FfmpegStatus {
            installed: true,
            path: Some(String::from_str(path)),
            version: Some(String::from_str(version)),
        }
    }
}

} // verus!

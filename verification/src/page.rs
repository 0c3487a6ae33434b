//! What the launcher's own pages have in common.
use crate::encoding::base64_len;
use vstd::prelude::*;

verus! {

/// The content type of every page.
pub const CONTENT_TYPE: &'static str = "text/html; charset=utf-8";

/// The files that are embedded in the pages.
pub struct PageAssets {
    /// The font, as TrueType.
    pub font: Vec<u8>,
    /// The background video, as MP4.
    pub video: Vec<u8>,
}

impl PageAssets {
    /// The files are small enough for their Base64 form to be a text.
    pub open spec fn encodable(&self) -> bool {
        base64_len(self.font@.len()) <= isize::MAX && base64_len(self.video@.len()) <= isize::MAX
    }
}

/// A page as it is handed to the webview.
#[derive(Debug)]
pub struct PageResponse {
    pub content_type: &'static str,
    pub body: String,
}

} // verus!

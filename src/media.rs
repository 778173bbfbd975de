//! Screenshots and images handed to the front end as data URLs.
use vstd::prelude::*;

use base64::Engine as _;

use crate::text::{ends_with_text, has_suffix, join2, join3};

verus! {

/// Standard base64 (RFC 4648 alphabet, `=` padding) of `b`.
pub uninterp spec fn base64_standard(b: Seq<u8>) -> Seq<char>;

/// Relies on `base64::engine::general_purpose::STANDARD.encode`: the padded
/// standard encoding, four characters for each started group of three
/// bytes. It panics only when that length overflows `usize`.
#[verifier::external_body]
fn encode_base64(data: &[u8]) -> (r: String)
    requires
        data@.len() <= usize::MAX / 2,
    ensures
        r@ == base64_standard(data@),
        r@.len() == 4 * ((data@.len() + 2) / 3),
{
    base64::engine::general_purpose::STANDARD.encode(data)
}

/// MIME type of an image, from its file name: JPEG for `.jpg` and `.jpeg`,
/// PNG otherwise.
pub open spec fn mime_spec(path: Seq<char>) -> Seq<char> {
    if has_suffix(path, ".png"@) {
        "image/png"@
    } else if has_suffix(path, ".jpg"@) || has_suffix(path, ".jpeg"@) {
        "image/jpeg"@
    } else {
        "image/png"@
    }
}

pub fn mime_type_for(path: &str) -> (r: &'static str)
    ensures
        r@ == mime_spec(path@),
{
    if ends_with_text(path, ".png") {
        "image/png"
    } else if ends_with_text(path, ".jpg") || ends_with_text(path, ".jpeg") {
        "image/jpeg"
    } else {
        "image/png"
    }
}

pub open spec fn data_url_spec(path: Seq<char>, encoded: Seq<char>) -> Seq<char> {
    "data:"@ + mime_spec(path) + ";base64,"@ + encoded
}

/// Data URL for an image named `path` whose bytes encode to `encoded`.
pub fn data_url(path: &str, encoded: &str) -> (r: String)
    ensures
        r@ == data_url_spec(path@, encoded@),
{
    let mut s = join3("data:", mime_type_for(path), ";base64,");
    s.append(encoded);
    s
}

/// Data URL holding the image bytes `data` read from `path`.
pub fn image_data_url(path: &str, data: &Vec<u8>) -> (r: String)
    requires
        data@.len() <= usize::MAX / 2,
    ensures
        r@ == data_url_spec(path@, base64_standard(data@)),
{
    let encoded = encode_base64(data.as_slice());
    data_url(path, encoded.as_str())
}

/// Message for an image that could not be read.
pub fn image_read_error(reason: &str) -> (r: String)
    ensures
        r@ == "Erreur de lecture: "@ + reason@,
{
    join2("Erreur de lecture: ", reason)
}

/// File name of a screenshot taken at `timestamp` (`YYYYMMDD_HHMMSS`).
pub fn screenshot_file_name(timestamp: &str) -> (r: String)
    ensures
        r@ == "screenshot_"@ + timestamp@ + ".png"@,
{
    join3("screenshot_", timestamp, ".png")
}

/// What the user is told after a capture: where it was saved, or why it
/// failed.
pub fn capture_report(result: &Result<String, String>) -> (r: String)
    ensures
        result matches Ok(p) ==> r@ == "Capture réussie: "@ + p@,
        result matches Err(e) ==> r@ == "Erreur de capture: "@ + e@,
{
    match result {
        Ok(p) => join2("Capture réussie: ", p.as_str()),
        Err(e) => join2("Erreur de capture: ", e.as_str()),
    }
}

/// Failures of a screen capture.
#[derive(Debug)]
pub enum CaptureError {
    ScreenshotFailed(String),
    ImageProcessingFailed(String),
    IoError(std::io::Error),
}

#[verifier::external_type_specification]
#[verifier::external_body]
pub struct ExIoError(std::io::Error);

/// Relies on `std::io::Error`'s `Display`, through `ToString`.
#[verifier::external_body]
fn io_error_text(e: &std::io::Error) -> (r: String) {
    e.to_string()
}

/// Text shown to the user for a capture error; an I/O error's text comes
/// from the operating system and is not known here.
pub open spec fn capture_error_text(e: CaptureError) -> Option<Seq<char>> {
    match e {
        CaptureError::ScreenshotFailed(m) => Some("Screenshot failed: "@ + m@),
        CaptureError::ImageProcessingFailed(m) => Some("Image processing failed: "@ + m@),
        CaptureError::IoError(_) => None,
    }
}

impl CaptureError {
    /// Text shown to the user.
    pub fn message(&self) -> (r: String)
        ensures
            capture_error_text(*self) matches Some(t) ==> r@ == t,
            self is IoError ==> r@.len() >= "File I/O error: "@.len() && r@.subrange(
                0,
                "File I/O error: "@.len() as int,
            ) == "File I/O error: "@,
    {
        match self {
            CaptureError::ScreenshotFailed(m) => join2("Screenshot failed: ", m.as_str()),
            CaptureError::ImageProcessingFailed(m) => join2("Image processing failed: ", m.as_str()),
            CaptureError::IoError(e) => {
                let t = io_error_text(e);
                let r = join2("File I/O error: ", t.as_str());
                assert(r@.subrange(0, "File I/O error: "@.len() as int) =~= "File I/O error: "@);
                r
            },
        }
    }
}

} // verus!

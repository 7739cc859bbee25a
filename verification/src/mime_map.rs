//! Content-type lookup: a fixed table from file extension to MIME type,
//! and the extension allowlist of the local directory scanner.

use vstd::prelude::*;
use crate::text::{str_eq, eq_ignore_ascii_case, spec_eq_ignore_ascii_case};

verus! {

/// The MIME type the engine sends for a file with the given extension.
/// Unrecognized or absent extensions fall back to a generic binary type.
pub open spec fn spec_mime_for(ext: Option<Seq<char>>) -> Seq<char> {
    match ext {
        None => "application/octet-stream"@,
        Some(e) => if e == "pdf"@ {
            "application/pdf"@
        } else if e == "doc"@ {
            "application/msword"@
        } else if e == "docx"@ {
            "application/vnd.openxmlformats-officedocument.wordprocessingml.document"@
        } else if e == "xls"@ {
            "application/vnd.ms-excel"@
        } else if e == "xlsx"@ {
            "application/vnd.openxmlformats-officedocument.spreadsheetml.sheet"@
        } else if e == "ppt"@ {
            "application/vnd.ms-powerpoint"@
        } else if e == "pptx"@ {
            "application/vnd.openxmlformats-officedocument.presentationml.presentation"@
        } else if e == "txt"@ {
            "text/plain"@
        } else if e == "jpg"@ || e == "jpeg"@ {
            "image/jpeg"@
        } else if e == "png"@ {
            "image/png"@
        } else if e == "gif"@ {
            "image/gif"@
        } else if e == "mp4"@ {
            "video/mp4"@
        } else if e == "mp3"@ {
            "audio/mpeg"@
        } else if e == "zip"@ {
            "application/zip"@
        } else {
            "application/octet-stream"@
        },
    }
}

/// Fixed lookup from file extension to MIME type; the match is exact
/// (case-sensitive), and anything unrecognized maps to the generic
/// binary type.
pub fn get_mime_type(extension: Option<&str>) -> (r: &'static str)
    ensures
        r@ == spec_mime_for(
            match extension {
                Some(e) => Some(e@),
                None => None,
            },
        ),
{
    match extension {
        None => "application/octet-stream",
        Some(e) => if str_eq(e, "pdf") {
            "application/pdf"
        } else if str_eq(e, "doc") {
            "application/msword"
        } else if str_eq(e, "docx") {
            "application/vnd.openxmlformats-officedocument.wordprocessingml.document"
        } else if str_eq(e, "xls") {
            "application/vnd.ms-excel"
        } else if str_eq(e, "xlsx") {
            "application/vnd.openxmlformats-officedocument.spreadsheetml.sheet"
        } else if str_eq(e, "ppt") {
            "application/vnd.ms-powerpoint"
        } else if str_eq(e, "pptx") {
            "application/vnd.openxmlformats-officedocument.presentationml.presentation"
        } else if str_eq(e, "txt") {
            "text/plain"
        } else if str_eq(e, "jpg") || str_eq(e, "jpeg") {
            "image/jpeg"
        } else if str_eq(e, "png") {
            "image/png"
        } else if str_eq(e, "gif") {
            "image/gif"
        } else if str_eq(e, "mp4") {
            "video/mp4"
        } else if str_eq(e, "mp3") {
            "audio/mpeg"
        } else if str_eq(e, "zip") {
            "application/zip"
        } else {
            "application/octet-stream"
        },
    }
}

/// The scanner's allowlist: document, spreadsheet, presentation,
/// plain-text, common image/audio/video, and archive extensions,
/// matched up to ASCII letter case.
pub open spec fn spec_supported_extension(e: Seq<char>) -> bool {
    ||| spec_eq_ignore_ascii_case(e, "pdf"@)
    ||| spec_eq_ignore_ascii_case(e, "doc"@)
    ||| spec_eq_ignore_ascii_case(e, "docx"@)
    ||| spec_eq_ignore_ascii_case(e, "xls"@)
    ||| spec_eq_ignore_ascii_case(e, "xlsx"@)
    ||| spec_eq_ignore_ascii_case(e, "ppt"@)
    ||| spec_eq_ignore_ascii_case(e, "pptx"@)
    ||| spec_eq_ignore_ascii_case(e, "txt"@)
    ||| spec_eq_ignore_ascii_case(e, "jpg"@)
    ||| spec_eq_ignore_ascii_case(e, "jpeg"@)
    ||| spec_eq_ignore_ascii_case(e, "png"@)
    ||| spec_eq_ignore_ascii_case(e, "gif"@)
    ||| spec_eq_ignore_ascii_case(e, "mp4"@)
    ||| spec_eq_ignore_ascii_case(e, "mp3"@)
    ||| spec_eq_ignore_ascii_case(e, "zip"@)
}

/// Whether a file with this extension is taken up by the scanner.
pub fn is_supported_extension(ext: &str) -> (r: bool)
    ensures
        r == spec_supported_extension(ext@),
{
    eq_ignore_ascii_case(ext, "pdf") || eq_ignore_ascii_case(ext, "doc")
        || eq_ignore_ascii_case(ext, "docx") || eq_ignore_ascii_case(ext, "xls")
        || eq_ignore_ascii_case(ext, "xlsx") || eq_ignore_ascii_case(ext, "ppt")
        || eq_ignore_ascii_case(ext, "pptx") || eq_ignore_ascii_case(ext, "txt")
        || eq_ignore_ascii_case(ext, "jpg") || eq_ignore_ascii_case(ext, "jpeg")
        || eq_ignore_ascii_case(ext, "png") || eq_ignore_ascii_case(ext, "gif")
        || eq_ignore_ascii_case(ext, "mp4") || eq_ignore_ascii_case(ext, "mp3")
        || eq_ignore_ascii_case(ext, "zip")
}

} // verus!

//! Checks and messages around serving downloaded files and listing formats.
use vstd::prelude::*;
use vstd::string::*;
use crate::error::AppError;
use crate::models::FormatRequest;

verus! {

/// The text that percent-decoding `s` gives, with invalid UTF-8 replaced.
pub uninterp spec fn percent_decoded(s: Seq<char>) -> Seq<char>;

/// Relies on percent_encoding::percent_decode_str followed by
/// `decode_utf8_lossy`: the decoded text depends on the input alone.
#[verifier::external_body]
fn percent_decode(s: &str) -> (r: String)
    ensures
        r@ == percent_decoded(s@),
{
    percent_encoding::percent_decode_str(s).decode_utf8_lossy().into_owned()
}

/// The file path that a request names, percent-decoded.
pub fn decode_file_path(path: &str) -> (r: String)
    ensures
        r@ == percent_decoded(path@),
{
    percent_decode(path)
}

/// The error for a requested file that does not exist.
pub fn missing_file(name: &str) -> (r: AppError)
    ensures
        r matches AppError::NotFound(m) && m@ == "File '"@ + name@ + "' not found."@,
{
    AppError::NotFound(String::from_str("File '").concat(name).concat("' not found."))
}

/// The error for a requested path that leaves the download directory.
pub fn outside_download_dir() -> (r: AppError)
    ensures
        r matches AppError::NotFound(m) && m@ == "File not found (Path Traversal Attempt)"@,
{
    AppError::NotFound(String::from_str("File not found (Path Traversal Attempt)"))
}

/// The `Content-Disposition` value that offers `file_name` as a download.
pub fn attachment_disposition(file_name: &str) -> (r: String)
    ensures
        r@ == "attachment; filename=\""@ + file_name@ + "\""@,
{
    String::from_str("attachment; filename=\"").concat(file_name).concat("\"")
}

/// A formats query needs a URL.
pub fn check_format_request(req: &FormatRequest) -> (r: Result<(), AppError>)
    ensures
        req.url@.len() == 0 ==> (r matches Err(AppError::BadRequest(m)) && m@
            == "URL parameter cannot be empty"@),
        req.url@.len() != 0 ==> r is Ok,
{
    if req.url.as_str().unicode_len() == 0 {
        Err(AppError::BadRequest(String::from_str("URL parameter cannot be empty")))
    } else {
        Ok(())
    }
}

} // verus!

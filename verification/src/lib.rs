//! A small library behind a URL-downloading command-line tool: filename
//! derivation from a URL, output-path joining, HTTP status classification,
//! streaming-progress accounting, descriptor-file content, executable
//! search-path candidates, and styled message lines.

pub mod descriptor;
pub mod filename;
pub mod progress;
pub mod stamp;
pub mod style;
pub mod text;
pub mod tool;

use vstd::prelude::*;

verus! {

/// The errors the main flow can abort with.
#[derive(Clone, Copy, Debug, PartialEq, Eq, Structural)]
pub enum DownloadError {
    /// The URL could not be parsed.
    InvalidUrl,
    /// The HTTP response carried a non-success status code.
    HttpStatus(u16),
    /// A transport-level failure during the request or mid-stream.
    Network,
    /// A filesystem failure: directory creation, write, flush, canonicalize.
    Io,
}

/// Classifies an HTTP status code: success is exactly the 2xx range.
pub fn check_status(code: u16) -> (r: Result<(), DownloadError>)
    ensures
        r is Ok <==> 200 <= code < 300,
        r is Err ==> r->Err_0 == DownloadError::HttpStatus(code),
{
    if 200 <= code && code < 300 {
        Ok(())
    } else {
        Err(DownloadError::HttpStatus(code))
    }
}

} // verus!

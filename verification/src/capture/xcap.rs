//! Failures reported by the `xcap` capture backend (Linux/macOS).
use vstd::prelude::*;

verus! {

/// Why an `xcap` capture failed.
#[derive(Debug, Clone)]
pub enum XCapError {
    Timeout,
    NoMonitors,
    Other(String),
}

/// The text of an `xcap` error.
pub open spec fn xcap_error_text(e: XCapError) -> Seq<char> {
    match e {
        XCapError::Timeout => "xcap timeout"@,
        XCapError::NoMonitors => "no monitors found"@,
        XCapError::Other(msg) => "xcap: "@ + msg@,
    }
}

impl XCapError {
    /// Human-readable message, e.g. "xcap: capture_image failed".
    pub fn message(&self) -> (s: String)
        ensures
            s@ == xcap_error_text(*self),
    {
        match self {
            XCapError::Timeout => String::from_str("xcap timeout"),
            XCapError::NoMonitors => String::from_str("no monitors found"),
            XCapError::Other(msg) => {
                let mut s = String::from_str("xcap: ");
                s.append(msg.as_str());
                s
            },
        }
    }
}

} // verus!

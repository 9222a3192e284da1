//! Failures reported by the `screenshots` capture backend (Windows).
use vstd::prelude::*;

verus! {

/// Why a `screenshots` capture failed.
#[derive(Debug, Clone)]
pub enum ScreenError {
    NoScreens,
    Other(String),
}

/// The text of a `screenshots` error.
pub open spec fn screen_error_text(e: ScreenError) -> Seq<char> {
    match e {
        ScreenError::NoScreens => "no screens found"@,
        ScreenError::Other(msg) => "capture failed: "@ + msg@,
    }
}

impl ScreenError {
    /// Human-readable message, e.g. "no screens found".
    pub fn message(&self) -> (s: String)
        ensures
            s@ == screen_error_text(*self),
    {
        match self {
            ScreenError::NoScreens => String::from_str("no screens found"),
            ScreenError::Other(msg) => {
                let mut s = String::from_str("capture failed: ");
                s.append(msg.as_str());
                s
            },
        }
    }
}

} // verus!

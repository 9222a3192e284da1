//! Screen-capture values and decisions.
//!
//! The capture backends (desktop duplication on Windows, `xcap` elsewhere)
//! are platform I/O at the edge of the program. They hand over RGBA pixel
//! data and error reports; this module turns those into a BGRA
//! [`CapturedFrame`] and a typed [`CaptureError`].
pub mod sampler;
pub mod screenshots_win;
pub mod xcap;

use vstd::prelude::*;

use crate::text::{contains_text, text_contains};
use xcap::XCapError;

verus! {

/// A captured frame: BGRA, 4 bytes per pixel, rows `stride` bytes apart.
#[derive(Debug, Clone)]
pub struct CapturedFrame {
    pub width: u32,
    pub height: u32,
    pub stride: u32,
    pub data: Vec<u8>,
}

/// Why a frame could not be captured.
#[derive(Debug)]
pub enum CaptureError {
    Unsupported,
    DxgiLost,
    Timeout,
    Other(String),
}

/// The text of a capture error.
pub open spec fn capture_error_text(e: CaptureError) -> Seq<char> {
    match e {
        CaptureError::Unsupported => "screen capture not supported on this platform"@,
        CaptureError::DxgiLost => "DXGI session lost — recreate capture"@,
        CaptureError::Timeout => "capture timed out — no new frame"@,
        CaptureError::Other(msg) => "capture failed: "@ + msg@,
    }
}

/// How a backend failure message is classified: a message mentioning a
/// timeout means no new frame yet; one mentioning the session or a loss
/// means the duplication must be recreated; anything else is passed on.
pub open spec fn classified(e: CaptureError, msg: Seq<char>) -> bool {
    if contains_text(msg, "timeout"@) {
        e is Timeout
    } else if contains_text(msg, "session"@) || contains_text(msg, "lost"@) {
        e is DxgiLost
    } else {
        e matches CaptureError::Other(m) && m@ == msg
    }
}

/// A failure message mentioning "timeout" means no new frame yet; one that
/// does not but mentions "session" or "lost" means the duplication was
/// lost; any other message is passed on unchanged.
pub proof fn law_backend_failures_classified(e: CaptureError, msg: Seq<char>)
    requires
        classified(e, msg),
    ensures
        contains_text(msg, "timeout"@) ==> e is Timeout,
        !contains_text(msg, "timeout"@) && (contains_text(msg, "session"@) || contains_text(
            msg,
            "lost"@,
        )) ==> e is DxgiLost,
        !contains_text(msg, "timeout"@) && !contains_text(msg, "session"@) && !contains_text(
            msg,
            "lost"@,
        ) ==> (e matches CaptureError::Other(m) && m@ == msg),
{
}

/// The message of a passed-on failure ends with the backend's own text,
/// after the "capture failed: " prefix.
pub proof fn law_other_failure_keeps_text(msg: String)
    ensures
        ({
            let t = capture_error_text(CaptureError::Other(msg));
            &&& t.len() == 16 + msg@.len()
            &&& t.subrange(0, 16) == "capture failed: "@
            &&& t.subrange(16, t.len() as int) == msg@
        }),
{
    reveal_strlit("capture failed: ");
    let t = capture_error_text(CaptureError::Other(msg));
    assert(t.subrange(0, 16) =~= "capture failed: "@);
    assert(t.subrange(16, t.len() as int) =~= msg@);
}

impl CaptureError {
    /// Human-readable message, e.g. "capture timed out — no new frame".
    pub fn message(&self) -> (s: String)
        ensures
            s@ == capture_error_text(*self),
    {
        match self {
            CaptureError::Unsupported => String::from_str(
                "screen capture not supported on this platform",
            ),
            CaptureError::DxgiLost => String::from_str("DXGI session lost — recreate capture"),
            CaptureError::Timeout => String::from_str("capture timed out — no new frame"),
            CaptureError::Other(msg) => {
                let mut s = String::from_str("capture failed: ");
                s.append(msg.as_str());
                s
            },
        }
    }

    /// Classify the failure message of the desktop-duplication backend.
    pub fn from_backend_message(msg: &str) -> (e: CaptureError)
        ensures
            classified(e, msg@),
    {
        if text_contains(msg, "timeout") {
            CaptureError::Timeout
        } else if text_contains(msg, "session") || text_contains(msg, "lost") {
            CaptureError::DxgiLost
        } else {
            CaptureError::Other(msg.to_owned())
        }
    }

    /// Map an `xcap` backend failure: a timeout stays a timeout, anything
    /// else is passed on with its message.
    pub fn from_xcap(e: XCapError) -> (r: CaptureError)
        ensures
            e is Timeout ==> r is Timeout,
            !(e is Timeout) ==> (r matches CaptureError::Other(m) && m@ == xcap::xcap_error_text(
                e,
            )),
    {
        match e {
            XCapError::Timeout => CaptureError::Timeout,
            other => CaptureError::Other(other.message()),
        }
    }
}

/// Byte `k` of `s` after swapping the first and third byte of every full
/// four-byte pixel (RGBA <-> BGRA); a trailing partial pixel is untouched.
pub open spec fn swapped_byte(s: Seq<u8>, k: int) -> u8 {
    let full = s.len() - s.len() % 4;
    if k < full && k % 4 == 0 {
        s[k + 2]
    } else if k < full && k % 4 == 2 {
        s[k - 2]
    } else {
        s[k]
    }
}

/// `s` with red and blue swapped in every full pixel.
pub open spec fn swap_red_blue(s: Seq<u8>) -> Seq<u8> {
    Seq::new(s.len(), |k: int| swapped_byte(s, k))
}

/// Red and blue swapped in every full pixel, stated pixel by pixel: for each
/// of the `len / 4` full pixels the first and third bytes trade places and
/// the second and fourth stay; the bytes of a trailing partial pixel stay.
pub open spec fn pixels_swapped(input: Seq<u8>, output: Seq<u8>) -> bool {
    &&& output.len() == input.len()
    &&& forall|k: int|
        0 <= k && 4 * k + 4 <= input.len() ==> {
            &&& #[trigger] output[4 * k] == input[4 * k + 2]
            &&& output[4 * k + 1] == input[4 * k + 1]
            &&& output[4 * k + 2] == input[4 * k]
            &&& output[4 * k + 3] == input[4 * k + 3]
        }
    &&& forall|i: int| 4 * (input.len() / 4) <= i < input.len() ==> #[trigger] output[i] == input[i]
}

/// Every full pixel of `s` has its red and blue bytes exchanged by
/// `swap_red_blue`, and nothing else changes.
pub proof fn law_swap_red_blue_per_pixel(s: Seq<u8>)
    ensures
        pixels_swapped(s, swap_red_blue(s)),
{
    let t = swap_red_blue(s);
    let n = s.len() as int;
    let full = n - n % 4;
    assert(full == 4 * (n / 4)) by {
        vstd::arithmetic::div_mod::lemma_fundamental_div_mod(n, 4);
    }
    assert forall|k: int| 0 <= k && 4 * k + 4 <= n implies {
        &&& #[trigger] t[4 * k] == s[4 * k + 2]
        &&& t[4 * k + 1] == s[4 * k + 1]
        &&& t[4 * k + 2] == s[4 * k]
        &&& t[4 * k + 3] == s[4 * k + 3]
    } by {
        assert(4 * k + 4 <= full) by {
            vstd::arithmetic::div_mod::lemma_fundamental_div_mod(n, 4);
            assert(k + 1 <= n / 4) by (nonlinear_arith)
                requires
                    4 * k + 4 <= n,
                    n == 4 * (n / 4) + n % 4,
                    0 <= n % 4 < 4,
            ;
        }
        assert((4 * k) % 4 == 0);
        assert((4 * k + 1) % 4 == 1);
        assert((4 * k + 2) % 4 == 2);
        assert((4 * k + 3) % 4 == 3);
    }
}

/// Swap red and blue in every full four-byte pixel, in place.
pub fn swap_red_blue_in_place(data: &mut Vec<u8>)
    ensures
        final(data)@ == swap_red_blue(old(data)@),
        pixels_swapped(old(data)@, final(data)@),
{
    proof {
        law_swap_red_blue_per_pixel(data@);
    }
    let ghost orig = data@;
    let n = data.len();
    let full = n - n % 4;
    let mut i: usize = 0;
    while i < full
        invariant
            orig == old(data)@,
            n == orig.len(),
            data@.len() == n,
            full == n - n % 4,
            i % 4 == 0,
            i <= full,
            forall|k: int| 0 <= k < i ==> data@[k] == swapped_byte(orig, k),
            forall|k: int| i <= k < n ==> data@[k] == orig[k],
        decreases n - i,
    {
        assert(i + 4 <= full);
        let b0 = data[i];
        let b2 = data[i + 2];
        data.set(i, b2);
        data.set(i + 2, b0);
        assert((i + 1) % 4 == 1 && (i + 2) % 4 == 2 && (i + 3) % 4 == 3 && (i + 4) % 4 == 0);
        i = i + 4;
    }
    assert(i == full);
    assert(data@ =~= swap_red_blue(orig));
}

impl CapturedFrame {
    /// A frame from RGBA pixel data of the given size: red and blue are
    /// swapped in every pixel to give BGRA, rows are `4 * width` bytes.
    pub fn from_rgba(width: u32, height: u32, rgba: Vec<u8>) -> (f: CapturedFrame)
        requires
            4 * width <= u32::MAX,
        ensures
            f.width == width,
            f.height == height,
            f.stride == 4 * width,
            f.data@ == swap_red_blue(rgba@),
            pixels_swapped(rgba@, f.data@),
    {
        let mut bgra = rgba;
        swap_red_blue_in_place(&mut bgra);
        CapturedFrame { width, height, stride: width * 4, data: bgra }
    }
}

/// Swapping red and blue twice gives back the input bytes, so the same
/// conversion turns BGRA back into RGBA.
pub proof fn law_swap_red_blue_involution(s: Seq<u8>)
    ensures
        swap_red_blue(swap_red_blue(s)) == s,
{
    let t = swap_red_blue(s);
    assert(t.len() == s.len());
    assert forall|k: int| 0 <= k < s.len() implies swap_red_blue(t)[k] == s[k] by {
        let full = s.len() - s.len() % 4;
        if k < full && k % 4 == 0 {
            assert((k + 2) % 4 == 2 && k + 2 < full);
        } else if k < full && k % 4 == 2 {
            assert((k - 2) % 4 == 0 && k - 2 >= 0);
        }
    }
    assert(swap_red_blue(t) =~= s);
}

} // verus!

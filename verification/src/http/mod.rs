//! LAN HTTP control server: request authorization.
//!
//! Off by default. When enabled in settings, a tiny JSON API is exposed on
//! `http://<lan-ip>:<port>/api/*`, guarded by a bearer token so that a
//! phone on the same Wi-Fi can drive the lights. Serving is done at the
//! edge of the program; whether a request may pass is decided here.
use vstd::prelude::*;

verus! {

/// A request is authorized exactly when its `authorization` header reads
/// `Bearer <token>`.
pub open spec fn authorized(header: Option<Seq<char>>, token: Seq<char>) -> bool {
    header == Some("Bearer "@ + token)
}

/// A request passes exactly when it carries the header `Bearer <token>`:
/// no header, or any other text, is refused.
pub proof fn law_only_the_bearer_header_passes(header: Option<Seq<char>>, token: Seq<char>)
    ensures
        header is None ==> !authorized(header, token),
        authorized(header, token) <==> (header is Some && header->0 == "Bearer "@ + token),
{
}

/// Whether a request with the given `authorization` header value (if it
/// has one that is valid text) may pass.
pub fn is_authorized(header: Option<&str>, token: &str) -> (ok: bool)
    ensures
        ok == authorized(
            match header {
                Some(h) => Some(h@),
                None => None,
            },
            token@,
        ),
{
    match header {
        Some(h) => {
            let mut expected = String::from_str("Bearer ");
            expected.append(token);
            crate::text::text_eq(h, expected.as_str())
        },
        None => false,
    }
}

} // verus!

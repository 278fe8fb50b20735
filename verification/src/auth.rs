//! Bearer-token authentication of HTTP requests.
use subtle::ConstantTimeEq;
use vstd::prelude::*;

use crate::text::{has_prefix, starts_with, str_eq, strip_prefix};

verus! {

/// Paths served without a token: the health check and the Swagger UI pages.
pub open spec fn is_public_path(path: Seq<char>) -> bool {
    path == "/healthz"@ || has_prefix(path, "/swagger-ui"@)
}

/// Whether a request may go through: always when no token is configured or
/// the path is public; otherwise only with an `Authorization` header that is
/// exactly `Bearer ` followed by the token.
pub open spec fn request_passes(
    token: Option<Seq<char>>,
    path: Seq<char>,
    authorization: Option<Seq<char>>,
) -> bool {
    match token {
        None => true,
        Some(t) => is_public_path(path) || (authorization matches Some(h) && h == "Bearer "@ + t),
    }
}

/// Compares two tokens in time independent of their contents.
///
/// Calls `subtle`'s `ConstantTimeEq::ct_eq` on the two byte slices, which
/// yields 1 exactly when the slices have the same length and the same bytes;
/// UTF-8 text has the same bytes exactly when it has the same characters.
#[verifier::external_body]
fn tokens_match(expected: &str, provided: &str) -> (r: bool)
    ensures
        r == (expected@ == provided@),
{
    bool::from(expected.as_bytes().ct_eq(provided.as_bytes()))
}

/// The authentication decision for a request to `path` carrying the given
/// `Authorization` header text (`None` when absent or not text).
pub fn is_authorized(token: &Option<String>, path: &str, authorization: Option<&str>) -> (r: bool)
    ensures
        r == request_passes(
            match token {
                Some(t) => Some(t@),
                None => None,
            },
            path@,
            match authorization {
                Some(h) => Some(h@),
                None => None,
            },
        ),
{
    proof {
        reveal_strlit("Bearer ");
    }
    let expected = match token {
        Some(t) => t,
        None => return true,
    };
    let skip = str_eq(path, "/healthz") || starts_with(path, "/swagger-ui");
    if skip {
        return true;
    }
    match authorization {
        Some(h) => match strip_prefix(h, "Bearer ") {
            Some(provided) => {
                let ok = tokens_match(expected.as_str(), provided);
                proof {
                    assert(h@ =~= "Bearer "@ + provided@) by {
                        assert(h@.subrange(0, 7) =~= "Bearer "@);
                    }
                    if h@ == "Bearer "@ + expected@ {
                        assert(provided@ =~= expected@);
                    }
                }
                ok
            },
            None => {
                proof {
                    if h@ == "Bearer "@ + expected@ {
                        assert(h@.subrange(0, 7) =~= "Bearer "@);
                    }
                }
                false
            },
        },
        None => false,
    }
}

} // verus!

//! Bearer-token authentication of network clients.
use vstd::prelude::*;
use vstd::string::StrSliceExecFns;
use crate::utils::text::{has_prefix, starts_with, str_eq, trim, trimmed};

verus! {

/// The scheme prefix of an `Authorization` header value.
pub open spec fn bearer_prefix() -> Seq<char> {
    "Bearer "@
}

/// The characters of an optional string slice.
pub open spec fn opt_str_view(s: Option<&str>) -> Option<Seq<char>> {
    match s {
        Some(x) => Some(x@),
        None => None,
    }
}

/// Whether a request with the header value `header` is authenticated against the configured
/// token `expected`: an empty configured token admits every request; otherwise the header must
/// start with `Bearer ` and the rest, trimmed, must equal the configured token, trimmed.
pub open spec fn token_accepted(header: Option<Seq<char>>, expected: Seq<char>) -> bool {
    expected.len() == 0 || match header {
        Some(h) => has_prefix(h, bearer_prefix()) && trimmed(
            h.subrange(bearer_prefix().len() as int, h.len() as int),
        ) == trimmed(expected),
        None => false,
    }
}

pub fn validate_bearer_token(auth_header: Option<&str>, expected_token: &str) -> (r: bool)
    ensures
        r == token_accepted(opt_str_view(auth_header), expected_token@),
{
    if expected_token.is_empty() {
        return true;
    }
    match auth_header {
        Some(header) => {
            if starts_with(header, "Bearer ") {
                let p = "Bearer ".unicode_len();
                let n = header.unicode_len();
                let token = header.substring_char(p, n);
                str_eq(trim(token), trim(expected_token))
            } else {
                false
            }
        },
        None => false,
    }
}

/// With no token configured, every request is authenticated.
pub proof fn law_empty_token_admits_all(header: Option<Seq<char>>)
    ensures
        token_accepted(header, Seq::empty()),
{
}

/// With a token configured, a request without an `Authorization` header is refused.
pub proof fn law_missing_header_refused(expected: Seq<char>)
    requires
        expected.len() > 0,
    ensures
        !token_accepted(None, expected),
{
}

/// With a token configured, a header that does not start with `Bearer ` is refused.
pub proof fn law_bearer_scheme_required(header: Seq<char>, expected: Seq<char>)
    requires
        expected.len() > 0,
        !has_prefix(header, bearer_prefix()),
    ensures
        !token_accepted(Some(header), expected),
{
}

/// The header `Bearer <token>` built from the configured token is always accepted.
pub proof fn law_own_token_accepted(expected: Seq<char>)
    ensures
        token_accepted(Some(bearer_prefix() + expected), expected),
{
    let h = bearer_prefix() + expected;
    assert(h.subrange(0, bearer_prefix().len() as int) =~= bearer_prefix());
    assert(h.subrange(bearer_prefix().len() as int, h.len() as int) =~= expected);
}

/// With a token configured, `Bearer <token>` with any other token (spaces around either
/// aside) is refused: a prefix, an extension or a near miss of the token does not pass.
pub proof fn law_other_token_refused(expected: Seq<char>, token: Seq<char>)
    requires
        expected.len() > 0,
        trimmed(token) != trimmed(expected),
    ensures
        !token_accepted(Some(bearer_prefix() + token), expected),
{
    let h = bearer_prefix() + token;
    assert(h.subrange(bearer_prefix().len() as int, h.len() as int) =~= token);
}

} // verus!

//! Token check of the tunnel's landing listener: a Bearer token guards the
//! control plane; `/cdp/` paths are exempt (the session key in the URL is
//! their credential, checked by the proxy route).
use vstd::prelude::*;
use vstd::string::StringExecFns;
use crate::server::error::{is_business, AppError};
use crate::text::{chars_of, starts_with, starts_with_str};

verus! {

/// Byte comparison in time independent of where the bytes differ: lengths
/// are compared first (a length is not secret), then every byte pair
/// contributes to one accumulated difference.
pub fn constant_time_eq(a: &[u8], b: &[u8]) -> (r: bool)
    ensures
        r == (a@ == b@),
{
    if a.len() != b.len() {
        return false;
    }
    let mut diff: u8 = 0;
    let mut i: usize = 0;
    while i < a.len()
        invariant
            a.len() == b.len(),
            0 <= i <= a.len(),
            (diff == 0) == (forall|j: int| 0 <= j < i ==> a@[j] == b@[j]),
        decreases a.len() - i,
    {
        let x = a[i];
        let y = b[i];
        let old_diff = diff;
        diff = diff | (x ^ y);
        assert((diff == 0) == (old_diff == 0 && x == y)) by (bit_vector)
            requires
                diff == old_diff | (x ^ y),
        ;
        i = i + 1;
    }
    proof {
        if diff == 0 {
            assert(a@ =~= b@);
        }
    }
    diff == 0
}

/// The path prefix exempt from the Bearer check.
pub const SESSION_PATH_PREFIX: &'static str = "/cdp/";

/// The token presented in an `Authorization` header: what follows
/// `Bearer `, or nothing.
pub open spec fn presented_token(authorization: Option<Seq<char>>) -> Seq<char> {
    match authorization {
        Some(h) => if starts_with(h, "Bearer "@) {
            h.skip(7)
        } else {
            Seq::empty()
        },
        None => Seq::empty(),
    }
}

/// A request passes when its path is a session path, or when a token is
/// configured and presented exactly.
pub open spec fn authorized(path: Seq<char>, authorization: Option<Seq<char>>, expected: Seq<char>) -> bool {
    starts_with(path, "/cdp/"@) || (expected.len() > 0 && presented_token(authorization)
        == expected)
}

/// The check of one request: `Ok` to go on, else `401 UNAUTHORIZED`.
/// `authorization` is the header value when it is visible ASCII text.
pub fn require_token(path: &str, authorization: Option<&str>, expected: &str) -> (r: Result<(), AppError>)
    ensures
        authorized(
            path@,
            match authorization {
                Some(h) => Some(h@),
                None => None,
            },
            expected@,
        ) <==> r is Ok,
        r matches Err(e) ==> is_business(
            e,
            401,
            "UNAUTHORIZED"@,
            "远程访问缺少令牌或令牌不正确（Authorization: Bearer <token>）"@,
        ),
{
    let p = chars_of(path);
    if starts_with_str(&p, SESSION_PATH_PREFIX) {
        return Ok(());
    }
    let presented: Vec<char> = match authorization {
        Some(h) => {
            let hc = chars_of(h);
            if starts_with_str(&hc, "Bearer ") {
                proof {
                    reveal_strlit("Bearer ");
                }
                crate::text::sub_chars(&hc, 7, hc.len())
            } else {
                Vec::new()
            }
        },
        None => Vec::new(),
    };
    proof {
        reveal_strlit("Bearer ");
        if let Some(h) = authorization {
            if starts_with(h@, "Bearer "@) {
                assert(presented@ =~= h@.skip(7));
            }
        }
    }
    let e = chars_of(expected);
    if e.len() == 0 || !crate::text::chars_eq(&presented, &e) {
        return Err(
            AppError::business(
                401,
                "UNAUTHORIZED",
                String::from_str("远程访问缺少令牌或令牌不正确（Authorization: Bearer <token>）"),
            ),
        );
    }
    Ok(())
}

} // verus!

//! XSRF token extraction from a response's cookies.
//!
//! The transport layer hands over the cookies as plain name/value pairs; the
//! token is the percent-decoded value of the first cookie named `XSRF-TOKEN`.

use vstd::prelude::*;

use crate::error::{Error, ErrorKind};

verus! {

/// What `urlencoding::decode` returns on a string whose decoded bytes are
/// valid UTF-8: a function of the input characters alone.
pub uninterp spec fn url_decoded(s: Seq<char>) -> Seq<char>;

/// Relies on `urlencoding::decode`: percent-decodes the input, a pure
/// function of it; returns nothing when the decoded bytes are not valid
/// UTF-8.
#[verifier::external_body]
fn url_decode(s: &str) -> (r: Option<String>)
    ensures
        r is Some ==> r->Some_0@ == url_decoded(s@),
{
    match urlencoding::decode(s) {
        Ok(cow) => Some(cow.into_owned()),
        Err(_) => None,
    }
}

/// Some cookie carries the XSRF token name.
pub open spec fn spec_has_xsrf_cookie(cookies: Seq<(String, String)>) -> bool {
    exists|i: int| 0 <= i < cookies.len() && (#[trigger] cookies[i]).0@ == "XSRF-TOKEN"@
}

/// The cookie at `i` is the first one carrying the XSRF token name.
pub open spec fn first_xsrf_index(cookies: Seq<(String, String)>, i: int) -> bool {
    &&& 0 <= i < cookies.len()
    &&& cookies[i].0@ == "XSRF-TOKEN"@
    &&& forall|j: int| 0 <= j < i ==> (#[trigger] cookies[j]).0@ != "XSRF-TOKEN"@
}

/// Extracts the XSRF token from a response's cookies: the percent-decoded
/// value of the first cookie named `XSRF-TOKEN`. Fails with
/// [`ErrorKind::InvalidXsrfToken`] when no such cookie exists, and with
/// [`ErrorKind::UrlDecodeError`] when the value does not decode.
pub fn extract_xsrf_token(cookies: &Vec<(String, String)>) -> (r: Result<String, Error>)
    ensures
        !spec_has_xsrf_cookie(cookies@) ==> r is Err && r->Err_0.kind is InvalidXsrfToken,
        spec_has_xsrf_cookie(cookies@) ==> match r {
            Ok(token) => exists|i: int|
                #[trigger] first_xsrf_index(cookies@, i) && token@ == url_decoded(cookies@[i].1@),
            Err(e) => e.kind is UrlDecodeError,
        },
{
    let mut i: usize = 0;
    while i < cookies.len()
        invariant
            0 <= i <= cookies@.len(),
            forall|j: int| 0 <= j < i ==> (#[trigger] cookies@[j]).0@ != "XSRF-TOKEN"@,
        decreases cookies@.len() - i,
    {
        let pair = &cookies[i];
        if crate::database::string_eq_str(&pair.0, "XSRF-TOKEN") {
            match url_decode(pair.1.as_str()) {
                Some(token) => {
                    proof {
                        assert(first_xsrf_index(cookies@, i as int));
                    }
                    return Ok(token);
                },
                None => {
                    return Err(Error { kind: ErrorKind::UrlDecodeError });
                },
            }
        }
        i = i + 1;
    }
    Err(Error { kind: ErrorKind::InvalidXsrfToken })
}

} // verus!

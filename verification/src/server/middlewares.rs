//! Authentication of requests by the `x-auth-key` header.

use vstd::prelude::*;
use vstd::string::StringSliceAdditionalSpecFns;
use crate::server::error::Error;
use crate::server::status::StatusCode;

verus! {

/// A byte that a header value may hold and still read as text: a visible
/// ASCII character, the space, or a tab.
pub open spec fn is_visible_ascii(b: u8) -> bool {
    (32 <= b < 127) || b == 9
}

/// Whether a request whose `x-auth-key` header holds `header` (`None`: the
/// header is missing) is let through by the key `auth_key`: the header must
/// read as text and that text must equal the key exactly.
pub open spec fn is_authorized(header: Option<Seq<u8>>, auth_key: &str) -> bool {
    match header {
        Some(h) => (forall|i: int| 0 <= i < h.len() ==> is_visible_ascii(#[trigger] h[i])) && h
            == auth_key.spec_bytes(),
        None => false,
    }
}

/// Lets a request through when its `x-auth-key` header equals `auth_key`;
/// otherwise answers `401 Unauthorized`.
pub fn authenticate(header: Option<&[u8]>, auth_key: &str) -> (r: Result<(), Error>)
    ensures
        r is Ok <==> is_authorized(
            match header {
                Some(h) => Some(h@),
                None => None,
            },
            auth_key,
        ),
        r matches Err(e) ==> e@.code == 401 && e@.source is None,
{
    let unauthorized = Error::from_status(StatusCode::unauthorized());
    let h = match header {
        Some(h) => h,
        None => return Err(unauthorized),
    };
    let key = auth_key.as_bytes();
    if h.len() != key.len() {
        return Err(unauthorized);
    }
    let mut i: usize = 0;
    while i < h.len()
        invariant
            i <= h@.len(),
            h@.len() == key@.len(),
            key@ == auth_key.spec_bytes(),
            forall|k: int| 0 <= k < i ==> is_visible_ascii(#[trigger] h@[k]) && h@[k] == key@[k],
            header matches Some(hh) && hh@ == h@,
            unauthorized@.code == 401,
            unauthorized@.source is None,
        decreases h@.len() - i,
    {
        let b = h[i];
        if !((32 <= b && b < 127) || b == 9) || b != key[i] {
            assert(!is_visible_ascii(h@[i as int]) || h@[i as int] != key@[i as int]);
            assert(!is_authorized(Some(h@), auth_key));
            return Err(unauthorized);
        }
        i = i + 1;
    }
    assert(h@ =~= key@);
    Ok(())
}

} // verus!

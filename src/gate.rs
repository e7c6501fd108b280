use vstd::prelude::*;

use crate::bytes::bytes_equal;
use crate::claims::Claims;
use crate::context::RequestContext;
use crate::credential::{verification, Verifier};
use crate::error::AuthError;

verus! {

/// `Bearer ` (with its space), the start of an `Authorization` header that
/// carries a credential.
pub open spec fn bearer_prefix() -> Seq<u8> {
    seq![66u8, 101u8, 97u8, 114u8, 101u8, 114u8, 32u8]
}

fn bearer_prefix_text() -> (r: Vec<u8>)
    ensures
        r@ == bearer_prefix(),
{
    let r: Vec<u8> = vec![66u8, 101u8, 97u8, 114u8, 101u8, 114u8, 32u8];
    assert(r@ =~= bearer_prefix());
    r
}

/// The credential in an `Authorization` header value, if it is a bearer one.
pub open spec fn bearer_credential(header: Seq<u8>) -> Option<Seq<u8>> {
    if header.len() >= 7 && header.subrange(0, 7) == bearer_prefix() {
        Some(header.subrange(7, header.len() as int))
    } else {
        None
    }
}

/// What the credential of a request, if any, proves.
pub open spec fn authentication(header: Option<Seq<u8>>, key: Seq<u8>, skew: u64, now: u64) -> Result<
    Claims,
    AuthError,
> {
    match header {
        None => Err(AuthError::Unauthenticated),
        Some(h) => match bearer_credential(h) {
            None => Err(AuthError::Malformed),
            Some(c) => verification(c, key, skew, now),
        },
    }
}

/// The outcome of admission: the identity to attach (`None` for anonymous), or the
/// rejection. A protected route rejects whatever fails to authenticate; a
/// public one treats it as anonymous.
pub open spec fn admission(
    header: Option<Seq<u8>>,
    protected: bool,
    key: Seq<u8>,
    skew: u64,
    now: u64,
) -> Result<Option<Claims>, AuthError> {
    match authentication(header, key, skew, now) {
        Ok(c) => Ok(Some(c)),
        Err(e) => if protected {
            Err(e)
        } else {
            Ok(None)
        },
    }
}

/// The credential in an `Authorization` header value.
pub fn bearer_token(header: &[u8]) -> (r: Option<&[u8]>)
    ensures
        r matches Some(t) ==> bearer_credential(header@) == Some(t@),
        r is None <==> bearer_credential(header@) is None,
{
    if header.len() < 7 {
        return None;
    }
    let head = vstd::slice::slice_subrange(header, 0, 7);
    if !bytes_equal(head, bearer_prefix_text().as_slice()) {
        return None;
    }
    Some(vstd::slice::slice_subrange(header, 7, header.len()))
}

/// Authenticates a request from its `Authorization` header value, if present.
pub fn authenticate(verifier: &Verifier, header: Option<&[u8]>, now: u64) -> (r: Result<
    Claims,
    AuthError,
>)
    ensures
        r == authentication(
            match header {
                Some(h) => Some(h@),
                None => None,
            },
            verifier.key(),
            verifier.skew(),
            now,
        ),
{
    match header {
        None => Err(AuthError::Unauthenticated),
        Some(h) => match bearer_token(h) {
            None => Err(AuthError::Malformed),
            Some(t) => verifier.verify(t, now),
        },
    }
}

/// Admits or rejects one request: verifies its credential and, unless it is
/// rejected, hands back the request's context with the identity attached.
/// No handler may run on a rejection.
pub fn run_gate(verifier: &Verifier, header: Option<&[u8]>, protected: bool, now: u64) -> (r: Result<
    RequestContext,
    AuthError,
>)
    ensures
        ({
            let expected = admission(
                match header {
                    Some(h) => Some(h@),
                    None => None,
                },
                protected,
                verifier.key(),
                verifier.skew(),
                now,
            );
            match r {
                Ok(context) => expected == Ok::<Option<Claims>, AuthError>(context.identity())
                    && context.is_attached(),
                Err(e) => expected == Err::<Option<Claims>, AuthError>(e),
            }
        }),
{
    let identity = match authenticate(verifier, header, now) {
        Ok(c) => Some(c),
        Err(e) => {
            if protected {
                return Err(e);
            }
            None
        },
    };
    let mut context = RequestContext::new();
    context.attach(identity);
    Ok(context)
}

} // verus!

use vstd::prelude::*;

use hmac::Mac;

use crate::bytes::{
    bytes_equal, decimal_u64, decode_hex, hex_decoded, parse_decimal_u64, split_at_dots,
    split_dots, views, DOT,
};
use crate::claims::Claims;
use crate::error::AuthError;
use crate::role::{role_named, Role};

verus! {

// A credential is six fields joined by `.`:
//
//     HS256.<subject uuid>.<tenant uuid>.<role>.<expires_at>.<tag>
//
// `expires_at` is decimal seconds since the Unix epoch, and `tag` is the hex
// HMAC-SHA256, under the signing key, of everything before the last `.`.
/// The 128-bit value of the UUID written by `text`, if `text` is one in any
/// form that the `uuid` crate reads.
pub uninterp spec fn uuid_value(text: Seq<u8>) -> Option<u128>;

/// HMAC-SHA256 of `message` under `key`.
pub uninterp spec fn hmac_sha256(key: Seq<u8>, message: Seq<u8>) -> Seq<u8>;

/// Relies on `uuid::Uuid::try_parse_ascii`: its result depends on the bytes
/// alone; `as_u128` gives the value, most significant byte first.
#[verifier::external_body]
fn parse_uuid(text: &[u8]) -> (r: Option<u128>)
    ensures
        r == uuid_value(text@),
{
    uuid::Uuid::try_parse_ascii(text).ok().map(|u| u.as_u128())
}

/// Relies on `hmac::Hmac<sha2::Sha256>`: `new_from_slice` takes a key of any
/// length, and `verify_slice` accepts exactly the full 32-byte tag of the
/// message, compared in constant time.
#[verifier::external_body]
fn tag_matches(key: &[u8], message: &[u8], tag: &[u8]) -> (r: bool)
    ensures
        r == (tag@ == hmac_sha256(key@, message@)),
{
    match <hmac::Hmac<sha2::Sha256> as Mac>::new_from_slice(key) {
        Ok(mut mac) => {
            mac.update(message);
            mac.verify_slice(tag).is_ok()
        },
        Err(_) => false,
    }
}

/// `HS256`, the one signing scheme accepted.
pub open spec fn scheme_name() -> Seq<u8> {
    seq![72u8, 83u8, 50u8, 53u8, 54u8]
}

fn scheme_text() -> (r: Vec<u8>)
    ensures
        r@ == scheme_name(),
{
    let r: Vec<u8> = vec![72u8, 83u8, 50u8, 53u8, 54u8];
    assert(r@ =~= scheme_name());
    r
}

/// The bytes that the tag signs: the first five fields, joined by `.`.
pub open spec fn signed_message(f: Seq<Seq<u8>>) -> Seq<u8> {
    f[0] + seq![DOT] + f[1] + seq![DOT] + f[2] + seq![DOT] + f[3] + seq![DOT] + f[4]
}

/// The fields have the credential's shape: six of them, the first the scheme.
pub open spec fn well_shaped(f: Seq<Seq<u8>>) -> bool {
    f.len() == 6 && f[0] == scheme_name()
}

/// The claims that the fields of a well-shaped credential write, if each is valid.
pub open spec fn claims_of(f: Seq<Seq<u8>>) -> Option<Claims> {
    match (uuid_value(f[1]), uuid_value(f[2]), role_named(f[3]), decimal_u64(f[4])) {
        (Some(subject_id), Some(tenant_id), Some(role), Some(expires_at)) => Some(
            Claims { subject_id, tenant_id, role, expires_at },
        ),
        _ => None,
    }
}

/// Still valid at `now`: the expiry lies after `now`, or less than `skew`
/// seconds before it.
pub open spec fn unexpired(expires_at: u64, now: u64, skew: u64) -> bool {
    expires_at + skew > now
}

/// What verifying `credential` at `now` yields, under `key` and a clock skew
/// tolerance of `skew` seconds. Expiry is judged before the signature.
pub open spec fn verification(credential: Seq<u8>, key: Seq<u8>, skew: u64, now: u64) -> Result<
    Claims,
    AuthError,
> {
    let f = split_at_dots(credential);
    if !well_shaped(f) {
        Err(AuthError::Malformed)
    } else {
        match (claims_of(f), hex_decoded(f[5])) {
            (Some(c), Some(tag)) => {
                if !unexpired(c.expires_at, now, skew) {
                    Err(AuthError::Expired)
                } else if tag != hmac_sha256(key, signed_message(f)) {
                    Err(AuthError::InvalidSignature)
                } else {
                    Ok(c)
                }
            },
            _ => Err(AuthError::Malformed),
        }
    }
}

fn append(out: &mut Vec<u8>, piece: &[u8])
    ensures
        final(out)@ == old(out)@ + piece@,
{
    let mut i: usize = 0;
    while i < piece.len()
        invariant
            i <= piece@.len(),
            out@ == old(out)@ + piece@.subrange(0, i as int),
        decreases piece@.len() - i,
    {
        out.push(piece[i]);
        i = i + 1;
        assert(out@ =~= old(out)@ + piece@.subrange(0, i as int));
    }
    assert(piece@.subrange(0, piece@.len() as int) =~= piece@);
}

fn join_signed(f: &Vec<Vec<u8>>) -> (r: Vec<u8>)
    requires
        f@.len() == 6,
    ensures
        r@ == signed_message(views(f@)),
{
    let mut out: Vec<u8> = Vec::new();
    let mut i: usize = 0;
    while i < 5
        invariant
            f@.len() == 6,
            i <= 5,
            i > 0 ==> out@ == joined_prefix(views(f@), i as int),
            i == 0 ==> out@ == Seq::<u8>::empty(),
        decreases 5 - i,
    {
        if i > 0 {
            out.push(DOT);
        }
        append(&mut out, f[i].as_slice());
        proof {
            if i > 0 {
                assert(joined_prefix(views(f@), i + 1) =~= out@);
            } else {
                assert(joined_prefix(views(f@), 1) =~= out@);
            }
        }
        i = i + 1;
    }
    let ghost fv = views(f@);
    assert(joined_prefix(fv, 1) == fv[0]);
    assert(joined_prefix(fv, 2) == joined_prefix(fv, 1) + seq![DOT] + fv[1]);
    assert(joined_prefix(fv, 3) == joined_prefix(fv, 2) + seq![DOT] + fv[2]);
    assert(joined_prefix(fv, 4) == joined_prefix(fv, 3) + seq![DOT] + fv[3]);
    assert(joined_prefix(fv, 5) == joined_prefix(fv, 4) + seq![DOT] + fv[4]);
    out
}

/// The first `n` fields joined by `.`.
spec fn joined_prefix(f: Seq<Seq<u8>>, n: int) -> Seq<u8>
    decreases n,
{
    if n <= 1 {
        f[0]
    } else {
        joined_prefix(f, n - 1) + seq![DOT] + f[n - 1]
    }
}

/// Checks credentials against one signing key, with a clock skew tolerance.
/// Built once at startup and only read afterwards.
pub struct Verifier {
    signing_key: Vec<u8>,
    clock_skew_tolerance: u64,
}

impl Verifier {
    pub closed spec fn key(&self) -> Seq<u8> {
        self.signing_key@
    }

    pub closed spec fn skew(&self) -> u64 {
        self.clock_skew_tolerance
    }

    /// A verifier for `signing_key`; none for an empty key, with which no
    /// credential could be trusted.
    pub fn new(signing_key: Vec<u8>, clock_skew_tolerance: u64) -> (r: Option<Verifier>)
        ensures
            signing_key@.len() == 0 ==> r is None,
            signing_key@.len() > 0 ==> (r matches Some(v) && v.key() == signing_key@ && v.skew()
                == clock_skew_tolerance),
    {
        if signing_key.len() == 0 {
            None
        } else {
            Some(Verifier { signing_key, clock_skew_tolerance })
        }
    }

    pub fn clock_skew_tolerance(&self) -> (r: u64)
        ensures
            r == self.skew(),
    {
        self.clock_skew_tolerance
    }

    /// Verifies `credential` at the instant `now` (seconds since the Unix
    /// epoch), as read from the caller's clock.
    pub fn verify(&self, credential: &[u8], now: u64) -> (r: Result<Claims, AuthError>)
        ensures
            r == verification(credential@, self.key(), self.skew(), now),
    {
        let f = split_dots(credential);
        let ghost fv = split_at_dots(credential@);
        assert(views(f@) == fv);
        if f.len() != 6 {
            return Err(AuthError::Malformed);
        }
        assert(views(f@)[0] == f@[0]@);
        if !bytes_equal(f[0].as_slice(), scheme_text().as_slice()) {
            return Err(AuthError::Malformed);
        }
        assert(views(f@)[1] == f@[1]@);
        assert(views(f@)[2] == f@[2]@);
        assert(views(f@)[3] == f@[3]@);
        assert(views(f@)[4] == f@[4]@);
        assert(views(f@)[5] == f@[5]@);
        let subject = parse_uuid(f[1].as_slice());
        let tenant = parse_uuid(f[2].as_slice());
        let role = Role::parse(f[3].as_slice());
        let expiry = parse_decimal_u64(f[4].as_slice());
        let tag = decode_hex(f[5].as_slice());
        match (subject, tenant, role, expiry, tag) {
            (Some(subject_id), Some(tenant_id), Some(role), Some(expires_at), Some(tag)) => {
                let claims = Claims { subject_id, tenant_id, role, expires_at };
                if !self.unexpired_at(expires_at, now) {
                    return Err(AuthError::Expired);
                }
                let message = join_signed(&f);
                if !tag_matches(self.signing_key.as_slice(), message.as_slice(), tag.as_slice()) {
                    return Err(AuthError::InvalidSignature);
                }
                Ok(claims)
            },
            _ => Err(AuthError::Malformed),
        }
    }

    fn unexpired_at(&self, expires_at: u64, now: u64) -> (r: bool)
        ensures
            r == unexpired(expires_at, now, self.skew()),
    {
        if now < self.clock_skew_tolerance {
            true
        } else {
            expires_at > now - self.clock_skew_tolerance
        }
    }
}

/// A credential whose expiry has passed, beyond the skew tolerance, is refused
/// as expired, whether or not its signature is valid.
pub proof fn expired_credentials_are_refused(
    credential: Seq<u8>,
    key: Seq<u8>,
    skew: u64,
    now: u64,
    claims: Claims,
)
    requires
        well_shaped(split_at_dots(credential)),
        claims_of(split_at_dots(credential)) == Some(claims),
        hex_decoded(split_at_dots(credential)[5]) is Some,
        claims.expires_at + skew <= now,
    ensures
        verification(credential, key, skew, now) == Err::<Claims, AuthError>(AuthError::Expired),
{
}

/// A credential whose tag was made under another key than the configured one,
/// and which has not expired, is refused for its signature.
pub proof fn foreign_signatures_are_refused(
    credential: Seq<u8>,
    key: Seq<u8>,
    other_key: Seq<u8>,
    skew: u64,
    now: u64,
    claims: Claims,
)
    requires
        well_shaped(split_at_dots(credential)),
        claims_of(split_at_dots(credential)) == Some(claims),
        hex_decoded(split_at_dots(credential)[5]) == Some(
            hmac_sha256(other_key, signed_message(split_at_dots(credential))),
        ),
        hmac_sha256(other_key, signed_message(split_at_dots(credential))) != hmac_sha256(
            key,
            signed_message(split_at_dots(credential)),
        ),
        unexpired(claims.expires_at, now, skew),
    ensures
        verification(credential, key, skew, now) == Err::<Claims, AuthError>(
            AuthError::InvalidSignature,
        ),
{
}

/// Verifying the same credential twice at the same instant gives the same
/// outcome, and two successful verifications of one credential give the same
/// claims whatever the clock read.
pub proof fn verification_is_repeatable(
    credential: Seq<u8>,
    key: Seq<u8>,
    skew: u64,
    now: u64,
    later: u64,
    first: Result<Claims, AuthError>,
    second: Result<Claims, AuthError>,
)
    requires
        first == verification(credential, key, skew, now),
        second == verification(credential, key, skew, now),
    ensures
        first == second,
        (first is Ok && verification(credential, key, skew, later) is Ok) ==> verification(
            credential,
            key,
            skew,
            later,
        ) == first,
{
}

/// Success is owed exactly to a well-formed credential, unexpired at `now`,
/// whose tag is the key's tag of its signed part; the claims are the ones it
/// writes.
pub proof fn verification_succeeds_exactly_when_valid(
    credential: Seq<u8>,
    key: Seq<u8>,
    skew: u64,
    now: u64,
)
    ensures
        verification(credential, key, skew, now) is Ok <==> {
            let f = split_at_dots(credential);
            &&& well_shaped(f)
            &&& claims_of(f) is Some
            &&& unexpired(claims_of(f).unwrap().expires_at, now, skew)
            &&& hex_decoded(f[5]) == Some(hmac_sha256(key, signed_message(f)))
        },
        verification(credential, key, skew, now) matches Ok(c) ==> Some(c) == claims_of(
            split_at_dots(credential),
        ),
{
}

} // verus!

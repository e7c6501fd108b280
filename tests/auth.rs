use codly_auth::bytes::{decode_hex, parse_decimal_u64, split_dots};
use codly_auth::claims::Claims;
use codly_auth::config::{Config, ConfigError};
use codly_auth::context::RequestContext;
use codly_auth::credential::Verifier;
use codly_auth::error::AuthError;
use codly_auth::gate::{authenticate, bearer_token, run_gate};
use codly_auth::guard::{authorize, Requirement};
use codly_auth::role::Role;
use hmac::{Hmac, Mac};

const KEY: &[u8] = b"test-signing-secret";
const NOW: u64 = 1_700_000_000;
const T1: &str = "6f1c2a9e-3b4d-4e5f-8a7b-1c2d3e4f5a6b";
const T2: &str = "0a0b0c0d-0e0f-4011-8213-141516171819";
const USER: &str = "123e4567-e89b-12d3-a456-426614174000";

fn hex(bytes: &[u8]) -> String {
    bytes.iter().map(|b| format!("{:02x}", b)).collect()
}

fn sign(key: &[u8], message: &str) -> String {
    let mut mac = <Hmac<sha2::Sha256> as Mac>::new_from_slice(key).unwrap();
    mac.update(message.as_bytes());
    hex(&mac.finalize().into_bytes())
}

fn credential_with(key: &[u8], user: &str, tenant: &str, role: &str, expires_at: u64) -> String {
    let body = format!("HS256.{}.{}.{}.{}", user, tenant, role, expires_at);
    let tag = sign(key, &body);
    format!("{}.{}", body, tag)
}

fn credential(tenant: &str, role: &str, expires_at: u64) -> String {
    credential_with(KEY, USER, tenant, role, expires_at)
}

fn keyed(skew: u64) -> Verifier {
    Verifier::new(KEY.to_vec(), skew).unwrap()
}

fn uuid_value(text: &str) -> u128 {
    uuid::Uuid::parse_str(text).unwrap().as_u128()
}

fn member_of_t1() -> Claims {
    keyed(0).verify(credential(T1, "member", NOW + 3600).as_bytes(), NOW).unwrap()
}

#[test]
fn valid_credential_yields_its_claims() {
    let claims = member_of_t1();
    assert_eq!(claims.subject_id, 0x123e4567_e89b_12d3_a456_426614174000);
    assert_eq!(claims.tenant_id, uuid_value(T1));
    assert_eq!(claims.role, Role::Member);
    assert_eq!(claims.expires_at, NOW + 3600);
}

#[test]
fn member_is_denied_an_admin_operation() {
    let claims = member_of_t1();
    let requirement = Requirement { minimum_role: Role::Admin, resource_tenant_id: uuid_value(T1) };
    assert_eq!(authorize(Some(claims), &requirement), Err(AuthError::InsufficientRole));
}

#[test]
fn member_is_denied_another_tenant() {
    let claims = member_of_t1();
    let requirement = Requirement { minimum_role: Role::Member, resource_tenant_id: uuid_value(T2) };
    assert_eq!(authorize(Some(claims), &requirement), Err(AuthError::TenantMismatch));
}

#[test]
fn member_is_allowed_a_member_operation_of_its_tenant() {
    let claims = member_of_t1();
    let requirement = Requirement { minimum_role: Role::Member, resource_tenant_id: uuid_value(T1) };
    assert_eq!(authorize(Some(claims), &requirement), Ok(()));
}

#[test]
fn expired_by_one_second_is_refused_without_skew() {
    let token = credential(T1, "member", NOW - 1);
    assert_eq!(keyed(0).verify(token.as_bytes(), NOW), Err(AuthError::Expired));
}

#[test]
fn expired_by_one_second_passes_with_two_seconds_of_skew() {
    let token = credential(T1, "member", NOW - 1);
    let claims = keyed(2).verify(token.as_bytes(), NOW).unwrap();
    assert_eq!(claims.expires_at, NOW - 1);
}

#[test]
fn expiry_equal_to_now_is_refused() {
    let token = credential(T1, "admin", NOW);
    assert_eq!(keyed(0).verify(token.as_bytes(), NOW), Err(AuthError::Expired));
}

#[test]
fn expiry_is_judged_before_the_signature() {
    let token = credential_with(b"another-key", USER, T1, "owner", NOW - 10);
    assert_eq!(keyed(0).verify(token.as_bytes(), NOW), Err(AuthError::Expired));
}

#[test]
fn credential_of_another_key_is_refused() {
    let token = credential_with(b"another-key", USER, T1, "owner", NOW + 60);
    assert_eq!(keyed(0).verify(token.as_bytes(), NOW), Err(AuthError::InvalidSignature));
}

#[test]
fn altered_field_breaks_the_signature() {
    let token = credential(T1, "member", NOW + 60).replacen("member", "owner", 1);
    assert_eq!(keyed(0).verify(token.as_bytes(), NOW), Err(AuthError::InvalidSignature));
}

#[test]
fn short_tag_is_an_invalid_signature() {
    let token = credential(T1, "member", NOW + 60);
    let short = &token[..token.len() - 2];
    assert_eq!(keyed(0).verify(short.as_bytes(), NOW), Err(AuthError::InvalidSignature));
}

#[test]
fn verifying_twice_gives_the_same_claims() {
    let token = credential(T2, "owner", NOW + 100);
    let v = keyed(0);
    let first = v.verify(token.as_bytes(), NOW);
    let second = v.verify(token.as_bytes(), NOW);
    assert!(first.is_ok());
    assert_eq!(first, second);
}

#[test]
fn malformed_credentials_are_refused() {
    let v = keyed(0);
    let good = credential(T1, "member", NOW + 60);
    let cases: Vec<String> = vec![
        String::new(),
        "not a credential".to_string(),
        good.replacen("HS256", "HS384", 1),
        good.replacen("HS256", "hs256", 1),
        format!("{}.extra", good),
        good.replacen(USER, "not-a-uuid", 1),
        good.replacen(T1, "", 1),
        good.replacen("member", "guest", 1),
        good.replacen("member", "Member", 1),
        good.replacen(&(NOW + 60).to_string(), "soon", 1),
        good.replacen(&(NOW + 60).to_string(), "99999999999999999999", 1),
        good.replacen(&(NOW + 60).to_string(), "", 1),
        format!("{}zz", good),
        format!("{}a", good),
    ];
    for case in cases {
        assert_eq!(v.verify(case.as_bytes(), NOW), Err(AuthError::Malformed), "{}", case);
    }
}

#[test]
fn uppercase_hex_tag_is_accepted() {
    let token = credential(T1, "admin", NOW + 60);
    let (body, tag) = token.rsplit_once('.').unwrap();
    let upper = format!("{}.{}", body, tag.to_uppercase());
    assert_eq!(keyed(0).verify(upper.as_bytes(), NOW).unwrap().role, Role::Admin);
}

#[test]
fn simple_uuid_form_is_accepted() {
    let simple = T1.replace('-', "");
    let token = credential(&simple, "member", NOW + 60);
    assert_eq!(keyed(0).verify(token.as_bytes(), NOW).unwrap().tenant_id, uuid_value(T1));
}

#[test]
fn empty_key_makes_no_verifier() {
    assert!(Verifier::new(Vec::new(), 0).is_none());
    assert_eq!(keyed(5).clock_skew_tolerance(), 5);
}

#[test]
fn owner_of_another_tenant_is_denied() {
    let owner = keyed(0).verify(credential(T2, "owner", NOW + 60).as_bytes(), NOW).unwrap();
    for minimum_role in [Role::Member, Role::Admin, Role::Owner] {
        let requirement = Requirement { minimum_role, resource_tenant_id: uuid_value(T1) };
        assert_eq!(authorize(Some(owner), &requirement), Err(AuthError::TenantMismatch));
    }
}

#[test]
fn anonymous_identity_is_unauthenticated() {
    let requirement = Requirement { minimum_role: Role::Member, resource_tenant_id: 1 };
    assert_eq!(authorize(None, &requirement), Err(AuthError::Unauthenticated));
}

#[test]
fn role_order_is_member_admin_owner() {
    let roles = [Role::Member, Role::Admin, Role::Owner];
    for (i, a) in roles.iter().enumerate() {
        assert_eq!(a.level() as usize, i);
        for (j, b) in roles.iter().enumerate() {
            assert_eq!(a.is_sufficient_for(*b), i >= j);
        }
    }
}

#[test]
fn higher_role_passes_where_lower_passes() {
    let requirement = Requirement { minimum_role: Role::Admin, resource_tenant_id: 7 };
    let admin = Claims { subject_id: 1, tenant_id: 7, role: Role::Admin, expires_at: NOW };
    let owner = Claims { role: Role::Owner, ..admin };
    assert_eq!(authorize(Some(admin), &requirement), Ok(()));
    assert_eq!(authorize(Some(owner), &requirement), Ok(()));
}

#[test]
fn role_names_parse() {
    assert_eq!(Role::parse(b"member"), Some(Role::Member));
    assert_eq!(Role::parse(b"admin"), Some(Role::Admin));
    assert_eq!(Role::parse(b"owner"), Some(Role::Owner));
    assert_eq!(Role::parse(b"OWNER"), None);
    assert_eq!(Role::parse(b""), None);
}

#[test]
fn missing_header_on_protected_route_is_401() {
    let err = run_gate(&keyed(0), None, true, NOW).err().unwrap();
    assert_eq!(err, AuthError::Unauthenticated);
    assert_eq!(err.status(), 401);
    assert_eq!(err.public_reason(), "unauthorized");
}

#[test]
fn missing_header_on_public_route_is_anonymous() {
    let context = run_gate(&keyed(0), None, false, NOW).ok().unwrap();
    assert!(context.is_filled());
    assert_eq!(context.claims(), None);
}

#[test]
fn invalid_credential_on_public_route_is_anonymous() {
    let header = format!("Bearer {}", credential(T1, "member", NOW - 5));
    let context = run_gate(&keyed(0), Some(header.as_bytes()), false, NOW).ok().unwrap();
    assert_eq!(context.claims(), None);
}

#[test]
fn valid_bearer_header_attaches_claims() {
    let header = format!("Bearer {}", credential(T1, "member", NOW + 60));
    let context = run_gate(&keyed(0), Some(header.as_bytes()), true, NOW).ok().unwrap();
    assert_eq!(context.claims(), Some(member_of_t1_at(NOW + 60)));
    let requirement = Requirement { minimum_role: Role::Member, resource_tenant_id: uuid_value(T1) };
    assert_eq!(context.authorize(&requirement), Ok(()));
}

fn member_of_t1_at(expires_at: u64) -> Claims {
    Claims { subject_id: uuid_value(USER), tenant_id: uuid_value(T1), role: Role::Member, expires_at }
}

#[test]
fn expired_bearer_on_protected_route_is_401() {
    let header = format!("Bearer {}", credential(T1, "member", NOW - 1));
    let err = run_gate(&keyed(0), Some(header.as_bytes()), true, NOW).err().unwrap();
    assert_eq!(err, AuthError::Expired);
    assert_eq!(err.status(), 401);
}

#[test]
fn other_scheme_header_is_malformed() {
    let header = format!("Basic {}", credential(T1, "member", NOW + 60));
    assert_eq!(authenticate(&keyed(0), Some(header.as_bytes()), NOW), Err(AuthError::Malformed));
    assert_eq!(bearer_token(b"Bearer"), None);
    assert_eq!(bearer_token(b"Bearer abc"), Some(&b"abc"[..]));
}

#[test]
fn authorization_failures_are_403() {
    assert_eq!(AuthError::TenantMismatch.status(), 403);
    assert_eq!(AuthError::InsufficientRole.status(), 403);
    assert_eq!(AuthError::InsufficientRole.public_reason(), "forbidden");
    assert_eq!(AuthError::Malformed.status(), 401);
    assert_eq!(AuthError::InvalidSignature.status(), 401);
}

#[test]
fn context_is_written_once() {
    let mut context = RequestContext::new();
    assert!(!context.is_filled());
    assert_eq!(context.claims(), None);
    let first = member_of_t1_at(NOW);
    assert!(context.attach(Some(first)));
    let other = Claims { role: Role::Owner, ..first };
    assert!(!context.attach(Some(other)));
    assert!(!context.attach(None));
    assert_eq!(context.claims(), Some(first));
}

#[test]
fn config_requires_database_url_and_secret() {
    let missing_db = Config::from_values(None, None, Some("s".to_string()), None);
    assert_eq!(missing_db.err(), Some(ConfigError::MissingDatabaseUrl));
    let missing_secret = Config::from_values(Some("postgres://x".to_string()), None, None, None);
    assert_eq!(missing_secret.err(), Some(ConfigError::MissingJwtSecret));
}

#[test]
fn config_defaults() {
    let c = Config::from_values(Some("postgres://db".to_string()), None, Some("k".to_string()), None)
        .unwrap();
    assert_eq!(c.database_url, "postgres://db");
    assert_eq!(c.server_address, "0.0.0.0:3000");
    assert_eq!(c.jwt_secret, "k");
    assert_eq!(c.jwt_expiration_hours, 24);
}

#[test]
fn config_reads_expiration_hours() {
    let read = |h: &str| {
        Config::from_values(
            Some("postgres://db".to_string()),
            Some("127.0.0.1:8080".to_string()),
            Some("k".to_string()),
            Some(h.to_string()),
        )
        .unwrap()
    };
    assert_eq!(read("48").jwt_expiration_hours, 48);
    assert_eq!(read("48").server_address, "127.0.0.1:8080");
    assert_eq!(read("soon").jwt_expiration_hours, 24);
    assert_eq!(read("").jwt_expiration_hours, 24);
    assert_eq!(read("-3").jwt_expiration_hours, 24);
}

#[test]
fn config_secret_keys_the_verifier() {
    let c = Config::from_values(Some("db".to_string()), None, Some("test-signing-secret".to_string()), None)
        .unwrap();
    let v = c.credential_verifier(0).unwrap();
    assert!(v.verify(credential(T1, "member", NOW + 1).as_bytes(), NOW).is_ok());
    let empty = Config::from_values(Some("db".to_string()), None, Some(String::new()), None).unwrap();
    assert!(empty.credential_verifier(0).is_none());
}

#[test]
fn dots_split_fields() {
    let pieces = split_dots(b"a..bc.");
    assert_eq!(pieces, vec![b"a".to_vec(), vec![], b"bc".to_vec(), vec![]]);
    assert_eq!(split_dots(b""), vec![Vec::<u8>::new()]);
}

#[test]
fn decimal_bounds() {
    assert_eq!(parse_decimal_u64(b"0"), Some(0));
    assert_eq!(parse_decimal_u64(b"18446744073709551615"), Some(u64::MAX));
    assert_eq!(parse_decimal_u64(b"18446744073709551616"), None);
    assert_eq!(parse_decimal_u64(b"1a"), None);
    assert_eq!(parse_decimal_u64(b""), None);
}

#[test]
fn hex_decoding() {
    assert_eq!(decode_hex(b"00ffA0"), Some(vec![0x00, 0xff, 0xa0]));
    assert_eq!(decode_hex(b""), Some(vec![]));
    assert_eq!(decode_hex(b"abc"), None);
    assert_eq!(decode_hex(b"zz"), None);
}

use bearer_auth::claims::Claims;
use bearer_auth::config::JWTConfig;
use bearer_auth::error::Rejection;
use bearer_auth::jwt::{inspect, new_at};
use jsonwebtoken::{Algorithm, DecodingKey, EncodingKey, Header, Validation};
use serde_json::Value;

const SUBJECT: &str = "11111111-1111-1111-1111-111111111111";

fn config() -> JWTConfig {
    JWTConfig { secret: String::from("s3cr3t"), issuer: String::from("test-iss") }
}

fn object(members: Vec<(&str, Value)>) -> Value {
    let mut map = serde_json::Map::new();
    for (name, value) in members {
        map.insert(String::from(name), value);
    }
    Value::Object(map)
}

fn standard_claims() -> Vec<(&'static str, Value)> {
    vec![
        ("sub", Value::from(SUBJECT)),
        ("exp", Value::from(1_700_003_600u64)),
        ("iat", Value::from(1_700_000_000u64)),
        ("iss", Value::from("test-iss")),
    ]
}

fn request(authorization: String) -> Vec<(String, String)> {
    vec![(String::from("authorization"), authorization)]
}

fn sign(header: &Header, claims: &Value, secret: &str) -> Vec<(String, String)> {
    let token = jsonwebtoken::encode(header, claims, &EncodingKey::from_secret(secret.as_bytes())).unwrap();
    request(format!("Bearer {}", token))
}

fn expected() -> Claims {
    Claims {
        sub: String::from(SUBJECT),
        exp: 1_700_003_600,
        iat: 1_700_000_000,
        iss: String::from("test-iss"),
    }
}

#[test]
fn issued_token_is_read_by_other_parties() {
    let reply = new_at(Some(&config()), Some(SUBJECT), 1_700_000_000).unwrap();
    let mut rules = Validation::new(Algorithm::HS256);
    rules.validate_exp = false;
    let data = jsonwebtoken::decode::<Value>(&reply.access_token, &DecodingKey::from_secret(b"s3cr3t"), &rules).unwrap();
    assert_eq!(data.header, Header::default());
    assert_eq!(data.claims, object(standard_claims()));
    assert_eq!(reply.access_token.split('.').count(), 3);
}

#[test]
fn token_in_another_member_order_is_accepted() {
    let header = "Bearer eyJ0eXAiOiJKV1QiLCJhbGciOiJIUzI1NiJ9.\
        eyJzdWIiOiIxMTExMTExMS0xMTExLTExMTEtMTExMS0xMTExMTExMTExMTEiLCJleHAiOjE3MDAwMDM2MDAsImlhdCI6MTcwMDAwMDAwMCwiaXNzIjoidGVzdC1pc3MifQ.\
        dkcHYczxPOQ8jBmL5vD_a-KEk-WiIc5BIuQfYrSsFLM";
    assert_eq!(inspect(Some(&config()), &request(String::from(header)), 1_700_000_100), Ok(expected()));
}

#[test]
fn token_signed_elsewhere_with_the_same_secret_is_accepted() {
    let header = sign(&Header::default(), &object(standard_claims()), "s3cr3t");
    assert_eq!(inspect(Some(&config()), &header, 1_700_000_100), Ok(expected()));
}

#[test]
fn additional_claims_are_ignored() {
    let mut members = standard_claims();
    members.push(("role", Value::from("admin")));
    let header = sign(&Header::default(), &object(members), "s3cr3t");
    assert_eq!(inspect(Some(&config()), &header, 1_700_000_100), Ok(expected()));
}

#[test]
fn token_signed_elsewhere_with_another_secret_is_rejected() {
    let header = sign(&Header::default(), &object(standard_claims()), "other");
    assert_eq!(inspect(Some(&config()), &header, 1_700_000_100), Err(Rejection::InvalidToken));
}

#[test]
fn token_under_another_algorithm_is_rejected() {
    for algorithm in [Algorithm::HS384, Algorithm::HS512] {
        let header = sign(&Header::new(algorithm), &object(standard_claims()), "s3cr3t");
        assert_eq!(inspect(Some(&config()), &header, 1_700_000_100), Err(Rejection::InvalidToken));
    }
}

#[test]
fn token_lacking_a_claim_is_rejected() {
    for missing in ["sub", "exp", "iat", "iss"] {
        let members = standard_claims().into_iter().filter(|(name, _)| *name != missing).collect();
        let header = sign(&Header::default(), &object(members), "s3cr3t");
        assert_eq!(inspect(Some(&config()), &header, 1_700_000_100), Err(Rejection::InvalidToken));
    }
}

#[test]
fn token_with_a_claim_of_the_wrong_type_is_rejected() {
    for (name, value) in [
        ("sub", Value::from(7u64)),
        ("exp", Value::from("1700003600")),
        ("exp", Value::from(-1i64)),
        ("iat", Value::from("1700000000")),
        ("iat", Value::from(-1i64)),
        ("iss", Value::Null),
    ] {
        let mut members: Vec<(&str, Value)> =
            standard_claims().into_iter().filter(|(n, _)| *n != name).collect();
        members.push((name, value));
        let header = sign(&Header::default(), &object(members), "s3cr3t");
        assert_eq!(inspect(Some(&config()), &header, 1_700_000_100), Err(Rejection::InvalidToken));
    }
}

#[test]
fn payload_that_is_no_object_is_rejected() {
    let header = sign(&Header::default(), &Value::from("text"), "s3cr3t");
    assert_eq!(inspect(Some(&config()), &header, 1_700_000_100), Err(Rejection::InvalidToken));
}

use backend::jwt::{copy_strings, JwtService};

#[test]
fn the_service_keeps_its_secret() {
    let s = JwtService::new("test-secret".to_string());
    assert_eq!(s.secret(), "test-secret");
}

#[test]
fn claims_expire_after_one_hour() {
    let s = JwtService::new("test-secret".to_string());
    let roles = vec!["user".to_string(), "email-verified".to_string(), "admin".to_string()];
    let c = s.claims_for("user-42", &roles, 1_000_000);
    assert_eq!(c.sub, "user-42");
    assert_eq!(c.roles, roles);
    assert_eq!(c.iat, 1_000_000);
    assert_eq!(c.exp, 1_003_600);
    let empty = s.claims_for("u", &vec![], 0);
    assert!(empty.roles.is_empty());
}

#[test]
fn copied_strings_are_equal() {
    let v = vec!["a".to_string(), "".to_string(), "ç".to_string()];
    assert_eq!(copy_strings(&v), v);
}

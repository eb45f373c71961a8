use backend::{
    AuthUser, Claims, LicensePlate, PasswordHash, PaymentStatus, Price, Role, User,
    ValidationError, auth_user_from_claims, bearer_token, i32_to_decimal,
    payment_status_from_str, u64_to_decimal,
};

#[test]
fn price_accepts_exactly_non_negative_amounts() {
    let price = Price::new(250).unwrap();
    assert_eq!(price.amount(), 250);
    assert_eq!(Price::new(0).unwrap().amount(), 0);
    assert_eq!(Price::new(-1), Err(ValidationError::NegativePrice));
}

#[test]
fn license_plate_refuses_the_empty_string() {
    let plate = LicensePlate::new(String::from("AB 1234")).unwrap();
    assert_eq!(plate.value(), "AB 1234");
    assert_eq!(
        LicensePlate::new(String::new()),
        Err(ValidationError::EmptyLicensePlate)
    );
}

#[test]
fn password_hash_holds_its_string() {
    let hash = PasswordHash::new(String::from("$argon2id$v=19$..."));
    assert_eq!(hash.value(), "$argon2id$v=19$...");
}

#[test]
fn role_predicates_match_the_role() {
    let mut user = User::new_customer(
        String::from("u"),
        String::from("h"),
        String::from("N"),
        String::from("1"),
    );
    assert_eq!(user.role, Role::Customer);
    assert!(!user.is_admin());
    assert!(!user.is_mechanic());
    user.role = Role::Admin;
    assert!(user.is_admin());
    user.role = Role::Mechanic;
    assert!(user.is_mechanic());
}

#[test]
fn payment_status_words_map_like_the_provider() {
    assert_eq!(payment_status_from_str("successful"), PaymentStatus::Successful);
    assert_eq!(payment_status_from_str("failed"), PaymentStatus::Failed);
    assert_eq!(payment_status_from_str("pending"), PaymentStatus::Pending);
    assert_eq!(payment_status_from_str("expired"), PaymentStatus::Pending);
    assert_eq!(payment_status_from_str(""), PaymentStatus::Pending);
}

#[test]
fn decimal_rendering_matches_formatting() {
    assert_eq!(u64_to_decimal(0), "0");
    assert_eq!(u64_to_decimal(7), "7");
    assert_eq!(u64_to_decimal(10), "10");
    assert_eq!(u64_to_decimal(123456), "123456");
    assert_eq!(u64_to_decimal(u64::MAX), u64::MAX.to_string());
    assert_eq!(i32_to_decimal(500), "500");
    assert_eq!(i32_to_decimal(-45), "-45");
    assert_eq!(i32_to_decimal(i32::MIN), i32::MIN.to_string());
}

#[test]
fn claims_expire_after_the_validity_window() {
    let claims = Claims::new(4, String::from("somchai"), Role::Mechanic, 1_700_000_000, 3600);
    assert_eq!(claims.sub, "somchai");
    assert_eq!(claims.user_id, 4);
    assert_eq!(claims.role, Role::Mechanic);
    assert_eq!(claims.exp, 1_700_003_600);
}

#[test]
fn auth_user_carries_the_claims_identity() {
    let claims = Claims {
        sub: String::from("somchai"),
        user_id: 4,
        role: Role::Admin,
        exp: 0,
    };
    let principal: AuthUser = auth_user_from_claims(claims);
    assert_eq!(principal.user_id, 4);
    assert_eq!(principal.username, "somchai");
    assert_eq!(principal.role, Role::Admin);
}

#[test]
fn bearer_token_strips_exactly_the_scheme_prefix() {
    assert_eq!(bearer_token("Bearer abc.def.ghi"), Some("abc.def.ghi"));
    assert_eq!(bearer_token("Bearer "), Some(""));
    assert_eq!(bearer_token("bearer abc"), None);
    assert_eq!(bearer_token("Basic abc"), None);
    assert_eq!(bearer_token("Bearer"), None);
    assert_eq!(bearer_token(""), None);
}

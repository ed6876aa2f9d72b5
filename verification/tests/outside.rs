use acme_server::common::generators::generate_code;
use acme_server::common::password::{hash_password, stored_hash, verify_password};
use acme_server::otp_code::types::OtpCode;
use acme_server::user::types::User;
use acme_server::words::libs::{
    pick_translation, translate_text, translate_url, translate_url_encoded, FetchFailure,
};

#[test]
fn a_hashed_password_is_accepted_and_no_other() {
    let hash = hash_password("password1").unwrap();
    assert_ne!(hash, "password1");
    assert_eq!(hash.len(), 60);
    assert_eq!(verify_password("password1", &hash), Some(true));
    assert_eq!(verify_password("password2", &hash), Some(false));
}

#[test]
fn a_failed_hashing_stores_nothing() {
    assert_eq!(stored_hash(Ok("$2b$10$abc".to_string())), Some("$2b$10$abc".to_string()));
    assert_eq!(stored_hash(Err(bcrypt::BcryptError::CostNotAllowed(3))), None);
    assert_eq!(stored_hash(bcrypt::hash("password1", 3)), None);
    assert!(stored_hash(bcrypt::hash("password1", 4)).is_some());
}

#[test]
fn two_hashes_of_one_password_differ() {
    let first = hash_password("password1").unwrap();
    let second = hash_password("password1").unwrap();
    assert_ne!(first, second);
    assert_eq!(verify_password("password1", &second), Some(true));
}

#[test]
fn a_malformed_hash_gives_no_answer() {
    assert_eq!(verify_password("password1", "not a hash"), None);
    assert_eq!(verify_password("password1", ""), None);
}

#[test]
fn a_known_hash_is_verified() {
    let hash = "$2y$12$L6Bc/AlTQHyd9liGgGEZyOFLPHNgyxeEPfgYfBCVxJ7JIlwxyVU3u";
    assert_eq!(verify_password("hunter2", hash), Some(true));
    assert_eq!(verify_password("hunter3", hash), Some(false));
}

#[test]
fn generated_code_has_the_length_and_the_alphabet() {
    let code = generate_code(6);
    assert_eq!(code.chars().count(), 6);
    assert!(code.chars().all(|c| c.is_ascii_alphanumeric()));
    assert_eq!(generate_code(0), "");
    let long = generate_code(500);
    assert_eq!(long.len(), 500);
    assert!(long.chars().all(|c| c.is_ascii_alphanumeric()));
}

#[test]
fn translation_address_encodes_the_text() {
    assert_eq!(
        translate_url("hello world", "es", None),
        "https://translate.googleapis.com/translate_a/single?client=gtx&sl=auto&tl=es&dt=t&q=hello%20world"
    );
    assert_eq!(
        translate_url("a&b=c/é", "de", Some("en")),
        "https://translate.googleapis.com/translate_a/single?client=gtx&sl=en&tl=de&dt=t&q=a%26b%3Dc%2F%C3%A9"
    );
    assert_eq!(
        translate_url("safe-._~09AZaz", "fr", None),
        "https://translate.googleapis.com/translate_a/single?client=gtx&sl=auto&tl=fr&dt=t&q=safe-._~09AZaz"
    );
}

#[test]
fn translation_address_from_encoded_text() {
    assert_eq!(
        translate_url_encoded("x%20y", "es", Some("en")),
        "https://translate.googleapis.com/translate_a/single?client=gtx&sl=en&tl=es&dt=t&q=x%20y"
    );
}

#[test]
fn translation_is_the_first_of_the_first_of_the_first() {
    let body = r#"[[["hola","hello",null,null,10]],null,"en"]"#.to_string();
    assert_eq!(translate_text(Ok(body)), Ok("hola".to_string()));
    let nested = r#"[[["uno","dos"],["tres"]],[["cuatro"]]]"#.to_string();
    assert_eq!(translate_text(Ok(nested)), Ok("uno".to_string()));
}

#[test]
fn translation_failures_are_told_apart() {
    assert_eq!(translate_text(Err(FetchFailure::Send)), Err("Failed to send request".to_string()));
    assert_eq!(translate_text(Err(FetchFailure::Body)), Err("Failed to read body".to_string()));
    assert_eq!(translate_text(Ok("<html>".to_string())), Err("Failed to parse JSON".to_string()));
    assert_eq!(translate_text(Ok(String::new())), Err("Failed to parse JSON".to_string()));
    for body in ["[]", "[[]]", "[[[]]]", "[[[1]]]", "[[[null]]]", "{}", "\"hola\"", "[\"hola\"]", "null"] {
        assert_eq!(
            translate_text(Ok(body.to_string())),
            Err("Translation not found".to_string()),
            "body {}",
            body
        );
    }
}

#[test]
fn translation_is_picked_from_a_parsed_answer() {
    let document: serde_json::Value = serde_json::from_str(r#"[[["bonjour"]]]"#).unwrap();
    assert_eq!(pick_translation(&document), Ok("bonjour".to_string()));
    let object: serde_json::Value = serde_json::from_str(r#"{"0":[["bonjour"]]}"#).unwrap();
    assert_eq!(pick_translation(&object), Err("Translation not found".to_string()));
}

#[test]
fn code_is_valid_while_active_and_unexpired() {
    let code = OtpCode {
        id: 1,
        code: "abc123".to_string(),
        user_id: 2,
        is_active: true,
        expires_at: 1_000,
        created_at: 0,
        updated_at: 0,
        deleted_at: None,
    };
    assert!(code.is_valid_at(999));
    assert!(!code.is_valid_at(1_000));
    assert!(!code.is_valid_at(1_001));
    let inactive = OtpCode { is_active: false, ..code.clone() };
    assert!(!inactive.is_valid_at(0));
}

#[test]
fn default_user_is_blank() {
    let user = User::default();
    assert_eq!(user.id, 0);
    assert_eq!(user.username, "");
    assert_eq!(user.email, "");
    assert_eq!(user.first_name, "");
    assert_eq!(user.last_name, "");
    assert_eq!(user.password_hash, "");
    assert_eq!(user.avatar_url, None);
    assert!(!user.is_active);
    assert_eq!(user.version, 0);
    assert_eq!(user.settings, "null");
    assert_eq!(user.deleted_at, None);
    assert_eq!(user.last_login_at, None);
    assert!(user.created_at > 0);
    assert!(user.updated_at >= user.created_at);
}
